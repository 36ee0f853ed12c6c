//! Tool-call arguments: a mapping from argument names to structured values.
//!
//! An argument value is the plain shape of a JSON value that the dispatcher
//! reads; the transport layer converts its own JSON representation to and
//! from this one at the boundary.

use vstd::prelude::*;
use vstd::string::*;
use crate::text::str_eq;

verus! {

/// A plain JSON-like argument value.
#[derive(Debug, Clone, PartialEq, Eq)]
pub enum ArgValue {
    Null,
    Bool(bool),
    Int(i64),
    Str(String),
}

/// One named argument.
#[derive(Debug, Clone, PartialEq, Eq)]
pub struct ArgEntry {
    pub key: String,
    pub value: ArgValue,
}

/// The arguments of one tool call, ordered as they arrived.
#[derive(Debug, Clone, PartialEq, Eq)]
pub struct ArgMap {
    pub entries: Vec<ArgEntry>,
}

/// The value under `key`: the first entry whose key matches, if any.
pub open spec fn lookup_spec(entries: Seq<ArgEntry>, key: Seq<char>) -> Option<ArgValue>
    decreases entries.len(),
{
    if entries.len() == 0 {
        None
    } else if entries[0].key@ == key {
        Some(entries[0].value)
    } else {
        lookup_spec(entries.drop_first(), key)
    }
}

proof fn lemma_lookup_skip(entries: Seq<ArgEntry>, key: Seq<char>, i: int)
    requires
        0 <= i < entries.len(),
        entries[i].key@ != key,
    ensures
        lookup_spec(entries.skip(i), key) == lookup_spec(entries.skip(i + 1), key),
{
    assert(entries.skip(i).len() > 0);
    assert(entries.skip(i)[0] == entries[i]);
    assert(entries.skip(i).drop_first() =~= entries.skip(i + 1));
}

impl ArgMap {
    /// An argument map with no entries.
    pub fn new() -> (r: ArgMap)
        ensures
            r.entries@.len() == 0,
    {
        ArgMap { entries: Vec::new() }
    }

    /// Appends one named argument.
    pub fn push(&mut self, key: String, value: ArgValue)
        ensures
            final(self).entries@ == old(self).entries@.push((ArgEntry { key, value })),
    {
        self.entries.push(ArgEntry { key, value });
    }

    /// Finds the first entry whose key matches.
    pub fn get<'a>(&'a self, key: &str) -> (r: Option<&'a ArgValue>)
        ensures
            r matches Some(v) ==> lookup_spec(self.entries@, key@) == Some(*v),
            r is None ==> lookup_spec(self.entries@, key@) is None,
    {
        let n: usize = self.entries.len();
        let mut i: usize = 0;
        proof {
            assert(self.entries@.skip(0) =~= self.entries@);
        }
        while i < n
            invariant
                n == self.entries@.len(),
                0 <= i <= n,
                lookup_spec(self.entries@, key@) == lookup_spec(self.entries@.skip(i as int), key@),
            decreases n - i,
        {
            let entry = &self.entries[i];
            if str_eq(entry.key.as_str(), key) {
                proof {
                    assert(self.entries@.skip(i as int)[0] == self.entries@[i as int]);
                }
                return Some(&entry.value);
            }
            proof {
                lemma_lookup_skip(self.entries@, key@, i as int);
            }
            i = i + 1;
        }
        proof {
            assert(self.entries@.skip(n as int) =~= Seq::<ArgEntry>::empty());
        }
        None
    }
}

/// The message a `send_message` call carries: the string under the
/// `message` key, or the documented default `No message` when the
/// arguments are absent, the key is missing, or the value is not a string.
pub open spec fn message_of(args: Option<ArgMap>) -> Seq<char> {
    match args {
        Some(m) => match lookup_spec(m.entries@, "message"@) {
            Some(v) => match v {
                ArgValue::Str(s) => s@,
                _ => "No message"@,
            },
            None => "No message"@,
        },
        None => "No message"@,
    }
}

/// Extracts the message argument, substituting the default rather than
/// failing on malformed arguments.
pub fn extract_message(args: &Option<ArgMap>) -> (r: String)
    ensures
        r@ == message_of(*args),
{
    match args {
        Some(m) => match m.get("message") {
            Some(v) => match v {
                ArgValue::Str(s) => s.clone(),
                _ => String::from_str("No message"),
            },
            None => String::from_str("No message"),
        },
        None => String::from_str("No message"),
    }
}

/// A missing or non-string `message` argument always falls back to the
/// documented default; no input is rejected.
pub proof fn lemma_missing_message_default(args: Option<ArgMap>)
    requires
        args matches Some(m) ==> !(lookup_spec(m.entries@, "message"@) matches Some(v)
            && v is Str),
    ensures
        message_of(args) == "No message"@,
{
}

} // verus!
