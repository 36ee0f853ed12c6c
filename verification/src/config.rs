//! Startup configuration: host, port and client endpoint defaults.
//!
//! The server reads its bind address from the environment: the host falls
//! back to `0.0.0.0`, and the port string must parse as an unsigned 16-bit
//! decimal integer or startup fails. The client takes its endpoint from an
//! optional argument with a fixed default. The environment reads themselves
//! happen outside the library; these functions take the raw values.

use vstd::prelude::*;
use vstd::string::*;

verus! {

/// A fatal configuration fault found at startup.
#[derive(Debug, Clone, Copy, PartialEq, Eq)]
pub enum ConfigError {
    /// The port string is not an unsigned 16-bit decimal integer.
    InvalidPort,
}

pub open spec fn is_dec_digit(c: char) -> bool {
    '0' <= c && c <= '9'
}

pub open spec fn digit_val(c: char) -> nat {
    (c as int - '0' as int) as nat
}

/// Value of a digit string, most significant digit first.
pub open spec fn digits_value(s: Seq<char>) -> nat
    decreases s.len(),
{
    if s.len() == 0 {
        0
    } else {
        digits_value(s.drop_last()) * 10 + digit_val(s.last())
    }
}

pub open spec fn all_digits(s: Seq<char>) -> bool {
    forall|i: int| 0 <= i < s.len() ==> is_dec_digit(s[i])
}

/// The digit part of a port string: an optional leading `+` sign is allowed.
pub open spec fn digits_part(s: Seq<char>) -> Seq<char> {
    if s.len() > 0 && s[0] == '+' {
        s.skip(1)
    } else {
        s
    }
}

/// What a port string denotes: `Some` exactly when, after an optional
/// leading `+`, the string is one or more decimal digits whose value fits
/// in 16 bits.
pub open spec fn port_of(s: Seq<char>) -> Option<u16> {
    let d = digits_part(s);
    if d.len() > 0 && all_digits(d) && digits_value(d) <= 65535 {
        Some(digits_value(d) as u16)
    } else {
        None
    }
}

proof fn lemma_digits_value_prefix_step(d: Seq<char>, i: int)
    requires
        0 <= i < d.len(),
    ensures
        digits_value(d.take(i)) <= digits_value(d.take(i + 1)),
{
    assert(d.take(i + 1).drop_last() =~= d.take(i));
    assert(digits_value(d.take(i + 1)) == digits_value(d.take(i)) * 10 + digit_val(d.take(i + 1).last()));
}

/// The value of a prefix of a digit string never exceeds the whole.
proof fn lemma_digits_value_prefix(d: Seq<char>, i: int)
    requires
        0 <= i <= d.len(),
    ensures
        digits_value(d.take(i)) <= digits_value(d),
    decreases d.len() - i,
{
    if i == d.len() {
        assert(d.take(i) =~= d);
    } else {
        lemma_digits_value_prefix_step(d, i);
        lemma_digits_value_prefix(d, i + 1);
    }
}

/// Parses a decimal port string; `None` exactly on the strings that do not
/// denote an unsigned 16-bit integer.
pub fn parse_port(s: &str) -> (r: Option<u16>)
    ensures
        r == port_of(s@),
{
    let n: usize = s.unicode_len();
    if n == 0 {
        return None;
    }
    let first: char = s.get_char(0);
    let start: usize = if first == '+' {
        1
    } else {
        0
    };
    proof {
        assert(digits_part(s@) =~= s@.skip(start as int));
    }
    if start == n {
        return None;
    }
    let mut i: usize = start;
    let mut acc: u32 = 0;
    while i < n
        invariant
            n == s@.len(),
            start <= i <= n,
            start < n,
            digits_part(s@) =~= s@.skip(start as int),
            forall|j: int| start <= j < i ==> is_dec_digit(s@[j]),
            acc == digits_value(s@.subrange(start as int, i as int)),
            acc <= 65535,
        decreases n - i,
    {
        let c: char = s.get_char(i);
        if c < '0' || c > '9' {
            proof {
                let d = digits_part(s@);
                assert(d[i - start] == s@[i as int]);
                assert(!all_digits(d));
            }
            return None;
        }
        let dv: u32 = (c as u32) - ('0' as u32);
        let next: u32 = acc * 10 + dv;
        proof {
            let pre = s@.subrange(start as int, i as int);
            let ext = s@.subrange(start as int, i + 1 as int);
            assert(ext.drop_last() =~= pre);
            assert(ext.last() == s@[i as int]);
            assert(digit_val(s@[i as int]) == dv);
            assert(digits_value(ext) == next);
        }
        if next > 65535 {
            proof {
                let d = digits_part(s@);
                if all_digits(d) {
                    assert(d.take(i + 1 - start) =~= s@.subrange(start as int, i + 1 as int));
                    lemma_digits_value_prefix(d, i + 1 - start);
                }
            }
            return None;
        }
        acc = next;
        i = i + 1;
    }
    proof {
        let d = digits_part(s@);
        assert(d =~= s@.subrange(start as int, n as int));
        assert(all_digits(d));
    }
    Some(acc as u16)
}

/// The port the server binds: the default 8000 when the environment gives
/// none, the parsed value when it gives a valid port string, and a fatal
/// error otherwise.
pub fn effective_port(env_value: Option<String>) -> (r: Result<u16, ConfigError>)
    ensures
        env_value is None ==> r == Ok::<u16, ConfigError>(8000u16),
        env_value matches Some(s) ==> r == (match port_of(s@) {
            Some(p) => Ok::<u16, ConfigError>(p),
            None => Err::<u16, ConfigError>(ConfigError::InvalidPort),
        }),
{
    match env_value {
        None => Ok(8000),
        Some(s) => match parse_port(s.as_str()) {
            Some(p) => Ok(p),
            None => Err(ConfigError::InvalidPort),
        },
    }
}

/// The host the server binds: the environment value when set, else `0.0.0.0`.
pub fn effective_host(env_value: Option<String>) -> (r: String)
    ensures
        env_value matches Some(h) ==> r@ == h@,
        env_value is None ==> r@ == "0.0.0.0"@,
{
    match env_value {
        Some(h) => h,
        None => String::from_str("0.0.0.0"),
    }
}

/// The endpoint the client connects to: the first positional argument when
/// given, else `http://localhost:8000/mcp`.
pub fn effective_url(arg: Option<String>) -> (r: String)
    ensures
        arg matches Some(u) ==> r@ == u@,
        arg is None ==> r@ == "http://localhost:8000/mcp"@,
{
    match arg {
        Some(u) => u,
        None => String::from_str("http://localhost:8000/mcp"),
    }
}

} // verus!
