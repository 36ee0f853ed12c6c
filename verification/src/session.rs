//! The single piece of server-held memory: the last received message.
//!
//! The store is read and written only through [`SessionState::set_and_read`],
//! which takes exclusive access for one whole read-modify-write, so no
//! caller ever observes an interleaved partial update. The hosting process
//! supplies the mutual exclusion (for concurrent callers, a lock around the
//! value); exclusive access is what the `&mut` receiver states.

use vstd::prelude::*;
use vstd::string::*;

verus! {

/// The server's one shared mutable value.
#[derive(Debug)]
pub struct SessionState {
    message: String,
}

impl View for SessionState {
    type V = Seq<char>;

    closed spec fn view(&self) -> Seq<char> {
        self.message@
    }
}

impl SessionState {
    /// A fresh store holding the documented default.
    pub fn new() -> (r: SessionState)
        ensures
            r@ == "No message"@,
    {
        SessionState { message: String::from_str("No message") }
    }

    /// Overwrites the stored value and reads it back, as one exclusive
    /// operation: the value returned is exactly the value now stored.
    pub fn set_and_read(&mut self, value: String) -> (r: String)
        ensures
            final(self)@ == value@,
            r@ == value@,
    {
        self.message = value;
        self.message.clone()
    }
}

} // verus!
