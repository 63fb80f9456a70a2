//! The User-Agent string sent with every outgoing request.
use vstd::prelude::*;

verus! {

/// The User-Agent configured at startup.
pub struct UserAgent {
    default: String,
}

impl View for UserAgent {
    type V = Seq<char>;

    closed spec fn view(&self) -> Seq<char> {
        self.default@
    }
}

impl UserAgent {
    /// A User-Agent that sends `default`.
    pub fn new(default: String) -> (ua: Self)
        ensures
            ua@ == default@,
    {
        Self { default }
    }

    /// Returns the default User-Agent configured at startup.
    pub fn default(&self) -> (s: &str)
        ensures
            s@ == self@,
    {
        self.default.as_str()
    }
}

} // verus!
