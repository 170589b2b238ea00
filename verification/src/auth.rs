//! Authentication: the API key attached to outgoing requests.

use vstd::prelude::*;
use vstd::string::StrSliceExecFns;
use vstd::string::StringExecFns;

verus! {

/// An API key. Its value is reachable only through [`ApiKey::expose`]; any
/// display goes through [`ApiKey::masked`], which keeps at most the first
/// eight characters.
#[derive(Debug, Clone)]
pub struct ApiKey {
    key: String,
}

/// The masked rendering of a key: its first eight characters when it is
/// longer than eight, three stars otherwise.
pub open spec fn spec_masked(k: Seq<char>) -> Seq<char> {
    if k.len() > 8 {
        "ApiKey("@ + k.subrange(0, 8) + "...)"@
    } else {
        "ApiKey(***)"@
    }
}

impl View for ApiKey {
    type V = Seq<char>;

    closed spec fn view(&self) -> Seq<char> {
        self.key@
    }
}

impl ApiKey {
    /// Create a new API key from a string.
    pub fn new(key: &str) -> (r: Self)
        ensures
            r@ == key@,
    {
        ApiKey { key: key.to_owned() }
    }

    /// Get the key value (for use in request headers).
    pub fn expose(&self) -> (r: &str)
        ensures
            r@ == self@,
    {
        self.key.as_str()
    }

    /// A rendering safe to log: the key value itself never appears whole.
    pub fn masked(&self) -> (r: String)
        ensures
            r@ == spec_masked(self@),
    {
        if self.key.as_str().unicode_len() > 8 {
            let mut s = "ApiKey(".to_owned();
            let head = self.key.as_str().substring_char(0, 8);
            s.append(head);
            s.append("...)");
            s
        } else {
            "ApiKey(***)".to_owned()
        }
    }
}

} // verus!
