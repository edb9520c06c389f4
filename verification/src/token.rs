//! The credential record kept beside the cache: an access token and how to
//! render it as an authorization header value.

use vstd::prelude::*;
use vstd::string::StringExecFns;

verus! {

/// One credential record: the token itself, its type, and when it expires
/// (a lifetime in seconds and an absolute unix timestamp).
pub struct Token {
    pub access_token: String,
    pub token_type: String,
    pub expires_in: i64,
    pub expires_at_secs: i64,
}

impl Token {
    /// Renders the authorization header value: the token type, a space, then
    /// the token itself.
    pub fn render(&self) -> (s: String)
        ensures
            s@ == self.token_type@ + seq![' '] + self.access_token@,
    {
        proof {
            reveal_strlit(" ");
            assert(" "@ =~= seq![' ']);
        }
        let mut s = self.token_type.clone();
        s.append(" ");
        s.append(self.access_token.as_str());
        proof {
            assert(s@ =~= self.token_type@ + seq![' '] + self.access_token@);
        }
        s
    }
}

} // verus!
