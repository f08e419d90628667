//! Provider token material as the gateway holds it: plain values carried
//! between the store, the OAuth flows and the per-client context.

use vstd::prelude::*;

verus! {

/// A validated Twitch user token.
pub struct TwitchTokenData {
    /// The access token.
    pub access: String,
    /// The refresh token.
    pub refresh: String,
    /// The numeric user id, as Twitch reports it.
    pub user_id: String,
    /// The login name.
    pub login: String,
}

impl TwitchTokenData {
    /// An equal copy of the token.
    pub fn duplicate(&self) -> (r: TwitchTokenData)
        ensures
            r == *self,
    {
        TwitchTokenData {
            access: self.access.clone(),
            refresh: self.refresh.clone(),
            user_id: self.user_id.clone(),
            login: self.login.clone(),
        }
    }
}

} // verus!
