//! Configuration that can change at runtime (through the management
//! reload endpoint): the access token upstream clients must present.

use vstd::prelude::*;

verus! {

/// Runtime-mutable configuration.
pub struct SharedConfig {
    access_token: String,
}

impl View for SharedConfig {
    type V = Seq<char>;

    /// The current access token.
    closed spec fn view(&self) -> Seq<char> {
        self.access_token@
    }
}

impl SharedConfig {
    /// Configuration holding the initial access token.
    pub fn new(access_token: String) -> (r: SharedConfig)
        ensures
            r@ == access_token@,
    {
        SharedConfig { access_token }
    }

    /// The current access token.
    pub fn access_token(&self) -> (r: String)
        ensures
            r@ == self@,
    {
        self.access_token.clone()
    }

    /// Replaces the access token.
    pub fn set_access_token(&mut self, token: String)
        ensures
            final(self)@ == token@,
    {
        self.access_token = token;
    }
}

} // verus!
