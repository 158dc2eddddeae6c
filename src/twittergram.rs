//! The mirror as a whole: its configuration and its two platform clients.

use vstd::prelude::*;
use crate::types::Cfg;

verus! {

/// A configured mirror from a source platform client `U` to a destination
/// platform client `T`.
pub struct Twittergram<T, U> {
    config: Cfg,
    tg_client: U,
    tw_client: T,
}

impl<T, U> Twittergram<T, U> {
    pub closed spec fn spec_config(&self) -> Cfg {
        self.config
    }

    pub closed spec fn spec_tg_client(&self) -> U {
        self.tg_client
    }

    pub closed spec fn spec_tw_client(&self) -> T {
        self.tw_client
    }

    pub fn new(config: Cfg, tg_client: U, tw_client: T) -> (r: Self)
        ensures
            r.spec_config() == config,
            r.spec_tg_client() == tg_client,
            r.spec_tw_client() == tw_client,
    {
        Twittergram { config, tg_client, tw_client }
    }

    pub fn config(&self) -> (r: &Cfg)
        ensures
            *r == self.spec_config(),
    {
        &self.config
    }

    /// The configuration and the two clients, taken apart.
    pub fn into_parts(self) -> (r: (Cfg, U, T))
        ensures
            r.0 == self.spec_config(),
            r.1 == self.spec_tg_client(),
            r.2 == self.spec_tw_client(),
    {
        (self.config, self.tg_client, self.tw_client)
    }
}

} // verus!
