//! Immutable per-process context: provider client, master encryption key,
//! token-signing secret and refresh-token lifetime. Built once at startup,
//! passed explicitly to every operation, never mutated afterwards.

use vstd::prelude::*;

use crate::client::HcaClient;

verus! {

pub struct AppState {
    pub hca: HcaClient,
    pub master_key: Vec<u8>,
    pub jwt_secret: String,
    pub refresh_token_expiry_seconds: u64,
}

impl AppState {
    /// The master key has the fixed length the vault's cipher demands.
    pub open spec fn wf(self) -> bool {
        self.master_key@.len() == 32
    }

    pub fn new(
        hca: HcaClient,
        master_key: Vec<u8>,
        jwt_secret: String,
        refresh_token_expiry_seconds: u64,
    ) -> (r: AppState)
        requires
            master_key@.len() == 32,
        ensures
            r.wf(),
            r.hca == hca,
            r.master_key == master_key,
            r.jwt_secret == jwt_secret,
            r.refresh_token_expiry_seconds == refresh_token_expiry_seconds,
    {
        AppState { hca, master_key, jwt_secret, refresh_token_expiry_seconds }
    }
}

} // verus!
