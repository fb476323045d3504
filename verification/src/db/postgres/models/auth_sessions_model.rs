//! Sessions: what a successful sign-in grants.

use crate::db::postgres::domains::eth_address::DomainEthAddress;
use crate::hex_codec::{bytes_to_hex, encode_hex};
use vstd::prelude::*;

verus! {

/// The length of a day in seconds.
pub const SECONDS_PER_DAY: i64 = 86400;

/// A granted session. Several may exist for one account.
#[derive(Clone, Debug)]
pub struct AuthSession {
    /// The account that signed in.
    pub public_address: DomainEthAddress,
    /// The credential that the holder of the session presents.
    pub session_token: String,
    /// The Unix time of issue, in seconds.
    pub created_at: i64,
    /// The Unix time after which the session no longer counts, in seconds.
    pub expires_at: i64,
}

impl AuthSession {
    /// A session ends after it begins.
    pub open spec fn wf(&self) -> bool {
        self.expires_at > self.created_at
    }

    /// This is the session granted to `account` at `issued_at` for `days`
    /// days, with the token written from `entropy`.
    pub open spec fn issued_for(
        &self,
        account: Seq<u8>,
        days: int,
        issued_at: int,
        entropy: Seq<u8>,
    ) -> bool {
        &&& self.public_address@ == account
        &&& self.session_token@ == bytes_to_hex(entropy)
        &&& self.created_at == issued_at
        &&& self.expires_at == issued_at + days * SECONDS_PER_DAY
    }

    /// A session for `public_address` that begins at `now` and lasts
    /// `expires_in_days` days. The token is the hexadecimal text of `entropy`,
    /// which the caller draws from a source that cannot be predicted.
    pub fn new(
        public_address: DomainEthAddress,
        expires_in_days: u32,
        now: i64,
        entropy: &[u8; 32],
    ) -> (session: Self)
        requires
            expires_in_days >= 1,
            now + expires_in_days * SECONDS_PER_DAY <= i64::MAX,
        ensures
            session.issued_for(public_address@, expires_in_days as int, now as int, entropy@),
            session.session_token@.len() == 64,
            session.wf(),
    {
        let lifetime: i64 = (expires_in_days as i64) * SECONDS_PER_DAY;
        let token = encode_hex(entropy.as_slice());
        AuthSession {
            public_address,
            session_token: token,
            created_at: now,
            expires_at: now + lifetime,
        }
    }
}

} // verus!
