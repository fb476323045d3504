//! Challenges: the text an account has to sign.

use crate::db::postgres::domains::eth_address::{lower_address_text, DomainEthAddress};
use crate::text::{decimal_text, format_i64};
use vstd::prelude::*;

verus! {

/// The text of the challenge that `service_name` issues to `account` at the
/// Unix time `issued_at`, in seconds.
pub open spec fn challenge_message(
    service_name: Seq<char>,
    account: Seq<u8>,
    issued_at: int,
) -> Seq<char> {
    "Signing in to "@ + service_name + " as "@ + lower_address_text(account) + " at "@
        + decimal_text(issued_at)
}

/// A pending sign-in: the account, the text it has to sign, and when the text
/// was issued. The store keeps at most one per account.
#[derive(Clone, Debug)]
pub struct AuthChallenge {
    /// The account that is to sign.
    pub public_address: DomainEthAddress,
    /// The text to sign.
    pub challenge: String,
    /// The Unix time of issue, in seconds.
    pub created_at: i64,
}

impl AuthChallenge {
    /// This is the challenge that `service_name` issues to `account` at
    /// `issued_at`.
    pub open spec fn issued_for(
        &self,
        service_name: Seq<char>,
        account: Seq<u8>,
        issued_at: int,
    ) -> bool {
        &&& self.public_address@ == account
        &&& self.challenge@ == challenge_message(service_name, account, issued_at)
        &&& self.created_at == issued_at
    }

    /// The challenge for `public_address`, issued at `now`.
    pub fn new(public_address: DomainEthAddress, service_name: &str, now: i64) -> (challenge: Self)
        ensures
            challenge.issued_for(service_name@, public_address@, now as int),
    {
        let account = public_address.to_string_full();
        let issued = format_i64(now);
        let mut text = String::from_str("Signing in to ");
        text.append(service_name);
        text.append(" as ");
        text.append(account.as_str());
        text.append(" at ");
        text.append(issued.as_str());
        AuthChallenge { public_address, challenge: text, created_at: now }
    }
}

/// Two challenges issued by one service to one account at one second carry
/// the same text.
pub proof fn lemma_challenge_text_is_determined(
    first: AuthChallenge,
    second: AuthChallenge,
    service_name: Seq<char>,
    account: Seq<u8>,
    issued_at: int,
)
    requires
        first.issued_for(service_name, account, issued_at),
        second.issued_for(service_name, account, issued_at),
    ensures
        first.challenge@ == second.challenge@,
        first.public_address@ == second.public_address@,
        first.created_at == second.created_at,
{
}

} // verus!
