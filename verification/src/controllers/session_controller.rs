//! Signing in with a wallet.
//!
//! An account asks for a challenge, signs it, and hands back the signature.
//! Each of the two operations is a decision before the store is asked and one
//! after it has answered; the caller does the asking in between.

use crate::app_state::AppConfig;
use crate::controllers::web_controller::{AuthSessionOutput, ErrorResponse, SuccessResponse};
use crate::db::postgres::domains::eth_address::{
    checksum_address_text, lower_address_text, parse_address, DomainEthAddress,
};
use crate::db::postgres::models::auth_challenges_model::AuthChallenge;
use crate::db::postgres::models::auth_sessions_model::AuthSession;
use crate::db::postgres::models::{LookupError, StoreError};
use crate::error::AuthError;
use crate::hex_codec::{hex_to_bytes, is_hex_digit, is_hex_string, without_hex_prefix};
use crate::text::to_ascii_lowercase;
use vstd::prelude::*;

verus! {

/// The error that `hex::decode` returns.
#[verifier::external_type_specification]
#[verifier::external_body]
pub struct ExFromHexError(hex::FromHexError);

/// The hash that `ethers::utils::hash_message` gives for a text: Keccak-256
/// over the EIP-191 prefix, the length of the text in bytes, and the text.
pub uninterp spec fn signed_message_hash(message: Seq<char>) -> Seq<u8>;

/// The address that `ethers::types::Signature::recover` gives for a 32-byte
/// hash and the 65 bytes of a signature, or `None` where it fails.
pub uninterp spec fn signer_of(hash: Seq<u8>, signature: Seq<u8>) -> Option<Seq<u8>>;

/// How many days a session lasts.
pub const SESSION_DAYS: u32 = 1;

/// The last byte of a signature names the recovery id in one of two ways: 27
/// or 28. Other spellings of the same ids are not taken.
pub open spec fn names_recovery_id(last: u8) -> bool {
    last == 27 || last == 28
}

/// The account that signed `message`, going by `signature`: 130 hexadecimal
/// digits, with or without `0x` before them, whose last byte is 27 or 28 and
/// which recover to an address.
pub open spec fn recovered_address(message: Seq<char>, signature: Seq<char>) -> Option<Seq<u8>> {
    let digits = without_hex_prefix(signature);
    if is_hex_string(digits) && digits.len() == 130 && names_recovery_id(
        hex_to_bytes(digits)[64],
    ) {
        signer_of(signed_message_hash(message), hex_to_bytes(digits))
    } else {
        None
    }
}

/// Why the stored challenge does not let the request go on to the signature,
/// if it does not. The address is looked at first, then whether the store
/// holds a challenge for it, then whether that challenge is the claimed text.
pub open spec fn challenge_failure(
    public_address: Seq<char>,
    challenge: Seq<char>,
    challenge_record: Result<AuthChallenge, LookupError>,
) -> Option<AuthError> {
    match parse_address(public_address) {
        None => Some(AuthError::InvalidAddress),
        Some(account) => match challenge_record {
            Err(_) => Some(AuthError::NoActiveChallenge),
            Ok(record) => if record.public_address@ != account {
                Some(AuthError::NoActiveChallenge)
            } else if record.challenge@ != challenge {
                Some(AuthError::InvalidChallenge)
            } else {
                None
            },
        },
    }
}

/// Why a sign-in is turned down, if it is: for what `challenge_failure`
/// names, or else because the signature does not recover to the account.
pub open spec fn login_failure(
    public_address: Seq<char>,
    challenge: Seq<char>,
    signature: Seq<char>,
    challenge_record: Result<AuthChallenge, LookupError>,
) -> Option<AuthError> {
    match challenge_failure(public_address, challenge, challenge_record) {
        Some(e) => Some(e),
        None => if recovered_address(challenge, signature) == parse_address(public_address) {
            None
        } else {
            Some(AuthError::InvalidSignature)
        },
    }
}

/// `hex::decode` on a text. It succeeds exactly on an even number of
/// hexadecimal digits of either case, and then gives one byte per pair.
#[verifier::external_body]
fn decode_hex(text: &str) -> (r: Result<Vec<u8>, hex::FromHexError>)
    ensures
        r is Ok <==> is_hex_string(text@),
        r matches Ok(bytes) ==> bytes@ == hex_to_bytes(text@),
{
    hex::decode(text)
}

/// `ethers::utils::hash_message` on a text.
#[verifier::external_body]
fn hash_message(message: &str) -> (hash: [u8; 32])
    ensures
        hash@ == signed_message_hash(message@),
{
    ethers::utils::hash_message(message).0
}

/// `ethers::types::Signature::try_from` on the 65 bytes, then
/// `Signature::recover` on the hash.
#[verifier::external_body]
fn recover_signer(hash: &[u8; 32], signature: &[u8]) -> (signer: Option<[u8; 20]>)
    requires
        signature@.len() == 65,
    ensures
        signer is Some <==> signer_of(hash@, signature@) is Some,
        signer matches Some(bytes) ==> signer_of(hash@, signature@) == Some(bytes@),
{
    let parsed = ethers::types::Signature::try_from(signature).ok()?;
    let address = parsed.recover(ethers::types::H256(*hash)).ok()?;
    Some(address.0)
}

/// The account that signed `msg`, if `signature` is the hexadecimal text of a
/// signature that recovers to one.
pub fn recover_address(msg: &str, signature: &str) -> (signer: Option<DomainEthAddress>)
    ensures
        signer is Some <==> recovered_address(msg@, signature@) is Some,
        signer matches Some(address) ==> recovered_address(msg@, signature@) == Some(address@),
{
    let len = signature.unicode_len();
    let digits = if len >= 2 && signature.get_char(0) == '0' && signature.get_char(1) == 'x' {
        signature.substring_char(2, len)
    } else {
        signature
    };
    assert(digits@ == without_hex_prefix(signature@));
    match decode_hex(digits) {
        Err(_) => None,
        Ok(bytes) => {
            if bytes.len() != 65 {
                None
            } else if bytes[64] != 27 && bytes[64] != 28 {
                None
            } else {
                let hash = hash_message(msg);
                match recover_signer(&hash, bytes.as_slice()) {
                    Some(address) => Some(DomainEthAddress(address)),
                    None => None,
                }
            }
        },
    }
}

/// The sign-in service.
pub struct SessionController {
    /// The configuration that the service was started with.
    pub app_config: AppConfig,
}

impl SessionController {
    /// A service that runs under `app_config`.
    pub fn new(app_config: AppConfig) -> (controller: Self)
        ensures
            controller.app_config == app_config,
    {
        SessionController { app_config }
    }

    /// The first half of issuing a challenge: reads the address and writes
    /// the challenge for it. The caller then stores the challenge.
    pub fn generate_challenge(&self, public_address: &str, now: i64) -> (r: Result<
        AuthChallenge,
        AuthError,
    >)
        ensures
            match parse_address(public_address@) {
                None => r == Err::<AuthChallenge, AuthError>(AuthError::InvalidAddress),
                Some(account) => r is Ok && r->Ok_0.issued_for(
                    self.app_config.service_name@,
                    account,
                    now as int,
                ),
            },
    {
        match DomainEthAddress::parse(public_address) {
            Err(_) => Err(AuthError::InvalidAddress),
            Ok(account) => Ok(
                AuthChallenge::new(account, self.app_config.service_name.as_str(), now),
            ),
        }
    }

    /// The second half of issuing a challenge: the answer to the caller once
    /// the store has been asked to keep `challenge`. A challenge that the
    /// store did not take, for a conflict with a pending one or for any other
    /// reason, is a `DatabaseError`: the pending challenge is not replaced.
    pub fn challenge_reply(challenge: AuthChallenge, inserted: Result<(), StoreError>) -> (r:
        Result<SuccessResponse<String>, AuthError>)
        ensures
            match inserted {
                Ok(_) => r is Ok && r->Ok_0.success && r->Ok_0.data@ == challenge.challenge@,
                Err(_) => r == Err::<SuccessResponse<String>, AuthError>(AuthError::DatabaseError),
            },
    {
        match inserted {
            Ok(_) => Ok(SuccessResponse::new(challenge.challenge)),
            Err(_) => Err(AuthError::DatabaseError),
        }
    }

    /// Holds a request to sign in against what the store holds for the
    /// account, and gives the account if the request may go on to the
    /// signature.
    pub fn check_challenge(
        public_address: &str,
        challenge: &str,
        challenge_record: &Result<AuthChallenge, LookupError>,
    ) -> (r: Result<DomainEthAddress, AuthError>)
        ensures
            match challenge_failure(public_address@, challenge@, *challenge_record) {
                Some(e) => r == Err::<DomainEthAddress, AuthError>(e),
                None => r is Ok && parse_address(public_address@) == Some(r->Ok_0@),
            },
    {
        let account = match DomainEthAddress::parse(public_address) {
            Err(_) => {
                return Err(AuthError::InvalidAddress);
            },
            Ok(account) => account,
        };
        match challenge_record {
            Err(_) => Err(AuthError::NoActiveChallenge),
            Ok(record) => {
                if record.public_address != account {
                    Err(AuthError::NoActiveChallenge)
                } else if record.challenge != String::from_str(challenge) {
                    Err(AuthError::InvalidChallenge)
                } else {
                    Ok(account)
                }
            },
        }
    }

    /// Grants a session to `account` if `signer`, the account recovered from
    /// the signature, is that account.
    pub fn grant_session(
        account: DomainEthAddress,
        signer: Option<DomainEthAddress>,
        now: i64,
        entropy: &[u8; 32],
    ) -> (r: Result<AuthSession, AuthError>)
        requires
            now + SESSION_DAYS * 86400 <= i64::MAX,
        ensures
            match signer {
                Some(address) if address@ == account@ => r is Ok && r->Ok_0.issued_for(
                    account@,
                    SESSION_DAYS as int,
                    now as int,
                    entropy@,
                ) && r->Ok_0.wf(),
                _ => r == Err::<AuthSession, AuthError>(AuthError::InvalidSignature),
            },
    {
        match signer {
            Some(address) => {
                if address == account {
                    Ok(AuthSession::new(account, SESSION_DAYS, now, entropy))
                } else {
                    Err(AuthError::InvalidSignature)
                }
            },
            None => Err(AuthError::InvalidSignature),
        }
    }

    /// The first half of signing in, once the store has been asked for the
    /// challenge of the account: decides whether the request is good and
    /// writes the session. The caller then stores the session.
    ///
    /// The cheap tests come first. The signature is looked at only when the
    /// address is one, the store holds a challenge for it, and that challenge
    /// is the text that was handed in.
    pub fn validate_authentication(
        public_address: &str,
        challenge: &str,
        signature: &str,
        challenge_record: &Result<AuthChallenge, LookupError>,
        now: i64,
        entropy: &[u8; 32],
    ) -> (r: Result<AuthSession, AuthError>)
        requires
            now + SESSION_DAYS * 86400 <= i64::MAX,
        ensures
            match login_failure(public_address@, challenge@, signature@, *challenge_record) {
                Some(e) => r == Err::<AuthSession, AuthError>(e),
                None => r is Ok && r->Ok_0.issued_for(
                    parse_address(public_address@)->0,
                    SESSION_DAYS as int,
                    now as int,
                    entropy@,
                ) && r->Ok_0.wf(),
            },
    {
        match Self::check_challenge(public_address, challenge, challenge_record) {
            Err(e) => Err(e),
            Ok(account) => {
                let signer = recover_address(challenge, signature);
                Self::grant_session(account, signer, now, entropy)
            },
        }
    }

    /// The second half of signing in: the answer to the caller once the store
    /// has been asked to keep `session`.
    pub fn session_reply(session: AuthSession, inserted: Result<(), StoreError>) -> (r: Result<
        SuccessResponse<AuthSessionOutput>,
        AuthError,
    >)
        ensures
            match inserted {
                Ok(_) => {
                    &&& r is Ok
                    &&& r->Ok_0.success
                    &&& r->Ok_0.data.public_address@ == checksum_address_text(
                        session.public_address@,
                    )
                    &&& to_ascii_lowercase(r->Ok_0.data.public_address@) == lower_address_text(
                        session.public_address@,
                    )
                    &&& parse_address(r->Ok_0.data.public_address@) == Some(
                        session.public_address@,
                    )
                    &&& r->Ok_0.data.session_token@ == session.session_token@
                    &&& r->Ok_0.data.expires_at == session.expires_at
                },
                Err(_) => r == Err::<SuccessResponse<AuthSessionOutput>, AuthError>(
                    AuthError::DatabaseError,
                ),
            },
    {
        match inserted {
            Ok(_) => {
                let output = AuthSessionOutput {
                    public_address: session.public_address.to_display_string(),
                    session_token: session.session_token,
                    expires_at: session.expires_at,
                };
                Ok(SuccessResponse::new(output))
            },
            Err(_) => Err(AuthError::DatabaseError),
        }
    }

    /// The body and the HTTP status of the answer to a request that failed.
    pub fn error_reply(error: AuthError) -> (r: (u16, ErrorResponse))
        ensures
            r.0 as int == error.status(),
            !r.1.success,
            r.1.error@ == error.text(),
    {
        (error.status_code(), ErrorResponse::new(error.message()))
    }
}

/// A signature is read the same with `0x` before its digits and without.
pub proof fn lemma_signature_prefix_is_optional(message: Seq<char>, digits: Seq<char>)
    requires
        is_hex_string(digits),
    ensures
        recovered_address(message, seq!['0', 'x'] + digits) == recovered_address(message, digits),
{
    let prefixed = seq!['0', 'x'] + digits;
    assert(prefixed.skip(2) =~= digits);
    assert(without_hex_prefix(prefixed) == digits);
    if digits.len() >= 2 {
        assert(is_hex_digit(digits[1]));
    }
    assert(without_hex_prefix(digits) == digits);
}

/// A signature recovers to an account only if it is 65 bytes in hexadecimal
/// digits and its last byte is 27 or 28. So of two signatures that differ in
/// the last byte, both recover to an account only if one ends in 27 and the
/// other in 28.
pub proof fn lemma_last_byte_names_recovery_id(
    message: Seq<char>,
    signature: Seq<char>,
    changed: Seq<char>,
)
    requires
        recovered_address(message, signature) is Some,
    ensures
        is_hex_string(without_hex_prefix(signature)),
        hex_to_bytes(without_hex_prefix(signature)).len() == 65,
        names_recovery_id(hex_to_bytes(without_hex_prefix(signature))[64]),
        recovered_address(message, changed) is Some && hex_to_bytes(
            without_hex_prefix(changed),
        )[64] != hex_to_bytes(without_hex_prefix(signature))[64] ==> hex_to_bytes(
            without_hex_prefix(changed),
        )[64] + hex_to_bytes(without_hex_prefix(signature))[64] == 55,
{
}

/// A request whose text differs from the stored challenge is turned down as
/// `InvalidChallenge`, whatever its signature.
pub proof fn lemma_wrong_message_is_invalid_challenge(
    public_address: Seq<char>,
    challenge: Seq<char>,
    signature: Seq<char>,
    record: AuthChallenge,
)
    requires
        parse_address(public_address) == Some(record.public_address@),
        record.challenge@ != challenge,
    ensures
        login_failure(public_address, challenge, signature, Ok(record)) == Some(
            AuthError::InvalidChallenge,
        ),
{
}

/// A request for an account of which the store holds no challenge is turned
/// down as `NoActiveChallenge`, whatever its text and signature.
pub proof fn lemma_unknown_account_has_no_challenge(
    public_address: Seq<char>,
    challenge: Seq<char>,
    signature: Seq<char>,
    missing: LookupError,
)
    requires
        parse_address(public_address) is Some,
    ensures
        login_failure(public_address, challenge, signature, Err(missing)) == Some(
            AuthError::NoActiveChallenge,
        ),
{
}

} // verus!
