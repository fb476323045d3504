use degen_siwe_server::app_state::AppConfig;
use degen_siwe_server::controllers::session_controller::{recover_address, SessionController};
use degen_siwe_server::db::postgres::domains::eth_address::DomainEthAddress;
use degen_siwe_server::db::postgres::models::auth_challenges_model::AuthChallenge;
use degen_siwe_server::db::postgres::models::auth_sessions_model::AuthSession;
use degen_siwe_server::db::postgres::models::{LookupError, StoreError};
use degen_siwe_server::error::AuthError;

const ACCOUNT: &str = "0x810E096DDa9ae3Ae2b55a9c45068F9FE8eeea6db";
const ACCOUNT_LOWER: &str = "0x810e096dda9ae3ae2b55a9c45068f9fe8eeea6db";
const MESSAGE: &str =
    "Signing in to inkreel as 0x810e096dda9ae3ae2b55a9c45068f9fe8eeea6db at 1740165511";
const SIGNATURE: &str = "0x71706a8de0b3e5a42a4ffd1ab7a6ce5c77ed16cea9cb251641b8bcce669cce8d5fd0587b655debff8b62d406d2ca7c0d961f2c36f2c7d3f7a61251812ba3b2331c";
const ISSUED_AT: i64 = 1740165511;
const PRIVATE_KEY: &str = "4c0883a69102937d6231471b5dbb6204fe5129617082792ae468d01a3f362318";

fn controller() -> SessionController {
    SessionController::new(AppConfig { service_name: "inkreel".to_string() })
}

fn entropy() -> [u8; 32] {
    let mut bytes = [0u8; 32];
    for (i, byte) in bytes.iter_mut().enumerate() {
        *byte = (i as u8).wrapping_mul(7).wrapping_add(3);
    }
    bytes
}

fn stored(message: &str) -> Result<AuthChallenge, LookupError> {
    Ok(AuthChallenge {
        public_address: DomainEthAddress::parse(ACCOUNT).unwrap(),
        challenge: message.to_string(),
        created_at: ISSUED_AT,
    })
}

fn sign(message: &str) -> (DomainEthAddress, String) {
    let wallet: ethers::signers::LocalWallet = PRIVATE_KEY.parse().unwrap();
    let signature = wallet.sign_hash(ethers::utils::hash_message(message)).unwrap();
    let address = ethers::signers::Signer::address(&wallet);
    (DomainEthAddress(address.0), format!("0x{}", hex::encode(signature.to_vec())))
}

fn failure(r: Result<AuthSession, AuthError>) -> AuthError {
    match r {
        Ok(_) => panic!("the request was granted"),
        Err(e) => e,
    }
}

#[test]
fn challenge_text_names_service_account_and_time() {
    let challenge = controller().generate_challenge(ACCOUNT, ISSUED_AT).unwrap();
    assert_eq!(challenge.challenge, MESSAGE);
    assert_eq!(challenge.created_at, ISSUED_AT);
    assert_eq!(challenge.public_address.to_string_full(), ACCOUNT_LOWER);
}

#[test]
fn challenge_text_is_the_same_for_the_same_inputs() {
    let first = controller().generate_challenge(ACCOUNT, ISSUED_AT).unwrap();
    let second = controller().generate_challenge(ACCOUNT_LOWER, ISSUED_AT).unwrap();
    let third = controller().generate_challenge("  810e096dda9ae3ae2b55a9c45068f9fe8eeea6db ", ISSUED_AT);
    assert_eq!(first.challenge, second.challenge);
    assert_eq!(first.challenge, third.unwrap().challenge);
    let later = controller().generate_challenge(ACCOUNT, ISSUED_AT + 1).unwrap();
    assert!(first.challenge != later.challenge);
    let direct = AuthChallenge::new(DomainEthAddress::parse(ACCOUNT).unwrap(), "inkreel", ISSUED_AT);
    assert_eq!(direct.challenge, first.challenge);
}

#[test]
fn challenge_text_for_other_services_and_times() {
    let address = DomainEthAddress([0u8; 20]);
    assert_eq!(
        AuthChallenge::new(address, "", 0).challenge,
        "Signing in to  as 0x0000000000000000000000000000000000000000 at 0"
    );
    assert_eq!(
        AuthChallenge::new(address, "my app", -5).challenge,
        "Signing in to my app as 0x0000000000000000000000000000000000000000 at -5"
    );
}

#[test]
fn challenge_is_refused_for_a_bad_address() {
    match controller().generate_challenge("0x1234", ISSUED_AT) {
        Err(e) => assert_eq!(e, AuthError::InvalidAddress),
        Ok(_) => panic!("a challenge was issued"),
    }
}

#[test]
fn challenge_reply_carries_the_text_or_a_database_error() {
    let challenge = controller().generate_challenge(ACCOUNT, ISSUED_AT).unwrap();
    let reply = SessionController::challenge_reply(challenge.clone(), Ok(())).ok().unwrap();
    assert!(reply.success);
    assert_eq!(reply.data, MESSAGE);
    for refusal in [StoreError::Conflict, StoreError::Other] {
        match SessionController::challenge_reply(challenge.clone(), Err(refusal)) {
            Err(e) => assert_eq!(e, AuthError::DatabaseError),
            Ok(_) => panic!("the refusal was passed over"),
        }
    }
}

#[test]
fn recover_address_finds_the_signer_of_a_recorded_signature() {
    let signer = recover_address(MESSAGE, SIGNATURE).unwrap();
    assert_eq!(signer.to_string_full(), ACCOUNT_LOWER);
    let bare = recover_address(MESSAGE, &SIGNATURE[2..]).unwrap();
    assert!(bare == signer);
    let upper = format!("0x{}", SIGNATURE[2..].to_ascii_uppercase());
    assert!(recover_address(MESSAGE, &upper).unwrap() == signer);
}

#[test]
fn recover_address_finds_the_signer_of_a_fresh_signature() {
    for message in ["", "hello", MESSAGE, "Signing in to caf\u{e9} as nobody at 1"] {
        let (address, signature) = sign(message);
        assert_eq!(address.to_string_full(), "0x2c7536e3605d9c16a7a3d7b1898e529396a65c23");
        let signer = recover_address(message, &signature).unwrap();
        assert!(signer == address);
        assert_eq!(signer.to_display_string(), "0x2c7536E3605D9C16a7a3D7b1898e529396a65c23");
    }
}

#[test]
fn recover_address_gives_another_signer_for_another_message() {
    let signer = recover_address(MESSAGE, SIGNATURE).unwrap();
    let changed = MESSAGE.replace("1740165511", "1740165512");
    match recover_address(&changed, SIGNATURE) {
        None => {}
        Some(other) => assert!(other != signer),
    }
}

#[test]
fn recover_address_rejects_malformed_signatures() {
    assert!(recover_address(MESSAGE, "").is_none());
    assert!(recover_address(MESSAGE, "0x").is_none());
    assert!(recover_address(MESSAGE, "0xzz").is_none());
    assert!(recover_address(MESSAGE, &SIGNATURE[..SIGNATURE.len() - 1]).is_none());
    assert!(recover_address(MESSAGE, &SIGNATURE[..SIGNATURE.len() - 2]).is_none());
    assert!(recover_address(MESSAGE, &format!("{}00", SIGNATURE)).is_none());
    assert!(recover_address(MESSAGE, &format!("0X{}", &SIGNATURE[2..])).is_none());
    assert!(recover_address(MESSAGE, &format!(" {}", SIGNATURE)).is_none());
    assert!(recover_address(MESSAGE, &SIGNATURE.replace("7170", "71\u{e9}0")).is_none());
    let zeros = "0".repeat(130);
    assert!(recover_address(MESSAGE, &zeros).is_none());
}

#[test]
fn a_changed_byte_of_the_signature_never_recovers_the_signer() {
    let untouched = hex::decode(&SIGNATURE[2..]).unwrap();
    assert_eq!(untouched.len(), 65);
    let signer = recover_address(MESSAGE, SIGNATURE).unwrap();
    // The two numbers of the signature: any change of any byte.
    for position in 0..64 {
        for mask in [0x01u8, 0x02, 0x10, 0x80, 0xff] {
            let mut bytes = untouched.clone();
            bytes[position] ^= mask;
            let text = format!("0x{}", hex::encode(&bytes));
            match recover_address(MESSAGE, &text) {
                None => {}
                Some(other) => assert!(other != signer, "byte {} mask {}", position, mask),
            }
        }
    }
    // The last byte: any change at all.
    assert_eq!(untouched[64], 28);
    for last in 0u8..=255 {
        if last == 28 {
            continue;
        }
        let mut bytes = untouched.clone();
        bytes[64] = last;
        let text = format!("0x{}", hex::encode(&bytes));
        match recover_address(MESSAGE, &text) {
            None => {}
            Some(other) => {
                assert_eq!(last, 27);
                assert!(other != signer);
            }
        }
    }
}

#[test]
fn the_last_byte_has_to_be_27_or_28() {
    let untouched = hex::decode(&SIGNATURE[2..]).unwrap();
    // Other spellings of the recovery id of 28 are not read.
    for last in [1u8, 29, 30, 32, 36, 38, 156] {
        let mut bytes = untouched.clone();
        bytes[64] = last;
        let text = format!("0x{}", hex::encode(&bytes));
        assert!(recover_address(MESSAGE, &text).is_none(), "last byte {}", last);
    }
    // A signature made with 27 is read.
    let mut found = false;
    for counter in 0..64 {
        let message = format!("message {}", counter);
        let (address, signature) = sign(&message);
        if signature.ends_with("1b") {
            assert!(recover_address(&message, &signature).unwrap() == address);
            let as_zero = format!("{}00", &signature[..signature.len() - 2]);
            assert!(recover_address(&message, &as_zero).is_none());
            found = true;
        }
    }
    assert!(found);
}

#[test]
fn sign_in_with_another_spelling_of_the_last_byte_is_refused() {
    let mut bytes = hex::decode(&SIGNATURE[2..]).unwrap();
    bytes[64] = 156;
    let r = SessionController::validate_authentication(
        ACCOUNT,
        MESSAGE,
        &hex::encode(&bytes),
        &stored(MESSAGE),
        ISSUED_AT,
        &entropy(),
    );
    assert_eq!(failure(r), AuthError::InvalidSignature);
}

#[test]
fn sign_in_end_to_end() {
    let service = controller();
    let mut challenges: Vec<AuthChallenge> = Vec::new();
    let mut sessions: Vec<AuthSession> = Vec::new();

    let challenge = service.generate_challenge(ACCOUNT, ISSUED_AT).unwrap();
    challenges.push(challenge.clone());
    let issued = SessionController::challenge_reply(challenge, Ok(())).ok().unwrap();
    assert_eq!(issued.data, MESSAGE);

    let account = DomainEthAddress::parse(ACCOUNT).unwrap();
    let record = match challenges.iter().find(|c| c.public_address == account) {
        Some(found) => Ok(found.clone()),
        None => Err(LookupError::NotFound),
    };
    let session = SessionController::validate_authentication(
        ACCOUNT,
        &issued.data,
        SIGNATURE,
        &record,
        ISSUED_AT,
        &entropy(),
    )
    .unwrap();
    assert!(session.expires_at > session.created_at);
    sessions.push(session.clone());
    let reply = SessionController::session_reply(session, Ok(())).ok().unwrap();
    assert!(reply.success);
    assert_eq!(reply.data.public_address, ACCOUNT);
    assert_eq!(reply.data.session_token.len(), 64);
    assert!(reply.data.session_token.chars().all(|c| c.is_ascii_digit() || ('a'..='f').contains(&c)));
    assert_eq!(reply.data.session_token, hex::encode(entropy()));
    assert_eq!(reply.data.expires_at, 1740165511 + 86400);
    assert_eq!(sessions.len(), 1);
}

#[test]
fn sign_in_with_a_fresh_key() {
    let service = controller();
    let (address, _) = sign("");
    let text = address.to_display_string();
    let challenge = service.generate_challenge(&text, 1_700_000_000).unwrap();
    let (_, signature) = sign(&challenge.challenge);
    let record = Ok(challenge.clone());
    let session = SessionController::validate_authentication(
        &text,
        &challenge.challenge,
        &signature,
        &record,
        1_700_000_050,
        &entropy(),
    )
    .unwrap();
    assert!(session.public_address == address);
    assert_eq!(session.created_at, 1_700_000_050);
    assert_eq!(session.expires_at, 1_700_000_050 + 86400);
}

#[test]
fn sign_in_without_a_challenge_is_refused() {
    for missing in [LookupError::NotFound, LookupError::Other] {
        let r = SessionController::validate_authentication(
            ACCOUNT,
            MESSAGE,
            SIGNATURE,
            &Err(missing),
            ISSUED_AT,
            &entropy(),
        );
        assert_eq!(failure(r), AuthError::NoActiveChallenge);
    }
}

#[test]
fn sign_in_with_the_challenge_of_another_account_is_refused() {
    let record = Ok(AuthChallenge {
        public_address: DomainEthAddress([7u8; 20]),
        challenge: MESSAGE.to_string(),
        created_at: ISSUED_AT,
    });
    let r = SessionController::validate_authentication(
        ACCOUNT,
        MESSAGE,
        SIGNATURE,
        &record,
        ISSUED_AT,
        &entropy(),
    );
    assert_eq!(failure(r), AuthError::NoActiveChallenge);
}

#[test]
fn sign_in_with_a_bad_address_is_refused_first() {
    let r = SessionController::validate_authentication(
        "not an address",
        MESSAGE,
        SIGNATURE,
        &stored(MESSAGE),
        ISSUED_AT,
        &entropy(),
    );
    assert_eq!(failure(r), AuthError::InvalidAddress);
    let r = SessionController::validate_authentication(
        "not an address",
        "other",
        "junk",
        &Err(LookupError::NotFound),
        ISSUED_AT,
        &entropy(),
    );
    assert_eq!(failure(r), AuthError::InvalidAddress);
}

#[test]
fn sign_in_with_another_text_is_an_invalid_challenge() {
    let changed = MESSAGE.replace("1740165511", "1740165512");
    let shorter = &MESSAGE[..MESSAGE.len() - 1];
    let longer = format!("{} ", MESSAGE);
    for claimed in [changed.as_str(), shorter, longer.as_str(), ""] {
        // With the right signature for the stored text.
        let r = SessionController::validate_authentication(
            ACCOUNT,
            claimed,
            SIGNATURE,
            &stored(MESSAGE),
            ISSUED_AT,
            &entropy(),
        );
        assert_eq!(failure(r), AuthError::InvalidChallenge);
        // With a signature that is no signature at all.
        let r = SessionController::validate_authentication(
            ACCOUNT,
            claimed,
            "junk",
            &stored(MESSAGE),
            ISSUED_AT,
            &entropy(),
        );
        assert_eq!(failure(r), AuthError::InvalidChallenge);
    }
}

#[test]
fn sign_in_with_a_bad_signature_is_an_invalid_signature() {
    let (_, foreign) = sign(MESSAGE);
    let mut tampered = hex::decode(&SIGNATURE[2..]).unwrap();
    tampered[10] ^= 0xff;
    let tampered = hex::encode(tampered);
    for signature in ["", "junk", "0x1234", foreign.as_str(), tampered.as_str()] {
        let r = SessionController::validate_authentication(
            ACCOUNT,
            MESSAGE,
            signature,
            &stored(MESSAGE),
            ISSUED_AT,
            &entropy(),
        );
        assert_eq!(failure(r), AuthError::InvalidSignature);
    }
}

#[test]
fn check_challenge_gives_the_account() {
    let account =
        SessionController::check_challenge(ACCOUNT_LOWER, MESSAGE, &stored(MESSAGE)).unwrap();
    assert_eq!(account.to_display_string(), ACCOUNT);
    assert_eq!(
        SessionController::check_challenge(ACCOUNT, "x", &stored(MESSAGE)),
        Err(AuthError::InvalidChallenge)
    );
    assert_eq!(
        SessionController::check_challenge(ACCOUNT, MESSAGE, &Err(LookupError::NotFound)),
        Err(AuthError::NoActiveChallenge)
    );
    assert_eq!(
        SessionController::check_challenge("", MESSAGE, &stored(MESSAGE)),
        Err(AuthError::InvalidAddress)
    );
}

#[test]
fn grant_session_asks_for_the_account_as_signer() {
    let account = DomainEthAddress::parse(ACCOUNT).unwrap();
    let other = DomainEthAddress([1u8; 20]);
    let granted =
        SessionController::grant_session(account, Some(account), 100, &entropy()).unwrap();
    assert!(granted.public_address == account);
    assert_eq!(granted.created_at, 100);
    assert_eq!(granted.expires_at, 86500);
    assert_eq!(granted.session_token, hex::encode(entropy()));
    assert_eq!(
        failure(SessionController::grant_session(account, Some(other), 100, &entropy())),
        AuthError::InvalidSignature
    );
    assert_eq!(
        failure(SessionController::grant_session(account, None, 100, &entropy())),
        AuthError::InvalidSignature
    );
}

#[test]
fn session_lasts_the_days_asked_for() {
    let account = DomainEthAddress::parse(ACCOUNT).unwrap();
    let one = AuthSession::new(account, 1, ISSUED_AT, &entropy());
    assert_eq!(one.expires_at - one.created_at, 86400);
    let week = AuthSession::new(account, 7, -100, &[0xabu8; 32]);
    assert_eq!(week.created_at, -100);
    assert_eq!(week.expires_at, 7 * 86400 - 100);
    assert_eq!(week.session_token, "ab".repeat(32));
    let last = AuthSession::new(account, 1, i64::MAX - 86400, &entropy());
    assert_eq!(last.expires_at, i64::MAX);
}

#[test]
fn session_reply_carries_the_session_or_a_database_error() {
    let account = DomainEthAddress::parse(ACCOUNT).unwrap();
    let session = AuthSession::new(account, 1, ISSUED_AT, &entropy());
    for refusal in [StoreError::Conflict, StoreError::Other] {
        match SessionController::session_reply(session.clone(), Err(refusal)) {
            Err(e) => assert_eq!(e, AuthError::DatabaseError),
            Ok(_) => panic!("the refusal was passed over"),
        }
    }
    let reply = SessionController::session_reply(session, Ok(())).ok().unwrap();
    assert_eq!(reply.data.public_address, ACCOUNT);
    assert_eq!(reply.data.public_address.to_ascii_lowercase(), ACCOUNT_LOWER);
    assert_eq!(reply.data.expires_at, ISSUED_AT + 86400);
}

#[test]
fn error_reply_gives_status_and_sentence() {
    let expected = [
        (AuthError::InvalidAddress, 400, "Invalid public address"),
        (AuthError::NoActiveChallenge, 401, "No active challenge found"),
        (AuthError::InvalidChallenge, 401, "Invalid challenge"),
        (AuthError::InvalidSignature, 401, "Invalid signature"),
        (AuthError::DatabaseError, 500, "Database error"),
    ];
    for (error, status, sentence) in expected {
        assert_eq!(error.status_code(), status);
        assert_eq!(error.message(), sentence);
        let (code, body) = SessionController::error_reply(error);
        assert_eq!(code, status);
        assert!(!body.success);
        assert_eq!(body.error, sentence);
    }
}
