use ethers_core::k256::ecdsa::SigningKey;
use ethers_core::types::{Signature, U256};
use ethers_core::utils::{hash_message, secret_key_to_address};
use tidbit::error::{AppError, AppErrorKind};
use tidbit::identity::web;
use tidbit::identity_web::evm::{evm_login_message, evm_nonce, verify_evm_login, verify_evm_login_at, EvmVerifyRequest};
use tidbit::identity_web::sol::{sol_nonce, verify_sol_login, verify_sol_login_at, SolVerifyRequest};
use tidbit::identity_web::state::AuthState;

fn signer() -> SigningKey {
    SigningKey::from_slice(&[7u8; 32]).expect("valid key")
}

fn address_of(key: &SigningKey) -> String {
    format!("{:?}", secret_key_to_address(key))
}

fn sign(key: &SigningKey, message: &str) -> String {
    let hash = hash_message(message);
    let (sig, recid) = key.sign_prehash_recoverable(hash.as_ref()).expect("sign");
    let signature = Signature {
        r: U256::from_big_endian(&sig.r().to_bytes()),
        s: U256::from_big_endian(&sig.s().to_bytes()),
        v: 27 + recid.to_byte() as u64,
    };
    signature.to_string()
}

fn auth_message(r: Result<String, AppError>) -> String {
    match r {
        Err(AppError::Auth(m)) => m,
        other => panic!("expected an auth error, got {:?}", other),
    }
}

fn request(sid: &str, address: &str, signature: &str) -> EvmVerifyRequest {
    EvmVerifyRequest { session_id: sid.to_string(), address: address.to_string(), signature: signature.to_string() }
}

#[test]
fn login_message_text() {
    assert_eq!(
        evm_login_message("abc-123"),
        "TIDBIT Authentication\nNonce: abc-123\nPurpose: Login\nVersion: 1"
    );
    assert_eq!(evm_login_message(""), "TIDBIT Authentication\nNonce: \nPurpose: Login\nVersion: 1");
}

#[test]
fn signed_login_binds_the_wallet() {
    let key = signer();
    let address = address_of(&key);
    assert!(address.starts_with("0x"));
    assert_eq!(address.len(), 42);

    let mut st = AuthState::new();
    st.put_nonce("sid-1".to_string(), "nonce-1".to_string());
    let signature = sign(&key, &evm_login_message("nonce-1"));

    let upper = format!("  0x{}  ", address[2..].to_uppercase());
    let got = verify_evm_login_at(&mut st, &request(" sid-1 ", &upper, &format!(" {} ", signature)), 5000).expect("login");
    assert_eq!(got, address);

    let session = st.get_session_at("sid-1", 5000).expect("bound");
    assert_eq!(session.wallet, address);
    assert_eq!(session.chain, "evm");
    assert_eq!(session.created_at, 5000);
    // The nonce is spent.
    assert_eq!(st.take_nonce("sid-1"), None);
}

#[test]
fn signature_of_another_wallet_is_refused() {
    let key = signer();
    let other = SigningKey::from_slice(&[9u8; 32]).unwrap();
    let mut st = AuthState::new();
    st.put_nonce("sid".to_string(), "nonce".to_string());
    let signature = sign(&other, &evm_login_message("nonce"));
    let r = verify_evm_login_at(&mut st, &request("sid", &address_of(&key), &signature), 1);
    assert_eq!(auth_message(r), "Signature does not match address");
    assert!(st.get_session_at("sid", 1).is_none());
    assert_eq!(st.take_nonce("sid"), None);
}

#[test]
fn signature_over_another_nonce_is_refused() {
    let key = signer();
    let mut st = AuthState::new();
    st.put_nonce("sid".to_string(), "nonce".to_string());
    let signature = sign(&key, &evm_login_message("another nonce"));
    let r = verify_evm_login_at(&mut st, &request("sid", &address_of(&key), &signature), 1);
    assert_eq!(auth_message(r), "Signature does not match address");
}

#[test]
fn signature_over_the_bare_nonce_is_refused() {
    let key = signer();
    let mut st = AuthState::new();
    st.put_nonce("sid".to_string(), "nonce".to_string());
    let signature = sign(&key, "nonce");
    let r = verify_evm_login_at(&mut st, &request("sid", &address_of(&key), &signature), 1);
    assert_eq!(auth_message(r), "Signature does not match address");
}

#[test]
fn malformed_signature_is_refused() {
    let key = signer();
    let mut st = AuthState::new();
    st.put_nonce("sid".to_string(), "nonce".to_string());
    let r = verify_evm_login_at(&mut st, &request("sid", &address_of(&key), "zz-not-hex"), 1);
    assert_eq!(auth_message(r), "Invalid signature");
    assert_eq!(st.take_nonce("sid"), None);
    st.put_nonce("sid".to_string(), "nonce".to_string());
    let r = verify_evm_login_at(&mut st, &request("sid", &address_of(&key), "abcd"), 1);
    assert_eq!(auth_message(r), "Invalid signature");
}

#[test]
fn incomplete_requests_are_refused_in_order() {
    let mut st = AuthState::new();
    st.put_nonce("sid".to_string(), "nonce".to_string());
    assert_eq!(auth_message(verify_evm_login_at(&mut st, &request("  ", "", ""), 1)), "Missing session_id");
    assert_eq!(auth_message(verify_evm_login_at(&mut st, &request("sid", " \t", ""), 1)), "Empty address");
    assert_eq!(auth_message(verify_evm_login_at(&mut st, &request("sid", "0xabc", " "), 1)), "Empty signature");
    // None of these spent the nonce.
    assert_eq!(st.take_nonce("sid"), Some("nonce".to_string()));
}

#[test]
fn unknown_session_is_refused() {
    let mut st = AuthState::new();
    let r = verify_evm_login_at(&mut st, &request("nobody", "0xabc", "sig"), 1);
    assert_eq!(auth_message(r), "Unknown or expired session");
    let r = verify_evm_login(&mut st, &request("nobody", "0xabc", "sig"));
    assert_eq!(r.unwrap_err().kind(), AppErrorKind::Auth);
}

#[test]
fn nonce_cannot_be_used_twice() {
    let key = signer();
    let mut st = AuthState::new();
    let issued = evm_nonce(&mut st);
    let signature = sign(&key, &evm_login_message(&issued.nonce));
    let address = address_of(&key);
    assert_eq!(verify_evm_login(&mut st, &request(&issued.session_id, &address, &signature)).unwrap(), address);
    assert!(st.get_session(&issued.session_id).is_some());
    let again = verify_evm_login(&mut st, &request(&issued.session_id, &address, &signature));
    assert_eq!(auth_message(again), "Unknown or expired session");
}

#[test]
fn sol_login_needs_a_waiting_nonce() {
    let mut st = AuthState::new();
    let issued = sol_nonce(&mut st);
    assert_eq!(issued.session_id.len(), 36);
    let req = SolVerifyRequest { session_id: issued.session_id.clone(), address: "SoLAddr".to_string(), signature: "s".to_string() };
    let ok = verify_sol_login_at(&mut st, req, 77).expect("login");
    assert_eq!(ok.address, "SoLAddr");
    assert_eq!(ok.session_id, issued.session_id);
    let session = st.get_session_at(&issued.session_id, 77).unwrap();
    assert_eq!(session.wallet, "SoLAddr");
    assert_eq!(session.chain, "sol");
    assert_eq!(session.created_at, 77);

    let req = SolVerifyRequest { session_id: issued.session_id.clone(), address: "SoLAddr".to_string(), signature: "s".to_string() };
    let (status, message) = verify_sol_login_at(&mut st, req, 78).unwrap_err();
    assert_eq!(status, 400);
    assert_eq!(message, "Unknown or expired session");

    let req = SolVerifyRequest { session_id: "nobody".to_string(), address: "a".to_string(), signature: "s".to_string() };
    assert!(verify_sol_login(&mut st, req).is_err());
    assert!(st.get_session_at("nobody", 0).is_none());
}

#[test]
fn address_login_nonces() {
    let mut st = web::AuthState::new();
    let req = web::EvmAddressReq { address: "0xAbC".to_string() };
    assert_eq!(st.evm_nonce_with(&req, 0).nonce, "tidbit-login-0");
    assert_eq!(st.evm_nonce_with(&req, 42).nonce, "tidbit-login-42");
    assert_eq!(st.evm_nonce_with(&req, u64::MAX).nonce, "tidbit-login-18446744073709551615");
    assert_eq!(st.evm_nonces.get("0xAbC"), Some(&"tidbit-login-18446744073709551615".to_string()));
    assert_eq!(st.evm_nonces.len(), 1);
    assert_eq!(st.sol_nonces.len(), 0);
    let random = st.evm_nonce(&req).nonce;
    assert!(random.starts_with("tidbit-login-"));
    assert!(random["tidbit-login-".len()..].parse::<u64>().is_ok());
    assert_eq!(st.evm_nonces.get("0xAbC"), Some(&random));

    assert_eq!(web::sol_nonce_with(7).nonce, "tidbit-sol-7");
    assert_eq!(web::sol_nonce_with(1234567890).nonce, "tidbit-sol-1234567890");
    let random = web::sol_nonce().nonce;
    assert!(random["tidbit-sol-".len()..].parse::<u64>().is_ok());
}

#[test]
fn decimal_text_is_appended() {
    for n in [0u64, 5, 9, 10, 19, 100, 909, 65536, u64::MAX] {
        assert_eq!(web::append_decimal("n=".to_string(), n), format!("n={}", n));
    }
}

#[test]
fn address_login() {
    let mut st = web::AuthState::new();
    let verify = web::EvmVerifyReq { address: "0xAbC".to_string(), signature: "anything".to_string() };
    match st.evm_verify(&verify) {
        Err(AppError::BadRequest(m)) => assert_eq!(m, "Nonce expired"),
        other => panic!("expected a refusal, got {:?}", other),
    }
    st.evm_nonce_with(&web::EvmAddressReq { address: "0xAbC".to_string() }, 1);
    let login = st.evm_verify(&verify).expect("login");
    assert_eq!(login.identity, "evm:0xabc");
    assert_eq!(login.token, "token-evm:0xabc");
    // The address is looked up as it was given.
    let other_casing = web::EvmVerifyReq { address: "0xabc".to_string(), signature: "anything".to_string() };
    assert!(st.evm_verify(&other_casing).is_err());

    let login = web::sol_verify(&verify);
    assert_eq!(login.identity, "sol:0xabc");
    assert_eq!(login.token, "token-sol:0xabc");
    let login = web::login_for("x:", "MiXed");
    assert_eq!(login.identity, "x:mixed");
    assert_eq!(login.token, "token-x:mixed");
}
