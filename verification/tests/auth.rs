use base64::engine::general_purpose::URL_SAFE_NO_PAD;
use base64::Engine;
use cachegate::auth::{
    check_claims, parse_payload, AuthError, AuthMethod, AuthState, PresignPayload,
};
use cachegate::config::AuthConfig;
use cachegate::handler::{auth_middleware, auth_middleware_at, parse_bearer_token, rejection};
use ed25519_dalek::{Signer, SigningKey};

const NOW: i64 = 1_700_000_000;

fn signing_key() -> SigningKey {
    SigningKey::from_bytes(&[7u8; 32])
}

fn config(bearer: Option<&str>) -> AuthConfig {
    let key = signing_key();
    AuthConfig {
        public_key: URL_SAFE_NO_PAD.encode(key.verifying_key().as_bytes()),
        private_key: URL_SAFE_NO_PAD.encode(key.to_bytes()),
        bearer_token: bearer.map(|t| t.to_string()),
    }
}

fn state(bearer: Option<&str>) -> AuthState {
    AuthState::from_config(&config(bearer)).unwrap()
}

fn payload_json(v: i64, exp: i64, m: &str, b: &str, p: &str) -> String {
    format!(
        "{{\"v\":{},\"exp\":{},\"m\":\"{}\",\"b\":\"{}\",\"p\":\"{}\"}}",
        v, exp, m, b, p
    )
}

fn sign_payload(key: &SigningKey, payload: &[u8]) -> String {
    let signature = key.sign(payload);
    format!(
        "{}.{}",
        URL_SAFE_NO_PAD.encode(payload),
        URL_SAFE_NO_PAD.encode(signature.to_bytes())
    )
}

fn token(exp: i64, m: &str, b: &str, p: &str) -> String {
    sign_payload(&signing_key(), payload_json(1, exp, m, b, p).as_bytes())
}

#[test]
fn valid_token_is_accepted() {
    let auth = state(None);
    let sig = token(NOW + 60, "GET", "bucket", "dir/obj.txt");
    assert_eq!(
        auth.verify_at(NOW, "GET", "bucket", "dir/obj.txt", &sig),
        Ok(())
    );
}

#[test]
fn token_is_valid_at_its_expiry() {
    let auth = state(None);
    let sig = token(NOW, "GET", "bucket", "obj");
    assert_eq!(auth.verify_at(NOW, "GET", "bucket", "obj", &sig), Ok(()));
    assert_eq!(
        auth.verify_at(NOW + 1, "GET", "bucket", "obj", &sig),
        Err(AuthError::Expired)
    );
}

#[test]
fn method_is_matched_without_regard_to_case() {
    let auth = state(None);
    let sig = token(NOW + 60, "get", "bucket", "obj");
    assert_eq!(auth.verify_at(NOW, "GET", "bucket", "obj", &sig), Ok(()));
    let sig = token(NOW + 60, "HEAD", "bucket", "obj");
    assert_eq!(auth.verify_at(NOW, "head", "bucket", "obj", &sig), Ok(()));
}

#[test]
fn methods_are_compared_in_upper_case() {
    let payload = PresignPayload {
        version: 1,
        expiry: 10,
        method: "\u{17f}".to_string(),
        bucket_id: "b".to_string(),
        path: "p".to_string(),
    };
    assert_eq!(check_claims(&payload, 10, "S", "b", "p"), Ok(()));
    assert_eq!(check_claims(&payload, 10, "s", "b", "p"), Ok(()));
    assert_eq!(
        check_claims(&payload, 10, "T", "b", "p"),
        Err(AuthError::MethodMismatch)
    );
    let sharp = PresignPayload {
        method: "stra\u{df}e".to_string(),
        ..payload
    };
    assert_eq!(check_claims(&sharp, 10, "STRASSE", "b", "p"), Ok(()));
}

#[test]
fn expired_token_fails_as_expired_whatever_the_signature() {
    let auth = state(None);
    let good = token(NOW - 1, "GET", "bucket", "obj");
    assert_eq!(
        auth.verify_at(NOW, "GET", "bucket", "obj", &good),
        Err(AuthError::Expired)
    );
    let other = SigningKey::from_bytes(&[9u8; 32]);
    let forged = sign_payload(&other, payload_json(1, NOW - 1, "GET", "bucket", "obj").as_bytes());
    assert_eq!(
        auth.verify_at(NOW, "GET", "bucket", "obj", &forged),
        Err(AuthError::Expired)
    );
    let payload = URL_SAFE_NO_PAD.encode(payload_json(1, NOW - 1, "GET", "bucket", "obj"));
    let garbage = format!("{}.{}", payload, "!!not base64!!");
    assert_eq!(
        auth.verify_at(NOW, "GET", "bucket", "obj", &garbage),
        Err(AuthError::Expired)
    );
}

#[test]
fn get_token_does_not_authorize_put() {
    let auth = state(None);
    let sig = token(NOW + 60, "GET", "bucket", "obj");
    assert_eq!(
        auth.verify_at(NOW, "PUT", "bucket", "obj", &sig),
        Err(AuthError::MethodMismatch)
    );
    assert_eq!(auth.verify_at(NOW, "GET", "bucket", "obj", &sig), Ok(()));
}

#[test]
fn token_without_dot_is_malformed_signature() {
    let auth = state(None);
    assert_eq!(
        auth.verify_at(NOW, "GET", "b", "p", "nodothere"),
        Err(AuthError::MalformedSignature)
    );
    assert_eq!(
        auth.verify_at(NOW, "GET", "b", "p", ""),
        Err(AuthError::MalformedSignature)
    );
}

#[test]
fn payload_that_is_not_base64_is_malformed_payload() {
    let auth = state(None);
    assert_eq!(
        auth.verify_at(NOW, "GET", "b", "p", "***.AAAA"),
        Err(AuthError::MalformedPayload)
    );
}

#[test]
fn payload_that_is_not_the_expected_json_is_malformed_payload() {
    let auth = state(None);
    let key = signing_key();
    for text in [
        "not json",
        "[1,2,3]",
        "{\"v\":1,\"exp\":5,\"m\":\"GET\",\"b\":\"b\"}",
        "{\"v\":\"1\",\"exp\":5,\"m\":\"GET\",\"b\":\"b\",\"p\":\"p\"}",
        "{\"v\":256,\"exp\":5,\"m\":\"GET\",\"b\":\"b\",\"p\":\"p\"}",
        "{\"v\":-1,\"exp\":5,\"m\":\"GET\",\"b\":\"b\",\"p\":\"p\"}",
        "{\"v\":1,\"exp\":1.5,\"m\":\"GET\",\"b\":\"b\",\"p\":\"p\"}",
        "{\"v\":1,\"exp\":5,\"m\":7,\"b\":\"b\",\"p\":\"p\"}",
    ] {
        let sig = sign_payload(&key, text.as_bytes());
        assert_eq!(
            auth.verify_at(0, "GET", "b", "p", &sig),
            Err(AuthError::MalformedPayload),
            "{}",
            text
        );
    }
}

#[test]
fn unsupported_version_comes_before_expiry() {
    let auth = state(None);
    let key = signing_key();
    let sig = sign_payload(&key, payload_json(2, NOW - 1, "GET", "b", "p").as_bytes());
    assert_eq!(
        auth.verify_at(NOW, "GET", "b", "p", &sig),
        Err(AuthError::UnsupportedVersion)
    );
    let sig = sign_payload(&key, payload_json(0, NOW + 1, "GET", "b", "p").as_bytes());
    assert_eq!(
        auth.verify_at(NOW, "GET", "b", "p", &sig),
        Err(AuthError::UnsupportedVersion)
    );
}

#[test]
fn bucket_and_path_must_match_exactly() {
    let auth = state(None);
    let sig = token(NOW + 60, "GET", "bucket", "obj");
    assert_eq!(
        auth.verify_at(NOW, "GET", "Bucket", "obj", &sig),
        Err(AuthError::BucketMismatch)
    );
    assert_eq!(
        auth.verify_at(NOW, "GET", "bucket", "obj2", &sig),
        Err(AuthError::PathMismatch)
    );
    assert_eq!(
        auth.verify_at(NOW, "PUT", "other", "obj2", &sig),
        Err(AuthError::MethodMismatch)
    );
}

#[test]
fn signature_part_must_be_64_bytes_of_base64() {
    let auth = state(None);
    let payload = URL_SAFE_NO_PAD.encode(payload_json(1, NOW + 60, "GET", "b", "p"));
    let bad = format!("{}.{}", payload, "!!!");
    assert_eq!(
        auth.verify_at(NOW, "GET", "b", "p", &bad),
        Err(AuthError::MalformedSignature)
    );
    let short = format!("{}.{}", payload, URL_SAFE_NO_PAD.encode([1u8; 63]));
    assert_eq!(
        auth.verify_at(NOW, "GET", "b", "p", &short),
        Err(AuthError::MalformedSignature)
    );
    let empty = format!("{}.", payload);
    assert_eq!(
        auth.verify_at(NOW, "GET", "b", "p", &empty),
        Err(AuthError::MalformedSignature)
    );
}

#[test]
fn signature_by_another_key_is_invalid() {
    let auth = state(None);
    let other = SigningKey::from_bytes(&[9u8; 32]);
    let sig = sign_payload(&other, payload_json(1, NOW + 60, "GET", "b", "p").as_bytes());
    assert_eq!(
        auth.verify_at(NOW, "GET", "b", "p", &sig),
        Err(AuthError::InvalidSignature)
    );
}

#[test]
fn signature_covers_the_raw_payload_bytes() {
    let auth = state(None);
    let key = signing_key();
    let signed = payload_json(1, NOW + 60, "GET", "b", "p");
    let spaced = format!(" {}", signed);
    let signature = key.sign(signed.as_bytes());
    let sig = format!(
        "{}.{}",
        URL_SAFE_NO_PAD.encode(spaced.as_bytes()),
        URL_SAFE_NO_PAD.encode(signature.to_bytes())
    );
    assert_eq!(
        auth.verify_at(NOW, "GET", "b", "p", &sig),
        Err(AuthError::InvalidSignature)
    );
    let sig = sign_payload(&key, spaced.as_bytes());
    assert_eq!(auth.verify_at(NOW, "GET", "b", "p", &sig), Ok(()));
}

#[test]
fn only_the_first_dot_splits_the_token() {
    let auth = state(None);
    let sig = format!("{}.x", token(NOW + 60, "GET", "b", "p"));
    assert_eq!(
        auth.verify_at(NOW, "GET", "b", "p", &sig),
        Err(AuthError::MalformedSignature)
    );
}

#[test]
fn verify_uses_the_clock() {
    let auth = state(None);
    let far = token(i64::MAX, "GET", "b", "p");
    assert_eq!(auth.verify("GET", "b", "p", &far), Ok(()));
    let past = token(1, "GET", "b", "p");
    assert_eq!(auth.verify("GET", "b", "p", &past), Err(AuthError::Expired));
}

#[test]
fn payload_is_read_field_by_field() {
    let text = "{\"p\":\"a/b\",\"extra\":[1],\"b\":\"bk\",\"m\":\"PUT\",\"exp\":-5,\"v\":255}";
    let payload = parse_payload(&text.as_bytes().to_vec()).unwrap();
    assert_eq!(payload.version, 255);
    assert_eq!(payload.expiry, -5);
    assert_eq!(payload.method, "PUT");
    assert_eq!(payload.bucket_id, "bk");
    assert_eq!(payload.path, "a/b");
    assert!(parse_payload(&b"{}".to_vec()).is_none());
    assert!(parse_payload(&Vec::new()).is_none());
}

#[test]
fn claims_are_checked_in_order() {
    let payload = PresignPayload {
        version: 1,
        expiry: 10,
        method: "Get".to_string(),
        bucket_id: "b".to_string(),
        path: "p".to_string(),
    };
    assert_eq!(check_claims(&payload, 10, "GET", "b", "p"), Ok(()));
    assert_eq!(
        check_claims(&payload, 11, "PUT", "x", "y"),
        Err(AuthError::Expired)
    );
    assert_eq!(
        check_claims(&payload, 10, "PUT", "x", "y"),
        Err(AuthError::MethodMismatch)
    );
    assert_eq!(
        check_claims(&payload, 10, "GET", "x", "y"),
        Err(AuthError::BucketMismatch)
    );
    assert_eq!(
        check_claims(&payload, 10, "GET", "b", "y"),
        Err(AuthError::PathMismatch)
    );
    let old = PresignPayload {
        version: 3,
        ..payload
    };
    assert_eq!(
        check_claims(&old, 11, "PUT", "x", "y"),
        Err(AuthError::UnsupportedVersion)
    );
}

#[test]
fn key_material_must_decode_to_valid_keys() {
    let good = config(None);
    let mut bad = good.clone();
    bad.public_key = "***".to_string();
    assert_eq!(
        AuthState::from_config(&bad).unwrap_err(),
        AuthError::InvalidKeyMaterial
    );
    let mut bad = good.clone();
    bad.private_key = "***".to_string();
    assert_eq!(
        AuthState::from_config(&bad).unwrap_err(),
        AuthError::InvalidKeyMaterial
    );
    let mut bad = good.clone();
    bad.public_key = URL_SAFE_NO_PAD.encode([1u8; 31]);
    assert_eq!(
        AuthState::from_config(&bad).unwrap_err(),
        AuthError::InvalidKeyMaterial
    );
    let mut bad = good.clone();
    bad.private_key = URL_SAFE_NO_PAD.encode([1u8; 33]);
    assert_eq!(
        AuthState::from_config(&bad).unwrap_err(),
        AuthError::InvalidKeyMaterial
    );
    let mut padded = good.clone();
    padded.public_key = format!("{}=", good.public_key);
    assert_eq!(
        AuthState::from_config(&padded).unwrap_err(),
        AuthError::InvalidKeyMaterial
    );
}

#[test]
fn bytes_that_are_no_curve_point_are_invalid_key_material() {
    let mut found = false;
    for first in 0u8..=255 {
        let mut bytes = [0u8; 32];
        bytes[0] = first;
        bytes[31] = 0x7f;
        if ed25519_dalek::VerifyingKey::from_bytes(&bytes).is_err() {
            let mut bad = config(None);
            bad.public_key = URL_SAFE_NO_PAD.encode(bytes);
            assert_eq!(
                AuthState::from_config(&bad).unwrap_err(),
                AuthError::InvalidKeyMaterial
            );
            found = true;
            break;
        }
    }
    assert!(found);
}

#[test]
fn public_key_must_belong_to_private_key() {
    let mut bad = config(None);
    let other = SigningKey::from_bytes(&[9u8; 32]);
    bad.public_key = URL_SAFE_NO_PAD.encode(other.verifying_key().as_bytes());
    assert_eq!(
        AuthState::from_config(&bad).unwrap_err(),
        AuthError::KeyMismatch
    );
    assert!(AuthState::from_config(&config(None)).is_ok());
}

#[test]
fn bearer_token_is_compared_with_the_configured_one() {
    let auth = state(Some("cachegate-test-token"));
    assert_eq!(auth.verify_bearer("cachegate-test-token"), Ok(()));
    assert_eq!(
        auth.verify_bearer("cachegate-test-tokem"),
        Err(AuthError::InvalidBearer)
    );
    assert_eq!(auth.verify_bearer(""), Err(AuthError::InvalidBearer));
    assert_eq!(
        state(None).verify_bearer("cachegate-test-token"),
        Err(AuthError::BearerNotConfigured)
    );
}

#[test]
fn bearer_header_is_scheme_then_token() {
    assert_eq!(parse_bearer_token("Bearer abc"), Some("abc".to_string()));
    assert_eq!(
        parse_bearer_token("  bEaReR \t abc  def"),
        Some("abc".to_string())
    );
    assert_eq!(parse_bearer_token("Bearer"), None);
    assert_eq!(parse_bearer_token("Bearer   "), None);
    assert_eq!(parse_bearer_token("Basic abc"), None);
    assert_eq!(parse_bearer_token(""), None);
    assert_eq!(parse_bearer_token("Bearerabc"), None);
}

#[test]
fn bearer_and_presign_are_interchangeable() {
    let auth = state(Some("cachegate-test-token"));
    let sig = token(NOW + 60, "GET", "bucket", "obj");
    let by_bearer = auth_middleware_at(
        &auth,
        NOW,
        "GET",
        "bucket",
        "obj",
        Some("Bearer cachegate-test-token"),
        None,
    )
    .unwrap();
    assert_eq!(by_bearer.method, AuthMethod::Bearer);
    assert_eq!(by_bearer.method.as_str(), "bearer");
    let by_sig = auth_middleware_at(&auth, NOW, "GET", "bucket", "obj", None, Some(&sig)).unwrap();
    assert_eq!(by_sig.method, AuthMethod::Presign);
    assert_eq!(by_sig.method.as_str(), "presign");
    let both_bad = auth_middleware_at(
        &auth,
        NOW,
        "GET",
        "bucket",
        "obj",
        Some("Bearer wrong"),
        Some("bad.sig"),
    )
    .unwrap_err();
    assert_eq!(both_bad, AuthError::MalformedPayload);
    let answer = rejection(both_bad);
    assert_eq!(answer.status, 401);
    assert_eq!(answer.message, "invalid auth");
}

#[test]
fn bearer_failure_falls_back_to_presign() {
    let auth = state(Some("cachegate-test-token"));
    let sig = token(NOW + 60, "GET", "bucket", "obj");
    let ok = auth_middleware_at(
        &auth,
        NOW,
        "GET",
        "bucket",
        "obj",
        Some("Bearer wrong"),
        Some(&sig),
    )
    .unwrap();
    assert_eq!(ok.method, AuthMethod::Presign);
    let bearer_wins = auth_middleware_at(
        &auth,
        NOW,
        "GET",
        "bucket",
        "obj",
        Some("Bearer cachegate-test-token"),
        Some("bad.sig"),
    )
    .unwrap();
    assert_eq!(bearer_wins.method, AuthMethod::Bearer);
}

#[test]
fn missing_credentials_are_reported() {
    let auth = state(Some("cachegate-test-token"));
    assert_eq!(
        auth_middleware_at(&auth, NOW, "GET", "b", "p", None, None).unwrap_err(),
        AuthError::MissingAuth
    );
    assert_eq!(
        auth_middleware_at(&auth, NOW, "GET", "b", "p", Some("Basic abc"), None).unwrap_err(),
        AuthError::MissingAuth
    );
    assert_eq!(
        auth_middleware_at(&auth, NOW, "GET", "b", "p", Some("Bearer wrong"), None).unwrap_err(),
        AuthError::InvalidBearer
    );
    assert_eq!(
        auth_middleware_at(&state(None), NOW, "GET", "b", "p", Some("Bearer x"), None)
            .unwrap_err(),
        AuthError::BearerNotConfigured
    );
    assert_eq!(
        auth_middleware(&auth, "GET", "b", "p", None, None).unwrap_err(),
        AuthError::MissingAuth
    );
}

#[test]
fn every_error_has_its_sentence() {
    let all = [
        (AuthError::MalformedSignature, "malformed signature"),
        (AuthError::MalformedPayload, "malformed payload"),
        (AuthError::InvalidSignature, "invalid signature"),
        (AuthError::UnsupportedVersion, "unsupported version"),
        (AuthError::Expired, "expired signature"),
        (AuthError::MethodMismatch, "method mismatch"),
        (AuthError::BucketMismatch, "bucket mismatch"),
        (AuthError::PathMismatch, "path mismatch"),
        (AuthError::InvalidKeyMaterial, "invalid key material"),
        (AuthError::KeyMismatch, "public and private keys do not match"),
        (AuthError::MissingAuth, "missing auth"),
        (AuthError::InvalidBearer, "invalid bearer token"),
        (AuthError::BearerNotConfigured, "bearer token not configured"),
    ];
    for (error, text) in all {
        assert_eq!(error.message(), text);
    }
}
