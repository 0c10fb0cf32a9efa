use base64::Engine;
use placetopay::auth::{compute_digest, PlacetopayAuth, PlacetopayAuthType};
use placetopay::clock::{seed_from_timestamp, UtcInstant};
use placetopay::domain::ConnectorAuthType;
use placetopay::errors::ConnectorError;

fn credentials() -> PlacetopayAuthType {
    PlacetopayAuthType { login: "merchant-login".to_string(), tran_key: "secret".to_string() }
}

fn body_key() -> ConnectorAuthType {
    ConnectorAuthType::BodyKey { api_key: "merchant-login".to_string(), key1: "secret".to_string() }
}

fn new_year() -> UtcInstant {
    UtcInstant { year: 2024, month: 1, day: 1, hour: 0, minute: 0, second: 0, millisecond: 0 }
}

#[test]
fn digest_matches_golden_vector() {
    let digest = compute_digest(&[0u8; 16], "2024-01-01T00:00:00.000+00:00", "secret").unwrap();
    assert_eq!(digest, "aTIstXz901w5huBE0mUWJ2n+OvEUoe2BCtDFukTH6ug=");
}

#[test]
fn digest_is_reproducible() {
    let nonce: [u8; 16] = [0, 1, 2, 3, 4, 5, 6, 7, 8, 9, 10, 11, 12, 13, 14, 15];
    let first = compute_digest(&nonce, "2024-01-01T00:00:00+00:00", "s3cr3t-k\u{20ac}y").unwrap();
    let second = compute_digest(&nonce, "2024-01-01T00:00:00+00:00", "s3cr3t-k\u{20ac}y").unwrap();
    assert_eq!(first, "Ey2ZDTRTBdVnCNratruTbxojoWNNA9DvHPQ58uBqG/A=");
    assert_eq!(first, second);
}

#[test]
fn digest_depends_on_every_part() {
    let base = compute_digest(&[0u8; 16], "2024-01-01T00:00:00.000+00:00", "secret").unwrap();
    let mut nonce = [0u8; 16];
    nonce[15] = 1;
    assert_ne!(compute_digest(&nonce, "2024-01-01T00:00:00.000+00:00", "secret").unwrap(), base);
    assert_ne!(compute_digest(&[0u8; 16], "2024-01-01T00:00:00.001+00:00", "secret").unwrap(), base);
    assert_ne!(compute_digest(&[0u8; 16], "2024-01-01T00:00:00.000+00:00", "Secret").unwrap(), base);
}

#[test]
fn digest_is_not_its_input() {
    let digest = compute_digest(&[0u8; 16], "seed", "secret").unwrap();
    assert_eq!(digest.len(), 44);
    assert!(!digest.contains("secret"));
    assert!(!digest.contains("seed"));
}

#[test]
fn token_from_parts_has_the_four_fields() {
    let token = PlacetopayAuth::from_parts(
        &credentials(),
        &[0u8; 16],
        "2024-01-01T00:00:00.000+00:00".to_string(),
    )
    .unwrap();
    assert_eq!(token.login, "merchant-login");
    assert_eq!(token.tran_key, "aTIstXz901w5huBE0mUWJ2n+OvEUoe2BCtDFukTH6ug=");
    assert_eq!(token.nonce, "AAAAAAAAAAAAAAAAAAAAAA==");
    assert_eq!(token.seed, "2024-01-01T00:00:00.000+00:00");
}

#[test]
fn token_never_holds_the_secret() {
    let token =
        PlacetopayAuth::from_parts(&credentials(), &[7u8; 16], "2024-01-01T00:00:00+00:00".to_string())
            .unwrap();
    assert_ne!(token.tran_key, "secret");
    assert_ne!(token.nonce, "secret");
}

#[test]
fn nonce_is_base64_of_the_raw_bytes() {
    let nonce: [u8; 16] = [0, 1, 2, 3, 4, 5, 6, 7, 8, 9, 10, 11, 12, 13, 14, 15];
    let token =
        PlacetopayAuth::from_parts(&credentials(), &nonce, "2024-01-01T00:00:00+00:00".to_string())
            .unwrap();
    assert_eq!(token.nonce, "AAECAwQFBgcICQoLDA0ODw==");
}

#[test]
fn token_at_a_moment() {
    let nonce: [u8; 16] = [0, 1, 2, 3, 4, 5, 6, 7, 8, 9, 10, 11, 12, 13, 14, 15];
    let now = UtcInstant {
        year: 2026,
        month: 10,
        day: 28,
        hour: 13,
        minute: 5,
        second: 9,
        millisecond: 417,
    };
    let credentials =
        PlacetopayAuthType { login: "login".to_string(), tran_key: "tran-key".to_string() };
    let token = PlacetopayAuth::at(&credentials, &nonce, &now).unwrap();
    assert_eq!(token.seed, "2026-10-28T13:05:09+00:00");
    assert_eq!(token.tran_key, "KWeIka19h748TglmeEl3FzaQ32ZWwVTNFwt+3sgvpag=");
    assert_eq!(token.nonce, "AAECAwQFBgcICQoLDA0ODw==");
    assert_eq!(token.login, "login");
}

#[test]
fn token_at_an_unwritable_moment_fails() {
    let mut now = new_year();
    now.year = 10000;
    let r = PlacetopayAuth::at(&credentials(), &[0u8; 16], &now);
    assert!(matches!(r, Err(ConnectorError::RequestEncodingFailed)));
}

#[test]
fn timestamp_has_millisecond_precision() {
    assert_eq!(new_year().format_timestamp().unwrap(), "2024-01-01T00:00:00.000Z");
    let late = UtcInstant {
        year: 1999,
        month: 12,
        day: 31,
        hour: 23,
        minute: 59,
        second: 59,
        millisecond: 999,
    };
    assert_eq!(late.format_timestamp().unwrap(), "1999-12-31T23:59:59.999Z");
    let early =
        UtcInstant { year: 7, month: 2, day: 3, hour: 4, minute: 5, second: 6, millisecond: 8 };
    assert_eq!(early.format_timestamp().unwrap(), "0007-02-03T04:05:06.008Z");
}

#[test]
fn timestamp_refuses_components_out_of_range() {
    let mut bad = new_year();
    bad.year = -1;
    assert_eq!(bad.format_timestamp(), Err(ConnectorError::RequestEncodingFailed));
    let mut bad = new_year();
    bad.month = 13;
    assert_eq!(bad.format_timestamp(), Err(ConnectorError::RequestEncodingFailed));
    let mut bad = new_year();
    bad.month = 0;
    assert_eq!(bad.format_timestamp(), Err(ConnectorError::RequestEncodingFailed));
    let mut bad = new_year();
    bad.day = 32;
    assert_eq!(bad.format_timestamp(), Err(ConnectorError::RequestEncodingFailed));
    let mut bad = new_year();
    bad.hour = 24;
    assert_eq!(bad.format_timestamp(), Err(ConnectorError::RequestEncodingFailed));
    let mut bad = new_year();
    bad.minute = 60;
    assert_eq!(bad.format_timestamp(), Err(ConnectorError::RequestEncodingFailed));
    let mut bad = new_year();
    bad.second = 60;
    assert_eq!(bad.format_timestamp(), Err(ConnectorError::RequestEncodingFailed));
    let mut bad = new_year();
    bad.millisecond = 1000;
    assert_eq!(bad.format_timestamp(), Err(ConnectorError::RequestEncodingFailed));
}

#[test]
fn seed_replaces_the_last_five_characters() {
    assert_eq!(seed_from_timestamp("2024-01-01T00:00:00.000Z").unwrap(), "2024-01-01T00:00:00+00:00");
    assert_eq!(
        seed_from_timestamp("2024-01-01T00:00:00.000+0000").unwrap(),
        "2024-01-01T00:00:00.000+00:00"
    );
    assert_eq!(seed_from_timestamp("12345").unwrap(), "+00:00");
    assert_eq!(seed_from_timestamp("a\u{e9}\u{20ac}xyzuv").unwrap(), "a\u{e9}\u{20ac}+00:00");
}

#[test]
fn seed_needs_five_characters() {
    assert_eq!(seed_from_timestamp("1234"), Err(ConnectorError::RequestEncodingFailed));
    assert_eq!(seed_from_timestamp(""), Err(ConnectorError::RequestEncodingFailed));
}

#[test]
fn credentials_come_from_a_body_key() {
    let credentials = PlacetopayAuthType::try_from(&body_key()).unwrap();
    assert_eq!(credentials.login, "merchant-login");
    assert_eq!(credentials.tran_key, "secret");
}

#[test]
fn other_credential_shapes_are_refused() {
    let shapes = vec![
        ConnectorAuthType::TemporaryAuth,
        ConnectorAuthType::NoKey,
        ConnectorAuthType::HeaderKey { api_key: "k".to_string() },
        ConnectorAuthType::SignatureKey {
            api_key: "k".to_string(),
            key1: "a".to_string(),
            api_secret: "b".to_string(),
        },
        ConnectorAuthType::MultiAuthKey {
            api_key: "k".to_string(),
            key1: "a".to_string(),
            api_secret: "b".to_string(),
            key2: "c".to_string(),
        },
        ConnectorAuthType::CertificateAuth {
            certificate: "c".to_string(),
            private_key: "p".to_string(),
        },
    ];
    for shape in shapes.iter() {
        assert!(matches!(
            PlacetopayAuthType::try_from(shape),
            Err(ConnectorError::FailedToObtainAuthType)
        ));
        assert!(matches!(
            PlacetopayAuth::try_from(shape),
            Err(ConnectorError::FailedToObtainAuthType)
        ));
    }
}

#[test]
fn issued_token_is_consistent() {
    let token = PlacetopayAuth::try_from(&body_key()).unwrap();
    assert_eq!(token.login, "merchant-login");
    let raw = base64::engine::general_purpose::STANDARD.decode(&token.nonce).unwrap();
    assert_eq!(raw.len(), 16);
    let mut nonce = [0u8; 16];
    nonce.copy_from_slice(&raw);
    assert_eq!(token.tran_key, compute_digest(&nonce, &token.seed, "secret").unwrap());
    assert_eq!(token.seed.len(), 25);
    assert!(token.seed.ends_with("+00:00"));
    assert!(token.seed.starts_with("20"));
    assert_eq!(&token.seed[10..11], "T");
    let digest = base64::engine::general_purpose::STANDARD.decode(&token.tran_key).unwrap();
    assert_eq!(digest.len(), 32);
}

#[test]
fn consecutive_tokens_differ() {
    let first = PlacetopayAuth::try_from(&body_key()).unwrap();
    let second = PlacetopayAuth::try_from(&body_key()).unwrap();
    assert_ne!(first.nonce, second.nonce);
    assert_ne!(first.tran_key, second.tran_key);
}
