use captcha_gateway::config::ConfigError;
use captcha_gateway::config::GatewayConfig;
use captcha_gateway::gateway::begin;
use captcha_gateway::gateway::conclude;
use captcha_gateway::gateway::error_reply;
use captcha_gateway::gateway::signed_reply;
use captcha_gateway::gateway::GatewayError;
use captcha_gateway::gateway::Step;
use captcha_gateway::gateway::VerificationOutcome;
use captcha_gateway::gateway::VerificationRequest;
use captcha_gateway::redirect::compose_redirect;
use captcha_gateway::redirect::redirect_for_signature;
use captcha_gateway::signer::sign_token;
use captcha_gateway::signer::sign_token_hex;
use captcha_gateway::signer::signature_to_hex;
use captcha_gateway::submission::field_for_lowered_name;
use captcha_gateway::submission::field_for_name;
use captcha_gateway::submission::parse_parts;
use captcha_gateway::submission::Field;
use captcha_gateway::submission::Submission;
use captcha_gateway::submission::SubmissionError;
use captcha_gateway::submission::SubmissionParser;

use ed25519_dalek::Signer;

const ZERO_KEY_B64: &str = "AAAAAAAAAAAAAAAAAAAAAAAAAAAAAAAAAAAAAAAAAAA=";

fn config() -> GatewayConfig {
    GatewayConfig::from_settings(ZERO_KEY_B64, "shared-secret").unwrap()
}

fn parts(list: &[(&str, &str)]) -> Vec<(String, String)> {
    list.iter().map(|(n, v)| (n.to_string(), v.to_string())).collect()
}

fn full_form() -> Vec<(String, String)> {
    parts(&[
        ("g-recaptcha-response", "solved"),
        ("request-token", "abc123"),
        ("redirect-url", "https://example.com/done"),
    ])
}

fn submission(challenge: &str, token: &str, url: &str) -> Submission {
    Submission {
        challenge_response: challenge.to_string(),
        request_token: token.to_string(),
        redirect_url: url.to_string(),
    }
}

fn dalek_hex(key: &[u8; 32], message: &[u8]) -> String {
    let signing_key = ed25519_dalek::SigningKey::from_bytes(key);
    hex::encode(signing_key.sign(message).to_bytes())
}

#[test]
fn signing_twice_gives_the_same_signature() {
    let key = [7u8; 32];
    let first = sign_token_hex(&key, "some token");
    let second = sign_token_hex(&key, "some token");
    assert_eq!(first, second);
    assert_eq!(sign_token(&key, "x"), sign_token(&key, "x"));
}

#[test]
fn different_tokens_give_different_signatures() {
    let key = [0u8; 32];
    assert_ne!(sign_token_hex(&key, "abc123"), sign_token_hex(&key, "abc124"));
    assert_ne!(sign_token_hex(&key, ""), sign_token_hex(&key, "a"));
}

#[test]
fn signature_matches_the_signing_algorithm() {
    let key = [0u8; 32];
    assert_eq!(sign_token_hex(&key, "abc123"), dalek_hex(&key, b"abc123"));
    let sig = sign_token(&key, "abc123");
    assert_eq!(hex::encode(sig), dalek_hex(&key, b"abc123"));
}

#[test]
fn signature_of_published_ed25519_vector() {
    let key: [u8; 32] = hex::decode("9d61b19deffd5a60ba844af492ec2cc44449c5697b326919703bac031cae7f60")
        .unwrap()
        .try_into()
        .unwrap();
    assert_eq!(
        sign_token_hex(&key, ""),
        "e5564300c360ac729086e2cc806e828a84877f1eb8e5d974d873e065224901555fb8821590a33bacc61e39701cf9b46bd25bf5f0595bbe24655141438e7a100b"
    );
}

#[test]
fn signature_hex_is_lower_case_two_digits_per_byte() {
    let mut sig = [0u8; 64];
    sig[0] = 0xab;
    sig[1] = 0x0f;
    sig[63] = 0xf0;
    let text = signature_to_hex(&sig);
    assert_eq!(text.len(), 128);
    assert!(text.starts_with("ab0f00"));
    assert!(text.ends_with("00f0"));
}

#[test]
fn config_accepts_a_32_byte_key() {
    let c = config();
    assert_eq!(c.signing_key(), &[0u8; 32]);
    assert_eq!(c.verification_secret(), "shared-secret");
    let other = GatewayConfig::from_settings("AAECAwQFBgcICQoLDA0ODxAREhMUFRYXGBkaGxwdHh8=", "s").unwrap();
    let expected: Vec<u8> = (0u8..32).collect();
    assert_eq!(other.signing_key().to_vec(), expected);
}

#[test]
fn config_errors() {
    assert_eq!(GatewayConfig::from_settings("", "s").err(), Some(ConfigError::SigningKeyNotSet));
    assert_eq!(GatewayConfig::from_settings("not base64!", "s").err(), Some(ConfigError::SigningKeyInvalid));
    assert_eq!(
        GatewayConfig::from_settings("AAAAAAAAAAAAAAAAAAAAAAAAAAAAAAAAAAAAAAAAAA==", "s").err(),
        Some(ConfigError::SigningKeyLength)
    );
    assert_eq!(GatewayConfig::from_settings(ZERO_KEY_B64, "").err(), Some(ConfigError::VerificationSecretNotSet));
    assert_eq!(GatewayConfig::from_settings("", "").err(), Some(ConfigError::SigningKeyNotSet));
    assert_eq!(GatewayConfig::from_decoded(None, "s").err(), Some(ConfigError::SigningKeyInvalid));
    assert_eq!(GatewayConfig::from_decoded(Some(vec![1u8; 33]), "s").err(), Some(ConfigError::SigningKeyLength));
    assert!(GatewayConfig::from_decoded(Some(vec![1u8; 32]), "s").is_ok());
}

#[test]
fn config_error_replies_are_server_errors() {
    let r = error_reply(&GatewayError::Config(ConfigError::SigningKeyNotSet));
    assert_eq!(r.status, 500);
    assert_eq!(r.body, "Private key is not set.");
    assert_eq!(error_reply(&GatewayError::Config(ConfigError::SigningKeyInvalid)).body, "Invalid private key.");
    assert_eq!(error_reply(&GatewayError::Config(ConfigError::SigningKeyLength)).body, "Invalid private key length.");
    let r = error_reply(&GatewayError::Config(ConfigError::VerificationSecretNotSet));
    assert_eq!(r.status, 500);
    assert_eq!(r.body, "Recaptcha secret is not set.");
    assert!(r.location.is_none());
}

#[test]
fn field_names_match_without_case() {
    assert_eq!(field_for_name("G-RECAPTCHA-RESPONSE"), Some(Field::ChallengeResponse));
    assert_eq!(field_for_name("Request-Token"), Some(Field::RequestToken));
    assert_eq!(field_for_name("redirect-URL"), Some(Field::RedirectUrl));
    assert_eq!(field_for_name("other"), None);
    assert_eq!(field_for_name(""), None);
    assert_eq!(field_for_lowered_name("request-token"), Some(Field::RequestToken));
    assert_eq!(field_for_lowered_name("Request-Token"), None);
}

#[test]
fn full_form_parses() {
    let s = parse_parts(&full_form()).unwrap();
    assert_eq!(s.challenge_response, "solved");
    assert_eq!(s.request_token, "abc123");
    assert_eq!(s.redirect_url, "https://example.com/done");
}

#[test]
fn mixed_case_names_and_unknown_parts() {
    let form = parts(&[
        ("", "ignored"),
        ("Redirect-Url", "https://a.example/"),
        ("extra", ""),
        ("REQUEST-TOKEN", "t1"),
        ("request-token", "t2"),
        ("G-Recaptcha-Response", "ok"),
    ]);
    let s = parse_parts(&form).unwrap();
    assert_eq!(s.request_token, "t2");
    assert_eq!(s.redirect_url, "https://a.example/");
    assert_eq!(s.challenge_response, "ok");
}

#[test]
fn missing_fields_are_refused_without_a_call() {
    let c = config();
    let cases = [
        (parts(&[("request-token", "t"), ("redirect-url", "u")]), Field::ChallengeResponse, "Recaptcha response is missing."),
        (parts(&[("g-recaptcha-response", "r"), ("redirect-url", "u")]), Field::RequestToken, "Request token is missing."),
        (parts(&[("g-recaptcha-response", "r"), ("request-token", "t")]), Field::RedirectUrl, "Redirect URL is missing."),
    ];
    for (form, field, message) in cases {
        let parsed = parse_parts(&form);
        assert_eq!(parsed.as_ref().err(), Some(&SubmissionError::Missing(field)));
        match begin(&c, &parsed) {
            Step::Respond(reply) => {
                assert_eq!(reply.status, 400);
                assert_eq!(reply.body, message);
                assert!(reply.location.is_none());
            }
            Step::Verify(_) => panic!("a refused form must not reach the verification service"),
        }
    }
    assert_eq!(parse_parts(&Vec::new()).err(), Some(SubmissionError::Missing(Field::ChallengeResponse)));
}

#[test]
fn empty_fields_are_refused_without_a_call() {
    let c = config();
    let cases = [
        ("g-recaptcha-response", Field::ChallengeResponse, "Recaptcha response is empty."),
        ("request-token", Field::RequestToken, "Request token is empty."),
        ("redirect-url", Field::RedirectUrl, "Redirect URL is empty."),
    ];
    for (name, field, message) in cases {
        let mut form = full_form();
        form.push((name.to_string(), String::new()));
        let parsed = parse_parts(&form);
        assert_eq!(parsed.as_ref().err(), Some(&SubmissionError::Empty(field)));
        match begin(&c, &parsed) {
            Step::Respond(reply) => {
                assert_eq!(reply.status, 400);
                assert_eq!(reply.body, message);
                assert!(!reply.body.contains("missing"));
            }
            Step::Verify(_) => panic!("a refused form must not reach the verification service"),
        }
    }
}

#[test]
fn empty_field_comes_before_a_missing_one() {
    let form = parts(&[("Request-Token", "")]);
    assert_eq!(parse_parts(&form).err(), Some(SubmissionError::Empty(Field::RequestToken)));
}

#[test]
fn parser_steps() {
    let mut p = SubmissionParser::new();
    assert_eq!(p.accept("unknown", ""), Ok(()));
    assert_eq!(p.accept_field(Field::RequestToken, ""), Err(SubmissionError::Empty(Field::RequestToken)));
    assert_eq!(p.accept_lowered("G-RECAPTCHA-RESPONSE", ""), Ok(()));
    assert_eq!(p.accept_lowered("g-recaptcha-response", "r"), Ok(()));
    assert_eq!(p.accept("REQUEST-token", "t"), Ok(()));
    assert_eq!(p.accept_field(Field::RedirectUrl, "u"), Ok(()));
    let s = p.finish().unwrap();
    assert_eq!((s.challenge_response.as_str(), s.request_token.as_str(), s.redirect_url.as_str()), ("r", "t", "u"));
}

#[test]
fn complete_form_goes_to_verification() {
    let c = config();
    let parsed = parse_parts(&full_form());
    match begin(&c, &parsed) {
        Step::Verify(req) => {
            assert_eq!(req.secret, "shared-secret");
            assert_eq!(req.response, "solved");
            let fields = req.form_fields();
            assert_eq!(
                fields,
                vec![
                    ("secret".to_string(), "shared-secret".to_string()),
                    ("response".to_string(), "solved".to_string())
                ]
            );
        }
        Step::Respond(_) => panic!("a complete form must be verified"),
    }
}

#[test]
fn verification_request_form_fields() {
    let req = VerificationRequest { secret: "k".to_string(), response: "r".to_string() };
    let fields = req.form_fields();
    assert_eq!(fields[0], ("secret".to_string(), "k".to_string()));
    assert_eq!(fields[1], ("response".to_string(), "r".to_string()));
}

#[test]
fn rejected_challenge_gets_no_signature() {
    let reply = conclude(&config(), &submission("bad", "abc123", "https://example.com/done"), &VerificationOutcome::Verified(false));
    assert_eq!(reply.status, 400);
    assert_eq!(reply.body, "Recaptcha response is invalid.");
    assert!(reply.location.is_none());
}

#[test]
fn malformed_verification_answer_is_a_server_error() {
    let reply = conclude(&config(), &submission("r", "abc123", "https://example.com/done"), &VerificationOutcome::MalformedResponse);
    assert_eq!(reply.status, 500);
    assert_eq!(reply.body, "Recaptcha response is invalid.");
    assert!(reply.location.is_none());
}

#[test]
fn transport_failure_then_success() {
    let c = config();
    let s = submission("r", "abc123", "https://example.com/done");
    let failed = conclude(&c, &s, &VerificationOutcome::TransportFailure("connection refused".to_string()));
    assert_eq!(failed.status, 500);
    assert_eq!(failed.body, "Recaptcha request failed: connection refused");
    assert!(failed.location.is_none());
    let ok = conclude(&c, &s, &VerificationOutcome::Verified(true));
    assert_eq!(ok.status, 303);
    assert!(ok.location.is_some());
}

#[test]
fn end_to_end_redirect_with_zero_key() {
    let c = config();
    let parsed = parse_parts(&full_form());
    assert!(matches!(begin(&c, &parsed), Step::Verify(_)));
    let s = parsed.unwrap();
    let reply = conclude(&c, &s, &VerificationOutcome::Verified(true));
    let expected_hex = dalek_hex(&[0u8; 32], b"abc123");
    assert_eq!(reply.status, 303);
    assert_eq!(reply.body, "Redirecting...");
    assert_eq!(
        reply.location.unwrap(),
        format!("https://example.com/done?request-token=abc123&signature={}", expected_hex)
    );
}

#[test]
fn resubmission_gives_the_same_signature() {
    let c = config();
    let first = conclude(&c, &submission("first", "abc123", "https://example.com/done"), &VerificationOutcome::Verified(true));
    let second = conclude(&c, &submission("second", "abc123", "https://example.com/done"), &VerificationOutcome::Verified(true));
    assert_eq!(first.location, second.location);
    assert_eq!(first.location.unwrap(), second.location.unwrap());
}

#[test]
fn redirect_is_plain_concatenation() {
    assert_eq!(compose_redirect("https://e.x/p", "a&b", "00ff"), "https://e.x/p?request-token=a&b&signature=00ff");
    let sig = [0x12u8; 64];
    let target = redirect_for_signature("u", "t", &sig);
    assert_eq!(target, format!("u?request-token=t&signature={}", "12".repeat(64)));
    let reply = signed_reply("u", "t", &sig);
    assert_eq!(reply.status, 303);
    assert_eq!(reply.location, Some(target));
}

#[test]
fn error_statuses_and_messages() {
    assert_eq!(GatewayError::ChallengeRejected.status(), 400);
    assert!(GatewayError::ChallengeRejected.is_client_error());
    assert!(GatewayError::Submission(SubmissionError::Missing(Field::RedirectUrl)).is_client_error());
    assert!(!GatewayError::VerificationResponseInvalid.is_client_error());
    assert_eq!(GatewayError::VerificationUnreachable("x".to_string()).status(), 500);
    assert_eq!(GatewayError::VerificationUnreachable("x".to_string()).message(), "Recaptcha request failed: x");
    assert_eq!(GatewayError::Config(ConfigError::SigningKeyLength).status(), 500);
}
