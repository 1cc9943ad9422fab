use host_snapshot::public_ip::{
    endpoint, resolve_public_ip, LookupError, LookupOutcome, PublicIpInfo,
};

fn answer() -> PublicIpInfo {
    PublicIpInfo::new("1.2.3.4".to_string(), None, None, Some("US".to_string()), None)
}

#[test]
fn lookup_asks_the_fixed_service() {
    assert_eq!(endpoint(), "https://ipinfo.io/json");
}

#[test]
fn decoded_answer_is_the_result() {
    let info = resolve_public_ip(LookupOutcome::Decoded(answer())).unwrap();
    assert_eq!(info.ip(), "1.2.3.4");
    assert_eq!(info.country(), &Some("US".to_string()));
    assert_eq!(info.city(), &None);
    assert_eq!(info.region(), &None);
    assert_eq!(info.org(), &None);
    assert_eq!(info, answer());
}

#[test]
fn full_answer_keeps_every_field() {
    let info = PublicIpInfo::new(
        "203.0.113.9".to_string(),
        Some("Springfield".to_string()),
        Some("Oregon".to_string()),
        Some("US".to_string()),
        Some("AS64500 Example".to_string()),
    );
    assert_eq!(info.ip(), "203.0.113.9");
    assert_eq!(info.city(), &Some("Springfield".to_string()));
    assert_eq!(info.region(), &Some("Oregon".to_string()));
    assert_eq!(info.country(), &Some("US".to_string()));
    assert_eq!(info.org(), &Some("AS64500 Example".to_string()));
}

#[test]
fn failed_transport_is_a_network_error() {
    let result = resolve_public_ip(LookupOutcome::TransportFailed("timed out".to_string()));
    assert_eq!(result, Err(LookupError::Network("timed out".to_string())));
}

#[test]
fn undecodable_answer_is_a_decode_error() {
    let result =
        resolve_public_ip(LookupOutcome::Undecodable("expected value at line 1".to_string()));
    assert_eq!(result, Err(LookupError::Decode("expected value at line 1".to_string())));
}

#[test]
fn network_error_message_names_the_request_and_the_cause() {
    let message = LookupError::Network("timed out".to_string()).message();
    assert_eq!(message, "请求失败: timed out");
}

#[test]
fn decode_error_message_names_the_decoding_and_the_cause() {
    let message = LookupError::Decode("missing field `ip`".to_string()).message();
    assert_eq!(message, "解析失败: missing field `ip`");
}

#[test]
fn error_message_is_never_empty() {
    assert!(!LookupError::Network(String::new()).message().is_empty());
    assert!(!LookupError::Decode(String::new()).message().is_empty());
}
