use boilerkey::activation::{
    activate, activation_request, secret_from_document, secret_from_response,
};
use boilerkey::failure::{DecodeError, Failure, Field};
use boilerkey::json::parse;
use boilerkey::record::HOTPData;
use boilerkey::session::response_echo;

#[test]
fn request_reproduces_the_client_identity() {
    let request = activation_request("123456");
    assert_eq!(request.method, "POST");
    assert_eq!(
        request.url,
        "https://api-1b9bef70.duosecurity.com/push/v2/activation/123456"
    );
    assert_eq!(request.user_agent, "okhttp/3.11.0");
    let expected = vec![
        ("app_id", "com.duosecurity.duomobile.app.DMApplication"),
        ("app_version", "3.37.1"),
        ("app_build_number", "326002"),
        ("full_disk_encryption", "false"),
        ("manufacturer", "Google"),
        ("model", "Pixel4"),
        ("platform", "Android"),
        ("jailbroken", "false"),
        ("version", "10.0"),
        ("language", "EN"),
        ("customer_protocol", "1"),
    ];
    assert_eq!(request.query.len(), expected.len());
    for (got, want) in request.query.iter().zip(expected.iter()) {
        assert_eq!((got.0.as_str(), got.1.as_str()), *want);
    }
}

#[test]
fn request_forwards_the_code_as_entered() {
    assert_eq!(
        activation_request("").url,
        "https://api-1b9bef70.duosecurity.com/push/v2/activation/"
    );
    assert_eq!(
        activation_request(" a/b?c \n").url,
        "https://api-1b9bef70.duosecurity.com/push/v2/activation/ a/b?c \n"
    );
}

#[test]
fn secret_is_read_from_the_envelope() {
    let body = "{\"response\":{\"hotp_secret\":\"ASCIIKEY\"},\"stat\":\"OK\"}";
    assert_eq!(secret_from_response(body), Ok("ASCIIKEY".to_string()));
}

#[test]
fn envelope_may_hold_more_than_is_read() {
    let body = "{\"stat\":\"OK\",\"extra\":[1,2],\"response\":{\"akey\":\"a\",\"app_status\":1,\"customer_name\":\"c\",\"force_disable_analytics\":false,\"hotp_secret\":\"0123456789abcdef\",\"pkey\":\"p\",\"unknown\":{\"x\":null}}}";
    assert_eq!(
        secret_from_response(body),
        Ok("0123456789abcdef".to_string())
    );
    let doc = parse(body).unwrap();
    assert_eq!(
        secret_from_document(&doc),
        Ok("0123456789abcdef".to_string())
    );
}

#[test]
fn envelope_faults_are_told_apart() {
    assert_eq!(
        secret_from_response("Internal Server Error"),
        Err(DecodeError::Syntax(
            "expected value at line 1 column 1".to_string()
        ))
    );
    assert_eq!(
        secret_from_response("{\"stat\":\"FAIL\"}"),
        Err(DecodeError::Missing(Field::Response))
    );
    assert_eq!(
        secret_from_response("{\"response\":{},\"stat\":\"OK\"}"),
        Err(DecodeError::Missing(Field::HotpSecret))
    );
    assert_eq!(
        secret_from_response("{\"response\":\"ASCIIKEY\",\"stat\":\"OK\"}"),
        Err(DecodeError::Missing(Field::HotpSecret))
    );
    assert_eq!(
        secret_from_response("{\"response\":{\"hotp_secret\":7},\"stat\":\"OK\"}"),
        Err(DecodeError::Mistyped(Field::HotpSecret))
    );
    assert_eq!(
        secret_from_response("{\"response\":{\"hotp_secret\":\"ASCIIKEY\"}}"),
        Err(DecodeError::Missing(Field::Stat))
    );
    assert_eq!(
        secret_from_response("{\"response\":{\"hotp_secret\":\"ASCIIKEY\"},\"stat\":1}"),
        Err(DecodeError::Mistyped(Field::Stat))
    );
}

#[test]
fn activate_builds_the_first_record() {
    let body = "{\"response\":{\"hotp_secret\":\"ASCIIKEY\"},\"stat\":\"OK\"}";
    assert_eq!(
        activate(body, "4321\n"),
        Ok(HOTPData {
            secret: "ASCIIKEY".to_string(),
            counter: 0,
            pin: "4321".to_string(),
        })
    );
}

#[test]
fn activate_reports_a_decode_failure() {
    assert_eq!(
        activate("{\"stat\":\"OK\"}", "4321"),
        Err(DecodeError::Missing(Field::Response))
    );
    assert_eq!(
        activate("", "4321"),
        Err(DecodeError::Syntax(
            "EOF while parsing a value at line 1 column 0".to_string()
        ))
    );
}

#[test]
fn decode_failures_are_worded() {
    assert_eq!(
        DecodeError::Syntax("EOF while parsing".to_string()).message(),
        "malformed JSON: EOF while parsing"
    );
    assert_eq!(
        DecodeError::Missing(Field::HotpSecret).message(),
        "missing field hotp_secret"
    );
    assert_eq!(
        DecodeError::Mistyped(Field::Counter).message(),
        "wrong type for field counter"
    );
    assert_eq!(
        Failure::Decode(DecodeError::Missing(Field::Secret)).message(),
        "DecodeError: missing field secret"
    );
}

#[test]
fn fields_are_named_as_in_the_documents() {
    let names: Vec<&str> = vec![
        Field::Secret,
        Field::Counter,
        Field::Pin,
        Field::Response,
        Field::HotpSecret,
        Field::Stat,
    ]
    .into_iter()
    .map(|f| f.name())
    .collect();
    assert_eq!(
        names,
        vec!["secret", "counter", "pin", "response", "hotp_secret", "stat"]
    );
}

#[test]
fn echo_shows_the_raw_body() {
    assert_eq!(response_echo("{\"stat\":\"OK\"}"), "Response: {\"stat\":\"OK\"}");
    assert_eq!(response_echo(""), "Response: ");
}
