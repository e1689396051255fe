use base64::engine::general_purpose::{STANDARD, URL_SAFE_NO_PAD};
use base64::Engine;

use phantom_token::config::Config;
use phantom_token::filter::{
    apply_phantom_token, finish_filter, start_filter, Flow, IntrospectionEvent, StartOutcome,
};
use phantom_token::introspect::handle_introspection_response;
use phantom_token::jwt::decode_jwt;
use phantom_token::respond::{error_to_response, HttpResponse};
use phantom_token::validate::{check_scopes, validate_claims};
use phantom_token::FilterError;

fn test_config(jwt_mode: bool, required_scope: Option<&str>) -> Config {
    Config {
        introspection_client: "id".to_string(),
        introspection_endpoint: "https://authority.example/introspect".to_string(),
        introspection_secret: "secret".to_string(),
        required_aud: "api".to_string(),
        required_iss: "issuer1".to_string(),
        required_scope: required_scope.map(|s| s.to_string()),
        use_application_jwt_header: jwt_mode,
    }
}

fn expect_break(flow: Flow) -> HttpResponse {
    match flow {
        Flow::Break(resp) => resp,
        Flow::Continue(_) => panic!("expected a denial, got a continue"),
    }
}

fn expect_continue(flow: Flow) -> String {
    match flow {
        Flow::Continue(token) => token,
        Flow::Break(resp) => panic!("expected a continue, got status {}", resp.status),
    }
}

fn unauthorized_body(description: &str) -> String {
    format!(
        "{{\"error\":\"unauthorized\",\"error_description\":\"{}\"}}",
        description
    )
}

fn make_jwt(payload_json: &str) -> String {
    let header = URL_SAFE_NO_PAD.encode(b"{\"alg\":\"none\"}");
    let payload = URL_SAFE_NO_PAD.encode(payload_json.as_bytes());
    format!("{}.{}.signature", header, payload)
}

#[test]
fn missing_token_is_denied_without_introspection() {
    let config = test_config(false, None);
    match start_filter(&config, None) {
        StartOutcome::Deny(resp) => {
            assert_eq!(resp.status, 401);
            assert_eq!(
                resp.body,
                unauthorized_body("No authorization token was provided")
            );
            assert_eq!(
                resp.headers,
                vec![(
                    "WWW-Authenticate".to_string(),
                    "Bearer realm=\"oauth2\"".to_string()
                )]
            );
        }
        StartOutcome::Introspect(_) => panic!("no introspection request may be produced"),
    }
}

#[test]
fn introspection_request_is_assembled_exactly() {
    let config = test_config(false, None);
    let request = match start_filter(&config, Some("tok".to_string())) {
        StartOutcome::Introspect(request) => request,
        StartOutcome::Deny(_) => panic!("a token was supplied"),
    };
    assert_eq!(request.body, "token=tok");
    let basic = format!("Basic {}", STANDARD.encode("id:secret"));
    assert_eq!(basic, "Basic aWQ6c2VjcmV0");
    assert_eq!(
        request.headers,
        vec![
            (
                "content-type".to_string(),
                "application/x-www-form-urlencoded".to_string()
            ),
            ("Authorization".to_string(), basic),
        ]
    );
}

#[test]
fn jwt_mode_adds_accept_header_and_form_encoding_escapes() {
    let config = test_config(true, None);
    let request = match start_filter(&config, Some("a b+c".to_string())) {
        StartOutcome::Introspect(request) => request,
        StartOutcome::Deny(_) => panic!("a token was supplied"),
    };
    assert_eq!(request.body, "token=a+b%2Bc");
    assert_eq!(request.headers.len(), 3);
    assert_eq!(
        request.headers[2],
        ("Accept".to_string(), "application/jwt".to_string())
    );
}

#[test]
fn status_204_means_inactive_token() {
    let config = test_config(false, None);
    let flow = finish_filter(
        &config,
        IntrospectionEvent::Response(204, Vec::new()),
        Some(1_000),
    );
    let resp = expect_break(flow);
    assert_eq!(resp.status, 401);
    assert_eq!(resp.body, unauthorized_body("Inactive token"));
}

#[test]
fn any_other_status_means_inactive_token() {
    let config = test_config(false, None);
    for status in [500u16, 401, 302, 100] {
        let body = b"{\"active\":true}".to_vec();
        let resp = expect_break(finish_filter(
            &config,
            IntrospectionEvent::Response(status, body),
            Some(1_000),
        ));
        assert_eq!(resp.status, 401);
        assert_eq!(resp.body, unauthorized_body("Inactive token"));
    }
}

#[test]
fn transport_failure_is_a_server_fault() {
    let config = test_config(false, None);
    let resp = expect_break(finish_filter(&config, IntrospectionEvent::TransportError, Some(1)));
    assert_eq!(resp.status, 500);
    assert_eq!(resp.body, "");
    assert!(resp.headers.is_empty());
}

#[test]
fn clock_failure_is_unexpected() {
    let config = test_config(false, None);
    let body = b"{\"active\":true,\"aud\":\"api\",\"iss\":\"issuer1\",\"scope\":\"read\",\"phantom_token\":\"PT1\"}".to_vec();
    let resp = expect_break(finish_filter(&config, IntrospectionEvent::Response(200, body), None));
    assert_eq!(resp.status, 500);
}

#[test]
fn scenario_json_mode_success() {
    let config = test_config(false, None);
    let body = b"{\"active\":true,\"aud\":\"api\",\"iss\":\"issuer1\",\"scope\":\"read\",\"phantom_token\":\"PT1\"}".to_vec();
    let flow = finish_filter(&config, IntrospectionEvent::Response(200, body), Some(1_000));
    assert_eq!(expect_continue(flow), "PT1");
}

#[test]
fn scenario_jwt_mode_success_keeps_raw_jwt() {
    let config = test_config(true, None);
    let jwt = make_jwt(
        "{\"aud\":\"api\",\"iss\":\"issuer1\",\"scope\":\"read\",\"exp\":9999999999}",
    );
    let flow = finish_filter(
        &config,
        IntrospectionEvent::Response(200, jwt.as_bytes().to_vec()),
        Some(1_000),
    );
    assert_eq!(expect_continue(flow), jwt);
}

#[test]
fn jwt_mode_copies_claims_verbatim_and_forces_active() {
    let config = test_config(true, None);
    let jwt = make_jwt(
        "{\"active\":false,\"aud\":\"a\",\"iss\":\"i\",\"scope\":\"s t\",\"exp\":7,\"nbf\":3}",
    );
    let response =
        handle_introspection_response(&config, 200, jwt.as_bytes()).expect("a valid JWT body");
    assert!(response.active);
    assert_eq!(response.exp, Some(7));
    assert_eq!(response.nbf, Some(3));
    assert_eq!(response.scope, "s t");
    assert_eq!(response.aud, "a");
    assert_eq!(response.iss, "i");
    assert_eq!(response.phantom_token, jwt);
}

#[test]
fn jwt_mode_rejects_malformed_bodies() {
    let config = test_config(true, None);
    for body in [
        b"only-one-segment".to_vec(),
        b"a.b".to_vec(),
        b"a.b.c.d".to_vec(),
        b"a.!!!.c".to_vec(),
        vec![0xFF, 0xFE, b'.', b'a', b'.', b'b'],
    ] {
        let resp = expect_break(finish_filter(
            &config,
            IntrospectionEvent::Response(200, body),
            Some(1),
        ));
        assert_eq!(resp.status, 500);
        assert_eq!(resp.body, "");
    }
}

#[test]
fn json_mode_rejects_non_parsable_bodies() {
    let config = test_config(false, None);
    for body in [
        b"not json".to_vec(),
        b"{\"active\":true}".to_vec(),
        b"{\"active\":\"yes\",\"aud\":\"api\",\"iss\":\"issuer1\",\"scope\":\"\",\"phantom_token\":\"P\"}"
            .to_vec(),
    ] {
        let resp = expect_break(finish_filter(
            &config,
            IntrospectionEvent::Response(200, body),
            Some(1),
        ));
        assert_eq!(resp.status, 500);
        assert_eq!(resp.body, "");
    }
}

#[test]
fn expired_token_wins_over_wrong_audience() {
    let config = test_config(false, None);
    let body =
        b"{\"active\":true,\"aud\":\"nope\",\"iss\":\"issuer1\",\"scope\":\"\",\"exp\":10,\"phantom_token\":\"P\"}"
            .to_vec();
    let resp = expect_break(finish_filter(
        &config,
        IntrospectionEvent::Response(200, body),
        Some(20),
    ));
    assert_eq!(resp.body, unauthorized_body("Token has expired"));
}

#[test]
fn validation_order_and_boundaries() {
    let config = test_config(false, None);
    let parse = |json: &str| {
        handle_introspection_response(&config, 200, json.as_bytes()).expect("parsable")
    };
    let base =
        "{\"active\":true,\"aud\":\"api\",\"iss\":\"issuer1\",\"scope\":\"read\",\"phantom_token\":\"P\"";
    let inactive = parse("{\"active\":false,\"aud\":\"x\",\"iss\":\"y\",\"scope\":\"\",\"exp\":1,\"phantom_token\":\"P\"}");
    assert_eq!(
        validate_claims(&inactive, &config, 100),
        Err(FilterError::InactiveToken)
    );
    let with_times = parse(&format!("{},\"exp\":50,\"nbf\":10}}", base));
    assert_eq!(validate_claims(&with_times, &config, 50), Ok(()));
    assert_eq!(validate_claims(&with_times, &config, 10), Ok(()));
    assert_eq!(
        validate_claims(&with_times, &config, 51),
        Err(FilterError::ExpiredToken)
    );
    assert_eq!(
        validate_claims(&with_times, &config, 9),
        Err(FilterError::NotYetActive)
    );
    let wrong_aud = parse("{\"active\":true,\"aud\":\"other\",\"iss\":\"issuer1\",\"scope\":\"\",\"phantom_token\":\"P\"}");
    assert_eq!(
        validate_claims(&wrong_aud, &config, 1),
        Err(FilterError::WrongAud)
    );
    let wrong_iss = parse("{\"active\":true,\"aud\":\"api\",\"iss\":\"other\",\"scope\":\"\",\"phantom_token\":\"P\"}");
    assert_eq!(
        validate_claims(&wrong_iss, &config, 1),
        Err(FilterError::WrongIss)
    );
}

#[test]
fn scope_check_is_containment_not_exact_match() {
    assert!(check_scopes("read", "read write"));
    assert!(!check_scopes("read admin", "read write"));
    assert!(check_scopes("", "anything"));
    assert!(check_scopes("  ", "anything"));
    assert!(check_scopes("a b", "b   a"));
    assert!(!check_scopes("ab", "a b"));
    assert!(check_scopes("read", "\tread\nwrite"));
}

#[test]
fn scenario_missing_scope() {
    let config = test_config(false, Some("admin"));
    let body =
        b"{\"active\":true,\"aud\":\"api\",\"iss\":\"issuer1\",\"scope\":\"read write\",\"phantom_token\":\"P\"}"
            .to_vec();
    let resp = expect_break(finish_filter(
        &config,
        IntrospectionEvent::Response(200, body),
        Some(1),
    ));
    assert_eq!(resp.status, 401);
    assert_eq!(resp.body, unauthorized_body("Missing required scope"));
}

#[test]
fn scenario_scope_superset_passes() {
    let config = test_config(false, Some("read"));
    let body =
        b"{\"active\":true,\"aud\":\"api\",\"iss\":\"issuer1\",\"scope\":\"read write\",\"phantom_token\":\"PT9\"}"
            .to_vec();
    let flow = finish_filter(&config, IntrospectionEvent::Response(200, body), Some(1));
    assert_eq!(expect_continue(flow), "PT9");
}

#[test]
fn authorization_header_is_replaced_exactly_once() {
    let mut headers = vec![
        ("Host".to_string(), "example.org".to_string()),
        ("Authorization".to_string(), "Bearer original".to_string()),
        ("X-Trace".to_string(), "t1".to_string()),
        ("Authorization".to_string(), "Bearer duplicate".to_string()),
    ];
    apply_phantom_token(&mut headers, "PT1");
    assert_eq!(
        headers,
        vec![
            ("Host".to_string(), "example.org".to_string()),
            ("X-Trace".to_string(), "t1".to_string()),
            ("Authorization".to_string(), "PT1".to_string()),
        ]
    );
}

#[test]
fn decode_jwt_extracts_the_payload_claims() {
    let jwt = make_jwt("{\"aud\":\"api\",\"iss\":\"issuer1\",\"scope\":\"read\",\"exp\":12}");
    let claims = decode_jwt(&jwt).expect("a well-formed JWT");
    assert_eq!(claims.aud, "api");
    assert_eq!(claims.iss, "issuer1");
    assert_eq!(claims.scope, "read");
    assert_eq!(claims.exp, Some(12));
    assert_eq!(claims.nbf, None);
}

#[test]
fn decode_jwt_rejects_malformed_tokens() {
    assert!(decode_jwt("").is_none());
    assert!(decode_jwt("a.b").is_none());
    assert!(decode_jwt("a.b.c.d").is_none());
    // The payload must be unpadded URL-safe base64 over a JSON claim set.
    assert!(decode_jwt("h.%%%.s").is_none());
    let bad_json = format!("h.{}.s", URL_SAFE_NO_PAD.encode(b"[1,2,3]"));
    assert!(decode_jwt(&bad_json).is_none());
    let missing_fields = format!("h.{}.s", URL_SAFE_NO_PAD.encode(b"{\"aud\":\"api\"}"));
    assert!(decode_jwt(&missing_fields).is_none());
}

#[test]
fn every_denial_reason_maps_to_its_response() {
    let cases_401 = [
        (FilterError::NoToken, "No authorization token was provided"),
        (FilterError::InactiveToken, "Inactive token"),
        (FilterError::ExpiredToken, "Token has expired"),
        (FilterError::NotYetActive, "Token is not yet valid"),
        (FilterError::MissingScope, "Missing required scope"),
        (FilterError::InvalidToken, "Invalid token"),
        (FilterError::WrongAud, "Invalid audience"),
        (FilterError::WrongIss, "Invalid issuer"),
    ];
    for (error, description) in cases_401 {
        let resp = error_to_response(&error);
        assert_eq!(resp.status, 401);
        assert_eq!(resp.body, unauthorized_body(description));
        assert_eq!(
            resp.headers,
            vec![(
                "WWW-Authenticate".to_string(),
                "Bearer realm=\"oauth2\"".to_string()
            )]
        );
    }
    for error in [
        FilterError::Unexpected,
        FilterError::ClientError,
        FilterError::NonParsableIntrospectionBody,
        FilterError::ParseJwt,
    ] {
        let resp = error_to_response(&error);
        assert_eq!(resp.status, 500);
        assert_eq!(resp.body, "");
        assert!(resp.headers.is_empty());
    }
}
