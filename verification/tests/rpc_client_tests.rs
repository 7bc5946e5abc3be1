use dashbook::error::AppError;
use dashbook::rpc::client::{
    classify, finish_call, parse_failure, ParsedBody, RequestIds, RpcError, RpcResponse,
    FIRST_REQUEST_ID, RPC_TIMEOUT_SECS,
};
use dashbook::text::{excerpt, join2, EXCERPT_BYTES};

#[test]
fn request_ids_start_at_one_and_increase() {
    let mut ids = RequestIds::new();
    assert_eq!(FIRST_REQUEST_ID, 1);
    assert_eq!(ids.next_id(), 1);
    assert_eq!(ids.next_id(), 2);
    assert_eq!(ids.next_id(), 3);
}

#[test]
fn timeout_is_thirty_seconds() {
    assert_eq!(RPC_TIMEOUT_SECS, 30);
}

#[test]
fn a_result_without_error_is_returned() {
    let resp = RpcResponse { result: Some(812u64), error: None };
    assert_eq!(classify("getblockcount", resp), Ok(812));
}

#[test]
fn an_error_wins_over_a_result() {
    let resp = RpcResponse {
        result: Some(1u64),
        error: Some(RpcError { code: -8, message: "Block height out of range".to_string() }),
    };
    assert_eq!(
        classify("getblockhash", resp),
        Err(AppError::Rpc { code: -8, message: "Block height out of range".to_string() })
    );
}

#[test]
fn neither_result_nor_error_is_a_protocol_violation() {
    let resp: RpcResponse<u64> = RpcResponse { result: None, error: None };
    assert_eq!(
        classify("getblockcount", resp),
        Err(AppError::Internal("RPC getblockcount returned null result".to_string()))
    );
}

#[test]
fn an_unreadable_body_is_reported_with_an_excerpt() {
    let e = parse_failure("getblock", "expected value at line 1 column 1", "<html>busy</html>");
    assert_eq!(
        e,
        AppError::Internal(
            "Failed to parse RPC response for getblock: expected value at line 1 column 1 -- response: <html>busy</html>"
                .to_string()
        )
    );
}

#[test]
fn the_excerpt_of_a_long_body_has_500_bytes() {
    assert_eq!(EXCERPT_BYTES, 500);
    let body = "x".repeat(1200);
    let e = parse_failure("m", "d", &body);
    let expected = format!("Failed to parse RPC response for m: d -- response: {}", "x".repeat(500));
    assert_eq!(e, AppError::Internal(expected));
}

#[test]
fn the_excerpt_is_bounded_in_bytes_and_cut_between_characters() {
    let two_byte = "é".repeat(600);
    assert_eq!(excerpt(&two_byte, 500), "é".repeat(250));
    assert_eq!(excerpt(&"é".repeat(300), 500), "é".repeat(250));
    let straddling = format!("{}{}", "a".repeat(499), "é".repeat(10));
    assert_eq!(excerpt(&straddling, 500), "a".repeat(499));
    assert!(excerpt(&straddling, 500).len() <= 500);
    let fitting = format!("{}{}", "a".repeat(498), "é".repeat(10));
    assert_eq!(excerpt(&fitting, 500), format!("{}é", "a".repeat(498)));
    assert_eq!(excerpt(&fitting, 500).len(), 500);
    assert_eq!(excerpt("short", 500), "short");
    assert_eq!(excerpt("", 500), "");
    assert_eq!(excerpt("abc", 0), "");
    assert_eq!(excerpt("abc", 3), "abc");
    assert_eq!(excerpt("abcd", 3), "abc");
    assert_eq!(excerpt("é", 1), "");
    assert_eq!(excerpt("aé", 2), "a");
    assert_eq!(excerpt("aé", 3), "aé");
}

#[test]
fn an_unreadable_body_with_a_character_across_the_limit_is_cut_before_it() {
    let body = format!("{}{}", "a".repeat(499), "é".repeat(10));
    let e = parse_failure("m", "d", &body);
    let expected = format!("Failed to parse RPC response for m: d -- response: {}", "a".repeat(499));
    assert_eq!(e, AppError::Internal(expected));
}

#[test]
fn join2_concatenates() {
    assert_eq!(join2("ab", "cd"), "abcd");
    assert_eq!(join2("", ""), "");
}

#[test]
fn finish_call_classifies_or_reports() {
    let ok: ParsedBody<String> =
        ParsedBody::Envelope(RpcResponse { result: Some("h".to_string()), error: None });
    assert_eq!(finish_call("getbestblockhash", ok, "{}"), Ok("h".to_string()));
    let bad: ParsedBody<String> = ParsedBody::Unreadable("EOF while parsing".to_string());
    assert_eq!(
        finish_call("getbestblockhash", bad, "{\"res"),
        Err(AppError::Internal(
            "Failed to parse RPC response for getbestblockhash: EOF while parsing -- response: {\"res"
                .to_string()
        ))
    );
    let upstream: ParsedBody<String> = ParsedBody::Envelope(RpcResponse {
        result: None,
        error: Some(RpcError { code: -5, message: "No such tx".to_string() }),
    });
    assert_eq!(
        finish_call("getrawtransaction", upstream, "{}"),
        Err(AppError::Rpc { code: -5, message: "No such tx".to_string() })
    );
}
