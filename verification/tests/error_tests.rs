use dashbook::error::{AppError, ErrorKind};

#[test]
fn not_found_codes_classify_as_not_found() {
    for code in [-5, -8] {
        let e = AppError::Rpc { code, message: "Block not found".to_string() };
        assert_eq!(e.kind(), ErrorKind::NotFound);
        assert_eq!(e.status_code(), 404);
        assert_eq!(e.response_message(), "Block not found");
    }
}

#[test]
fn other_upstream_codes_are_upstream_errors() {
    let e = AppError::Rpc { code: -32601, message: "Method not found".to_string() };
    assert_eq!(e.kind(), ErrorKind::UpstreamError);
    assert_eq!(e.status_code(), 502);
    assert_eq!(e.response_message(), "RPC error -32601: Method not found");
}

#[test]
fn codes_next_to_the_not_found_family_are_upstream_errors() {
    for code in [-4, -6, -7, -9, 5, 8, 0] {
        let e = AppError::Rpc { code, message: String::new() };
        assert_eq!(e.kind(), ErrorKind::UpstreamError);
    }
}

#[test]
fn plain_variants_keep_their_kind_and_status() {
    let nf = AppError::NotFound("x".to_string());
    let br = AppError::BadRequest("y".to_string());
    let ie = AppError::Internal("z".to_string());
    assert_eq!((nf.kind(), nf.status_code()), (ErrorKind::NotFound, 404));
    assert_eq!((br.kind(), br.status_code()), (ErrorKind::BadRequest, 400));
    assert_eq!((ie.kind(), ie.status_code()), (ErrorKind::InternalError, 500));
    assert_eq!(nf.response_message(), "x");
    assert_eq!(br.response_message(), "y");
    assert_eq!(ie.response_message(), "z");
}

#[test]
fn descriptions_carry_the_variant_prefix() {
    assert_eq!(
        AppError::Rpc { code: -5, message: "gone".to_string() }.describe(),
        "RPC error -5: gone"
    );
    assert_eq!(AppError::NotFound("a".to_string()).describe(), "Not found: a");
    assert_eq!(AppError::BadRequest("b".to_string()).describe(), "Bad request: b");
    assert_eq!(AppError::Internal("c".to_string()).describe(), "Internal error: c");
}

#[test]
fn extreme_codes_render_in_decimal() {
    assert_eq!(
        AppError::Rpc { code: i32::MIN, message: "m".to_string() }.describe(),
        "RPC error -2147483648: m"
    );
    assert_eq!(
        AppError::Rpc { code: i32::MAX, message: "m".to_string() }.describe(),
        "RPC error 2147483647: m"
    );
}

#[test]
fn transport_and_json_failures_are_internal() {
    assert_eq!(
        AppError::http_client("connection refused"),
        AppError::Internal("HTTP client error: connection refused".to_string())
    );
    assert_eq!(
        AppError::json("expected value at line 1"),
        AppError::Internal("JSON error: expected value at line 1".to_string())
    );
}

#[test]
fn duplicate_equals_the_original() {
    let e = AppError::Rpc { code: 7, message: "m".to_string() };
    assert_eq!(e.duplicate(), e);
}
