use nullpay::code::ErrorCode;
use nullpay::operation::{
    handle, handle_with, Action, OperationKind, OperationRequest, Shape, DELEGATE_SEQ_NO,
    FILLER_LEN,
};
use nullpay::random::{is_filler_text, get_rand_string};

fn completed(action: Action) -> (ErrorCode, String) {
    match action {
        Action::Complete(r) => (r.code, r.payload),
        Action::Delegate(c) => panic!("delegated to {} / {}", c.submitter_did, c.seq_no),
    }
}

fn delegated(action: Action) -> (String, i32) {
    match action {
        Action::Delegate(c) => (c.submitter_did, c.seq_no),
        Action::Complete(r) => panic!("completed with {}", r.payload),
    }
}

fn echo_requests(text: &str) -> Vec<OperationRequest> {
    vec![
        OperationRequest::AddRequestFees {
            wallet_handle: 1,
            req_json: text.to_string(),
            inputs_json: "inputs".to_string(),
            outputs_json: "outputs".to_string(),
        },
        OperationRequest::ParseResponseWithFees { resp_json: text.to_string() },
        OperationRequest::BuildPaymentReq {
            wallet_handle: 2,
            inputs_json: "inputs".to_string(),
            outputs_json: text.to_string(),
        },
        OperationRequest::ParsePaymentResponse { resp_json: text.to_string() },
        OperationRequest::BuildSetTxnFeesReq { wallet_handle: 3, fees_json: text.to_string() },
    ]
}

#[test]
fn constants_are_as_documented() {
    assert_eq!(FILLER_LEN, 15);
    assert_eq!(DELEGATE_SEQ_NO, 1);
}

#[test]
fn shapes_of_all_kinds() {
    assert_eq!(OperationKind::CreatePaymentAddress.shape(), Shape::Canned);
    assert_eq!(OperationKind::AddRequestFees.shape(), Shape::Echo);
    assert_eq!(OperationKind::ParseResponseWithFees.shape(), Shape::Echo);
    assert_eq!(OperationKind::BuildGetUtxoRequest.shape(), Shape::Delegate);
    assert_eq!(OperationKind::ParseGetUtxoResponse.shape(), Shape::Canned);
    assert_eq!(OperationKind::BuildPaymentReq.shape(), Shape::Echo);
    assert_eq!(OperationKind::ParsePaymentResponse.shape(), Shape::Echo);
    assert_eq!(OperationKind::BuildMintReq.shape(), Shape::Delegate);
    assert_eq!(OperationKind::BuildSetTxnFeesReq.shape(), Shape::Echo);
    assert_eq!(OperationKind::BuildGetTxnFeesReq.shape(), Shape::Delegate);
    assert_eq!(OperationKind::ParseGetTxnFeesResponse.shape(), Shape::Canned);
}

#[test]
fn kind_of_each_request() {
    let kinds: Vec<OperationKind> = echo_requests("x").iter().map(|r| r.kind()).collect();
    assert_eq!(
        kinds,
        vec![
            OperationKind::AddRequestFees,
            OperationKind::ParseResponseWithFees,
            OperationKind::BuildPaymentReq,
            OperationKind::ParsePaymentResponse,
            OperationKind::BuildSetTxnFeesReq,
        ]
    );
    let req = OperationRequest::CreatePaymentAddress { config: "{}".to_string(), wallet_handle: 1 };
    assert_eq!(req.kind(), OperationKind::CreatePaymentAddress);
    let req = OperationRequest::BuildGetTxnFeesReq { wallet_handle: 1 };
    assert_eq!(req.kind(), OperationKind::BuildGetTxnFeesReq);
}

#[test]
fn echo_returns_designated_argument() {
    for req in echo_requests("{\"reqId\":42}") {
        let (code, payload) = completed(handle(&req));
        assert_eq!(code, ErrorCode::success());
        assert_eq!(payload, "{\"reqId\":42}");
    }
}

#[test]
fn echo_of_empty_string() {
    for req in echo_requests("") {
        let (code, payload) = completed(handle(&req));
        assert_eq!(code, ErrorCode::success());
        assert_eq!(payload, "");
    }
}

#[test]
fn echo_of_json_special_characters() {
    let text = "{\"k\":[\"\\\"quoted\\\"\", \"back\\\\slash\", null, {}], \"t\":\"tab\\t\u{e9}\u{4e16}\"}";
    for req in echo_requests(text) {
        let (_, payload) = completed(handle(&req));
        assert_eq!(payload.as_bytes(), text.as_bytes());
    }
}

#[test]
fn echo_ignores_filler() {
    for req in echo_requests("plain") {
        let (_, payload) = completed(handle_with(&req, "AAAAAAAAAAAAAAA", "BBBBBBBBBBBBBBB"));
        assert_eq!(payload, "plain");
    }
}

#[test]
fn fee_query_answers_fixed_literal() {
    let req = OperationRequest::ParseGetTxnFeesResponse { resp_json: "ignored".to_string() };
    let (code, payload) = completed(handle(&req));
    assert_eq!(code, ErrorCode::success());
    assert_eq!(payload, "{\"txnType1\":1, \"txnType2\":2, \"txnType3\":3}");
    let req = OperationRequest::ParseGetTxnFeesResponse { resp_json: String::new() };
    let (_, payload) = completed(handle_with(&req, "abc", "def"));
    assert_eq!(payload, r#"{"txnType1":1, "txnType2":2, "txnType3":3}"#);
}

#[test]
fn address_from_given_filler() {
    let req = OperationRequest::CreatePaymentAddress { config: "{}".to_string(), wallet_handle: 7 };
    let (code, payload) = completed(handle_with(&req, "abcDEF0123456xy", "unused"));
    assert_eq!(code, ErrorCode::success());
    assert_eq!(payload, "pay:null:abcDEF0123456xy");
}

#[test]
fn address_matches_pattern() {
    let req = OperationRequest::CreatePaymentAddress { config: String::new(), wallet_handle: 0 };
    let (code, payload) = completed(handle(&req));
    assert_eq!(code, ErrorCode::success());
    assert_eq!(payload.len(), 24);
    assert!(payload.starts_with("pay:null:"));
    let tail = &payload["pay:null:".len()..];
    assert_eq!(tail.chars().count(), 15);
    assert!(tail.chars().all(|c| c.is_ascii_alphanumeric()));
    assert!(is_filler_text(tail, 15));
}

#[test]
fn consecutive_addresses_differ() {
    let req = OperationRequest::CreatePaymentAddress { config: String::new(), wallet_handle: 0 };
    let (_, a) = completed(handle(&req));
    let (_, b) = completed(handle(&req));
    let (_, c) = completed(handle(&req));
    assert!(a != b || b != c);
}

#[test]
fn utxo_listing_from_given_filler() {
    let req = OperationRequest::ParseGetUtxoResponse { resp_json: "whatever".to_string() };
    let (code, payload) = completed(handle_with(&req, "AAAAAAAAAAAAAAA", "bbbbbbbbbbbbbbb"));
    assert_eq!(code, ErrorCode::success());
    assert_eq!(
        payload,
        r#"[{"input":"pov:null:1", "amount":1, "extra":"AAAAAAAAAAAAAAA"}, {"input":"pov:null:2", "amount":2, "extra":"bbbbbbbbbbbbbbb"}]"#
    );
}

#[test]
fn utxo_listing_has_two_random_fillers() {
    let req = OperationRequest::ParseGetUtxoResponse { resp_json: String::new() };
    let (code, payload) = completed(handle(&req));
    assert_eq!(code, ErrorCode::success());
    let head = r#"[{"input":"pov:null:1", "amount":1, "extra":""#;
    let middle = r#""}, {"input":"pov:null:2", "amount":2, "extra":""#;
    let tail = r#""}]"#;
    assert_eq!(payload.len(), head.len() + 15 + middle.len() + 15 + tail.len());
    assert!(payload.starts_with(head));
    assert!(payload.ends_with(tail));
    let first = &payload[head.len()..head.len() + 15];
    let between = &payload[head.len() + 15..head.len() + 15 + middle.len()];
    let second = &payload[head.len() + 15 + middle.len()..payload.len() - tail.len()];
    assert_eq!(between, middle);
    assert!(is_filler_text(first, 15));
    assert!(is_filler_text(second, 15));
}

#[test]
fn delegates_ask_with_fixed_identity_and_sequence_number() {
    let requests = vec![
        OperationRequest::BuildGetUtxoRequest { wallet_handle: 1, payment_address: "pay:null:x".to_string() },
        OperationRequest::BuildMintReq { wallet_handle: 2, outputs_json: "[]".to_string() },
        OperationRequest::BuildGetTxnFeesReq { wallet_handle: 3 },
    ];
    for req in requests {
        let (did, seq_no) = delegated(handle(&req));
        assert_eq!(did, "null_payment_plugin");
        assert_eq!(seq_no, 1);
    }
}

#[test]
fn random_string_has_requested_length_and_alphabet() {
    for len in [0usize, 1, 15, 64] {
        let s = get_rand_string(len);
        assert_eq!(s.len(), len);
        assert!(s.bytes().all(|b| b.is_ascii_alphanumeric()));
        assert!(is_filler_text(&s, len));
    }
}

#[test]
fn random_strings_vary() {
    let a = get_rand_string(32);
    let b = get_rand_string(32);
    assert_ne!(a, b);
}

#[test]
fn filler_text_rejects_wrong_length_and_alphabet() {
    assert!(is_filler_text("abcXYZ019", 9));
    assert!(is_filler_text("", 0));
    assert!(!is_filler_text("abc", 4));
    assert!(!is_filler_text("abcd", 3));
    assert!(!is_filler_text("ab-d", 4));
    assert!(!is_filler_text("ab d", 4));
    assert!(!is_filler_text("ab\u{e9}d", 4));
    assert!(!is_filler_text("{az}", 4));
    assert!(!is_filler_text("/09:", 4));
    assert!(!is_filler_text("@AZ[", 4));
    assert!(!is_filler_text("`az{", 4));
}
