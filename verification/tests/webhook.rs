use runtime_service::webhook::{
    after_attempt, backoff_secs, can_cut_output, cut_output, notice_body, sign_body,
    signature_header, webhook_retries, DeliveryStep,
};

#[test]
fn notice_body_is_compact_json() {
    let body = notice_body("test-id", "completed", Some(0), "out", "", 1_700_000_000_000);
    assert_eq!(
        body,
        r#"{"created_at":1700000000000,"exit_code":0,"id":"test-id","status":"completed","stderr":"","stdout":"out"}"#
    );
    let body = notice_body("x", "failed", None, "a\"b", "", 1);
    let v: serde_json::Value = serde_json::from_str(&body).unwrap();
    assert!(v["exit_code"].is_null());
    assert_eq!(v["stdout"], "a\"b");
}

#[test]
fn outputs_are_cut_to_1000_bytes() {
    let long = "a".repeat(1500);
    assert_eq!(cut_output(&long).len(), 1000);
    assert_eq!(cut_output("short"), "short");
    let body = notice_body("x", "completed", Some(1), &long, "e", 0);
    let v: serde_json::Value = serde_json::from_str(&body).unwrap();
    assert_eq!(v["stdout"].as_str().unwrap().len(), 1000);
    let odd = format!("{}é", "a".repeat(999));
    assert!(!can_cut_output(&odd));
    assert!(can_cut_output(&long));
}

#[test]
fn signature_is_hmac_sha256_hex() {
    let body = r#"{"created_at":1700000000000,"exit_code":0,"id":"test-id","status":"completed","stderr":"","stdout":"out"}"#;
    assert_eq!(
        sign_body("testsecret", body),
        "sha256=3aacc0baa6e0967152c316f60e3a7f394df1d729cb410387ebef24de96ed9f31"
    );
    assert_eq!(
        sign_body("", ""),
        "sha256=b613679a0814d9ec772f95d778c35fc5ff1697c493715653c6c712144292c5ad"
    );
}

#[test]
fn retries_and_backoff() {
    assert_eq!(webhook_retries(&None), 3);
    assert_eq!(webhook_retries(&Some("5".into())), 5);
    assert_eq!(webhook_retries(&Some("4294967296".into())), 3);
    let waits: Vec<u64> = (0..8).map(backoff_secs).collect();
    assert_eq!(waits, vec![2, 4, 8, 16, 30, 30, 30, 30]);
    assert_eq!(after_attempt(0, 5, true), DeliveryStep::Delivered);
    assert_eq!(after_attempt(1, 5, false), DeliveryStep::RetryAfter(4));
    assert_eq!(after_attempt(5, 5, false), DeliveryStep::GiveUp);
}

#[test]
fn signature_header_is_lowercase_hex() {
    assert_eq!(signature_header(&[0x00, 0xff, 0x1a]), "sha256=00ff1a");
    assert_eq!(signature_header(&[]), "sha256=");
}
