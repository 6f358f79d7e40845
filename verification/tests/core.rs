use synapse_sdk::admin_models::SetQuotaRequest;
use synapse_sdk::client::{AdminSynapseClient, Method, SynapseClient};
use synapse_sdk::error::{error_for_status, is_error_status, SynapseError};
use synapse_sdk::formatter::render_table;
use synapse_sdk::json::push_json_string;
use synapse_sdk::models::Transaction;
use synapse_sdk::resolvers::{TransactionFilter, TransactionMutation, TransactionQuery, TransactionSubscription};
use synapse_sdk::retry::{backoff_delay_ms, RetryState, RetryStep, DEFAULT_BASE_DELAY_MS, DEFAULT_MAX_ATTEMPTS};
use synapse_sdk::text::{i64_to_decimal, str_contains, u64_to_decimal};

// ── Builders ──────────────────────────────────────────────────────────────────

#[test]
fn builder_defaults_are_three_attempts_and_200ms() {
    assert_eq!(DEFAULT_MAX_ATTEMPTS, 3);
    assert_eq!(DEFAULT_BASE_DELAY_MS, 200);
    let c = SynapseClient::new("https://api.example.com", "your-api-key");
    assert_eq!(c.max_attempts(), 3);
    assert_eq!(c.base_delay_ms(), 200);
    assert_eq!(c.base_url(), "https://api.example.com");
}

#[test]
fn max_attempts_below_one_is_one() {
    let c = SynapseClient::builder("http://h", "k").max_attempts(0).build();
    assert_eq!(c.max_attempts(), 1);
    let c = SynapseClient::builder("http://h", "k").max_attempts(7).base_delay_ms(5).build();
    assert_eq!(c.max_attempts(), 7);
    assert_eq!(c.base_delay_ms(), 5);
    let c = SynapseClient::builder("http://h", "k").max_attempts(9).disable_retries().build();
    assert_eq!(c.max_attempts(), 1);
}

#[test]
fn admin_builder_mirrors_public_builder() {
    let c = AdminSynapseClient::builder("http://h", "adm").max_attempts(0).base_delay_ms(10).build();
    assert_eq!(c.max_attempts(), 1);
    assert_eq!(c.base_delay_ms(), 10);
    let c = AdminSynapseClient::builder("http://h", "adm").disable_retries().build();
    assert_eq!(c.max_attempts(), 1);
    let d = AdminSynapseClient::builder("http://h", "adm").build();
    assert_eq!(d.max_attempts(), 3);
    assert_eq!(d.base_delay_ms(), 200);
}

#[test]
fn requests_carry_the_right_key_header() {
    let c = SynapseClient::new("http://h", "pub-key");
    let r = c.request(Method::Get, "/x", vec![("a".to_string(), "1".to_string())], None);
    assert_eq!(r.url, "http://h/x");
    assert_eq!(r.headers, vec![("X-API-Key".to_string(), "pub-key".to_string())]);
    assert_eq!(r.query, vec![("a".to_string(), "1".to_string())]);
    let a = AdminSynapseClient::builder("http://h", "adm-key").build();
    let r = a.request(Method::Post, "/y", vec![], Some("{}".to_string()));
    assert_eq!(r.method, Method::Post);
    assert_eq!(
        r.headers,
        vec![
            ("X-Admin-Key".to_string(), "adm-key".to_string()),
            ("Content-Type".to_string(), "application/json".to_string()),
        ]
    );
    assert_eq!(r.body.as_deref(), Some("{}"));
}

// ── Errors ────────────────────────────────────────────────────────────────────

#[test]
fn statuses_classify_into_api_and_http_errors() {
    assert!(!is_error_status(200));
    assert!(!is_error_status(399));
    assert!(is_error_status(400));
    match error_for_status(404, "nope".to_string()) {
        SynapseError::Api { status, message } => {
            assert_eq!(status, 404);
            assert_eq!(message, "nope");
        }
        other => panic!("unexpected {:?}", other),
    }
    match error_for_status(503, "down".to_string()) {
        SynapseError::Http { status, body } => {
            assert_eq!(status, 503);
            assert_eq!(body, "down");
        }
        other => panic!("unexpected {:?}", other),
    }
}

#[test]
fn only_server_errors_are_transient() {
    assert!(error_for_status(500, String::new()).is_transient());
    assert!(error_for_status(599, String::new()).is_transient());
    assert!(!error_for_status(499, String::new()).is_transient());
    assert!(!error_for_status(400, String::new()).is_transient());
    assert!(!SynapseError::NotFound("x".to_string()).is_transient());
    assert!(!SynapseError::InvalidCursor("x".to_string()).is_transient());
    assert!(!SynapseError::GraphqlErrors(vec![]).is_transient());
    assert!(!SynapseError::Decode("x".to_string()).is_transient());
    assert!(!SynapseError::Api { status: 404, message: String::new() }.is_transient());
    assert!(SynapseError::Api { status: 502, message: String::new() }.is_transient());
}

// ── Retry ─────────────────────────────────────────────────────────────────────

#[test]
fn backoff_doubles_from_the_base() {
    assert_eq!(backoff_delay_ms(200, 1), 200);
    assert_eq!(backoff_delay_ms(200, 2), 400);
    assert_eq!(backoff_delay_ms(200, 3), 800);
    assert_eq!(backoff_delay_ms(0, 10), 0);
    assert_eq!(backoff_delay_ms(u64::MAX / 2 + 1, 2), u64::MAX);
    assert_eq!(backoff_delay_ms(1, 65), u64::MAX);
    assert_eq!(backoff_delay_ms(1, 64), 1u64 << 63);
}

#[test]
fn transient_failures_are_retried_until_attempts_run_out() {
    let mut s = RetryState::new(3, 200);
    assert!(s.can_attempt());
    match s.record::<()>(Err(error_for_status(503, String::new()))) {
        RetryStep::Wait(ms) => assert_eq!(ms, 200),
        _ => panic!("expected a wait"),
    }
    match s.record::<()>(Err(error_for_status(502, String::new()))) {
        RetryStep::Wait(ms) => assert_eq!(ms, 400),
        _ => panic!("expected a wait"),
    }
    match s.record::<()>(Err(error_for_status(500, "last".to_string()))) {
        RetryStep::Done(Err(SynapseError::Http { status: 500, body })) => assert_eq!(body, "last"),
        _ => panic!("expected the last failure"),
    }
    assert_eq!(s.attempts(), 3);
    assert!(!s.can_attempt());
}

#[test]
fn client_errors_and_successes_end_at_once() {
    let mut s = RetryState::new(5, 10);
    assert!(matches!(
        s.record::<()>(Err(error_for_status(404, String::new()))),
        RetryStep::Done(Err(SynapseError::Api { status: 404, .. }))
    ));
    let mut s = RetryState::new(5, 10);
    assert!(matches!(s.record(Ok::<u32, SynapseError>(9)), RetryStep::Done(Ok(9))));
    assert_eq!(s.attempts(), 1);
}

#[test]
fn disabled_retries_return_the_first_failure() {
    let c = SynapseClient::builder("http://h", "k").disable_retries().build();
    let mut s = c.retry();
    assert!(matches!(
        s.record::<()>(Err(error_for_status(503, String::new()))),
        RetryStep::Done(Err(SynapseError::Http { status: 503, .. }))
    ));
    let z = RetryState::new(0, 1);
    assert!(z.can_attempt());
}

// ── Text ──────────────────────────────────────────────────────────────────────

#[test]
fn decimal_rendering_matches_to_string() {
    for n in [0i64, 7, 10, 99, 100, 12345, -1, -10, -12345, i64::MAX, i64::MIN] {
        assert_eq!(i64_to_decimal(n), n.to_string());
    }
    for n in [0u64, 9, 10, 1000, u64::MAX] {
        assert_eq!(u64_to_decimal(n), n.to_string());
    }
}

#[test]
fn substring_search_matches_str_contains() {
    let cases = [
        ("invalid cursor: bad-cursor", "cursor"),
        ("cursor", "cursor"),
        ("cursorx", "cursor"),
        ("curso", "cursor"),
        ("", "cursor"),
        ("abc", ""),
        ("", ""),
        ("bad limit", "cursor"),
        ("éécursor", "cursor"),
    ];
    for (s, p) in cases {
        assert_eq!(str_contains(s, p), s.contains(p), "{:?} in {:?}", p, s);
    }
}

#[test]
fn json_strings_are_escaped_as_serde_json_does() {
    for s in ["", "plain", "q\"uote", "back\\slash", "\n\r\t\u{8}\u{c}", "\u{0}\u{1f}\u{7f}", "ünï"] {
        let mut out = String::from("x");
        push_json_string(&mut out, s);
        assert_eq!(out, format!("x{}", serde_json::to_string(s).unwrap()));
    }
}

#[test]
fn set_quota_body_encodes_both_fields() {
    let body = SetQuotaRequest { custom_limit: Some(250), tier: None };
    assert_eq!(body.to_json(), r#"{"custom_limit":250,"tier":null}"#);
    let body = SetQuotaRequest { custom_limit: None, tier: Some("gold \"plus\"".to_string()) };
    assert_eq!(body.to_json(), r#"{"custom_limit":null,"tier":"gold \"plus\""}"#);
}

// ── Table ─────────────────────────────────────────────────────────────────────

#[test]
fn table_pads_columns_to_their_widest_text() {
    let headers = vec!["ID", "STATUS"];
    let rows = vec![
        vec!["tx-1".to_string(), "ok".to_string()],
        vec!["t".to_string(), "completed".to_string(), "extra".to_string()],
    ];
    let lines = render_table(&headers, &rows);
    assert_eq!(
        lines,
        vec![
            "ID    STATUS   ".to_string(),
            "----  ---------".to_string(),
            "tx-1  ok       ".to_string(),
            "t     completed".to_string(),
        ]
    );
}

#[test]
fn empty_table_says_no_data() {
    let headers = vec!["A", "BB"];
    let lines = render_table(&headers, &vec![]);
    assert_eq!(lines, vec!["A  BB".to_string(), "-  --".to_string(), "(no data)".to_string()]);
}

#[test]
fn table_widths_count_bytes_and_padding_counts_chars() {
    let headers = vec!["N"];
    let rows = vec![vec!["é".to_string()], vec!["ab".to_string()]];
    let lines = render_table(&headers, &rows);
    assert_eq!(lines, vec!["N ".to_string(), "--".to_string(), "é ".to_string(), "ab".to_string()]);
    let short = render_table(&vec!["A", "B"], &vec![vec!["x".to_string()]]);
    assert_eq!(short, vec!["A  B".to_string(), "-  -".to_string(), "x".to_string()]);
}

// ── Resolvers ─────────────────────────────────────────────────────────────────

fn tx(id: &str, status: &str, asset: &str, account: &str) -> Transaction {
    Transaction {
        id: id.to_string(),
        stellar_account: account.to_string(),
        amount: "1.00".to_string(),
        asset_code: asset.to_string(),
        status: status.to_string(),
        created_at: "2024-01-01T00:00:00Z".to_string(),
        updated_at: "2024-01-01T00:00:00Z".to_string(),
        anchor_transaction_id: None,
        callback_type: None,
        callback_status: None,
        settlement_id: None,
        memo: None,
        memo_type: None,
        metadata: None,
    }
}

#[test]
fn filters_combine_with_and() {
    let txs = vec![
        tx("1", "pending", "USD", "GA"),
        tx("2", "completed", "USD", "GB"),
        tx("3", "pending", "EUR", "GA"),
        tx("4", "pending", "USD", "GB"),
    ];
    let f = TransactionFilter { status: Some("pending".to_string()), asset_code: Some("USD".to_string()), stellar_account: None };
    let ids: Vec<String> = TransactionQuery::apply_filter(txs.clone(), Some(f)).into_iter().map(|t| t.id).collect();
    assert_eq!(ids, vec!["1".to_string(), "4".to_string()]);
    let f = TransactionFilter { status: None, asset_code: None, stellar_account: Some("GA".to_string()) };
    let ids: Vec<String> = TransactionQuery::apply_filter(txs.clone(), Some(f)).into_iter().map(|t| t.id).collect();
    assert_eq!(ids, vec!["1".to_string(), "3".to_string()]);
    let all = TransactionQuery::apply_filter(txs.clone(), None);
    assert_eq!(all.len(), 4);
    let none = TransactionFilter { status: Some("failed".to_string()), asset_code: None, stellar_account: None };
    assert!(TransactionQuery::apply_filter(txs, Some(none)).is_empty());
}

#[test]
fn resolver_defaults() {
    assert_eq!(TransactionQuery::page_limit(None), 20);
    assert_eq!(TransactionQuery::page_limit(Some(5)), 5);
    assert!(TransactionMutation.replay_dlq("550e8400-e29b-41d4-a716-446655440000"));
    assert_eq!(
        TransactionSubscription.transaction_status_changed("x"),
        vec!["pending".to_string(), "completed".to_string()]
    );
}

#[test]
fn cloned_clients_keep_their_settings() {
    let c = SynapseClient::builder("http://h", "k").max_attempts(4).base_delay_ms(9).build();
    let d = c.clone();
    assert_eq!(d.max_attempts(), 4);
    assert_eq!(d.base_delay_ms(), 9);
    assert_eq!(d.base_url(), "http://h");
    let a = AdminSynapseClient::builder("http://a", "adm").disable_retries().build();
    let b = a.clone();
    assert_eq!(b.max_attempts(), 1);
    assert_eq!(b.retry().attempts(), 0);
    assert!(b.retry().can_attempt());
}
