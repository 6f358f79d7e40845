use synapse_sdk::client::{Method, SynapseClient};
use synapse_sdk::error::{error_for_status, SynapseError};
use synapse_sdk::models::{Settlement, SettlementParams};
use synapse_sdk::resources::admin::QuotasClient;
use synapse_sdk::resources::graphql::{frame_body, GraphQL, GraphqlEnvelope};
use synapse_sdk::resources::settlements::Settlements;

fn header<'a>(headers: &'a [(String, String)], name: &str) -> Option<&'a str> {
    headers.iter().find(|(k, _)| k == name).map(|(_, v)| v.as_str())
}

fn client(key: &str) -> SynapseClient {
    SynapseClient::builder("http://127.0.0.1:4010", key).disable_retries().build()
}

fn sample_settlement(id: &str) -> Settlement {
    Settlement {
        id: id.to_string(),
        asset_code: "USD".to_string(),
        total_amount: "5000.00".to_string(),
        tx_count: 42,
        period_start: "2024-01-01T00:00:00Z".to_string(),
        period_end: "2024-01-31T23:59:59Z".to_string(),
        status: "completed".to_string(),
        created_at: "2024-02-01T10:00:00Z".to_string(),
        updated_at: "2024-02-01T10:00:00Z".to_string(),
        dispute_reason: None,
        original_total_amount: None,
        reviewed_by: None,
        reviewed_at: None,
    }
}

// ── Admin quotas ──────────────────────────────────────────────────────────────

#[test]
fn list_returns_quota_views_on_200() {
    let c = client("admin-secret");
    let req = c.admin().quotas().list_request();
    assert_eq!(req.method, Method::Get);
    assert_eq!(req.url, "http://127.0.0.1:4010/admin/quotas");
    assert!(req.query.is_empty());
    assert!(req.body.is_none());
    assert_eq!(header(&req.headers, "X-API-Key"), Some("admin-secret"));
}

#[test]
fn get_returns_http_404_for_unknown_tenant() {
    let c = client("admin-secret");
    let req = c.admin().quotas().get_request("does-not-exist");
    assert_eq!(req.method, Method::Get);
    assert_eq!(req.url, "http://127.0.0.1:4010/admin/quotas/does-not-exist");
    let response: Result<(), SynapseError> =
        Err(error_for_status(404, r#"{"error":"tenant not found"}"#.to_string()));
    match QuotasClient::get_outcome(response) {
        Err(SynapseError::Http { status, body }) => {
            assert_eq!(status, 404);
            assert_eq!(body, r#"{"error":"tenant not found"}"#);
        }
        other => panic!("expected SynapseError::Http {{ status: 404 }}, got: {:?}", other),
    }
}

#[test]
fn quota_get_outcome_keeps_other_errors() {
    let response: Result<(), SynapseError> = Err(error_for_status(403, "forbidden".to_string()));
    assert!(matches!(QuotasClient::get_outcome(response), Err(SynapseError::Api { status: 403, .. })));
    assert!(matches!(QuotasClient::get_outcome(Ok::<u8, SynapseError>(7)), Ok(7)));
}

#[test]
fn set_sends_put_with_custom_limit_and_admin_key() {
    let c = client("admin-secret");
    let req = c.admin().quotas().set_request("t1", 250);
    assert_eq!(req.method, Method::Put);
    assert_eq!(req.url, "http://127.0.0.1:4010/admin/quotas/t1");
    assert_eq!(header(&req.headers, "X-API-Key"), Some("admin-secret"));
    assert_eq!(header(&req.headers, "Content-Type"), Some("application/json"));
    assert_eq!(req.body.as_deref(), Some(r#"{"custom_limit":250,"tier":null}"#));
}

#[test]
fn reset_sends_delete() {
    let c = client("admin-secret");
    let req = c.admin().quotas().reset_request("t1");
    assert_eq!(req.method, Method::Delete);
    assert_eq!(req.url, "http://127.0.0.1:4010/admin/quotas/t1/reset");
    assert!(req.body.is_none());
}

// ── GraphQL ───────────────────────────────────────────────────────────────────

#[test]
fn query_returns_data_on_happy_path() {
    let c = client("test-key");
    let req = c.graphql().request("{ transactions { id status } }", None);
    assert_eq!(req.method, Method::Post);
    assert_eq!(req.url, "http://127.0.0.1:4010/graphql");
    assert_eq!(header(&req.headers, "X-API-Key"), Some("test-key"));
    assert_eq!(req.body.as_deref(), Some(r#"{"query":"{ transactions { id status } }"}"#));

    let data: serde_json::Value =
        serde_json::from_str(r#"{ "transactions": [{ "id": "abc", "status": "pending" }] }"#).unwrap();
    let result = GraphQL::outcome(Ok(GraphqlEnvelope { data: Some(data), errors: None }));
    assert!(result.is_ok(), "expected Ok, got: {:?}", result);
    let data = result.unwrap();
    assert_eq!(data["transactions"][0]["id"], "abc");
    assert_eq!(data["transactions"][0]["status"], "pending");
}

#[test]
fn query_surfaces_graphql_errors_distinctly_from_transport_errors() {
    let errors: Vec<serde_json::Value> =
        serde_json::from_str(r#"[{ "message": "Unknown field `foo`", "locations": [] }]"#).unwrap();
    let result = GraphQL::outcome(Ok(GraphqlEnvelope { data: None, errors: Some(errors) }));
    assert!(
        matches!(result, Err(SynapseError::GraphqlErrors(_))),
        "expected GraphqlErrors, got: {:?}",
        result
    );
    if let Err(SynapseError::GraphqlErrors(errs)) = result {
        assert!(!errs.is_empty());
        assert_eq!(errs[0]["message"], "Unknown field `foo`");
    }
}

#[test]
fn query_sends_variables_when_provided() {
    let c = client("test-key");
    let vars: serde_json::Value = serde_json::from_str(r#"{ "id": "xyz" }"#).unwrap();
    let req = c
        .graphql()
        .request("query GetTx($id: ID!) { transaction(id: $id) { id status } }", Some(&vars));
    let sent: serde_json::Value = serde_json::from_str(req.body.as_deref().unwrap()).unwrap();
    assert_eq!(sent["query"], "query GetTx($id: ID!) { transaction(id: $id) { id status } }");
    assert_eq!(sent["variables"]["id"], "xyz");

    let data: serde_json::Value =
        serde_json::from_str(r#"{ "transaction": { "id": "xyz", "status": "completed" } }"#).unwrap();
    let result = GraphQL::outcome(Ok(GraphqlEnvelope { data: Some(data), errors: Some(vec![]) }));
    assert!(result.is_ok(), "expected Ok, got: {:?}", result);
    assert_eq!(result.unwrap()["transaction"]["id"], "xyz");
}

#[test]
fn query_returns_http_error_on_4xx() {
    let result = GraphQL::outcome(Err(error_for_status(401, "Unauthorized".to_string())));
    assert!(
        matches!(result, Err(SynapseError::Api { status: 401, .. })),
        "expected Api 401, got: {:?}",
        result
    );
}

#[test]
fn graphql_without_data_or_errors_is_null() {
    let result = GraphQL::outcome(Ok(GraphqlEnvelope { data: None, errors: None }));
    assert_eq!(result.unwrap(), serde_json::Value::Null);
}

#[test]
fn graphql_body_escapes_query_as_serde_json_does() {
    let query = "say \"hi\"\\\n\t\u{1}\u{1f}é";
    let framed = frame_body(query, None);
    let expected = format!("{{\"query\":{}}}", serde_json::to_string(query).unwrap());
    assert_eq!(framed, expected);
    let with_vars = frame_body("q", Some("{\"a\":1}"));
    assert_eq!(with_vars, r#"{"query":"q","variables":{"a":1}}"#);
}

// ── Settlements ───────────────────────────────────────────────────────────────

#[test]
fn get_returns_settlement_on_200() {
    let id = "550e8400-e29b-41d4-a716-446655440000";
    let c = client("test-key");
    let req = c.settlements().get_request(id);
    assert_eq!(req.method, Method::Get);
    assert_eq!(req.url, format!("http://127.0.0.1:4010/settlements/{}", id));
    assert_eq!(header(&req.headers, "X-API-Key"), Some("test-key"));

    let result = Settlements::get_outcome(Ok(sample_settlement(id)));
    assert!(result.is_ok(), "expected Ok, got: {:?}", result);
    let s = result.unwrap();
    assert_eq!(s.id, id);
    assert_eq!(s.asset_code, "USD");
    assert_eq!(s.total_amount, "5000.00");
    assert_eq!(s.status, "completed");
}

#[test]
fn get_returns_not_found_on_404() {
    let c = client("test-key");
    let req = c.settlements().get_request("00000000-0000-0000-0000-000000000000");
    assert_eq!(req.url, "http://127.0.0.1:4010/settlements/00000000-0000-0000-0000-000000000000");
    let response: Result<Settlement, SynapseError> =
        Err(error_for_status(404, "Settlement 00000000 not found".to_string()));
    let result = Settlements::get_outcome(response);
    assert!(
        matches!(result, Err(SynapseError::NotFound(_))),
        "expected NotFound, got: {:?}",
        result
    );
}

#[test]
fn list_returns_page_on_200() {
    let c = client("test-key");
    let params = SettlementParams { limit: Some(10), ..Default::default() };
    let req = c.settlements().list_request(&params);
    assert_eq!(req.method, Method::Get);
    assert_eq!(req.url, "http://127.0.0.1:4010/settlements");
    assert_eq!(req.query, vec![("limit".to_string(), "10".to_string())]);
    assert_eq!(header(&req.headers, "X-API-Key"), Some("test-key"));
    let page: Result<u8, SynapseError> = Ok(1);
    assert!(matches!(Settlements::list_outcome(page), Ok(1)));
}

#[test]
fn list_handles_invalid_cursor() {
    let params = SettlementParams { cursor: Some("bad-cursor".to_string()), ..Default::default() };
    assert_eq!(
        Settlements::list_query(&params),
        vec![("cursor".to_string(), "bad-cursor".to_string())]
    );
    let response: Result<(), SynapseError> =
        Err(error_for_status(400, "invalid cursor: bad-cursor".to_string()));
    let result = Settlements::list_outcome(response);
    assert!(
        matches!(result, Err(SynapseError::InvalidCursor(_))),
        "expected InvalidCursor, got: {:?}",
        result
    );
}

#[test]
fn list_query_orders_and_renders_all_parameters() {
    let params = SettlementParams {
        cursor: Some("abc".to_string()),
        limit: Some(-25),
        direction: Some("backward".to_string()),
    };
    assert_eq!(
        Settlements::list_query(&params),
        vec![
            ("cursor".to_string(), "abc".to_string()),
            ("limit".to_string(), "-25".to_string()),
            ("direction".to_string(), "backward".to_string()),
        ]
    );
    assert!(Settlements::list_query(&SettlementParams::default()).is_empty());
}

#[test]
fn list_outcome_keeps_other_bad_requests() {
    let response: Result<(), SynapseError> = Err(error_for_status(400, "bad limit".to_string()));
    assert!(matches!(Settlements::list_outcome(response), Err(SynapseError::Api { status: 400, .. })));
    let response: Result<(), SynapseError> = Err(error_for_status(404, "cursor gone".to_string()));
    assert!(matches!(Settlements::list_outcome(response), Err(SynapseError::Api { status: 404, .. })));
    let response: Result<(), SynapseError> = Err(error_for_status(500, "boom".to_string()));
    assert!(matches!(Settlements::get_outcome(response), Err(SynapseError::Http { status: 500, .. })));
}
