//! Data returned by, and parameters sent to, the public API.
//!
//! Timestamps are RFC 3339 text; JSON documents are `serde_json` values.
use vstd::prelude::*;

verus! {

// ── Transaction models ────────────────────────────────────────────────────────

/// A single transaction returned by the API.
#[derive(Debug, Clone)]
pub struct Transaction {
    pub id: String,
    pub stellar_account: String,
    pub amount: String,
    pub asset_code: String,
    pub status: String,
    /// RFC 3339 timestamp.
    pub created_at: String,
    /// RFC 3339 timestamp.
    pub updated_at: String,
    pub anchor_transaction_id: Option<String>,
    pub callback_type: Option<String>,
    pub callback_status: Option<String>,
    pub settlement_id: Option<String>,
    pub memo: Option<String>,
    pub memo_type: Option<String>,
    pub metadata: Option<serde_json::Value>,
}

/// Pagination metadata included in list responses.
#[derive(Debug, Clone)]
pub struct ListMeta {
    pub next_cursor: Option<String>,
    pub has_more: bool,
}

/// Paginated list of transactions.
#[derive(Debug, Clone)]
pub struct TransactionList {
    pub data: Vec<Transaction>,
    pub meta: ListMeta,
}

/// Filters for a transaction search.
///
/// All fields are optional; omit a field to leave that dimension unfiltered.
/// A search with no matches returns an empty [`TransactionSearch`] (a page with
/// `total == 0` and no `results`), never an error.
#[derive(Debug)]
pub struct SearchParams {
    /// Exact transaction status (e.g. `"pending"`, `"completed"`).
    pub status: Option<String>,
    /// Exact asset code (e.g. `"USD"`).
    pub asset_code: Option<String>,
    /// Inclusive minimum amount, as a decimal string (e.g. `"10.00"`).
    pub min_amount: Option<String>,
    /// Inclusive maximum amount, as a decimal string (e.g. `"500.00"`).
    pub max_amount: Option<String>,
    /// Inclusive RFC 3339 range start (e.g. `"2024-01-01T00:00:00Z"`).
    pub from: Option<String>,
    /// Exclusive RFC 3339 range end (e.g. `"2024-02-01T00:00:00Z"`).
    pub to: Option<String>,
    /// Exact Stellar account to filter by.
    pub stellar_account: Option<String>,
    /// Opaque pagination cursor from a previous response's `next_cursor`.
    pub cursor: Option<String>,
    /// Maximum records per page (server default: 25, max: 100).
    pub limit: Option<i64>,
}

impl Default for SearchParams {
    fn default() -> (p: Self)
        ensures
            p.status is None,
            p.asset_code is None,
            p.min_amount is None,
            p.max_amount is None,
            p.from is None,
            p.to is None,
            p.stellar_account is None,
            p.cursor is None,
            p.limit is None,
    {
        SearchParams {
            status: None,
            asset_code: None,
            min_amount: None,
            max_amount: None,
            from: None,
            to: None,
            stellar_account: None,
            cursor: None,
            limit: None,
        }
    }
}

/// A single page of transactions returned by a transaction search.
#[derive(Debug, Clone)]
pub struct TransactionSearch {
    /// Total number of records matching the filters across all pages.
    pub total: i64,
    /// Matching transactions for this page (empty when nothing matched).
    pub results: Vec<Transaction>,
    /// Opaque cursor for the next page, or `None` when this is the last page.
    pub next_cursor: Option<String>,
}

/// Query parameters for listing transactions.
///
/// All fields are optional; omit a field to accept the server's default.
/// Never construct a `cursor` manually — always use one from a previous
/// response's `meta.next_cursor`.
#[derive(Debug)]
pub struct ListParams {
    /// Opaque pagination cursor from `meta.next_cursor`.
    pub cursor: Option<String>,
    /// Maximum records per page (server default: 25, max: 100).
    pub limit: Option<i64>,
    /// Inclusive ISO 8601 range start (e.g. `"2024-01-01T00:00:00Z"`).
    pub from_date: Option<String>,
    /// Exclusive ISO 8601 range end (e.g. `"2024-02-01T00:00:00Z"`).
    pub to_date: Option<String>,
}

impl Default for ListParams {
    fn default() -> (p: Self)
        ensures
            p.cursor is None,
            p.limit is None,
            p.from_date is None,
            p.to_date is None,
    {
        ListParams { cursor: None, limit: None, from_date: None, to_date: None }
    }
}

// ── Settlement models ─────────────────────────────────────────────────────────

/// A settlement returned by the API.
#[derive(Debug, Clone)]
pub struct Settlement {
    pub id: String,
    pub asset_code: String,
    pub total_amount: String,
    pub tx_count: i64,
    /// RFC 3339 timestamp.
    pub period_start: String,
    /// RFC 3339 timestamp.
    pub period_end: String,
    pub status: String,
    /// RFC 3339 timestamp.
    pub created_at: String,
    /// RFC 3339 timestamp.
    pub updated_at: String,
    pub dispute_reason: Option<String>,
    pub original_total_amount: Option<String>,
    pub reviewed_by: Option<String>,
    /// RFC 3339 timestamp.
    pub reviewed_at: Option<String>,
}

/// A page of settlements.
#[derive(Debug, Clone)]
pub struct SettlementList {
    pub settlements: Vec<Settlement>,
    /// Opaque cursor for the next page, or `None` when this is the last page.
    pub next_cursor: Option<String>,
    pub has_more: bool,
}

/// Query parameters for listing settlements.
///
/// All fields are optional; omit them to use server defaults (10 records,
/// forward order).
#[derive(Debug)]
pub struct SettlementParams {
    /// Opaque pagination cursor from a previous page's `next_cursor`.
    pub cursor: Option<String>,
    /// Maximum records per page.
    pub limit: Option<i64>,
    /// Direction of the page walk (e.g. `"forward"`, `"backward"`).
    pub direction: Option<String>,
}

impl Default for SettlementParams {
    fn default() -> (p: Self)
        ensures
            p.cursor is None,
            p.limit is None,
            p.direction is None,
    {
        SettlementParams { cursor: None, limit: None, direction: None }
    }
}

// ── GraphQL models ────────────────────────────────────────────────────────────

/// Request body for `POST /graphql`.
#[derive(Debug, Clone)]
pub struct GraphQLRequest {
    pub query: String,
    pub variables: Option<serde_json::Value>,
}

/// A GraphQL application-level error returned inside an HTTP 200 response.
#[derive(Debug, Clone)]
pub struct GraphQLError {
    pub message: String,
}

/// Response from `POST /graphql`.
#[derive(Debug, Clone)]
pub struct GraphQLResponse {
    pub data: Option<serde_json::Value>,
    pub errors: Vec<GraphQLError>,
}

// ── Stats models ──────────────────────────────────────────────────────────────

/// Per-status transaction count returned by `GET /stats/status`.
#[derive(Debug, Clone)]
pub struct StatusCount {
    pub status: String,
    pub count: i64,
}

impl Default for StatusCount {
    fn default() -> (s: Self)
        ensures
            s.status@.len() == 0,
            s.count == 0,
    {
        StatusCount { status: String::new(), count: 0 }
    }
}

/// Per-day transaction volume returned by `GET /stats/daily`.
#[derive(Debug, Clone)]
pub struct DailyTotal {
    pub date: String,
    pub count: i64,
    pub total_amount: String,
}

impl Default for DailyTotal {
    fn default() -> (d: Self)
        ensures
            d.date@.len() == 0,
            d.count == 0,
            d.total_amount@.len() == 0,
    {
        DailyTotal { date: String::new(), count: 0, total_amount: String::new() }
    }
}

/// Per-asset statistics returned by `GET /stats/assets`.
#[derive(Debug, Clone)]
pub struct AssetStats {
    pub asset_code: String,
    pub count: i64,
    pub total_amount: String,
}

impl Default for AssetStats {
    fn default() -> (a: Self)
        ensures
            a.asset_code@.len() == 0,
            a.count == 0,
            a.total_amount@.len() == 0,
    {
        AssetStats { asset_code: String::new(), count: 0, total_amount: String::new() }
    }
}

/// Query parameters for the daily statistics.
#[derive(Debug)]
pub struct DailyParams {
    /// Number of days to include (1–365; server default: 7).
    pub days: Option<i32>,
}

impl Default for DailyParams {
    fn default() -> (p: Self)
        ensures
            p.days is None,
    {
        DailyParams { days: None }
    }
}

// ── Events / reconnect models ─────────────────────────────────────────────────

/// Response from `POST /reconnect` or `GET /reconnect/status`.
#[derive(Debug, Clone)]
pub struct ReconnectResponse {
    /// The `type` field of the response.
    pub kind: String,
    pub status: Option<ReconnectStatus>,
    pub backoff_seconds: Option<u64>,
    pub requires_resync: Option<bool>,
    pub message: Option<String>,
}

/// Reconnect status variant embedded in [`ReconnectResponse`].
#[derive(Debug, Clone)]
pub enum ReconnectStatus {
    Ready { session_id: String },
    RetryAfter { wait_seconds: u64 },
    SessionExpired,
    InvalidToken,
}

// ── Admin / bulk-status models ────────────────────────────────────────────────

/// Per-item failure reported inside [`BulkStatusResponse`].
#[derive(Debug, Clone)]
pub struct BulkUpdateError {
    pub id: String,
    pub error: String,
}

/// Response from `POST /admin/transactions/bulk-status`.
#[derive(Debug, Clone)]
pub struct BulkStatusResponse {
    pub updated: usize,
    pub failed: usize,
    pub errors: Vec<BulkUpdateError>,
}

} // verus!
