//! Data returned by the admin quota endpoints.
use vstd::prelude::*;
use vstd::string::*;
use crate::json::{json_quote, push_json_string};
use crate::text::{nat_decimal, push_decimal};

verus! {

/// Current quota usage/limit snapshot for a tenant.
#[derive(Debug, Clone)]
pub struct QuotaStatus {
    pub limit: u32,
    pub used: u32,
    pub remaining: u32,
    pub reset_in_seconds: u64,
}

/// A tenant's quota configuration and current usage.
///
/// `quota_status` is `None` if usage tracking is unavailable for this tenant
/// (e.g. the quota backend could not be reached) — not an error on its own.
#[derive(Debug, Clone)]
pub struct TenantQuotaView {
    pub tenant_id: String,
    pub name: String,
    pub rate_limit_per_minute: i32,
    pub quota_status: Option<QuotaStatus>,
}

/// Request body for setting a tenant's quota.
#[derive(Debug, Clone)]
pub struct SetQuotaRequest {
    pub custom_limit: Option<u32>,
    pub tier: Option<String>,
}

/// JSON text of a field value: the number, or `null` when absent.
pub open spec fn json_opt_number(n: Option<u32>) -> Seq<char> {
    match n {
        Some(v) => nat_decimal(v as nat),
        None => seq!['n', 'u', 'l', 'l'],
    }
}

/// JSON text of a field value: the string literal, or `null` when absent.
pub open spec fn json_opt_string(s: Option<String>) -> Seq<char> {
    match s {
        Some(t) => json_quote(t@),
        None => seq!['n', 'u', 'l', 'l'],
    }
}

impl SetQuotaRequest {
    /// The JSON object for this body, fields in declaration order, absent
    /// fields as `null`: `{"custom_limit":…,"tier":…}`.
    pub open spec fn json(&self) -> Seq<char> {
        seq!['{', '"', 'c', 'u', 's', 't', 'o', 'm', '_', 'l', 'i', 'm', 'i', 't', '"', ':']
            + json_opt_number(self.custom_limit)
            + seq![',', '"', 't', 'i', 'e', 'r', '"', ':']
            + json_opt_string(self.tier)
            + seq!['}']
    }

    /// Encodes this body as compact JSON, as `serde_json::to_string` writes it.
    pub fn to_json(&self) -> (s: String)
        ensures
            s@ == self.json(),
    {
        proof {
            reveal_strlit("{\"custom_limit\":");
            reveal_strlit(",\"tier\":");
            reveal_strlit("null");
            reveal_strlit("}");
        }
        let mut out = String::from_str("{\"custom_limit\":");
        match self.custom_limit {
            Some(n) => push_decimal(&mut out, n as u64),
            None => out.append("null"),
        }
        out.append(",\"tier\":");
        match &self.tier {
            Some(t) => push_json_string(&mut out, t.as_str()),
            None => out.append("null"),
        }
        out.append("}");
        assert(out@ =~= self.json());
        out
    }
}

} // verus!
