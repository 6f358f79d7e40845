//! Admin-only operations: per-tenant quota management under `/admin/quotas`.
use vstd::prelude::*;
use vstd::string::*;
use crate::admin_models::SetQuotaRequest;
use crate::client::{api_key_header, is_request, pairs_view, ApiRequest, ClientConfig, Method, SynapseClient};
use crate::error::SynapseError;
use crate::text::nat_decimal;

verus! {

/// Entry point for admin-only Synapse API operations.
///
/// Obtain via [`SynapseClient::admin`]. Requires an API key with admin scope.
pub struct AdminClient<'a> {
    client: &'a SynapseClient,
}

/// Per-tenant quota management.
///
/// Obtain via [`AdminClient::quotas`].
pub struct QuotasClient<'a> {
    client: &'a SynapseClient,
}

impl<'a> View for AdminClient<'a> {
    type V = ClientConfig;

    closed spec fn view(&self) -> ClientConfig {
        self.client@
    }
}

impl<'a> View for QuotasClient<'a> {
    type V = ClientConfig;

    closed spec fn view(&self) -> ClientConfig {
        self.client@
    }
}

impl SynapseClient {
    /// Access admin-only operations, sent with this client's key.
    pub fn admin(&self) -> (a: AdminClient<'_>)
        ensures
            a@ == self@,
    {
        AdminClient { client: self }
    }
}

impl<'a> AdminClient<'a> {
    /// Per-tenant quota management.
    pub fn quotas(&self) -> (q: QuotasClient<'a>)
        ensures
            q@ == self@,
    {
        QuotasClient { client: self.client }
    }
}

/// The JSON body that overrides a tenant's custom limit and leaves its tier
/// unchanged: `{"custom_limit":<limit>,"tier":null}`.
pub open spec fn set_quota_body(limit: u32) -> Seq<char> {
    seq!['{', '"', 'c', 'u', 's', 't', 'o', 'm', '_', 'l', 'i', 'm', 'i', 't', '"', ':']
        + nat_decimal(limit as nat)
        + seq![',', '"', 't', 'i', 'e', 'r', '"', ':', 'n', 'u', 'l', 'l', '}']
}

/// What fetching one tenant's quota returns, given the response: a 404 for
/// an unknown tenant is reported as `Http { status: 404, .. }` with the same
/// text; anything else is handed back unchanged.
pub open spec fn quota_get_outcome<T>(r: Result<T, SynapseError>) -> Result<T, SynapseError> {
    match r {
        Err(SynapseError::Api { status, message }) => if status == 404 {
            Err(SynapseError::Http { status, body: message })
        } else {
            r
        },
        _ => r,
    }
}

/// Reporting an unknown tenant as `Http { status: 404 }` changes no
/// outcome's success, and no error's retryability.
pub proof fn lemma_quota_outcome_keeps_transience<T>(r: Result<T, SynapseError>)
    ensures
        quota_get_outcome(r) is Ok <==> r is Ok,
        r is Ok ==> quota_get_outcome(r) == r,
        r is Err ==> (quota_get_outcome(r)->Err_0.transient() <==> r->Err_0.transient()),
{
}

/// Fetching a tenant reports `Http { status: 404 }` exactly for a 404 API
/// error (same text); an API error with any other status is handed back as
/// it is.
pub proof fn lemma_quota_404_exactly<T>(status: u16, message: String)
    ensures
        status == 404 ==> quota_get_outcome(Err::<T, SynapseError>(SynapseError::Api { status, message }))
            == Err::<T, SynapseError>(SynapseError::Http { status: 404, body: message }),
        status != 404 ==> quota_get_outcome(Err::<T, SynapseError>(SynapseError::Api { status, message }))
            == Err::<T, SynapseError>(SynapseError::Api { status, message }),
{
}

impl<'a> QuotasClient<'a> {
    /// The client the requests are sent with.
    pub fn client(&self) -> (c: &'a SynapseClient)
        ensures
            c@ == self@,
    {
        self.client
    }

    /// The request that lists quota usage for every active tenant:
    /// `GET /admin/quotas`.
    pub fn list_request(&self) -> (r: ApiRequest)
        ensures
            is_request(
                r,
                self@.base_url,
                api_key_header(),
                self@.key,
                Method::Get,
                "/admin/quotas"@,
                seq![],
                None,
            ),
    {
        let query: Vec<(String, String)> = Vec::new();
        assert(pairs_view(query) =~= seq![]);
        self.client.request(Method::Get, "/admin/quotas", query, None)
    }

    /// The request that gets quota usage for a single tenant:
    /// `GET /admin/quotas/{tenant_id}`.
    pub fn get_request(&self, tenant_id: &str) -> (r: ApiRequest)
        ensures
            is_request(
                r,
                self@.base_url,
                api_key_header(),
                self@.key,
                Method::Get,
                "/admin/quotas/"@ + tenant_id@,
                seq![],
                None,
            ),
    {
        let mut path = String::from_str("/admin/quotas/");
        path.append(tenant_id);
        let query: Vec<(String, String)> = Vec::new();
        assert(pairs_view(query) =~= seq![]);
        self.client.request(Method::Get, path.as_str(), query, None)
    }

    /// What getting one tenant's quota returns, given the response: a 404
    /// for an unknown `tenant_id` is reported as
    /// `SynapseError::Http { status: 404, .. }`, distinguishable from a
    /// `SynapseError::Network` transport failure.
    pub fn get_outcome<T>(r: Result<T, SynapseError>) -> (o: Result<T, SynapseError>)
        ensures
            o == quota_get_outcome(r),
    {
        match r {
            Err(SynapseError::Api { status, message }) => {
                if status == 404 {
                    Err(SynapseError::Http { status, body: message })
                } else {
                    Err(SynapseError::Api { status, message })
                }
            },
            other => other,
        }
    }

    /// The request that overrides a tenant's custom rate limit:
    /// `PUT /admin/quotas/{tenant_id}` with body `{"custom_limit":<limit>,"tier":null}`.
    /// Leaves the tenant's tier unchanged — only `custom_limit` is set.
    pub fn set_request(&self, tenant_id: &str, limit: u32) -> (r: ApiRequest)
        ensures
            is_request(
                r,
                self@.base_url,
                api_key_header(),
                self@.key,
                Method::Put,
                "/admin/quotas/"@ + tenant_id@,
                seq![],
                Some(set_quota_body(limit)),
            ),
    {
        let mut path = String::from_str("/admin/quotas/");
        path.append(tenant_id);
        let body = SetQuotaRequest { custom_limit: Some(limit), tier: None };
        let json = body.to_json();
        assert(json@ =~= set_quota_body(limit));
        let query: Vec<(String, String)> = Vec::new();
        assert(pairs_view(query) =~= seq![]);
        self.client.request(Method::Put, path.as_str(), query, Some(json))
    }

    /// The request that resets a tenant's current usage counter back to zero:
    /// `DELETE /admin/quotas/{tenant_id}/reset`. The configured limit is not
    /// changed, only the counter.
    pub fn reset_request(&self, tenant_id: &str) -> (r: ApiRequest)
        ensures
            is_request(
                r,
                self@.base_url,
                api_key_header(),
                self@.key,
                Method::Delete,
                "/admin/quotas/"@ + tenant_id@ + "/reset"@,
                seq![],
                None,
            ),
    {
        let mut path = String::from_str("/admin/quotas/");
        path.append(tenant_id);
        path.append("/reset");
        let query: Vec<(String, String)> = Vec::new();
        assert(pairs_view(query) =~= seq![]);
        self.client.request(Method::Delete, path.as_str(), query, None)
    }
}

} // verus!
