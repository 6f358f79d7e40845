//! Settlement operations: `GET /settlements/:id` and `GET /settlements`.
use vstd::prelude::*;
use vstd::string::*;
use crate::client::{api_key_header, is_request, opt_view, pairs_view, ApiRequest, ClientConfig, Method, SynapseClient};
use crate::error::SynapseError;
use crate::models::SettlementParams;
use crate::text::{contains_seq, i64_to_decimal, int_decimal, str_contains};

verus! {

/// Settlement operations, bound to a client.
pub struct Settlements<'a> {
    client: &'a SynapseClient,
}

impl<'a> View for Settlements<'a> {
    type V = ClientConfig;

    closed spec fn view(&self) -> ClientConfig {
        self.client@
    }
}

impl SynapseClient {
    /// Access settlement operations.
    pub fn settlements(&self) -> (s: Settlements<'_>)
        ensures
            s@ == self@,
    {
        Settlements { client: self }
    }
}

/// One query parameter, present only when the value is.
pub open spec fn optional_param(name: Seq<char>, value: Option<Seq<char>>) -> Seq<(Seq<char>, Seq<char>)> {
    match value {
        Some(v) => seq![(name, v)],
        None => seq![],
    }
}

/// The decimal text of an optional number.
pub open spec fn opt_decimal(o: Option<i64>) -> Option<Seq<char>> {
    match o {
        Some(l) => Some(int_decimal(l as int)),
        None => None,
    }
}

/// The query of a settlement listing: `cursor`, `limit` (in decimal) and
/// `direction`, in that order, each only when set.
pub open spec fn settlement_query(p: SettlementParams) -> Seq<(Seq<char>, Seq<char>)> {
    optional_param(seq!['c', 'u', 'r', 's', 'o', 'r'], opt_view(p.cursor))
        + optional_param(seq!['l', 'i', 'm', 'i', 't'], opt_decimal(p.limit))
        + optional_param(seq!['d', 'i', 'r', 'e', 'c', 't', 'i', 'o', 'n'], opt_view(p.direction))
}

/// What a settlement fetch returns, given what the request returned:
/// a 404 API error is reported as `NotFound` with the same message;
/// anything else is handed back unchanged.
pub open spec fn get_outcome_spec<T>(r: Result<T, SynapseError>) -> Result<T, SynapseError> {
    match r {
        Err(SynapseError::Api { status, message }) => if status == 404 {
            Err(SynapseError::NotFound(message))
        } else {
            r
        },
        _ => r,
    }
}

/// What a settlement listing returns, given what the request returned:
/// a 400 API error whose message mentions `cursor` is reported as
/// `InvalidCursor` with the same message; anything else unchanged.
pub open spec fn list_outcome_spec<T>(r: Result<T, SynapseError>) -> Result<T, SynapseError> {
    match r {
        Err(SynapseError::Api { status, message }) => if status == 400 && contains_seq(
            message@,
            seq!['c', 'u', 'r', 's', 'o', 'r'],
        ) {
            Err(SynapseError::InvalidCursor(message))
        } else {
            r
        },
        _ => r,
    }
}

/// Reporting a 404 as `NotFound` and a rejected cursor as `InvalidCursor`
/// changes no outcome's success, and no error's retryability: both are
/// permanent, as the 4xx errors they replace.
pub proof fn lemma_outcomes_keep_transience<T>(r: Result<T, SynapseError>)
    ensures
        get_outcome_spec(r) is Ok <==> r is Ok,
        list_outcome_spec(r) is Ok <==> r is Ok,
        r is Ok ==> get_outcome_spec(r) == r && list_outcome_spec(r) == r,
        r is Err ==> (get_outcome_spec(r)->Err_0.transient() <==> r->Err_0.transient()),
        r is Err ==> (list_outcome_spec(r)->Err_0.transient() <==> r->Err_0.transient()),
{
}

/// A fetch reports `NotFound` exactly for a 404: a 404 API error becomes
/// `NotFound` with the same message, an API error with any other status is
/// handed back as it is, and `NotFound` comes from nothing else.
pub proof fn lemma_get_not_found_exactly_on_404<T>(status: u16, message: String, r: Result<T, SynapseError>)
    ensures
        status == 404 ==> get_outcome_spec(Err::<T, SynapseError>(SynapseError::Api { status, message }))
            == Err::<T, SynapseError>(SynapseError::NotFound(message)),
        status != 404 ==> get_outcome_spec(Err::<T, SynapseError>(SynapseError::Api { status, message }))
            == Err::<T, SynapseError>(SynapseError::Api { status, message }),
        get_outcome_spec(r) matches Err(SynapseError::NotFound(m)) ==> (r == Err::<T, SynapseError>(
            SynapseError::Api { status: 404, message: m },
        ) || r == Err::<T, SynapseError>(SynapseError::NotFound(m))),
{
}

/// A listing reports `InvalidCursor` for every 400 API error whose message
/// has the text `cursor` anywhere in it (at position `i` here); an API error
/// with another status is handed back as it is; and `InvalidCursor` comes
/// only from a 400 API error with the same message, or is handed through.
pub proof fn lemma_list_invalid_cursor<T>(status: u16, message: String, i: int, r: Result<T, SynapseError>)
    ensures
        status == 400 && 0 <= i && i + 6 <= message@.len() && message@.subrange(i, i + 6) == seq![
            'c',
            'u',
            'r',
            's',
            'o',
            'r',
        ] ==> list_outcome_spec(Err::<T, SynapseError>(SynapseError::Api { status, message }))
            == Err::<T, SynapseError>(SynapseError::InvalidCursor(message)),
        status != 400 ==> list_outcome_spec(Err::<T, SynapseError>(SynapseError::Api { status, message }))
            == Err::<T, SynapseError>(SynapseError::Api { status, message }),
        list_outcome_spec(r) matches Err(SynapseError::InvalidCursor(m)) ==> (r == Err::<T, SynapseError>(
            SynapseError::Api { status: 400, message: m },
        ) || r == Err::<T, SynapseError>(SynapseError::InvalidCursor(m))),
{
    if status == 400 && 0 <= i && i + 6 <= message@.len() && message@.subrange(i, i + 6) == seq![
        'c',
        'u',
        'r',
        's',
        'o',
        'r',
    ] {
        assert(contains_seq(message@, seq!['c', 'u', 'r', 's', 'o', 'r']));
    }
}

impl<'a> Settlements<'a> {
    /// The client the requests are sent with.
    pub fn client(&self) -> (c: &'a SynapseClient)
        ensures
            c@ == self@,
    {
        self.client
    }

    /// The request that fetches a single settlement by its UUID:
    /// `GET /settlements/{id}`.
    pub fn get_request(&self, id: &str) -> (r: ApiRequest)
        ensures
            is_request(
                r,
                self@.base_url,
                api_key_header(),
                self@.key,
                Method::Get,
                "/settlements/"@ + id@,
                seq![],
                None,
            ),
    {
        let mut path = String::from_str("/settlements/");
        path.append(id);
        let query: Vec<(String, String)> = Vec::new();
        assert(pairs_view(query) =~= seq![]);
        self.client.request(Method::Get, path.as_str(), query, None)
    }

    /// What fetching a settlement returns, given the response: a 404 is
    /// reported as [`SynapseError::NotFound`], so callers can tell a missing
    /// record from other failures without inspecting raw status codes.
    pub fn get_outcome<T>(r: Result<T, SynapseError>) -> (o: Result<T, SynapseError>)
        ensures
            o == get_outcome_spec(r),
    {
        match r {
            Err(SynapseError::Api { status, message }) => {
                if status == 404 {
                    Err(SynapseError::NotFound(message))
                } else {
                    Err(SynapseError::Api { status, message })
                }
            },
            other => other,
        }
    }

    /// The query parameters of a settlement listing, in order: `cursor`,
    /// `limit` (in decimal), `direction`, each only when set.
    pub fn list_query(params: &SettlementParams) -> (q: Vec<(String, String)>)
        ensures
            pairs_view(q) == settlement_query(*params),
    {
        proof {
            reveal_strlit("cursor");
            reveal_strlit("limit");
            reveal_strlit("direction");
            assert("cursor"@ =~= seq!['c', 'u', 'r', 's', 'o', 'r']);
            assert("limit"@ =~= seq!['l', 'i', 'm', 'i', 't']);
            assert("direction"@ =~= seq!['d', 'i', 'r', 'e', 'c', 't', 'i', 'o', 'n']);
        }
        let ghost cursor_part = optional_param(seq!['c', 'u', 'r', 's', 'o', 'r'], opt_view(params.cursor));
        let ghost limit_part = optional_param(seq!['l', 'i', 'm', 'i', 't'], opt_decimal(params.limit));
        let mut query: Vec<(String, String)> = Vec::new();
        assert(pairs_view(query) =~= seq![]);
        if let Some(v) = &params.cursor {
            query.push((String::from_str("cursor"), v.clone()));
            assert(pairs_view(query) =~= cursor_part);
        }
        assert(pairs_view(query) =~= cursor_part);
        if let Some(l) = params.limit {
            query.push((String::from_str("limit"), i64_to_decimal(l)));
            assert(pairs_view(query) =~= cursor_part + limit_part);
        }
        assert(pairs_view(query) =~= cursor_part + limit_part);
        if let Some(d) = &params.direction {
            query.push((String::from_str("direction"), d.clone()));
            assert(pairs_view(query) =~= settlement_query(*params));
        }
        assert(pairs_view(query) =~= settlement_query(*params));
        query
    }

    /// The request that lists settlements: `GET /settlements` with the query
    /// of [`Settlements::list_query`].
    pub fn list_request(&self, params: &SettlementParams) -> (r: ApiRequest)
        ensures
            r.method == Method::Get,
            r.url@ == self@.base_url + "/settlements"@,
            pairs_view(r.query) == settlement_query(*params),
            r.body is None,
            r.headers@.len() == 1,
            r.headers@[0].0@ == api_key_header(),
            r.headers@[0].1@ == self@.key,
    {
        let query = Self::list_query(params);
        self.client.request(Method::Get, "/settlements", query, None)
    }

    /// What listing settlements returns, given the response: a 400 whose
    /// message mentions the cursor is reported as
    /// [`SynapseError::InvalidCursor`]; such a cursor must not be retried as-is.
    pub fn list_outcome<T>(r: Result<T, SynapseError>) -> (o: Result<T, SynapseError>)
        ensures
            o == list_outcome_spec(r),
    {
        proof {
            reveal_strlit("cursor");
            assert("cursor"@ =~= seq!['c', 'u', 'r', 's', 'o', 'r']);
        }
        match r {
            Err(SynapseError::Api { status, message }) => {
                if status == 400 && str_contains(message.as_str(), "cursor") {
                    Err(SynapseError::InvalidCursor(message))
                } else {
                    Err(SynapseError::Api { status, message })
                }
            },
            other => other,
        }
    }
}

} // verus!
