//! GraphQL queries against `POST /graphql`.
use vstd::prelude::*;
use vstd::string::*;
use crate::client::{api_key_header, is_request, opt_view, pairs_view, ApiRequest, ClientConfig, Method, SynapseClient};
use crate::error::SynapseError;
use crate::json::{json_null, json_quote, json_text, json_value_text, push_json_string};

verus! {

/// GraphQL operations, bound to a client.
pub struct GraphQL<'a> {
    client: &'a SynapseClient,
}

impl<'a> View for GraphQL<'a> {
    type V = ClientConfig;

    closed spec fn view(&self) -> ClientConfig {
        self.client@
    }
}

impl SynapseClient {
    /// Access GraphQL operations.
    pub fn graphql(&self) -> (g: GraphQL<'_>)
        ensures
            g@ == self@,
    {
        GraphQL { client: self }
    }
}

/// The raw envelope returned by `POST /graphql`.
///
/// On success `data` is populated. On a GraphQL-level error the server still
/// returns HTTP 200 but populates `errors` instead of (or alongside) `data`.
#[derive(Debug)]
pub struct GraphqlEnvelope {
    pub data: Option<serde_json::Value>,
    pub errors: Option<Vec<serde_json::Value>>,
}

/// The request body: `{"query":<query>}`, or
/// `{"query":<query>,"variables":<variables>}` when variables are given
/// (`variables` being their JSON text).
pub open spec fn graphql_body(query: Seq<char>, variables: Option<Seq<char>>) -> Seq<char> {
    seq!['{', '"', 'q', 'u', 'e', 'r', 'y', '"', ':'] + json_quote(query) + match variables {
        Some(v) => seq![',', '"', 'v', 'a', 'r', 'i', 'a', 'b', 'l', 'e', 's', '"', ':'] + v,
        None => seq![],
    } + seq!['}']
}

/// Whether a GraphQL envelope reports application-level errors: its
/// `errors` array is present and not empty.
pub open spec fn has_errors(env: GraphqlEnvelope) -> bool {
    env.errors matches Some(errs) && errs@.len() > 0
}

/// Frames the JSON body of a GraphQL request, the query as a JSON string and
/// the variables, when given, as their JSON text.
pub fn frame_body(query: &str, variables_json: Option<&str>) -> (s: String)
    ensures
        s@ == graphql_body(
            query@,
            match variables_json {
                Some(v) => Some(v@),
                None => None,
            },
        ),
{
    proof {
        reveal_strlit("{\"query\":");
        reveal_strlit(",\"variables\":");
        reveal_strlit("}");
    }
    let mut out = String::from_str("{\"query\":");
    push_json_string(&mut out, query);
    match variables_json {
        Some(v) => {
            out.append(",\"variables\":");
            out.append(v);
        },
        None => {},
    }
    out.append("}");
    assert(out@ =~= graphql_body(
        query@,
        match variables_json {
            Some(v) => Some(v@),
            None => None,
        },
    ));
    out
}

/// GraphQL errors are never dropped: an envelope whose `errors` array is
/// present and not empty reports errors, whatever its `data` member holds;
/// and an envelope without such an array reports none.
pub proof fn lemma_errors_always_surface(env: GraphqlEnvelope)
    ensures
        (env.errors is Some && env.errors->Some_0@.len() > 0) ==> has_errors(env),
        (env.errors is None || env.errors->Some_0@.len() == 0) ==> !has_errors(env),
{
}

impl<'a> GraphQL<'a> {
    /// The client the requests are sent with.
    pub fn client(&self) -> (c: &'a SynapseClient)
        ensures
            c@ == self@,
    {
        self.client
    }

    /// The request that executes a GraphQL query: `POST /graphql` with the
    /// query and, when given, its variables as the JSON body.
    pub fn request(&self, query: &str, variables: Option<&serde_json::Value>) -> (r: ApiRequest)
        ensures
            is_request(
                r,
                self@.base_url,
                api_key_header(),
                self@.key,
                Method::Post,
                "/graphql"@,
                seq![],
                opt_view(r.body),
            ),
            r.body is Some,
            variables is None ==> r.body->Some_0@ == graphql_body(query@, None),
            variables is Some ==> r.body->Some_0@ == graphql_body(
                query@,
                Some(json_value_text(*variables->Some_0)),
            ),
    {
        let body = match variables {
            Some(v) => {
                let text = json_text(v);
                frame_body(query, Some(text.as_str()))
            },
            None => frame_body(query, None),
        };
        let q: Vec<(String, String)> = Vec::new();
        assert(pairs_view(q) =~= seq![]);
        self.client.request(Method::Post, "/graphql", q, Some(body))
    }

    /// What a GraphQL query returns, given the decoded envelope: a non-empty
    /// `errors` array is surfaced as [`SynapseError::GraphqlErrors`], distinct
    /// from transport failures; otherwise the `data` member, or JSON `null`
    /// when there is none. A failed request is handed back unchanged.
    pub fn outcome(r: Result<GraphqlEnvelope, SynapseError>) -> (o: Result<serde_json::Value, SynapseError>)
        ensures
            r is Err ==> o == Err::<serde_json::Value, SynapseError>(r->Err_0),
            r is Ok && has_errors(r->Ok_0) ==> o == Err::<serde_json::Value, SynapseError>(
                SynapseError::GraphqlErrors(r->Ok_0.errors->Some_0),
            ),
            r is Ok && r->Ok_0.errors is Some && r->Ok_0.errors->Some_0@.len() > 0 ==> o
                == Err::<serde_json::Value, SynapseError>(
                SynapseError::GraphqlErrors(r->Ok_0.errors->Some_0),
            ),
            r is Ok && !has_errors(r->Ok_0) && r->Ok_0.data is None ==> o is Ok && json_value_text(
                o->Ok_0,
            ) == seq!['n', 'u', 'l', 'l'],
            r is Ok && !has_errors(r->Ok_0) && r->Ok_0.data is Some ==> o == Ok::<serde_json::Value, SynapseError>(
                r->Ok_0.data->Some_0,
            ),
    {
        match r {
            Err(e) => Err(e),
            Ok(envelope) => {
                if let Some(errors) = envelope.errors {
                    if errors.len() > 0 {
                        return Err(SynapseError::GraphqlErrors(errors));
                    }
                }
                match envelope.data {
                    Some(d) => Ok(d),
                    None => Ok(json_null()),
                }
            },
        }
    }
}

} // verus!
