//! Decisions of the transaction GraphQL resolvers: which transactions a
//! filtered query returns, the default page size, and the updates a status
//! subscription streams.
use vstd::prelude::*;
use vstd::string::*;
use crate::models::Transaction;

verus! {

/// Filter criteria for transaction queries.
///
/// All fields are optional and combined with AND logic.
#[derive(Debug, Clone)]
pub struct TransactionFilter {
    pub status: Option<String>,
    pub asset_code: Option<String>,
    pub stellar_account: Option<String>,
}

/// Transaction query resolver.
///
/// Query operations are inherently idempotent and do not require
/// `X-Idempotency-Key` headers. Only mutations require idempotency keys.
#[derive(Debug)]
pub struct TransactionQuery;

/// Transaction mutation resolver.
///
/// All mutations require an `X-Idempotency-Key` header to ensure safe retries.
#[derive(Debug)]
pub struct TransactionMutation;

/// Transaction subscription resolver.
///
/// Subscriptions do not require idempotency keys as they are long-lived
/// connections that stream updates.
#[derive(Debug)]
pub struct TransactionSubscription;

impl Default for TransactionQuery {
    fn default() -> (q: Self)
        ensures
            q == TransactionQuery,
    {
        TransactionQuery
    }
}

impl Default for TransactionMutation {
    fn default() -> (m: Self)
        ensures
            m == TransactionMutation,
    {
        TransactionMutation
    }
}

impl Default for TransactionSubscription {
    fn default() -> (s: Self)
        ensures
            s == TransactionSubscription,
    {
        TransactionSubscription
    }
}

/// An optional criterion holds of a value: it is absent, or equal to it.
pub open spec fn criterion_holds(c: Option<String>, v: String) -> bool {
    match c {
        Some(s) => v@ == s@,
        None => true,
    }
}

/// A transaction meets a filter: every criterion that is set equals the
/// transaction's field.
pub open spec fn meets(f: TransactionFilter, t: Transaction) -> bool {
    &&& criterion_holds(f.status, t.status)
    &&& criterion_holds(f.asset_code, t.asset_code)
    &&& criterion_holds(f.stellar_account, t.stellar_account)
}

/// The transactions of `txs` that meet `f`, in their order.
pub open spec fn filtered(txs: Seq<Transaction>, f: TransactionFilter) -> Seq<Transaction>
    decreases txs.len(),
{
    if txs.len() == 0 {
        seq![]
    } else {
        let rest = filtered(txs.drop_last(), f);
        if meets(f, txs.last()) {
            rest.push(txs.last())
        } else {
            rest
        }
    }
}

/// What a query with an optional filter returns of a page: the page itself
/// without a filter, its transactions that meet the filter otherwise.
pub open spec fn query_result(txs: Seq<Transaction>, filter: Option<TransactionFilter>) -> Seq<Transaction> {
    match filter {
        Some(f) => filtered(txs, f),
        None => txs,
    }
}

/// Every transaction a filtered query returns meets the filter and comes
/// from the page; every transaction of the page that meets the filter is
/// returned.
pub proof fn lemma_filtered_exact(txs: Seq<Transaction>, f: TransactionFilter)
    ensures
        forall|t: Transaction| #[trigger] filtered(txs, f).contains(t) ==> meets(f, t) && txs.contains(t),
        forall|t: Transaction| txs.contains(t) && meets(f, t) ==> #[trigger] filtered(txs, f).contains(t),
    decreases txs.len(),
{
    if txs.len() > 0 {
        let init = txs.drop_last();
        lemma_filtered_exact(init, f);
        assert forall|t: Transaction| #[trigger] filtered(txs, f).contains(t) implies meets(f, t) && txs.contains(t) by {
            let rest = filtered(init, f);
            if meets(f, txs.last()) && t == txs.last() {
                assert(txs[txs.len() - 1] == t);
            } else {
                if meets(f, txs.last()) {
                    let k = choose|k: int| 0 <= k < rest.push(txs.last()).len() && rest.push(txs.last())[k] == t;
                    assert(rest[k] == t);
                    assert(rest.contains(t));
                }
                let j = choose|j: int| 0 <= j < init.len() && init[j] == t;
                assert(txs[j] == t);
            }
        }
        assert forall|t: Transaction| txs.contains(t) && meets(f, t) implies #[trigger] filtered(txs, f).contains(t) by {
            let rest = filtered(init, f);
            let j = choose|j: int| 0 <= j < txs.len() && txs[j] == t;
            if j == txs.len() - 1 {
                assert(rest.push(txs.last())[rest.len() as int] == t);
            } else {
                assert(init[j] == t);
                assert(rest.contains(t));
                let k = choose|k: int| 0 <= k < rest.len() && rest[k] == t;
                if meets(f, txs.last()) {
                    assert(rest.push(txs.last())[k] == t);
                }
            }
        }
    }
}

/// A transaction meets a filter exactly when each criterion that is set is
/// equal, character for character, to the transaction's field: equality,
/// not containment.
pub proof fn lemma_meets_is_exact_equality(f: TransactionFilter, t: Transaction)
    ensures
        meets(f, t) <==> {
            &&& (f.status matches Some(s) ==> t.status@ == s@)
            &&& (f.asset_code matches Some(a) ==> t.asset_code@ == a@)
            &&& (f.stellar_account matches Some(acc) ==> t.stellar_account@ == acc@)
        },
{
}

/// Every transaction a filtered query returns has exactly the values that
/// the filter sets.
pub proof fn lemma_filtered_fields_equal(txs: Seq<Transaction>, f: TransactionFilter, t: Transaction)
    requires
        filtered(txs, f).contains(t),
    ensures
        f.status matches Some(s) ==> t.status@ == s@,
        f.asset_code matches Some(a) ==> t.asset_code@ == a@,
        f.stellar_account matches Some(acc) ==> t.stellar_account@ == acc@,
{
    lemma_filtered_exact(txs, f);
    lemma_meets_is_exact_equality(f, t);
}

fn criterion_check(c: &Option<String>, v: &String) -> (b: bool)
    ensures
        b == criterion_holds(*c, *v),
{
    match c {
        Some(s) => *v == *s,
        None => true,
    }
}

impl TransactionQuery {
    /// Page size when the query gives none.
    pub fn page_limit(limit: Option<i64>) -> (l: i64)
        ensures
            l == match limit {
                Some(x) => x,
                None => 20,
            },
    {
        match limit {
            Some(x) => x,
            None => 20,
        }
    }

    /// Whether a transaction meets a filter (AND of the criteria that are set).
    pub fn meets_filter(filter: &TransactionFilter, tx: &Transaction) -> (b: bool)
        ensures
            b == meets(*filter, *tx),
    {
        criterion_check(&filter.status, &tx.status) && criterion_check(
            &filter.asset_code,
            &tx.asset_code,
        ) && criterion_check(&filter.stellar_account, &tx.stellar_account)
    }

    /// What the `transactions` query returns of a fetched page: the page as
    /// it is without a filter, else the transactions that meet the filter,
    /// in their order.
    pub fn apply_filter(txs: Vec<Transaction>, filter: Option<TransactionFilter>) -> (r: Vec<Transaction>)
        ensures
            r@ == query_result(txs@, filter),
    {
        match filter {
            None => txs,
            Some(f) => {
                let ghost all = txs@;
                let total = txs.len();
                let mut rest = txs;
                let mut out: Vec<Transaction> = Vec::new();
                let mut k: usize = 0;
                assert(all.take(0) =~= seq![]);
                assert(all.skip(0) =~= all);
                while rest.len() > 0
                    invariant
                        total == all.len(),
                        k <= all.len(),
                        rest@ == all.skip(k as int),
                        out@ == filtered(all.take(k as int), f),
                    decreases rest.len(),
                {
                    let t = rest.remove(0);
                    proof {
                        assert(all.take(k + 1).drop_last() =~= all.take(k as int));
                        assert(all.take(k + 1).last() == t);
                        assert(rest@ =~= all.skip(k + 1));
                    }
                    if Self::meets_filter(&f, &t) {
                        out.push(t);
                    }
                    k = k + 1;
                }
                assert(all.take(k as int) =~= all);
                out
            },
        }
    }
}

impl TransactionMutation {
    /// Replays a transaction from the dead letter queue; the replay always
    /// reports success.
    pub fn replay_dlq(&self, id: &str) -> (ok: bool)
        ensures
            ok,
    {
        true
    }
}

/// The status updates a subscription to one transaction streams, in order.
pub open spec fn status_updates() -> Seq<Seq<char>> {
    seq![seq!['p', 'e', 'n', 'd', 'i', 'n', 'g'], seq!['c', 'o', 'm', 'p', 'l', 'e', 't', 'e', 'd']]
}

impl TransactionSubscription {
    /// The status changes streamed for transaction `id`: its current status
    /// `pending`, then `completed`.
    pub fn transaction_status_changed(&self, id: &str) -> (updates: Vec<String>)
        ensures
            updates@.map_values(|s: String| s@) == status_updates(),
    {
        proof {
            reveal_strlit("pending");
            reveal_strlit("completed");
            assert("pending"@ =~= status_updates()[0]);
            assert("completed"@ =~= status_updates()[1]);
        }
        let mut updates: Vec<String> = Vec::new();
        updates.push(String::from_str("pending"));
        updates.push(String::from_str("completed"));
        assert(updates@.map_values(|s: String| s@) =~= status_updates());
        updates
    }
}

} // verus!
