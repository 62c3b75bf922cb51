use vstd::prelude::*;

verus! {

/// The direction of an ordering.
#[derive(Debug, Clone, Copy, PartialEq, Eq, Structural)]
pub enum OrderDirection {
    Asc,
    Desc,
}

/// Paging and ordering that a listing request may ask for.
pub struct QueryOptions {
    pub limit: Option<u64>,
    pub offset: Option<u64>,
    pub order_by: Option<String>,
    pub order_direction: Option<OrderDirection>,
}

/// How a listing is read from its table: at most `limit` rows after skipping
/// `offset`, ordered by each key of `ordering` in turn.
pub struct QueryPlan<C> {
    pub limit: Option<u64>,
    pub offset: Option<u64>,
    pub ordering: Vec<(C, OrderDirection)>,
}

/// What a table's listing does before the request's options apply.
pub struct ListingDefaults<C> {
    /// The row limit that holds unless the request sets one.
    pub limit: Option<u64>,
    /// The ordering key that comes first whatever the request asks.
    pub primary: Option<(C, OrderDirection)>,
    /// The direction of the requested ordering when the request gives none.
    pub direction: OrderDirection,
}

pub open spec fn spec_or_else<T>(a: Option<T>, b: Option<T>) -> Option<T> {
    match a {
        Some(v) => Some(v),
        None => b,
    }
}

/// The plan of a listing: the request's limit replaces the default one, its
/// offset applies, and its ordering column (when the table knows it) comes
/// after the table's own first key, in the requested direction or the
/// table's default direction.
pub open spec fn spec_plan<C>(
    defaults: ListingDefaults<C>,
    query: Option<(Option<u64>, Option<u64>, Option<OrderDirection>)>,
    column: Option<C>,
) -> (Option<u64>, Option<u64>, Seq<(C, OrderDirection)>) {
    let base: Seq<(C, OrderDirection)> = match defaults.primary {
        Some(k) => seq![k],
        None => Seq::empty(),
    };
    match query {
        None => (defaults.limit, None, base),
        Some((limit, offset, direction)) => {
            let dir = match direction {
                Some(d) => d,
                None => defaults.direction,
            };
            let order = match column {
                Some(c) => base.push((c, dir)),
                None => base,
            };
            (spec_or_else(limit, defaults.limit), offset, order)
        },
    }
}

/// How a listing's plan follows the request: a limit the request sets is the
/// plan's limit, whatever the table's default; only an unset limit (or a
/// request without options) falls back to the table's default. The offset is
/// the request's (none without options). The table's own first key, when it
/// has one, comes first; a known requested column comes last, in the
/// requested direction or else the table's default direction, and nothing
/// else is ordered on.
pub proof fn lemma_plan_follows_request<C>(
    defaults: ListingDefaults<C>,
    query: Option<(Option<u64>, Option<u64>, Option<OrderDirection>)>,
    column: Option<C>,
)
    ensures
        query matches Some((Some(l), _, _)) ==> spec_plan(defaults, query, column).0 == Some(l),
        query matches Some((None, _, _)) ==> spec_plan(defaults, query, column).0 == defaults.limit,
        query is None ==> spec_plan(defaults, query, column).0 == defaults.limit,
        query matches Some((_, o, _)) ==> spec_plan(defaults, query, column).1 == o,
        query is None ==> spec_plan(defaults, query, column).1 is None,
        defaults.primary matches Some(k) ==> spec_plan(defaults, query, column).2.len() >= 1
            && spec_plan(defaults, query, column).2[0] == k,
        ({
            let n: int = if defaults.primary is Some { 1 } else { 0 };
            let order = spec_plan(defaults, query, column).2;
            match (query, column) {
                (Some((_, _, d)), Some(c)) => order.len() == n + 1 && order[n] == (c, match d {
                    Some(x) => x,
                    None => defaults.direction,
                }),
                _ => order.len() == n,
            }
        }),
{
}

/// The options of a request, without the ordering column's name.
pub open spec fn options_shape(query: Option<QueryOptions>) -> Option<
    (Option<u64>, Option<u64>, Option<OrderDirection>),
> {
    match query {
        None => None,
        Some(q) => Some((q.limit, q.offset, q.order_direction)),
    }
}

/// Builds the plan of a listing from the table's defaults, the request's
/// options and the column the request's ordering names (already looked up in
/// the table's columns; `None` when there is none or it is unknown).
pub fn build_plan<C: Copy>(
    defaults: &ListingDefaults<C>,
    query: &Option<QueryOptions>,
    column: Option<C>,
) -> (res: QueryPlan<C>)
    ensures
        (res.limit, res.offset, res.ordering@) == spec_plan(*defaults, options_shape(*query), column),
{
    let mut ordering: Vec<(C, OrderDirection)> = Vec::new();
    match defaults.primary {
        Some(k) => ordering.push(k),
        None => {},
    }
    match query {
        None => QueryPlan { limit: defaults.limit, offset: None, ordering },
        Some(q) => {
            let dir = match q.order_direction {
                Some(d) => d,
                None => defaults.direction,
            };
            match column {
                Some(c) => ordering.push((c, dir)),
                None => {},
            }
            let limit = match q.limit {
                Some(l) => Some(l),
                None => defaults.limit,
            };
            QueryPlan { limit, offset: q.offset, ordering }
        },
    }
}

/// The name of the ordering column a request asks for, if any.
pub fn order_by_name(query: &Option<QueryOptions>) -> (res: Option<&str>)
    ensures
        match query {
            None => res is None,
            Some(q) => match q.order_by {
                None => res is None,
                Some(name) => res matches Some(r) && r@ == name@,
            },
        },
{
    match query {
        None => None,
        Some(q) => match &q.order_by {
            None => None,
            Some(name) => Some(name.as_str()),
        },
    }
}

} // verus!
