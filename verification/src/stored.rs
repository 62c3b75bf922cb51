use vstd::prelude::*;

use crate::entities::actions::{self, Action};
use crate::entities::indicators::{self, Indicator};
use crate::entities::pairs::{self, Pair};
use crate::loading::{contains_id, spec_strategy_ids, strategy_ids};
use crate::entities::strategies::{Strategy, StrategyRequest};
use crate::overview::{
    StrategiesOverview, action_key, find_action, find_pair, first_match, lemma_first_match_end, lemma_first_match_found, lemma_first_match_none, lemma_first_match_step,
    lemma_lookups_find_their_key, pair_key,
};
use crate::response::Response;

verus! {

/// A strategy as the database stores it, with its first indicator, its
/// action and the action's pair (each at its default when none is stored).
pub struct StoredOverview {
    pub strategy: Strategy,
    pub indicator: Indicator,
    pub action: Action,
    pub pair: Pair,
}

pub open spec fn strategy_id_key(id: i32) -> spec_fn(Strategy) -> bool {
    |s: Strategy| s.id == id
}

pub open spec fn indicator_key(strategy_id: i32) -> spec_fn(Indicator) -> bool {
    |i: Indicator| i.strategy_id == strategy_id
}

pub fn find_strategy_record(s: &Vec<Strategy>, id: i32) -> (res: Option<&Strategy>)
    ensures
        match first_match(s@, strategy_id_key(id)) {
            None => res is None,
            Some(c) => res matches Some(r) && *r == c,
        },
{
    let mut i: usize = 0;
    assert(s@.skip(0) =~= s@);
    while i < s.len()
        invariant
            i <= s@.len(),
            first_match(s@, strategy_id_key(id)) == first_match(s@.skip(i as int), strategy_id_key(id)),
        decreases s@.len() - i,
    {
        proof {
            lemma_first_match_step(s@, strategy_id_key(id), i as int);
        }
        if s[i].id == id {
            return Some(&s[i]);
        }
        i = i + 1;
    }
    proof {
        lemma_first_match_end(s@, strategy_id_key(id));
    }
    None
}

pub fn find_indicator_of(s: &Vec<Indicator>, strategy_id: i32) -> (res: Option<&Indicator>)
    ensures
        match first_match(s@, indicator_key(strategy_id)) {
            None => res is None,
            Some(c) => res matches Some(r) && *r == c,
        },
{
    let mut i: usize = 0;
    assert(s@.skip(0) =~= s@);
    while i < s.len()
        invariant
            i <= s@.len(),
            first_match(s@, indicator_key(strategy_id)) == first_match(
                s@.skip(i as int),
                indicator_key(strategy_id),
            ),
        decreases s@.len() - i,
    {
        proof {
            lemma_first_match_step(s@, indicator_key(strategy_id), i as int);
        }
        if s[i].strategy_id == strategy_id {
            return Some(&s[i]);
        }
        i = i + 1;
    }
    proof {
        lemma_first_match_end(s@, indicator_key(strategy_id));
    }
    None
}

/// Whether `o` is the stored overview of strategy `id` in these tables.
pub open spec fn spec_stored_fits(
    o: StoredOverview,
    strategies: Seq<Strategy>,
    indicators: Seq<Indicator>,
    actions: Seq<Action>,
    pairs: Seq<Pair>,
    id: i32,
) -> bool {
    &&& o.strategy == first_match(strategies, strategy_id_key(id)).unwrap()
    &&& match first_match(indicators, indicator_key(id)) {
        Some(i) => o.indicator == i,
        None => indicators::spec_is_default(o.indicator),
    }
    &&& match first_match(actions, action_key(id)) {
        Some(a) => o.action == a,
        None => actions::spec_is_default(o.action),
    }
    &&& match first_match(pairs, pair_key(o.action.pair_id)) {
        Some(p) => o.pair == p,
        None => pairs::spec_is_default(o.pair),
    }
}

/// A stored overview of strategy `id` belongs to it: the strategy is the
/// stored one with that id; the indicator and the action, where the strategy
/// has any, are ones of that strategy (else at their defaults); the pair,
/// where it is stored, is the action's pair (else at its default).
pub proof fn lemma_stored_overview_belongs(
    o: StoredOverview,
    strategies: Seq<Strategy>,
    indicators: Seq<Indicator>,
    actions: Seq<Action>,
    pairs: Seq<Pair>,
    id: i32,
)
    requires
        spec_stored_fits(o, strategies, indicators, actions, pairs, id),
        exists|i: int| 0 <= i < strategies.len() && (#[trigger] strategies[i]).id == id,
    ensures
        o.strategy.id == id && strategies.contains(o.strategy),
        (exists|i: int| 0 <= i < indicators.len() && (#[trigger] indicators[i]).strategy_id == id) ==> o.indicator.strategy_id == id
            && indicators.contains(o.indicator),
        (forall|i: int| 0 <= i < indicators.len() ==> (#[trigger] indicators[i]).strategy_id != id) ==> indicators::spec_is_default(o.indicator),
        (exists|i: int| 0 <= i < actions.len() && (#[trigger] actions[i]).strategy_id == id) ==> o.action.strategy_id == id
            && actions.contains(o.action),
        (forall|i: int| 0 <= i < actions.len() ==> (#[trigger] actions[i]).strategy_id != id) ==> actions::spec_is_default(o.action),
        (exists|i: int| 0 <= i < pairs.len() && (#[trigger] pairs[i]).id == o.action.pair_id) ==> o.pair.id == o.action.pair_id
            && pairs.contains(o.pair),
{
    lemma_stored_lookups_find_their_key(strategies, indicators, Seq::<PairAsset>::empty(), id);
    lemma_lookups_find_their_key(Seq::empty(), actions, pairs, Seq::empty(), Seq::empty(), id, Seq::empty());
    lemma_lookups_find_their_key(Seq::empty(), Seq::empty(), pairs, Seq::empty(), Seq::empty(), o.action.pair_id, Seq::empty());
}

impl StrategiesOverview {
    /// Reads a strategy with its first indicator, its action and the action's
    /// pair. A request without an id is refused (400); a strategy that is not
    /// stored is not found (404); a missing indicator, action or pair is given
    /// at its default.
    pub fn select_strategy_overview(
        strategies: &Vec<Strategy>,
        indicators: &Vec<Indicator>,
        actions: &Vec<Action>,
        pairs: &Vec<Pair>,
        req: &StrategyRequest,
    ) -> (res: Result<StoredOverview, Response>)
        ensures
            req.id is None ==> (res matches Err(r) && r.code == 400 && r.message@
                == "Strategy id is null"@),
            forall|id: i32|
                req.id == Some(id) && first_match(strategies@, strategy_id_key(id)) is None ==> (
                res matches Err(r) && r.code == 404 && r.message@ == "Strategy not found"@),
            forall|id: i32|
                req.id == Some(id) && first_match(strategies@, strategy_id_key(id)) is Some ==> (
                res matches Ok(o) && spec_stored_fits(o, strategies@, indicators@, actions@, pairs@, id)),
    {
        let id = match req.id {
            None => {
                return Err(Response::bad_request(String::from_str("Strategy id is null")));
            },
            Some(id) => id,
        };
        let strategy = match find_strategy_record(strategies, id) {
            None => {
                return Err(Response::not_found(String::from_str("Strategy not found")));
            },
            Some(s) => s.duplicate(),
        };
        let indicator = match find_indicator_of(indicators, id) {
            Some(i) => i.duplicate(),
            None => Indicator::default_record(),
        };
        let action = match find_action(actions, id) {
            Some(a) => a.duplicate(),
            None => Action::default_record(),
        };
        let pair = match find_pair(pairs, action.pair_id) {
            Some(p) => p.duplicate(),
            None => Pair::default_record(),
        };
        Ok(StoredOverview { strategy, indicator, action, pair })
    }
}

/// A link between a strategy and the pair asset it trades.
#[derive(Debug, Clone, Copy, PartialEq, Eq, Structural)]
pub struct StrategyPairLink {
    pub strategy_id: i32,
    pub pair_asset_id: i32,
}

/// A row of the pair assets table: the columns of a pair, and the largest
/// number of parts an iceberg order may be split into.
pub struct PairAsset {
    pub pair: Pair,
    pub iceberg_parts_limit: i32,
}

/// Whether `p` is the pair asset with every column at its default.
pub open spec fn spec_is_default_pair_asset(p: PairAsset) -> bool {
    pairs::spec_is_default(p.pair) && p.iceberg_parts_limit == 0
}

impl PairAsset {
    /// The pair asset with every column at its default.
    pub fn default_record() -> (res: Self)
        ensures
            spec_is_default_pair_asset(res),
    {
        PairAsset { pair: Pair::default_record(), iceberg_parts_limit: 0 }
    }

    pub fn duplicate(&self) -> (res: Self)
        ensures
            res == *self,
    {
        PairAsset { pair: self.pair.duplicate(), iceberg_parts_limit: self.iceberg_parts_limit }
    }
}

/// A strategy with the pair asset it trades.
pub struct StrategyPairAsset {
    pub strategy: Strategy,
    pub pair_asset: PairAsset,
}

pub open spec fn pair_asset_key(id: i32) -> spec_fn(PairAsset) -> bool {
    |p: PairAsset| p.pair.id == id
}

pub open spec fn link_of(ids: Seq<i32>) -> spec_fn(StrategyPairLink) -> bool {
    |l: StrategyPairLink| ids.contains(l.strategy_id)
}

/// The links of `s` whose strategy is one of `ids`, in order.
pub open spec fn spec_links_of(s: Seq<StrategyPairLink>, ids: Seq<i32>) -> Seq<StrategyPairLink> {
    s.filter(link_of(ids))
}

/// The links that belong to the given (active) strategies, in order.
pub fn links_of_strategies(links: &Vec<StrategyPairLink>, strategy_ids: &Vec<i32>) -> (res: Vec<
    StrategyPairLink,
>)
    ensures
        res@ == spec_links_of(links@, strategy_ids@),
{
    let mut res: Vec<StrategyPairLink> = Vec::new();
    let mut i: usize = 0;
    while i < links.len()
        invariant
            i <= links@.len(),
            res@ == links@.take(i as int).filter(link_of(strategy_ids@)),
        decreases links@.len() - i,
    {
        proof {
            reveal(Seq::filter);
            assert(links@.take(i + 1).drop_last() =~= links@.take(i as int));
        }
        let link = links[i];
        if contains_id(strategy_ids, link.strategy_id) {
            res.push(link);
        }
        i = i + 1;
    }
    proof {
        assert(links@.take(links@.len() as int) =~= links@);
    }
    res
}

pub fn find_pair_asset(s: &Vec<PairAsset>, id: i32) -> (res: Option<&PairAsset>)
    ensures
        match first_match(s@, pair_asset_key(id)) {
            None => res is None,
            Some(c) => res matches Some(r) && *r == c,
        },
{
    let mut i: usize = 0;
    assert(s@.skip(0) =~= s@);
    while i < s.len()
        invariant
            i <= s@.len(),
            first_match(s@, pair_asset_key(id)) == first_match(s@.skip(i as int), pair_asset_key(id)),
        decreases s@.len() - i,
    {
        proof {
            lemma_first_match_step(s@, pair_asset_key(id), i as int);
        }
        if s[i].pair.id == id {
            return Some(&s[i]);
        }
        i = i + 1;
    }
    proof {
        lemma_first_match_end(s@, pair_asset_key(id));
    }
    None
}

/// Whether `j` joins `link` to the first matching strategy and pair asset
/// (each at its default when there is none).
pub open spec fn spec_joined(j: StrategyPairAsset, link: StrategyPairLink, strategies: Seq<Strategy>, pairs: Seq<PairAsset>) -> bool {
    &&& match first_match(strategies, strategy_id_key(link.strategy_id)) {
        Some(s) => j.strategy == s,
        None => crate::entities::strategies::spec_is_default(j.strategy),
    }
    &&& match first_match(pairs, pair_asset_key(link.pair_asset_id)) {
        Some(p) => j.pair_asset == p,
        None => spec_is_default_pair_asset(j.pair_asset),
    }
}

/// The links kept are exactly those of the given strategies.
pub proof fn lemma_links_of_strategies(s: Seq<StrategyPairLink>, ids: Seq<i32>)
    ensures
        forall|k: int| 0 <= k < spec_links_of(s, ids).len() ==> ids.contains((#[trigger] spec_links_of(s, ids)[k]).strategy_id),
        forall|i: int| 0 <= i < s.len() && ids.contains((#[trigger] s[i]).strategy_id) ==> spec_links_of(s, ids).contains(s[i]),
        spec_links_of(s, ids).len() <= s.len(),
{
    s.lemma_filter_len(link_of(ids));
    assert forall|k: int| 0 <= k < spec_links_of(s, ids).len() implies ids.contains((#[trigger] spec_links_of(s, ids)[k]).strategy_id) by {
        s.lemma_filter_pred(link_of(ids), k);
    }
    assert forall|i: int| 0 <= i < s.len() && ids.contains((#[trigger] s[i]).strategy_id) implies spec_links_of(s, ids).contains(s[i]) by {
        assert(link_of(ids)(s[i]));
        s.lemma_filter_contains(link_of(ids), i);
    }
}

/// A joined link carries the strategy and the pair asset it names, where
/// they are stored (each at its default otherwise).
pub proof fn lemma_joined_names_its_link(j: StrategyPairAsset, link: StrategyPairLink, strategies: Seq<Strategy>, pairs: Seq<PairAsset>)
    requires
        spec_joined(j, link, strategies, pairs),
    ensures
        (exists|i: int| 0 <= i < strategies.len() && (#[trigger] strategies[i]).id == link.strategy_id) ==> j.strategy.id
            == link.strategy_id && strategies.contains(j.strategy),
        (exists|i: int| 0 <= i < pairs.len() && (#[trigger] pairs[i]).pair.id == link.pair_asset_id) ==> j.pair_asset.pair.id
            == link.pair_asset_id && pairs.contains(j.pair_asset),
{
    lemma_stored_lookups_find_their_key(strategies, Seq::empty(), Seq::empty(), link.strategy_id);
    lemma_stored_lookups_find_their_key(Seq::empty(), Seq::empty(), pairs, link.pair_asset_id);
}

/// Joins each link of an active strategy to its strategy and its pair
/// asset, in the links' order.
pub fn join_strategy_pairs(
    links: &Vec<StrategyPairLink>,
    strategies: &Vec<Strategy>,
    pairs: &Vec<PairAsset>,
) -> (res: Vec<StrategyPairAsset>)
    ensures
        res@.len() == links@.len(),
        forall|k: int| 0 <= k < links@.len() ==> spec_joined(#[trigger] res@[k], links@[k], strategies@, pairs@),
{
    let mut res: Vec<StrategyPairAsset> = Vec::new();
    let mut k: usize = 0;
    while k < links.len()
        invariant
            k <= links@.len(),
            res@.len() == k,
            forall|m: int| 0 <= m < k ==> spec_joined(#[trigger] res@[m], links@[m], strategies@, pairs@),
        decreases links@.len() - k,
    {
        let link = links[k];
        let strategy = match find_strategy_record(strategies, link.strategy_id) {
            Some(s) => s.duplicate(),
            None => Strategy::default_record(),
        };
        let pair_asset = match find_pair_asset(pairs, link.pair_asset_id) {
            Some(p) => p.duplicate(),
            None => PairAsset::default_record(),
        };
        res.push(StrategyPairAsset { strategy, pair_asset });
        k = k + 1;
    }
    res
}

/// The links between strategies and pair assets.
pub struct StrategiesPairAssets;

impl StrategiesPairAssets {
    /// Each link of an active strategy, joined to its strategy (among the
    /// active ones) and its pair asset, in the links' order.
    pub fn select_active_strategies_pair_assets(
        active_strategies: &Vec<Strategy>,
        links: &Vec<StrategyPairLink>,
        pair_assets: &Vec<PairAsset>,
    ) -> (res: Vec<StrategyPairAsset>)
        ensures
            res@.len() == spec_links_of(links@, spec_strategy_ids(active_strategies@)).len(),
            forall|k: int|
                0 <= k < res@.len() ==> spec_joined(
                    #[trigger] res@[k],
                    spec_links_of(links@, spec_strategy_ids(active_strategies@))[k],
                    active_strategies@,
                    pair_assets@,
                ),
    {
        let ids = strategy_ids(active_strategies);
        let kept = links_of_strategies(links, &ids);
        join_strategy_pairs(&kept, active_strategies, pair_assets)
    }
}

/// Whether a pair asset lookup (by the set fields: an id or asset above
/// zero, a non-empty symbol) selects `m`.
pub open spec fn spec_pair_probe(m: PairAsset, probe: PairAsset) -> bool {
    &&& (probe.pair.id > 0 ==> m.pair.id == probe.pair.id)
    &&& (probe.pair.base_asset_id > 0 ==> m.pair.base_asset_id == probe.pair.base_asset_id)
    &&& (probe.pair.quote_asset_id > 0 ==> m.pair.quote_asset_id == probe.pair.quote_asset_id)
    &&& (probe.pair.symbol@.len() > 0 ==> m.pair.symbol@ == probe.pair.symbol@)
}

pub open spec fn pair_probe_key(probe: PairAsset) -> spec_fn(PairAsset) -> bool {
    |m: PairAsset| spec_pair_probe(m, probe)
}

/// The lookups of stored records find a record with the key they are asked
/// for (a strategy by its id, an indicator by its strategy, a pair asset by
/// its pair's id), and find nothing only when no record has that key.
pub proof fn lemma_stored_lookups_find_their_key(
    strategies: Seq<Strategy>,
    indicators: Seq<Indicator>,
    pair_assets: Seq<PairAsset>,
    id: i32,
)
    ensures
        first_match(strategies, strategy_id_key(id)) matches Some(x) ==> x.id == id && strategies.contains(x),
        first_match(strategies, strategy_id_key(id)) is None <==> forall|i: int|
            0 <= i < strategies.len() ==> (#[trigger] strategies[i]).id != id,
        first_match(indicators, indicator_key(id)) matches Some(x) ==> x.strategy_id == id
            && indicators.contains(x),
        first_match(indicators, indicator_key(id)) is None <==> forall|i: int|
            0 <= i < indicators.len() ==> (#[trigger] indicators[i]).strategy_id != id,
        first_match(pair_assets, pair_asset_key(id)) matches Some(x) ==> x.pair.id == id
            && pair_assets.contains(x),
        first_match(pair_assets, pair_asset_key(id)) is None <==> forall|i: int|
            0 <= i < pair_assets.len() ==> (#[trigger] pair_assets[i]).pair.id != id,
{
    lemma_first_match_found(strategies, strategy_id_key(id));
    lemma_first_match_none(strategies, strategy_id_key(id));
    lemma_first_match_found(indicators, indicator_key(id));
    lemma_first_match_none(indicators, indicator_key(id));
    lemma_first_match_found(pair_assets, pair_asset_key(id));
    lemma_first_match_none(pair_assets, pair_asset_key(id));
}

/// A pair asset lookup finds a stored pair asset that agrees with every field
/// the probe sets (an id, a base or a quote asset above zero, a non-empty
/// symbol), the first stored one that does; and it finds one whenever a
/// stored pair asset agrees with all of them.
pub proof fn lemma_pair_probe_agrees(pairs: Seq<PairAsset>, probe: PairAsset)
    ensures
        first_match(pairs, pair_probe_key(probe)) matches Some(m) ==> {
            &&& pairs.contains(m)
            &&& probe.pair.id > 0 ==> m.pair.id == probe.pair.id
            &&& probe.pair.base_asset_id > 0 ==> m.pair.base_asset_id == probe.pair.base_asset_id
            &&& probe.pair.quote_asset_id > 0 ==> m.pair.quote_asset_id == probe.pair.quote_asset_id
            &&& probe.pair.symbol@.len() > 0 ==> m.pair.symbol@ == probe.pair.symbol@
        },
        forall|i: int|
            0 <= i < pairs.len() && (probe.pair.id > 0 ==> (#[trigger] pairs[i]).pair.id == probe.pair.id)
                && (probe.pair.base_asset_id > 0 ==> pairs[i].pair.base_asset_id == probe.pair.base_asset_id)
                && (probe.pair.quote_asset_id > 0 ==> pairs[i].pair.quote_asset_id == probe.pair.quote_asset_id)
                && (probe.pair.symbol@.len() > 0 ==> pairs[i].pair.symbol@ == probe.pair.symbol@)
                ==> first_match(pairs, pair_probe_key(probe)) is Some,
{
    lemma_first_match_found(pairs, pair_probe_key(probe));
    assert forall|i: int|
        0 <= i < pairs.len() && (probe.pair.id > 0 ==> (#[trigger] pairs[i]).pair.id == probe.pair.id)
            && (probe.pair.base_asset_id > 0 ==> pairs[i].pair.base_asset_id == probe.pair.base_asset_id)
            && (probe.pair.quote_asset_id > 0 ==> pairs[i].pair.quote_asset_id == probe.pair.quote_asset_id)
            && (probe.pair.symbol@.len() > 0 ==> pairs[i].pair.symbol@ == probe.pair.symbol@)
        implies first_match(pairs, pair_probe_key(probe)) is Some by {
        assert(pair_probe_key(probe)(pairs[i]));
    }
}

/// The pair assets table.
pub struct PairAssets;

impl PairAssets {
    /// Looks a pair asset up by the fields the probe sets; one that is not
    /// stored is a failure ("Pair asset not found").
    pub fn select_pair_asset(pairs: &Vec<PairAsset>, probe: &PairAsset) -> (res: Result<PairAsset, String>)
        ensures
            match first_match(pairs@, pair_probe_key(*probe)) {
                Some(p) => res == Ok::<PairAsset, String>(p),
                None => res matches Err(e) && e@ == "Pair asset not found"@,
            },
    {
        let mut i: usize = 0;
        assert(pairs@.skip(0) =~= pairs@);
        while i < pairs.len()
            invariant
                i <= pairs@.len(),
                first_match(pairs@, pair_probe_key(*probe)) == first_match(
                    pairs@.skip(i as int),
                    pair_probe_key(*probe),
                ),
            decreases pairs@.len() - i,
        {
            proof {
                lemma_first_match_step(pairs@, pair_probe_key(*probe), i as int);
            }
            let m = &pairs[i].pair;
            let p = &probe.pair;
            let fits = (p.id <= 0 || m.id == p.id)
                && (p.base_asset_id <= 0 || m.base_asset_id == p.base_asset_id)
                && (p.quote_asset_id <= 0 || m.quote_asset_id == p.quote_asset_id)
                && (p.symbol.as_str().unicode_len() == 0 || crate::entities::common::text_is(&m.symbol, &p.symbol));
            if fits {
                return Ok(pairs[i].duplicate());
            }
            i = i + 1;
        }
        proof {
            lemma_first_match_end(pairs@, pair_probe_key(*probe));
        }
        Err(String::from_str("Pair asset not found"))
    }
}

/// The columns an insert of a pair asset sets; the table fills in the id
/// and every other column.
pub struct PairAssetInsert {
    pub base_asset_id: i32,
    pub quote_asset_id: i32,
    pub symbol: String,
}

impl PairAssets {
    /// The columns an insert of `model` sets: its two assets and its symbol.
    pub fn insert_pair_asset(model: &PairAsset) -> (res: PairAssetInsert)
        ensures
            res == (PairAssetInsert {
                base_asset_id: model.pair.base_asset_id,
                quote_asset_id: model.pair.quote_asset_id,
                symbol: model.pair.symbol,
            }),
    {
        PairAssetInsert {
            base_asset_id: model.pair.base_asset_id,
            quote_asset_id: model.pair.quote_asset_id,
            symbol: model.pair.symbol.clone(),
        }
    }

    /// The row after an update of a pair asset: every column the update
    /// writes comes from `model`, the update time becomes `now`, and the last
    /// price, which the update does not write, stays as `stored` (the row
    /// with the model's id before the update) had it.
    pub fn update_pair_asset(stored: &PairAsset, model: &PairAsset, now: i64) -> (res: PairAsset)
        ensures
            res == (PairAsset {
                pair: Pair { update_date: now, last_price: stored.pair.last_price, ..model.pair },
                ..*model
            }),
    {
        let mut res = model.duplicate();
        res.pair.update_date = now;
        res.pair.last_price = stored.pair.last_price;
        res
    }
}

} // verus!
