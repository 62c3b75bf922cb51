use vstd::prelude::*;

use crate::amount::Amount;
use crate::entities::actions::Action;
use crate::entities::assets::Asset;
use crate::entities::indicators::Indicator;
use crate::entities::pairs::Pair;
use crate::entities::strategies::Strategy;
use crate::states::TradingState;

verus! {

/// A strategy as the strategy cache holds it: the record and its trading state.
pub struct CacheStrategy {
    pub model: Strategy,
    pub state: TradingState,
}

/// The latest market figures of a symbol.
pub struct Ticker {
    pub symbol: String,
    pub open: Amount,
    pub high: Amount,
    pub low: Amount,
    pub close: Amount,
}

/// An order status, and whether it means that an order is completed.
#[derive(Debug, Clone, Copy, PartialEq, Eq, Structural)]
pub struct StatusMark {
    pub id: i32,
    pub completed: bool,
}

/// Everything the evaluation of a strategy on a market event looks at.
pub struct StrategyOverview {
    pub strategy: Strategy,
    pub indicators: Vec<Indicator>,
    pub action: Action,
    pub pair: Pair,
    pub base_asset: Asset,
    pub quote_asset: Asset,
    pub ticker: Ticker,
    pub order_status: Vec<StatusMark>,
}

/// The first element of `s` that satisfies `p`.
pub open spec fn first_match<T>(s: Seq<T>, p: spec_fn(T) -> bool) -> Option<T>
    decreases s.len(),
{
    if s.len() == 0 {
        None
    } else if p(s[0]) {
        Some(s[0])
    } else {
        first_match(s.drop_first(), p)
    }
}

/// Looking from position `i` on is looking from `i + 1` on when `s[i]`
/// does not match, and finds `s[i]` when it does.
pub proof fn lemma_first_match_step<T>(s: Seq<T>, p: spec_fn(T) -> bool, i: int)
    requires
        0 <= i < s.len(),
    ensures
        p(s[i]) ==> first_match(s.skip(i), p) == Some(s[i]),
        !p(s[i]) ==> first_match(s.skip(i), p) == first_match(s.skip(i + 1), p),
{
    assert(s.skip(i)[0] == s[i]);
    assert(s.skip(i).drop_first() =~= s.skip(i + 1));
}

pub proof fn lemma_first_match_end<T>(s: Seq<T>, p: spec_fn(T) -> bool)
    ensures
        first_match(s.skip(s.len() as int), p) is None,
{
    assert(s.skip(s.len() as int) =~= Seq::<T>::empty());
}

/// Nothing is found exactly when no element satisfies `p`.
pub proof fn lemma_first_match_none<T>(s: Seq<T>, p: spec_fn(T) -> bool)
    ensures
        first_match(s, p) is None <==> forall|i: int| 0 <= i < s.len() ==> !p(#[trigger] s[i]),
    decreases s.len(),
{
    if s.len() > 0 {
        lemma_first_match_none(s.drop_first(), p);
        if first_match(s, p) is None {
            assert forall|i: int| 0 <= i < s.len() implies !p(#[trigger] s[i]) by {
                if i > 0 {
                    assert(s[i] == s.drop_first()[i - 1]);
                }
            }
        } else if !p(s[0]) {
            let j = choose|j: int| 0 <= j < s.drop_first().len() && p(#[trigger] s.drop_first()[j]);
            assert(s[j + 1] == s.drop_first()[j]);
        }
    }
}

/// What a first-match lookup finds satisfies the key and stands in the
/// sequence, with no element before it satisfying the key; and an element
/// that satisfies the key means something is found.
pub proof fn lemma_first_match_found<T>(s: Seq<T>, p: spec_fn(T) -> bool)
    ensures
        first_match(s, p) matches Some(x) ==> p(x) && exists|i: int|
            0 <= i < s.len() && s[i] == x && forall|j: int| 0 <= j < i ==> !p(#[trigger] s[j]),
        (exists|i: int| 0 <= i < s.len() && p(#[trigger] s[i])) ==> first_match(s, p) is Some,
    decreases s.len(),
{
    lemma_first_match_none(s, p);
    if s.len() > 0 && !p(s[0]) {
        let t = s.drop_first();
        lemma_first_match_found(t, p);
        if first_match(s, p) is Some {
            let x = first_match(s, p).unwrap();
            let i = choose|i: int|
                0 <= i < t.len() && t[i] == x && forall|j: int| 0 <= j < i ==> !p(#[trigger] t[j]);
            assert(s[i + 1] == x);
            assert forall|j: int| 0 <= j < i + 1 implies !p(#[trigger] s[j]) by {
                if j > 0 {
                    assert(s[j] == t[j - 1]);
                }
            }
        }
    } else if s.len() > 0 {
        assert(first_match(s, p) == Some(s[0]));
    }
}

/// Each cache lookup finds a record with the key it is asked for (a
/// strategy by its id, an action by its strategy, a pair and an asset by
/// their ids, a ticker by its symbol), and finds nothing only when no cached
/// record has that key.
pub proof fn lemma_lookups_find_their_key(
    strategies: Seq<CacheStrategy>,
    actions: Seq<Action>,
    pairs: Seq<Pair>,
    assets: Seq<Asset>,
    tickers: Seq<Ticker>,
    id: i32,
    symbol: Seq<char>,
)
    ensures
        first_match(strategies, strategy_key(id)) matches Some(c) ==> c.model.id == id
            && strategies.contains(c),
        first_match(strategies, strategy_key(id)) is None <==> forall|i: int|
            0 <= i < strategies.len() ==> (#[trigger] strategies[i]).model.id != id,
        first_match(actions, action_key(id)) matches Some(a) ==> a.strategy_id == id
            && actions.contains(a),
        first_match(actions, action_key(id)) is None <==> forall|i: int|
            0 <= i < actions.len() ==> (#[trigger] actions[i]).strategy_id != id,
        first_match(pairs, pair_key(id)) matches Some(p) ==> p.id == id && pairs.contains(p),
        first_match(pairs, pair_key(id)) is None <==> forall|i: int|
            0 <= i < pairs.len() ==> (#[trigger] pairs[i]).id != id,
        first_match(assets, asset_key(id)) matches Some(a) ==> a.id == id && assets.contains(a),
        first_match(assets, asset_key(id)) is None <==> forall|i: int|
            0 <= i < assets.len() ==> (#[trigger] assets[i]).id != id,
        first_match(tickers, ticker_key(symbol)) matches Some(t) ==> t.symbol@ == symbol
            && tickers.contains(t),
        first_match(tickers, ticker_key(symbol)) is None <==> forall|i: int|
            0 <= i < tickers.len() ==> (#[trigger] tickers[i]).symbol@ != symbol,
{
    lemma_first_match_found(strategies, strategy_key(id));
    lemma_first_match_none(strategies, strategy_key(id));
    lemma_first_match_found(actions, action_key(id));
    lemma_first_match_none(actions, action_key(id));
    lemma_first_match_found(pairs, pair_key(id));
    lemma_first_match_none(pairs, pair_key(id));
    lemma_first_match_found(assets, asset_key(id));
    lemma_first_match_none(assets, asset_key(id));
    lemma_first_match_found(tickers, ticker_key(symbol));
    lemma_first_match_none(tickers, ticker_key(symbol));
}

/// A cache looked up by key gives the one record with that key: when only
/// the record at `i` satisfies `p`, looking up the first match finds it,
/// wherever it stands.
pub proof fn lemma_only_match_is_found<T>(s: Seq<T>, p: spec_fn(T) -> bool, i: int)
    requires
        0 <= i < s.len(),
        p(s[i]),
        forall|j: int| 0 <= j < s.len() && j != i ==> !p(#[trigger] s[j]),
    ensures
        first_match(s, p) == Some(s[i]),
    decreases s.len(),
{
    if i > 0 {
        let t = s.drop_first();
        assert(t[i - 1] == s[i]);
        assert forall|j: int| 0 <= j < t.len() && j != i - 1 implies !p(#[trigger] t[j]) by {
            assert(t[j] == s[j + 1]);
        }
        lemma_only_match_is_found(t, p, i - 1);
        assert(!p(s[0]));
    }
}

/// The indicators of `s` that belong to strategy `id`, in order.
pub open spec fn indicators_of(s: Seq<Indicator>, id: i32) -> Seq<Indicator>
    decreases s.len(),
{
    if s.len() == 0 {
        Seq::empty()
    } else {
        let rest = indicators_of(s.drop_last(), id);
        if s.last().strategy_id == id {
            rest.push(s.last())
        } else {
            rest
        }
    }
}

/// The indicators of a strategy are exactly the cached indicators that belong
/// to it: each one found belongs to it, and every one that does is found.
pub proof fn lemma_indicators_of_kept(s: Seq<Indicator>, id: i32)
    ensures
        forall|k: int| 0 <= k < indicators_of(s, id).len() ==> indicators_of(s, id)[k].strategy_id == id && s.contains(indicators_of(s, id)[k]),
        forall|i: int| 0 <= i < s.len() && s[i].strategy_id == id ==> indicators_of(s, id).contains(s[i]),
        indicators_of(s, id).len() <= s.len(),
    decreases s.len(),
{
    if s.len() > 0 {
        let t = s.drop_last();
        lemma_indicators_of_kept(t, id);
        let r = indicators_of(t, id);
        assert forall|k: int| 0 <= k < indicators_of(s, id).len() implies indicators_of(s, id)[k].strategy_id == id && s.contains(indicators_of(s, id)[k]) by {
            if k < r.len() {
                assert(indicators_of(s, id)[k] == r[k]);
                let j = choose|j: int| 0 <= j < t.len() && t[j] == r[k];
                assert(s[j] == t[j]);
            } else {
                assert(s[s.len() - 1] == s.last());
            }
        }
        assert forall|i: int| 0 <= i < s.len() && s[i].strategy_id == id implies indicators_of(s, id).contains(s[i]) by {
            if i < s.len() - 1 {
                assert(t[i] == s[i]);
                let j = choose|j: int| 0 <= j < r.len() && r[j] == t[i];
                assert(indicators_of(s, id)[j] == r[j]);
            } else {
                assert(indicators_of(s, id)[indicators_of(s, id).len() - 1] == s.last());
            }
        }
    }
}

/// The indicators of a strategy.
pub fn select_indicators(indicators: &Vec<Indicator>, strategy_id: i32) -> (res: Vec<Indicator>)
    ensures
        res@ == indicators_of(indicators@, strategy_id),
{
    let mut res: Vec<Indicator> = Vec::new();
    let mut i: usize = 0;
    while i < indicators.len()
        invariant
            i <= indicators@.len(),
            res@ == indicators_of(indicators@.take(i as int), strategy_id),
        decreases indicators@.len() - i,
    {
        assert(indicators@.take(i + 1).drop_last() =~= indicators@.take(i as int));
        if indicators[i].strategy_id == strategy_id {
            res.push(indicators[i].duplicate());
        }
        i = i + 1;
    }
    assert(indicators@.take(indicators@.len() as int) =~= indicators@);
    res
}

pub open spec fn strategy_key(id: i32) -> spec_fn(CacheStrategy) -> bool {
    |c: CacheStrategy| c.model.id == id
}

pub open spec fn action_key(strategy_id: i32) -> spec_fn(Action) -> bool {
    |a: Action| a.strategy_id == strategy_id
}

pub open spec fn pair_key(id: i32) -> spec_fn(Pair) -> bool {
    |p: Pair| p.id == id
}

pub open spec fn asset_key(id: i32) -> spec_fn(Asset) -> bool {
    |a: Asset| a.id == id
}

pub fn find_strategy(s: &Vec<CacheStrategy>, id: i32) -> (res: Option<&CacheStrategy>)
    ensures
        match first_match(s@, strategy_key(id)) {
            None => res is None,
            Some(c) => res matches Some(r) && *r == c,
        },
{
    let mut i: usize = 0;
    assert(s@.skip(0) =~= s@);
    while i < s.len()
        invariant
            i <= s@.len(),
            first_match(s@, strategy_key(id)) == first_match(s@.skip(i as int), strategy_key(id)),
        decreases s@.len() - i,
    {
        proof {
            lemma_first_match_step(s@, strategy_key(id), i as int);
        }
        if s[i].model.id == id {
            return Some(&s[i]);
        }
        i = i + 1;
    }
    proof {
        lemma_first_match_end(s@, strategy_key(id));
    }
    None
}

pub fn find_action(s: &Vec<Action>, strategy_id: i32) -> (res: Option<&Action>)
    ensures
        match first_match(s@, action_key(strategy_id)) {
            None => res is None,
            Some(c) => res matches Some(r) && *r == c,
        },
{
    let mut i: usize = 0;
    assert(s@.skip(0) =~= s@);
    while i < s.len()
        invariant
            i <= s@.len(),
            first_match(s@, action_key(strategy_id)) == first_match(
                s@.skip(i as int),
                action_key(strategy_id),
            ),
        decreases s@.len() - i,
    {
        proof {
            lemma_first_match_step(s@, action_key(strategy_id), i as int);
        }
        if s[i].strategy_id == strategy_id {
            return Some(&s[i]);
        }
        i = i + 1;
    }
    proof {
        lemma_first_match_end(s@, action_key(strategy_id));
    }
    None
}

pub fn find_pair(s: &Vec<Pair>, id: i32) -> (res: Option<&Pair>)
    ensures
        match first_match(s@, pair_key(id)) {
            None => res is None,
            Some(c) => res matches Some(r) && *r == c,
        },
{
    let mut i: usize = 0;
    assert(s@.skip(0) =~= s@);
    while i < s.len()
        invariant
            i <= s@.len(),
            first_match(s@, pair_key(id)) == first_match(s@.skip(i as int), pair_key(id)),
        decreases s@.len() - i,
    {
        proof {
            lemma_first_match_step(s@, pair_key(id), i as int);
        }
        if s[i].id == id {
            return Some(&s[i]);
        }
        i = i + 1;
    }
    proof {
        lemma_first_match_end(s@, pair_key(id));
    }
    None
}

pub fn find_asset(s: &Vec<Asset>, id: i32) -> (res: Option<&Asset>)
    ensures
        match first_match(s@, asset_key(id)) {
            None => res is None,
            Some(c) => res matches Some(r) && *r == c,
        },
{
    let mut i: usize = 0;
    assert(s@.skip(0) =~= s@);
    while i < s.len()
        invariant
            i <= s@.len(),
            first_match(s@, asset_key(id)) == first_match(s@.skip(i as int), asset_key(id)),
        decreases s@.len() - i,
    {
        proof {
            lemma_first_match_step(s@, asset_key(id), i as int);
        }
        if s[i].id == id {
            return Some(&s[i]);
        }
        i = i + 1;
    }
    proof {
        lemma_first_match_end(s@, asset_key(id));
    }
    None
}

/// One environment's caches, as the evaluation of a market event reads them.
pub struct CacheSnapshot {
    pub strategies: Vec<CacheStrategy>,
    /// `None` when the indicator cache is not loaded.
    pub indicators: Option<Vec<Indicator>>,
    /// The actions, looked up by the strategy they belong to.
    pub actions: Vec<Action>,
    pub pairs: Vec<Pair>,
    pub assets: Vec<Asset>,
    /// The latest figures of each symbol.
    pub tickers: Vec<Ticker>,
    /// `None` when the order status cache is not loaded.
    pub order_status: Option<Vec<StatusMark>>,
}

/// What looking up a strategy's overview found.
pub enum OverviewLookup {
    /// Something the evaluation needs is not cached.
    Unavailable,
    /// The strategy is not `Ready` (an evaluation of it is under way): the
    /// event is skipped and counted as such.
    Busy,
    Found(StrategyOverview),
}

pub open spec fn ticker_key(symbol: Seq<char>) -> spec_fn(Ticker) -> bool {
    |t: Ticker| t.symbol@ == symbol
}

pub open spec fn spec_strategy_of(snap: CacheSnapshot, id: i32) -> Option<CacheStrategy> {
    first_match(snap.strategies@, strategy_key(id))
}

pub open spec fn spec_action_of(snap: CacheSnapshot, id: i32) -> Option<Action> {
    first_match(snap.actions@, action_key(id))
}

pub open spec fn spec_pair_of(snap: CacheSnapshot, a: Action) -> Option<Pair> {
    first_match(snap.pairs@, pair_key(a.pair_id))
}

pub open spec fn spec_asset_of(snap: CacheSnapshot, id: i32) -> Option<Asset> {
    first_match(snap.assets@, asset_key(id))
}

pub open spec fn spec_ticker_of(snap: CacheSnapshot, symbol: Seq<char>) -> Option<Ticker> {
    first_match(snap.tickers@, ticker_key(symbol))
}

/// Whether the strategy is cached and busy.
pub open spec fn spec_busy(snap: CacheSnapshot, id: i32) -> bool {
    spec_strategy_of(snap, id) matches Some(c) && c.state != TradingState::Ready
}

/// Whether everything the evaluation of strategy `id` on `symbol` needs is cached.
pub open spec fn spec_available(snap: CacheSnapshot, id: i32, symbol: Seq<char>) -> bool {
    &&& spec_strategy_of(snap, id) matches Some(c) && c.state == TradingState::Ready
    &&& snap.indicators is Some
    &&& spec_action_of(snap, id) matches Some(a) && {
        &&& spec_pair_of(snap, a) matches Some(p) && {
            &&& spec_asset_of(snap, p.base_asset_id) is Some
            &&& spec_asset_of(snap, p.quote_asset_id) is Some
        }
    }
    &&& spec_ticker_of(snap, symbol) is Some
    &&& snap.order_status is Some
}

/// Whether `o` is the overview of strategy `id` on `symbol` that the caches give.
pub open spec fn spec_overview_fits(o: StrategyOverview, snap: CacheSnapshot, id: i32, symbol: Seq<char>) -> bool {
    let a = spec_action_of(snap, id).unwrap();
    let p = spec_pair_of(snap, a).unwrap();
    &&& o.strategy == spec_strategy_of(snap, id).unwrap().model
    &&& o.indicators@ == indicators_of(snap.indicators.unwrap()@, id)
    &&& o.action == a
    &&& o.pair == p
    &&& o.base_asset == spec_asset_of(snap, p.base_asset_id).unwrap()
    &&& o.quote_asset == spec_asset_of(snap, p.quote_asset_id).unwrap()
    &&& o.ticker == spec_ticker_of(snap, symbol).unwrap()
    &&& o.order_status@ == snap.order_status.unwrap()@
}

/// An overview found for strategy `id` on a market event of `symbol` holds
/// what belongs together: that strategy (`Ready`), its indicators and only
/// them, its action, the action's pair, the pair's base and quote assets,
/// the ticker of the event's symbol and the order statuses.
pub proof fn lemma_overview_belongs_together(o: StrategyOverview, snap: CacheSnapshot, id: i32, symbol: Seq<char>)
    requires
        spec_available(snap, id, symbol),
        spec_overview_fits(o, snap, id, symbol),
    ensures
        o.strategy.id == id,
        spec_strategy_of(snap, id).unwrap().state == TradingState::Ready,
        forall|k: int| 0 <= k < o.indicators@.len() ==> (#[trigger] o.indicators@[k]).strategy_id == id,
        forall|i: int|
            0 <= i < snap.indicators.unwrap()@.len() && (#[trigger] snap.indicators.unwrap()@[i]).strategy_id == id
                ==> o.indicators@.contains(snap.indicators.unwrap()@[i]),
        o.action.strategy_id == id,
        o.pair.id == o.action.pair_id,
        o.base_asset.id == o.pair.base_asset_id,
        o.quote_asset.id == o.pair.quote_asset_id,
        o.ticker.symbol@ == symbol,
        o.order_status@ == snap.order_status.unwrap()@,
{
    lemma_lookups_find_their_key(snap.strategies@, snap.actions@, snap.pairs@, snap.assets@, snap.tickers@, id, symbol);
    lemma_lookups_find_their_key(snap.strategies@, snap.actions@, snap.pairs@, snap.assets@, snap.tickers@, o.action.pair_id, symbol);
    lemma_lookups_find_their_key(snap.strategies@, snap.actions@, snap.pairs@, snap.assets@, snap.tickers@, o.pair.base_asset_id, symbol);
    lemma_lookups_find_their_key(snap.strategies@, snap.actions@, snap.pairs@, snap.assets@, snap.tickers@, o.pair.quote_asset_id, symbol);
    lemma_indicators_of_kept(snap.indicators.unwrap()@, id);
}

impl Ticker {
    pub fn duplicate(&self) -> (res: Self)
        ensures
            res == *self,
    {
        Ticker {
            symbol: self.symbol.clone(),
            open: self.open,
            high: self.high,
            low: self.low,
            close: self.close,
        }
    }
}

pub fn find_ticker<'a>(s: &'a Vec<Ticker>, symbol: &String) -> (res: Option<&'a Ticker>)
    ensures
        match first_match(s@, ticker_key(symbol@)) {
            None => res is None,
            Some(c) => res matches Some(r) && *r == c,
        },
{
    let mut i: usize = 0;
    assert(s@.skip(0) =~= s@);
    while i < s.len()
        invariant
            i <= s@.len(),
            first_match(s@, ticker_key(symbol@)) == first_match(s@.skip(i as int), ticker_key(symbol@)),
        decreases s@.len() - i,
    {
        proof {
            lemma_first_match_step(s@, ticker_key(symbol@), i as int);
        }
        if crate::entities::common::text_is(&s[i].symbol, symbol) {
            return Some(&s[i]);
        }
        i = i + 1;
    }
    proof {
        lemma_first_match_end(s@, ticker_key(symbol@));
    }
    None
}

fn copy_marks(s: &Vec<StatusMark>) -> (res: Vec<StatusMark>)
    ensures
        res@ == s@,
{
    let mut res: Vec<StatusMark> = Vec::new();
    let mut i: usize = 0;
    while i < s.len()
        invariant
            i <= s@.len(),
            res@ =~= s@.take(i as int),
        decreases s@.len() - i,
    {
        res.push(s[i]);
        i = i + 1;
    }
    assert(s@.take(s@.len() as int) =~= s@);
    res
}

/// The evaluation of strategies on market events.
pub struct StrategiesOverview;

impl StrategiesOverview {
    /// Gathers what the evaluation of strategy `strategy_id` on the latest
    /// figures of `symbol` needs: the strategy (which must be `Ready`), its
    /// indicators, its action, the action's pair, the pair's two assets, the
    /// symbol's ticker and the order statuses.
    pub fn get_strategy_overview(snap: &CacheSnapshot, strategy_id: i32, symbol: &String) -> (res:
        OverviewLookup)
        ensures
            res is Busy <==> spec_busy(*snap, strategy_id),
            res is Found <==> spec_available(*snap, strategy_id, symbol@),
            res matches OverviewLookup::Found(o) ==> spec_overview_fits(o, *snap, strategy_id, symbol@),
    {
        let strategy = match find_strategy(&snap.strategies, strategy_id) {
            None => {
                return OverviewLookup::Unavailable;
            },
            Some(c) => {
                if c.state != TradingState::Ready {
                    return OverviewLookup::Busy;
                }
                c.model.duplicate()
            },
        };
        let indicators = match &snap.indicators {
            None => {
                return OverviewLookup::Unavailable;
            },
            Some(all) => select_indicators(all, strategy_id),
        };
        let action = match find_action(&snap.actions, strategy_id) {
            None => {
                return OverviewLookup::Unavailable;
            },
            Some(a) => a.duplicate(),
        };
        let pair = match find_pair(&snap.pairs, action.pair_id) {
            None => {
                return OverviewLookup::Unavailable;
            },
            Some(p) => p.duplicate(),
        };
        let base_asset = match find_asset(&snap.assets, pair.base_asset_id) {
            None => {
                return OverviewLookup::Unavailable;
            },
            Some(a) => a.duplicate(),
        };
        let quote_asset = match find_asset(&snap.assets, pair.quote_asset_id) {
            None => {
                return OverviewLookup::Unavailable;
            },
            Some(a) => a.duplicate(),
        };
        let ticker = match find_ticker(&snap.tickers, symbol) {
            None => {
                return OverviewLookup::Unavailable;
            },
            Some(t) => t.duplicate(),
        };
        let order_status = match &snap.order_status {
            None => {
                return OverviewLookup::Unavailable;
            },
            Some(marks) => copy_marks(marks),
        };
        OverviewLookup::Found(
            StrategyOverview {
                strategy,
                indicators,
                action,
                pair,
                base_asset,
                quote_asset,
                ticker,
                order_status,
            },
        )
    }
}

/// What the rules of a strategy said about one market event: whether each of
/// its two cooldowns has passed, what each of its indicators (in order) made
/// of the ticker, and what its action became (or why it could not be formed).
pub struct OverviewVerdicts {
    pub cooldown_passed: bool,
    pub error_cooldown_passed: bool,
    pub indicators: Vec<Result<bool, String>>,
    pub action: Result<Action, String>,
}

/// What a successful evaluation turns into an order: the evaluated action
/// and the status the order is recorded with.
pub struct OrderDraft {
    pub action: Action,
    pub status_id: i32,
}

pub open spec fn unmet(r: Result<bool, String>) -> bool {
    !(r matches Ok(true))
}

pub open spec fn unmet_verdict() -> spec_fn(Result<bool, String>) -> bool {
    |r: Result<bool, String>| unmet(r)
}

pub open spec fn completed_mark() -> spec_fn(StatusMark) -> bool {
    |m: StatusMark| m.completed
}

/// The status an order is recorded with: the first status that means
/// completed, or status 2 when none does.
pub open spec fn spec_completed_status(marks: Seq<StatusMark>) -> i32 {
    match first_match(marks, completed_mark()) {
        Some(m) => m.id,
        None => 2,
    }
}

/// The message an evaluation fails with, if it fails.
pub open spec fn spec_failure(v: OverviewVerdicts) -> Option<Seq<char>> {
    if !v.cooldown_passed {
        Some("Cooldown is active"@)
    } else if !v.error_cooldown_passed {
        Some("Error cooldown is active"@)
    } else {
        match first_match(v.indicators@, unmet_verdict()) {
            Some(Err(e)) => Some(e@),
            Some(Ok(_)) => Some("Indicator not met"@),
            None => match v.action {
                Err(e) => Some(e@),
                Ok(_) => None,
            },
        }
    }
}

/// A strategy acts on a market event exactly when every rule allows it: the
/// evaluation succeeds if and only if both cooldowns have passed, every
/// Which rule refuses the evaluation, in the order they are checked: the
/// cooldown, then the error cooldown, then the first indicator that is not
/// met (with its error, or "Indicator not met"), then the action's error.
pub proof fn lemma_failure_names_first_broken_rule(v: OverviewVerdicts)
    ensures
        !v.cooldown_passed ==> spec_failure(v) == Some("Cooldown is active"@),
        v.cooldown_passed && !v.error_cooldown_passed ==> spec_failure(v) == Some("Error cooldown is active"@),
        v.cooldown_passed && v.error_cooldown_passed ==> forall|i: int|
            0 <= i < v.indicators@.len() && #[trigger] unmet(v.indicators@[i]) && (forall|j: int|
                0 <= j < i ==> !unmet(v.indicators@[j])) ==> spec_failure(v) == match v.indicators@[i] {
                Err(e) => Some(e@),
                Ok(_) => Some("Indicator not met"@),
            },
        v.cooldown_passed && v.error_cooldown_passed && (forall|j: int|
            0 <= j < v.indicators@.len() ==> !unmet(#[trigger] v.indicators@[j])) ==> spec_failure(v) == match v.action {
            Err(e) => Some(e@),
            Ok(_) => None::<Seq<char>>,
        },
{
    lemma_first_match_found(v.indicators@, unmet_verdict());
    lemma_first_match_none(v.indicators@, unmet_verdict());
    if v.cooldown_passed && v.error_cooldown_passed {
        assert forall|i: int|
            0 <= i < v.indicators@.len() && #[trigger] unmet(v.indicators@[i]) && (forall|j: int|
                0 <= j < i ==> !unmet(v.indicators@[j])) implies spec_failure(v) == match v.indicators@[i] {
                Err(e) => Some(e@),
                Ok(_) => Some("Indicator not met"@),
            } by {
            assert(unmet_verdict()(v.indicators@[i]));
            let x = first_match(v.indicators@, unmet_verdict()).unwrap();
            let k = choose|k: int|
                0 <= k < v.indicators@.len() && v.indicators@[k] == x && forall|j: int|
                    0 <= j < k ==> !unmet_verdict()(#[trigger] v.indicators@[j]);
            if k < i {
                assert(!unmet(v.indicators@[k]));
            } else if k > i {
                assert(!unmet_verdict()(v.indicators@[i]));
            }
        }
        assert((forall|j: int| 0 <= j < v.indicators@.len() ==> !unmet(#[trigger] v.indicators@[j]))
            ==> first_match(v.indicators@, unmet_verdict()) is None) by {
            if forall|j: int| 0 <= j < v.indicators@.len() ==> !unmet(#[trigger] v.indicators@[j]) {
                assert forall|j: int| 0 <= j < v.indicators@.len() implies !unmet_verdict()(#[trigger] v.indicators@[j]) by {
                    assert(!unmet(v.indicators@[j]));
                }
            }
        }
    }
}

/// The status of a new order is the first completed status mark, and 2 only
/// when no mark is completed.
pub proof fn lemma_completed_status_is_a_completed_mark(marks: Seq<StatusMark>)
    ensures
        (exists|i: int| 0 <= i < marks.len() && (#[trigger] marks[i]).completed) ==> exists|i: int|
            0 <= i < marks.len() && marks[i].completed && marks[i].id == spec_completed_status(marks) && forall|j: int|
                0 <= j < i ==> !(#[trigger] marks[j]).completed,
        (forall|i: int| 0 <= i < marks.len() ==> !(#[trigger] marks[i]).completed) ==> spec_completed_status(marks) == 2,
{
    lemma_first_match_found(marks, completed_mark());
    lemma_first_match_none(marks, completed_mark());
    if exists|i: int| 0 <= i < marks.len() && (#[trigger] marks[i]).completed {
        let i = choose|i: int| 0 <= i < marks.len() && (#[trigger] marks[i]).completed;
        assert(completed_mark()(marks[i]));
        let x = first_match(marks, completed_mark()).unwrap();
        let k = choose|k: int|
            0 <= k < marks.len() && marks[k] == x && forall|j: int| 0 <= j < k ==> !completed_mark()(#[trigger] marks[j]);
        assert forall|j: int| 0 <= j < k implies !(#[trigger] marks[j]).completed by {
            assert(!completed_mark()(marks[j]));
        }
    } else {
        assert forall|i: int| 0 <= i < marks.len() implies !completed_mark()(#[trigger] marks[i]) by {
            assert(!marks[i].completed);
        }
    }
}


/// indicator is met, and the action was formed.
pub proof fn lemma_acts_iff_every_rule_holds(v: OverviewVerdicts)
    ensures
        spec_failure(v) is None <==> {
            &&& v.cooldown_passed
            &&& v.error_cooldown_passed
            &&& forall|i: int|
                0 <= i < v.indicators@.len() ==> #[trigger] v.indicators@[i] == Ok::<bool, String>(true)
            &&& v.action is Ok
        },
{
    lemma_first_match_none(v.indicators@, unmet_verdict());
    if v.cooldown_passed && v.error_cooldown_passed {
        if first_match(v.indicators@, unmet_verdict()) is None {
            assert forall|i: int| 0 <= i < v.indicators@.len() implies #[trigger] v.indicators@[i]
                == Ok::<bool, String>(true) by {
                assert(!unmet_verdict()(v.indicators@[i]));
            }
        } else {
            let i = choose|i: int|
                0 <= i < v.indicators@.len() && unmet_verdict()(#[trigger] v.indicators@[i]);
            assert(v.indicators@[i] != Ok::<bool, String>(true));
        }
    }
}

pub fn completed_status(marks: &Vec<StatusMark>) -> (res: i32)
    ensures
        res == spec_completed_status(marks@),
{
    let mut i: usize = 0;
    assert(marks@.skip(0) =~= marks@);
    while i < marks.len()
        invariant
            i <= marks@.len(),
            first_match(marks@, completed_mark()) == first_match(marks@.skip(i as int), completed_mark()),
        decreases marks@.len() - i,
    {
        proof {
            lemma_first_match_step(marks@, completed_mark(), i as int);
        }
        if marks[i].completed {
            return marks[i].id;
        }
        i = i + 1;
    }
    proof {
        lemma_first_match_end(marks@, completed_mark());
    }
    2
}

fn first_unmet(verdicts: &Vec<Result<bool, String>>) -> (res: Option<&Result<bool, String>>)
    ensures
        match first_match(verdicts@, unmet_verdict()) {
            None => res is None,
            Some(c) => res matches Some(r) && *r == c,
        },
{
    let mut i: usize = 0;
    assert(verdicts@.skip(0) =~= verdicts@);
    while i < verdicts.len()
        invariant
            i <= verdicts@.len(),
            first_match(verdicts@, unmet_verdict()) == first_match(verdicts@.skip(i as int), unmet_verdict()),
        decreases verdicts@.len() - i,
    {
        proof {
            lemma_first_match_step(verdicts@, unmet_verdict(), i as int);
        }
        let met = match &verdicts[i] {
            Ok(b) => *b,
            Err(_) => false,
        };
        if !met {
            return Some(&verdicts[i]);
        }
        i = i + 1;
    }
    proof {
        lemma_first_match_end(verdicts@, unmet_verdict());
    }
    None
}

impl StrategiesOverview {
    /// Decides whether a strategy acts on a market event. The cooldown after
    /// its last execution must have passed, then the cooldown after its last
    /// error; then every indicator must be met (the first error, or the first
    /// unmet indicator, ends the evaluation); then its action must be formed.
    /// The order is recorded with the first status that means completed
    /// (status 2 when none does).
    pub fn evaluate_strategy_overview(overview: &StrategyOverview, verdicts: &OverviewVerdicts) -> (res:
        Result<OrderDraft, String>)
        ensures
            match spec_failure(*verdicts) {
                Some(msg) => res matches Err(e) && e@ == msg,
                None => res matches Ok(d) && Ok::<Action, String>(d.action) == verdicts.action
                    && d.status_id == spec_completed_status(overview.order_status@),
            },
    {
        if !verdicts.cooldown_passed {
            return Err(String::from_str("Cooldown is active"));
        }
        if !verdicts.error_cooldown_passed {
            return Err(String::from_str("Error cooldown is active"));
        }
        match first_unmet(&verdicts.indicators) {
            Some(Err(e)) => {
                return Err(e.clone());
            },
            Some(Ok(_)) => {
                return Err(String::from_str("Indicator not met"));
            },
            None => {},
        }
        let action = match &verdicts.action {
            Err(e) => {
                return Err(e.clone());
            },
            Ok(a) => a.duplicate(),
        };
        let status_id = completed_status(&overview.order_status);
        Ok(OrderDraft { action, status_id })
    }
}

pub open spec fn subscription_key(symbol: Seq<char>) -> spec_fn((String, Vec<i32>)) -> bool {
    |e: (String, Vec<i32>)| e.0@ == symbol
}

/// The strategies a market event on `symbol` is evaluated for, in the order
/// the subscriptions list them: those of the symbol's subscription; none
/// when the subscriptions are not loaded or the symbol has none.
pub open spec fn spec_subscribed(subscriptions: Option<Vec<(String, Vec<i32>)>>, symbol: Seq<char>) -> Seq<i32> {
    match subscriptions {
        None => Seq::empty(),
        Some(s) => match first_match(s@, subscription_key(symbol)) {
            Some(e) => e.1@,
            None => Seq::empty(),
        },
    }
}

/// The strategies subscribed to a symbol are those the subscriptions list
/// under that symbol (the first entry for it); there are none when the
/// subscriptions are not loaded or list nothing under the symbol.
pub proof fn lemma_subscribed_under_its_symbol(subs: Seq<(String, Vec<i32>)>, symbol: Seq<char>)
    ensures
        (forall|i: int| 0 <= i < subs.len() ==> (#[trigger] subs[i]).0@ != symbol) ==> first_match(
            subs,
            subscription_key(symbol),
        ) is None,
        first_match(subs, subscription_key(symbol)) matches Some(e) ==> e.0@ == symbol && subs.contains(e),
        spec_subscribed(None, symbol) == Seq::<i32>::empty(),
{
    lemma_first_match_found(subs, subscription_key(symbol));
    lemma_first_match_none(subs, subscription_key(symbol));
}

fn copy_ids(v: &Vec<i32>) -> (res: Vec<i32>)
    ensures
        res@ == v@,
{
    let mut res: Vec<i32> = Vec::new();
    let mut i: usize = 0;
    while i < v.len()
        invariant
            i <= v@.len(),
            res@ =~= v@.take(i as int),
        decreases v@.len() - i,
    {
        res.push(v[i]);
        i = i + 1;
    }
    assert(v@.take(v@.len() as int) =~= v@);
    res
}

/// The strategies a market event on `symbol` is evaluated for.
pub fn subscribed_strategies(subscriptions: &Option<Vec<(String, Vec<i32>)>>, symbol: &String) -> (res: Vec<i32>)
    ensures
        res@ == spec_subscribed(*subscriptions, symbol@),
{
    let s = match subscriptions {
        None => {
            return Vec::new();
        },
        Some(s) => s,
    };
    let mut i: usize = 0;
    assert(s@.skip(0) =~= s@);
    while i < s.len()
        invariant
            i <= s@.len(),
            *subscriptions == Some(*s),
            first_match(s@, subscription_key(symbol@)) == first_match(s@.skip(i as int), subscription_key(symbol@)),
        decreases s@.len() - i,
    {
        proof {
            lemma_first_match_step(s@, subscription_key(symbol@), i as int);
        }
        let entry = &s[i];
        if crate::entities::common::text_is(&entry.0, symbol) {
            assert(subscription_key(symbol@)(s@[i as int]));
            return copy_ids(&entry.1);
        }
        i = i + 1;
    }
    proof {
        lemma_first_match_end(s@, subscription_key(symbol@));
    }
    Vec::new()
}

} // verus!
