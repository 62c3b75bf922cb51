use vstd::prelude::*;

use crate::amount::{
    amount_of, checked_add, checked_sub, decimal_checked_add, decimal_checked_sub, aligned_mantissa, exact_difference, exact_sum, known_difference,
    known_sum, larger_scale, pow10, same_value, Amount,
};
use crate::entities::assets::{Asset, AssetRequest};
use crate::entities::ledgers::LedgerRequest;
use crate::entities::orders::Order;
use crate::lifecycle::{spec_start_policy, start_policy, CacheKind, CacheStart, StartAction, StartPhase};
use crate::response::Response;
use crate::states::LifecycleState;

verus! {

/// The balance an order moves: the locked one or the free one.
pub open spec fn spec_target(a: Asset, locked: bool) -> Amount {
    if locked {
        a.locked
    } else {
        a.free
    }
}

/// The new value of the moved balance: it goes down by `value` on a sale and
/// up on a purchase (`None` when the decimal arithmetic overflows).
pub open spec fn spec_moved(a: Asset, value: Amount, locked: bool, sell: bool) -> Option<Amount> {
    let t = spec_target(a, locked);
    if sell {
        amount_of(decimal_checked_sub(t.mantissa, t.scale, value.mantissa, value.scale))
    } else {
        amount_of(decimal_checked_add(t.mantissa, t.scale, value.mantissa, value.scale))
    }
}

/// `a` with its moved balance replaced by `new`.
pub open spec fn spec_with_target(a: Asset, locked: bool, new: Amount) -> Asset {
    if locked {
        Asset { locked: new, ..a }
    } else {
        Asset { free: new, ..a }
    }
}

/// The new value of a balance `t` moved by `value` (down on a sale, up on a
/// purchase), where the decimal arithmetic's source shows it plainly (see
/// `known_sum` and `known_difference`).
pub open spec fn spec_known_move(t: Amount, value: Amount, sell: bool) -> Option<Amount> {
    if sell {
        known_difference(t, value)
    } else {
        known_sum(t, value)
    }
}

pub open spec fn balances_wf(a: Asset) -> bool {
    a.free.wf() && a.locked.wf()
}

/// Moves a balance of `asset` by `value`, returning the changed asset and the
/// balance before the move. The move must not overflow.
pub fn move_balance(asset: &Asset, value: Amount, locked: bool, sell: bool) -> (res: (Asset, Amount))
    requires
        balances_wf(*asset),
        value.wf(),
        spec_moved(*asset, value, locked, sell) is Some,
    ensures
        res.0 == spec_with_target(*asset, locked, spec_moved(*asset, value, locked, sell).unwrap()),
        res.1 == spec_target(*asset, locked),
        balances_wf(res.0),
        spec_known_move(spec_target(*asset, locked), value, sell) matches Some(k) ==> res.0
            == spec_with_target(*asset, locked, k),
{
    let previous = if locked { asset.locked } else { asset.free };
    let moved = if sell { checked_sub(previous, value) } else { checked_add(previous, value) };
    let new = match moved {
        Some(n) => n,
        None => previous,
    };
    (with_balance(asset, locked, new), previous)
}

/// `asset` with its locked balance (or its free one) replaced by `new`.
pub fn with_balance(asset: &Asset, locked: bool, new: Amount) -> (res: Asset)
    ensures
        res == spec_with_target(*asset, locked, new),
{
    let mut changed = asset.duplicate();
    if locked {
        changed.locked = new;
    } else {
        changed.free = new;
    }
    changed
}

/// Moves a balance of `asset` by `value` unless the move overflows (`None`).
pub fn try_move_balance(asset: &Asset, value: Amount, locked: bool, sell: bool) -> (res: Option<(Asset, Amount)>)
    requires
        balances_wf(*asset),
        value.wf(),
    ensures
        spec_moved(*asset, value, locked, sell) is None ==> res is None,
        spec_moved(*asset, value, locked, sell) is Some ==> res == Some((
            spec_with_target(*asset, locked, spec_moved(*asset, value, locked, sell).unwrap()),
            spec_target(*asset, locked),
        )),
        spec_known_move(spec_target(*asset, locked), value, sell) matches Some(k) ==> res == Some((
            spec_with_target(*asset, locked, k),
            spec_target(*asset, locked),
        )),
{
    let previous = if locked { asset.locked } else { asset.free };
    let moved = if sell { checked_sub(previous, value) } else { checked_add(previous, value) };
    match moved {
        None => None,
        Some(_) => Some(move_balance(asset, value, locked, sell)),
    }
}

/// A sale of a value followed by a purchase of the same value gives the
/// balance back, and so does a purchase followed by a sale, wherever both
/// moves have a known result and the value has no more decimal places than
/// the balance. Where the balance or the first move's result is zero, the
/// scales must also be equal: adding to zero keeps the value's own scale.
pub proof fn lemma_opposite_moves_cancel(t: Amount, value: Amount, sell: bool)
    requires
        t.wf(),
        value.wf(),
        value.scale <= t.scale,
        spec_known_move(t, value, sell) is Some,
        spec_known_move(spec_known_move(t, value, sell).unwrap(), value, !sell) is Some,
        value.scale == t.scale || (t.mantissa != 0 && spec_known_move(t, value, sell).unwrap().mantissa != 0),
    ensures
        spec_known_move(spec_known_move(t, value, sell).unwrap(), value, !sell) == Some(t),
{
    let m = spec_known_move(t, value, sell).unwrap();
    assert(pow10(0) == 1);
    assert(aligned_mantissa(t, t.scale) == t.mantissa);
    assert(aligned_mantissa(value, value.scale) == value.mantissa);
    assert(larger_scale(t, value) == t.scale);
    let big = aligned_mantissa(value, t.scale);
    if value.mantissa == 0 {
        if t.mantissa != 0 {
            assert(m == t);
        } else {
            assert(m == (Amount { mantissa: 0, scale: value.scale }));
        }
    } else if t.mantissa == 0 {
        assert(value.scale == t.scale);
        assert(big == value.mantissa);
        if sell {
            assert(m == (Amount { mantissa: (0 - value.mantissa) as i128, scale: value.scale }));
            assert(larger_scale(m, value) == t.scale);
            assert(aligned_mantissa(m, t.scale) == m.mantissa);
            assert(exact_sum(m, value) == 0);
        } else {
            assert(m == value);
            assert(exact_difference(m, value) == 0);
        }
    } else {
        assert(m.scale == t.scale);
        assert(aligned_mantissa(m, t.scale) == m.mantissa);
        assert(larger_scale(m, value) == t.scale);
        if sell {
            assert(m.mantissa == t.mantissa - big);
        } else {
            assert(m.mantissa == t.mantissa + big);
        }
        if m.mantissa == 0 {
            assert(value.scale == t.scale);
            assert(big == value.mantissa);
        }
    }
}

/// A sale of a value followed by a purchase of the same value gives back a
/// balance equal in value to the one before (as decimal numbers compare, so
/// that 5 and 5.00 are equal), and so does a purchase followed by a sale,
/// wherever both moves have a known result: for every balance and value,
/// zero ones included, and whatever their scales.
pub proof fn lemma_opposite_moves_restore_value(t: Amount, value: Amount, sell: bool)
    requires
        t.wf(),
        value.wf(),
        spec_known_move(t, value, sell) is Some,
        spec_known_move(spec_known_move(t, value, sell).unwrap(), value, !sell) is Some,
    ensures
        same_value(spec_known_move(spec_known_move(t, value, sell).unwrap(), value, !sell).unwrap(), t),
{
    let m = spec_known_move(t, value, sell).unwrap();
    let r = spec_known_move(m, value, !sell).unwrap();
    let l = larger_scale(r, t);
    let pr = pow10((l - r.scale) as nat);
    let pt = pow10((l - t.scale) as nat);
    assert(pow10(0) == 1);
    if value.mantissa == 0 {
        if t.mantissa != 0 {
            assert(m == t);
            assert(r == t);
        } else {
            assert(m.mantissa == 0);
            assert(r.mantissa == 0);
            assert(r.mantissa * pr == 0) by (nonlinear_arith)
                requires r.mantissa == 0;
            assert(t.mantissa * pt == 0) by (nonlinear_arith)
                requires t.mantissa == 0;
        }
    } else if t.mantissa == 0 {
        assert(m.scale == value.scale);
        assert(m.mantissa != 0);
        assert(larger_scale(m, value) == value.scale);
        assert(aligned_mantissa(m, value.scale) == m.mantissa);
        assert(aligned_mantissa(value, value.scale) == value.mantissa);
        assert(r.mantissa == 0);
        assert(r.mantissa * pr == 0) by (nonlinear_arith)
            requires r.mantissa == 0;
        assert(t.mantissa * pt == 0) by (nonlinear_arith)
            requires t.mantissa == 0;
    } else {
        let big = larger_scale(t, value);
        assert(m.scale == big);
        let a = aligned_mantissa(t, big);
        let b = aligned_mantissa(value, big);
        if m.mantissa == 0 {
            assert(l == big);
            if sell {
                assert(m.mantissa == a - b);
                assert(r == value);
            } else {
                assert(m.mantissa == a + b);
                assert(r == (Amount { mantissa: (0 - value.mantissa) as i128, scale: value.scale }));
                let pv = pow10((big - value.scale) as nat);
                assert((0 - value.mantissa) * pv == 0 - value.mantissa * pv) by (nonlinear_arith);
            }
        } else {
            assert(larger_scale(m, value) == big);
            assert(aligned_mantissa(m, big) == m.mantissa);
            assert(l == big);
            assert(r.scale == big);
            assert(r.mantissa * pr == r.mantissa) by (nonlinear_arith)
                requires pr == 1;
        }
    }
}

/// The position of the first asset with id `id` in `s`.
pub open spec fn is_first_asset(s: Seq<Asset>, id: i32, i: int) -> bool {
    &&& 0 <= i < s.len()
    &&& s[i].id == id
    &&& forall|j: int| 0 <= j < i ==> s[j].id != id
}

pub open spec fn cached_asset(s: Seq<Asset>, id: i32) -> bool {
    exists|i: int| 0 <= i < s.len() && s[i].id == id
}

pub open spec fn cache_wf(s: Seq<Asset>) -> bool {
    forall|i: int| 0 <= i < s.len() ==> balances_wf(#[trigger] s[i])
}

/// The asset cache of an environment.
pub struct Assets;

impl Assets {
    /// Starting the asset cache: the start runs under the asset cache's
    /// policy (its settlement loop is launched once the assets are stored),
    /// from its first step.
    pub fn start() -> (res: (CacheStart, StartAction))
        ensures
            res.0 == (CacheStart { phase: StartPhase::MarkingStarting, policy: spec_start_policy(CacheKind::Assets) }),
            res.1 == StartAction::SetState(LifecycleState::Starting),
    {
        CacheStart::begin(start_policy(CacheKind::Assets))
    }
}

impl Assets {
    /// Moves a balance of the cached asset `asset_id`: the asset is replaced
    /// in the cache and returned with the balance it had before. An asset that
    /// is not cached is refused (404). The move must not overflow.
    pub fn update_asset_balance_cache(
        cache: &mut Vec<Asset>,
        asset_id: i32,
        value: Amount,
        locked: bool,
        sell: bool,
    ) -> (res: Result<(Asset, Amount), Response>)
        requires
            cache_wf(old(cache)@),
            value.wf(),
            forall|i: int|
                is_first_asset(old(cache)@, asset_id, i) ==> spec_moved(
                    old(cache)@[i],
                    value,
                    locked,
                    sell,
                ) is Some,
        ensures
            !cached_asset(old(cache)@, asset_id) ==> (res matches Err(r) && r.code == 404
                && r.message@ == "Asset not found"@ && final(cache)@ == old(cache)@),
            cached_asset(old(cache)@, asset_id) ==> exists|i: int|
                is_first_asset(old(cache)@, asset_id, i) && {
                    let moved = spec_with_target(
                        old(cache)@[i],
                        locked,
                        spec_moved(old(cache)@[i], value, locked, sell).unwrap(),
                    );
                    &&& final(cache)@ == old(cache)@.update(i, moved)
                    &&& res == Ok::<(Asset, Amount), Response>(
                        (moved, spec_target(old(cache)@[i], locked)),
                    )
                    &&& spec_known_move(spec_target(old(cache)@[i], locked), value, sell) matches Some(k)
                        ==> moved == spec_with_target(old(cache)@[i], locked, k)
                },
            cache_wf(final(cache)@),
    {
        let mut i: usize = 0;
        while i < cache.len()
            invariant
                i <= cache@.len(),
                cache@ == old(cache)@,
                cache_wf(cache@),
                value.wf(),
                forall|k: int|
                    is_first_asset(old(cache)@, asset_id, k) ==> spec_moved(
                        old(cache)@[k],
                        value,
                        locked,
                        sell,
                    ) is Some,
                forall|j: int| 0 <= j < i ==> cache@[j].id != asset_id,
            decreases cache@.len() - i,
        {
            if cache[i].id == asset_id {
                assert(is_first_asset(old(cache)@, asset_id, i as int));
                assert(balances_wf(cache@[i as int]));
                let (moved, previous) = move_balance(&cache[i], value, locked, sell);
                let copy = moved.duplicate();
                cache.set(i, moved);
                assert(cache_wf(cache@)) by {
                    assert forall|j: int| 0 <= j < cache@.len() implies balances_wf(#[trigger] cache@[j]) by {
                        if j != i {
                            assert(cache@[j] == old(cache)@[j]);
                        }
                    }
                }
                assert(old(cache)@[i as int].id == asset_id);
                return Ok((copy, previous));
            }
            i = i + 1;
        }
        Err(Response::not_found(String::from_str("Asset not found")))
    }
}

impl Assets {
    /// Moves a balance of the cached asset `asset_id` as
    /// `update_asset_balance_cache` does, unless the move overflows (`None`;
    /// the cache is then unchanged).
    pub fn try_update_asset_balance_cache(
        cache: &mut Vec<Asset>,
        asset_id: i32,
        value: Amount,
        locked: bool,
        sell: bool,
    ) -> (res: Option<Result<(Asset, Amount), Response>>)
        requires
            cache_wf(old(cache)@),
            value.wf(),
        ensures
            !cached_asset(old(cache)@, asset_id) ==> (res matches Some(Err(r)) && r.code == 404
                && final(cache)@ == old(cache)@),
            cached_asset(old(cache)@, asset_id) ==> exists|i: int|
                is_first_asset(old(cache)@, asset_id, i) && match spec_moved(
                    old(cache)@[i],
                    value,
                    locked,
                    sell,
                ) {
                    None => res is None && final(cache)@ == old(cache)@,
                    Some(new) => {
                        let moved = spec_with_target(old(cache)@[i], locked, new);
                        &&& final(cache)@ == old(cache)@.update(i, moved)
                        &&& res == Some(
                            Ok::<(Asset, Amount), Response>(
                                (moved, spec_target(old(cache)@[i], locked)),
                            ),
                        )
                    },
                },
            cache_wf(final(cache)@),
    {
        let mut i: usize = 0;
        while i < cache.len()
            invariant
                i <= cache@.len(),
                cache@ == old(cache)@,
                cache_wf(cache@),
                value.wf(),
                forall|j: int| 0 <= j < i ==> cache@[j].id != asset_id,
            decreases cache@.len() - i,
        {
            if cache[i].id == asset_id {
                assert(is_first_asset(cache@, asset_id, i as int));
                assert(balances_wf(cache@[i as int]));
                match try_move_balance(&cache[i], value, locked, sell) {
                    None => {
                        return None;
                    },
                    Some(_) => {
                        assert forall|k: int| is_first_asset(cache@, asset_id, k) implies k == i by {
                            if k < i {
                            } else if k > i {
                                assert(cache@[i as int].id == asset_id);
                            }
                        }
                        return Some(
                            Assets::update_asset_balance_cache(cache, asset_id, value, locked, sell),
                        );
                    },
                }
            }
            i = i + 1;
        }
        Some(Assets::update_asset_balance_cache(cache, asset_id, value, locked, sell))
    }
}

/// One side of an executed order: the asset whose free balance moves, by how
/// much, and whether it goes down.
#[derive(Debug, Clone, Copy, PartialEq, Eq, Structural)]
pub struct BalanceLeg {
    pub asset_id: i32,
    pub amount: Amount,
    pub sell: bool,
}

/// The two legs of an executed order: the base asset goes down by the base
/// amount on a sale (up on a purchase), the quote asset goes the other way by
/// the quote amount. Both move free balances.
pub fn settlement_legs(order: &Order) -> (res: (BalanceLeg, BalanceLeg))
    ensures
        res.0 == (BalanceLeg {
            asset_id: order.base_asset_id,
            amount: order.base_asset_amount,
            sell: order.is_sell,
        }),
        res.1 == (BalanceLeg {
            asset_id: order.quote_asset_id,
            amount: order.quote_asset_amount,
            sell: !order.is_sell,
        }),
{
    (
        BalanceLeg {
            asset_id: order.base_asset_id,
            amount: order.base_asset_amount,
            sell: order.is_sell,
        },
        BalanceLeg {
            asset_id: order.quote_asset_id,
            amount: order.quote_asset_amount,
            sell: !order.is_sell,
        },
    )
}

/// A sale gives up base asset for quote asset and a purchase the reverse:
/// the two legs of an order always move in opposite directions, and the base
/// leg goes down exactly when the order is a sale.
pub proof fn lemma_legs_move_opposite(order: Order, legs: (BalanceLeg, BalanceLeg))
    requires
        legs.0 == (BalanceLeg {
            asset_id: order.base_asset_id,
            amount: order.base_asset_amount,
            sell: order.is_sell,
        }),
        legs.1 == (BalanceLeg {
            asset_id: order.quote_asset_id,
            amount: order.quote_asset_amount,
            sell: !order.is_sell,
        }),
    ensures
        legs.0.sell != legs.1.sell,
        legs.0.sell == order.is_sell,
{
}

/// The request that stores an asset with every field it has.
pub open spec fn spec_asset_request(asset: Asset) -> AssetRequest {
    AssetRequest {
        id: Some(asset.id),
        name: Some(asset.name),
        ticker: Some(asset.ticker),
        free: Some(asset.free),
        locked: Some(asset.locked),
    }
}

/// An asset's request carries every field of the asset: storing it as an
/// update of the asset gives the asset back, with its update time renewed.
pub proof fn lemma_asset_request_restores(asset: Asset, now: i64)
    ensures
        crate::entities::assets::spec_apply_update(asset, spec_asset_request(asset), now) == (Asset {
            last_update: now,
            ..asset
        }),
{
}

pub fn asset_request_of(asset: &Asset) -> (res: AssetRequest)
    ensures
        res == spec_asset_request(*asset),
{
    AssetRequest {
        id: Some(asset.id),
        name: Some(asset.name.clone()),
        ticker: Some(asset.ticker.clone()),
        free: Some(asset.free),
        locked: Some(asset.locked),
    }
}

/// The ledger entry of one leg of an executed order: the asset, the order,
/// and how its free balance moved (by `amount`, from `previous` to `new`).
pub open spec fn spec_ledger_entry(asset: Asset, order: Order, amount: Amount, previous: Amount, new: Amount) -> LedgerRequest {
    LedgerRequest {
        id: None,
        order_id: Some(order.id),
        record_type_id: None,
        asset_id: Some(asset.id),
        free_amount: Some(amount),
        free_previous_balance: Some(previous),
        free_new_balance: Some(new),
        locked_amount: None,
        locked_previous_balance: None,
        locked_new_balance: None,
    }
}

/// A ledger entry records a move of a free balance of an asset for an order:
/// the order's and the asset's ids, the amount moved and the free balance
/// before and after; it sets no id, no record type and nothing locked.
pub proof fn lemma_ledger_entry_records_the_move(asset: Asset, order: Order, amount: Amount, previous: Amount, new: Amount)
    ensures
        spec_ledger_entry(asset, order, amount, previous, new).order_id == Some(order.id),
        spec_ledger_entry(asset, order, amount, previous, new).asset_id == Some(asset.id),
        spec_ledger_entry(asset, order, amount, previous, new).free_amount == Some(amount),
        spec_ledger_entry(asset, order, amount, previous, new).free_previous_balance == Some(previous),
        spec_ledger_entry(asset, order, amount, previous, new).free_new_balance == Some(new),
        spec_ledger_entry(asset, order, amount, previous, new).id is None,
        spec_ledger_entry(asset, order, amount, previous, new).record_type_id is None,
        spec_ledger_entry(asset, order, amount, previous, new).locked_amount is None,
        spec_ledger_entry(asset, order, amount, previous, new).locked_previous_balance is None,
        spec_ledger_entry(asset, order, amount, previous, new).locked_new_balance is None,
{
}

pub fn ledger_entry(asset: &Asset, order: &Order, amount: Amount, previous: Amount, new: Amount) -> (res:
    LedgerRequest)
    ensures
        res == spec_ledger_entry(*asset, *order, amount, previous, new),
{
    LedgerRequest {
        id: None,
        order_id: Some(order.id),
        record_type_id: None,
        asset_id: Some(asset.id),
        free_amount: Some(amount),
        free_previous_balance: Some(previous),
        free_new_balance: Some(new),
        locked_amount: None,
        locked_previous_balance: None,
        locked_new_balance: None,
    }
}

/// Applies one leg of an executed order to the asset cache: the free balance
/// of the leg's asset moves by the leg's amount, and what the engine then
/// writes is returned: the asset's store request and the leg's ledger entry
/// (from the balance before the move to the one after). An asset that is not
/// cached is refused (404); a move that overflows gives `None`. In both cases
/// the cache is unchanged.
pub fn settle_leg(cache: &mut Vec<Asset>, order: &Order, leg: BalanceLeg) -> (res: Option<
    Result<(AssetRequest, LedgerRequest), Response>,
>)
    requires
        cache_wf(old(cache)@),
        leg.amount.wf(),
    ensures
        !cached_asset(old(cache)@, leg.asset_id) ==> (res matches Some(Err(r)) && r.code == 404
            && final(cache)@ == old(cache)@),
        cached_asset(old(cache)@, leg.asset_id) ==> exists|i: int|
            is_first_asset(old(cache)@, leg.asset_id, i) && match spec_moved(
                old(cache)@[i],
                leg.amount,
                false,
                leg.sell,
            ) {
                None => res is None && final(cache)@ == old(cache)@,
                Some(new) => {
                    let moved = spec_with_target(old(cache)@[i], false, new);
                    &&& final(cache)@ == old(cache)@.update(i, moved)
                    &&& res == Some(
                        Ok::<(AssetRequest, LedgerRequest), Response>(
                            (
                                spec_asset_request(moved),
                                spec_ledger_entry(moved, *order, leg.amount, old(cache)@[i].free, new),
                            ),
                        ),
                    )
                },
            },
        cache_wf(final(cache)@),
{
    match Assets::try_update_asset_balance_cache(cache, leg.asset_id, leg.amount, false, leg.sell) {
        None => None,
        Some(Err(r)) => Some(Err(r)),
        Some(Ok((moved, previous))) => {
            let request = asset_request_of(&moved);
            let entry = ledger_entry(&moved, order, leg.amount, previous, moved.free);
            Some(Ok((request, entry)))
        },
    }
}

/// The legs of an executed order (see `settlement_legs`).
pub open spec fn spec_legs(order: Order) -> (BalanceLeg, BalanceLeg) {
    (
        BalanceLeg { asset_id: order.base_asset_id, amount: order.base_asset_amount, sell: order.is_sell },
        BalanceLeg { asset_id: order.quote_asset_id, amount: order.quote_asset_amount, sell: !order.is_sell },
    )
}

/// An order moves its base asset by the base amount in the order's direction
/// (down on a sale) and its quote asset by the quote amount the other way.
pub proof fn lemma_order_legs(order: Order)
    ensures
        spec_legs(order).0.asset_id == order.base_asset_id,
        spec_legs(order).0.amount == order.base_asset_amount,
        spec_legs(order).0.sell == order.is_sell,
        spec_legs(order).1.asset_id == order.quote_asset_id,
        spec_legs(order).1.amount == order.quote_asset_amount,
        spec_legs(order).1.sell == !order.is_sell,
{
}

proof fn lemma_first_asset_unique(s: Seq<Asset>, id: i32, i: int, j: int)
    requires
        is_first_asset(s, id, i),
        is_first_asset(s, id, j),
    ensures
        i == j,
{
    if i < j {
        assert(s[i].id == id);
    } else if j < i {
        assert(s[j].id == id);
    }
}

/// One leg of an order applied to the asset cache `s`: the cache after it,
/// and what the engine then writes (the asset's store request and the leg's
/// ledger entry); `None` when the asset is not cached or the move overflows,
/// the cache then being unchanged.
pub open spec fn spec_settle(s: Seq<Asset>, order: Order, leg: BalanceLeg) -> (Seq<Asset>, Option<(AssetRequest, LedgerRequest)>) {
    if exists|i: int| is_first_asset(s, leg.asset_id, i) {
        let i = choose|i: int| is_first_asset(s, leg.asset_id, i);
        match spec_moved(s[i], leg.amount, false, leg.sell) {
            None => (s, None),
            Some(new) => {
                let moved = spec_with_target(s[i], false, new);
                (
                    s.update(i, moved),
                    Some((spec_asset_request(moved), spec_ledger_entry(moved, order, leg.amount, s[i].free, new))),
                )
            },
        }
    } else {
        (s, None)
    }
}

fn settle_into(cache: &mut Vec<Asset>, order: &Order, leg: BalanceLeg) -> (res: Option<(AssetRequest, LedgerRequest)>)
    requires
        cache_wf(old(cache)@),
        leg.amount.wf(),
    ensures
        (final(cache)@, res) == spec_settle(old(cache)@, *order, leg),
        cache_wf(final(cache)@),
{
    let ghost s = cache@;
    let out = settle_leg(cache, order, leg);
    proof {
        if cached_asset(s, leg.asset_id) {
            let i = choose|i: int|
                is_first_asset(s, leg.asset_id, i) && match spec_moved(s[i], leg.amount, false, leg.sell) {
                    None => out is None && cache@ == s,
                    Some(new) => {
                        let moved = spec_with_target(s[i], false, new);
                        &&& cache@ == s.update(i, moved)
                        &&& out == Some(
                            Ok::<(AssetRequest, LedgerRequest), Response>(
                                (spec_asset_request(moved), spec_ledger_entry(moved, *order, leg.amount, s[i].free, new)),
                            ),
                        )
                    },
                };
            let j = choose|j: int| is_first_asset(s, leg.asset_id, j);
            lemma_first_asset_unique(s, leg.asset_id, i, j);
        } else {
            assert(!(exists|i: int| is_first_asset(s, leg.asset_id, i)));
        }
    }
    match out {
        Some(Ok(v)) => Some(v),
        _ => None,
    }
}

/// What the settlement of an executed order asks of the database next.
pub enum SettleAction {
    /// Store the asset (its changed balance).
    StoreAsset(AssetRequest),
    /// Record a ledger entry; whether this succeeds does not matter.
    InsertLedger(LedgerRequest),
    /// The settlement is over.
    Finish,
}

/// Where the settlement of an order stands.
pub enum SettlePhase {
    /// Storing the base asset; its ledger entry comes next.
    StoringBase(LedgerRequest),
    /// Recording the base leg's ledger entry.
    RecordingBase,
    /// Storing the quote asset; its ledger entry comes next.
    StoringQuote(LedgerRequest),
    /// Recording the quote leg's ledger entry.
    RecordingQuote,
    Done,
}

/// The settlement of one executed order against an asset cache.
pub struct OrderSettlement {
    pub order: Order,
    pub phase: SettlePhase,
}

/// The start of a settlement: the base leg moves the cache; when it cannot
/// (the asset is not cached, or the move overflows) the order is skipped.
pub open spec fn spec_settle_begin(s: Seq<Asset>, order: Order) -> (Seq<Asset>, SettlePhase, SettleAction) {
    let (t, out) = spec_settle(s, order, spec_legs(order).0);
    match out {
        Some((req, entry)) => (t, SettlePhase::StoringBase(entry), SettleAction::StoreAsset(req)),
        None => (t, SettlePhase::Done, SettleAction::Finish),
    }
}

/// The next step of a settlement in `phase`, once the pending write ended
/// (`ok` when it succeeded): a failed store skips the rest of the order; a
/// ledger entry's outcome is not looked at; after the base leg's entry the
/// quote leg moves the cache, and when it cannot the order ends there.
pub open spec fn spec_settle_step(s: Seq<Asset>, order: Order, phase: SettlePhase, ok: bool) -> (Seq<Asset>, SettlePhase, SettleAction) {
    match phase {
        SettlePhase::StoringBase(entry) => if ok {
            (s, SettlePhase::RecordingBase, SettleAction::InsertLedger(entry))
        } else {
            (s, SettlePhase::Done, SettleAction::Finish)
        },
        SettlePhase::RecordingBase => {
            let (t, out) = spec_settle(s, order, spec_legs(order).1);
            match out {
                Some((req, entry)) => (t, SettlePhase::StoringQuote(entry), SettleAction::StoreAsset(req)),
                None => (t, SettlePhase::Done, SettleAction::Finish),
            }
        },
        SettlePhase::StoringQuote(entry) => if ok {
            (s, SettlePhase::RecordingQuote, SettleAction::InsertLedger(entry))
        } else {
            (s, SettlePhase::Done, SettleAction::Finish)
        },
        SettlePhase::RecordingQuote => (s, SettlePhase::Done, SettleAction::Finish),
        SettlePhase::Done => (s, SettlePhase::Done, SettleAction::Finish),
    }
}

pub open spec fn amounts_wf(order: Order) -> bool {
    order.base_asset_amount.wf() && order.quote_asset_amount.wf()
}

impl OrderSettlement {
    /// Starts settling `order` against the asset cache.
    pub fn begin(cache: &mut Vec<Asset>, order: &Order) -> (res: (OrderSettlement, SettleAction))
        requires
            cache_wf(old(cache)@),
            amounts_wf(*order),
        ensures
            (final(cache)@, res.0.phase, res.1) == spec_settle_begin(old(cache)@, *order),
            res.0.order == *order,
            cache_wf(final(cache)@),
    {
        let (base, _) = settlement_legs(order);
        let phase_action = match settle_into(cache, order, base) {
            Some((req, entry)) => (SettlePhase::StoringBase(entry), SettleAction::StoreAsset(req)),
            None => (SettlePhase::Done, SettleAction::Finish),
        };
        (OrderSettlement { order: order.duplicate(), phase: phase_action.0 }, phase_action.1)
    }

    /// Reacts to the end of the pending write (`ok` when it succeeded).
    pub fn step(self, cache: &mut Vec<Asset>, ok: bool) -> (res: (OrderSettlement, SettleAction))
        requires
            cache_wf(old(cache)@),
            amounts_wf(self.order),
        ensures
            (final(cache)@, res.0.phase, res.1) == spec_settle_step(old(cache)@, self.order, self.phase, ok),
            res.0.order == self.order,
            cache_wf(final(cache)@),
    {
        let order = self.order;
        let (phase, action) = match self.phase {
            SettlePhase::StoringBase(entry) => if ok {
                (SettlePhase::RecordingBase, SettleAction::InsertLedger(entry))
            } else {
                (SettlePhase::Done, SettleAction::Finish)
            },
            SettlePhase::RecordingBase => {
                let (_, quote) = settlement_legs(&order);
                match settle_into(cache, &order, quote) {
                    Some((req, entry)) => (SettlePhase::StoringQuote(entry), SettleAction::StoreAsset(req)),
                    None => (SettlePhase::Done, SettleAction::Finish),
                }
            },
            SettlePhase::StoringQuote(entry) => if ok {
                (SettlePhase::RecordingQuote, SettleAction::InsertLedger(entry))
            } else {
                (SettlePhase::Done, SettleAction::Finish)
            },
            SettlePhase::RecordingQuote => (SettlePhase::Done, SettleAction::Finish),
            SettlePhase::Done => (SettlePhase::Done, SettleAction::Finish),
        };
        (OrderSettlement { order, phase }, action)
    }
}

/// When both assets of an order are cached, both moves fit and both stores
/// succeed, the settlement stores the base asset, records its ledger entry,
/// stores the quote asset, records its ledger entry and ends: each asset's
/// free balance moved by its leg (the base down on a sale and up on a
/// purchase, the quote the other way), one ledger entry each; whatever the
/// A leg whose asset is not cached, or whose move overflows, changes nothing
/// and asks for nothing; a leg that settles changes only its asset's free
/// balance and stores that asset with a ledger entry of the move. A failed
/// store of an asset ends the settlement without a ledger entry.
pub proof fn lemma_settle_leg_outcomes(s: Seq<Asset>, order: Order, leg: BalanceLeg, phase: SettlePhase)
    ensures
        !cached_asset(s, leg.asset_id) ==> spec_settle(s, order, leg) == (s, None::<(AssetRequest, LedgerRequest)>),
        forall|i: int| is_first_asset(s, leg.asset_id, i) ==> match spec_moved(s[i], leg.amount, false, leg.sell) {
            None => spec_settle(s, order, leg) == (s, None::<(AssetRequest, LedgerRequest)>),
            Some(new) => {
                &&& spec_settle(s, order, leg).0 == s.update(i, Asset { free: new, ..s[i] })
                &&& spec_settle(s, order, leg).1 == Some((
                    spec_asset_request(Asset { free: new, ..s[i] }),
                    spec_ledger_entry(Asset { free: new, ..s[i] }, order, leg.amount, s[i].free, new),
                ))
            },
        },
        (phase is StoringBase || phase is StoringQuote) ==> spec_settle_step(s, order, phase, false) == (
            s,
            SettlePhase::Done,
            SettleAction::Finish,
        ),
{
    assert forall|i: int| is_first_asset(s, leg.asset_id, i) implies match spec_moved(s[i], leg.amount, false, leg.sell) {
        None => spec_settle(s, order, leg) == (s, None::<(AssetRequest, LedgerRequest)>),
        Some(new) => {
            &&& spec_settle(s, order, leg).0 == s.update(i, Asset { free: new, ..s[i] })
            &&& spec_settle(s, order, leg).1 == Some((
                spec_asset_request(Asset { free: new, ..s[i] }),
                spec_ledger_entry(Asset { free: new, ..s[i] }, order, leg.amount, s[i].free, new),
            ))
        },
    } by {
        let k = choose|k: int| is_first_asset(s, leg.asset_id, k);
        lemma_first_asset_unique(s, leg.asset_id, i, k);
    }
}

/// ledger writes answer.
pub proof fn lemma_full_settlement(s: Seq<Asset>, order: Order, ledger_ok1: bool, ledger_ok2: bool)
    requires
        spec_settle(s, order, spec_legs(order).0).1 is Some,
        spec_settle(spec_settle(s, order, spec_legs(order).0).0, order, spec_legs(order).1).1 is Some,
    ensures
        ({
            let b = spec_settle(s, order, spec_legs(order).0);
            let q = spec_settle(b.0, order, spec_legs(order).1);
            let r0 = spec_settle_begin(s, order);
            let r1 = spec_settle_step(r0.0, order, r0.1, true);
            let r2 = spec_settle_step(r1.0, order, r1.1, ledger_ok1);
            let r3 = spec_settle_step(r2.0, order, r2.1, true);
            let r4 = spec_settle_step(r3.0, order, r3.1, ledger_ok2);
            &&& r0.2 == SettleAction::StoreAsset(b.1.unwrap().0)
            &&& r1.2 == SettleAction::InsertLedger(b.1.unwrap().1)
            &&& r2.2 == SettleAction::StoreAsset(q.1.unwrap().0)
            &&& r3.2 == SettleAction::InsertLedger(q.1.unwrap().1)
            &&& r4.2 == SettleAction::Finish
            &&& r4.0 == q.0
        }),
{
}

/// A leg applied to the cache where its asset is the first with its id at
/// `i` and its move fits: only that record changes, and its free balance
/// becomes the moved value.
proof fn lemma_settle_at(s: Seq<Asset>, order: Order, leg: BalanceLeg, i: int, new: Amount)
    requires
        is_first_asset(s, leg.asset_id, i),
        spec_moved(s[i], leg.amount, false, leg.sell) == Some(new),
    ensures
        spec_settle(s, order, leg).0 == s.update(i, Asset { free: new, ..s[i] }),
        spec_settle(s, order, leg).1 is Some,
{
    let k = choose|k: int| is_first_asset(s, leg.asset_id, k);
    lemma_first_asset_unique(s, leg.asset_id, i, k);
}

/// Settling an order whose base and quote assets (of different ids) are
/// cached and whose two moves fit changes exactly those two records of the
/// cache: each one's free balance becomes its moved value (the base's down
/// by the base amount on a sale and up on a purchase, the quote's the other
/// way), each one's locked balance and every other field stay, and the rest
/// of the cache is unchanged. Both legs are then written with a ledger entry
/// each (`lemma_full_settlement`).
pub proof fn lemma_settlement_moves_free_balances(
    s: Seq<Asset>,
    order: Order,
    i: int,
    j: int,
    base_new: Amount,
    quote_new: Amount,
)
    requires
        order.base_asset_id != order.quote_asset_id,
        is_first_asset(s, order.base_asset_id, i),
        is_first_asset(s, order.quote_asset_id, j),
        spec_moved(s[i], order.base_asset_amount, false, order.is_sell) == Some(base_new),
        spec_moved(s[j], order.quote_asset_amount, false, !order.is_sell) == Some(quote_new),
    ensures
        spec_settle(s, order, spec_legs(order).0).1 is Some,
        spec_settle(spec_settle(s, order, spec_legs(order).0).0, order, spec_legs(order).1).1 is Some,
        spec_settle(spec_settle(s, order, spec_legs(order).0).0, order, spec_legs(order).1).0 == s.update(
            i,
            Asset { free: base_new, ..s[i] },
        ).update(j, Asset { free: quote_new, ..s[j] }),
{
    let legs = spec_legs(order);
    lemma_settle_at(s, order, legs.0, i, base_new);
    let s1 = s.update(i, Asset { free: base_new, ..s[i] });
    assert(is_first_asset(s1, order.quote_asset_id, j)) by {
        assert(s1[j] == s[j]);
        assert forall|k: int| 0 <= k < j implies s1[k].id != order.quote_asset_id by {
            if k == i {
                assert(s1[k].id == order.base_asset_id);
            } else {
                assert(s1[k] == s[k]);
            }
        }
    }
    assert(s1[j] == s[j]);
    lemma_settle_at(s1, order, legs.1, j, quote_new);
}

} // verus!
