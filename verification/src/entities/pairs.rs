use vstd::prelude::*;

use crate::amount::Amount;
use crate::entities::common::{clone_text, empty_text, text_is};
use crate::query::{build_plan, order_by_name, spec_plan, options_shape, ListingDefaults, OrderDirection, QueryOptions, QueryPlan};
use crate::repository::{Paging, Record};
use crate::text::text_eq;

verus! {

/// A stored trading pair: its assets, its market figures and the exchange's trading rules for it.
pub struct Pair {
    pub id: i32,
    pub base_asset_id: i32,
    pub quote_asset_id: i32,
    pub symbol: String,
    pub update_date: i64,
    pub all_time_high_date: i64,
    pub last_price: Amount,
    pub all_time_high_price: Amount,
    pub percent_from_all_time_high: Amount,
    pub fifteen_minutes_price_percent_change: Amount,
    pub thirty_minutes_price_percent_change: Amount,
    pub hour_price_percent_change: Amount,
    pub six_hours_price_percent_change: Amount,
    pub twelve_hours_price_percent_change: Amount,
    pub day_price_percent_change: Amount,
    pub week_price_percent_change: Amount,
    pub month_price_percent_change: Amount,
    pub year_price_percent_change: Amount,
    pub price_filter_min_price: Amount,
    pub price_filter_max_price: Amount,
    pub price_filter_tick_size: Amount,
    pub lot_size_min_qty: Amount,
    pub lot_size_max_qty: Amount,
    pub lot_size_step_size: Amount,
    pub market_lot_size_min_qty: Amount,
    pub market_lot_size_max_qty: Amount,
    pub market_lot_size_step_size: Amount,
    pub trailing_delta_min_trailing_above_delta: i32,
    pub trailing_delta_max_trailing_above_delta: i32,
    pub trailing_delta_min_trailing_below_delta: i32,
    pub trailing_delta_max_trailing_below_delta: i32,
    pub percent_price_by_side_bid_multiplier_up: Amount,
    pub percent_price_by_side_bid_multiplier_down: Amount,
    pub percent_price_by_side_ask_multiplier_up: Amount,
    pub percent_price_by_side_ask_multiplier_down: Amount,
    pub percent_price_by_side_avg_price_mins: i32,
    pub notional_min_notional: Amount,
    pub notional_apply_min_to_market: bool,
    pub notional_max_notional: Amount,
    pub notional_apply_max_to_market: bool,
    pub notional_avg_price_mins: i32,
    pub max_num_orders: i32,
    pub max_num_algo_orders: i32,
}

/// A request on the pairs table: every field that is set selects or changes.
pub struct PairRequest {
    pub id: Option<i32>,
    pub base_asset_id: Option<i32>,
    pub quote_asset_id: Option<i32>,
    pub symbol: Option<String>,
    pub all_time_high_date: Option<i64>,
    pub last_price: Option<Amount>,
    pub all_time_high_price: Option<Amount>,
    pub percent_from_all_time_high: Option<Amount>,
    pub fifteen_minutes_price_percent_change: Option<Amount>,
    pub thirty_minutes_price_percent_change: Option<Amount>,
    pub hour_price_percent_change: Option<Amount>,
    pub six_hours_price_percent_change: Option<Amount>,
    pub twelve_hours_price_percent_change: Option<Amount>,
    pub day_price_percent_change: Option<Amount>,
    pub week_price_percent_change: Option<Amount>,
    pub month_price_percent_change: Option<Amount>,
    pub year_price_percent_change: Option<Amount>,
    pub price_filter_min_price: Option<Amount>,
    pub price_filter_max_price: Option<Amount>,
    pub price_filter_tick_size: Option<Amount>,
    pub lot_size_min_qty: Option<Amount>,
    pub lot_size_max_qty: Option<Amount>,
    pub lot_size_step_size: Option<Amount>,
    pub market_lot_size_min_qty: Option<Amount>,
    pub market_lot_size_max_qty: Option<Amount>,
    pub market_lot_size_step_size: Option<Amount>,
    pub trailing_delta_min_trailing_above_delta: Option<i32>,
    pub trailing_delta_max_trailing_above_delta: Option<i32>,
    pub trailing_delta_min_trailing_below_delta: Option<i32>,
    pub trailing_delta_max_trailing_below_delta: Option<i32>,
    pub percent_price_by_side_bid_multiplier_up: Option<Amount>,
    pub percent_price_by_side_bid_multiplier_down: Option<Amount>,
    pub percent_price_by_side_ask_multiplier_up: Option<Amount>,
    pub percent_price_by_side_ask_multiplier_down: Option<Amount>,
    pub percent_price_by_side_avg_price_mins: Option<i32>,
    pub notional_min_notional: Option<Amount>,
    pub notional_apply_min_to_market: Option<bool>,
    pub notional_max_notional: Option<Amount>,
    pub notional_apply_max_to_market: Option<bool>,
    pub notional_avg_price_mins: Option<i32>,
    pub max_num_orders: Option<i32>,
    pub max_num_algo_orders: Option<i32>,
}

/// The columns of the pairs table.
#[derive(Debug, Clone, Copy, PartialEq, Eq, Structural)]
pub enum PairColumn {
    Id,
    BaseAssetId,
    QuoteAssetId,
    Symbol,
    UpdateDate,
    AllTimeHighDate,
    LastPrice,
    AllTimeHighPrice,
    PercentFromAllTimeHigh,
    FifteenMinutesPricePercentChange,
    ThirtyMinutesPricePercentChange,
    HourPricePercentChange,
    SixHoursPricePercentChange,
    TwelveHoursPricePercentChange,
    DayPricePercentChange,
    WeekPricePercentChange,
    MonthPricePercentChange,
    YearPricePercentChange,
    PriceFilterMinPrice,
    PriceFilterMaxPrice,
    PriceFilterTickSize,
    LotSizeMinQty,
    LotSizeMaxQty,
    LotSizeStepSize,
    MarketLotSizeMinQty,
    MarketLotSizeMaxQty,
    MarketLotSizeStepSize,
    TrailingDeltaMinTrailingAboveDelta,
    TrailingDeltaMaxTrailingAboveDelta,
    TrailingDeltaMinTrailingBelowDelta,
    TrailingDeltaMaxTrailingBelowDelta,
    PercentPriceBySideBidMultiplierUp,
    PercentPriceBySideBidMultiplierDown,
    PercentPriceBySideAskMultiplierUp,
    PercentPriceBySideAskMultiplierDown,
    PercentPriceBySideAvgPriceMins,
    NotionalMinNotional,
    NotionalApplyMinToMarket,
    NotionalMaxNotional,
    NotionalApplyMaxToMarket,
    NotionalAvgPriceMins,
    MaxNumOrders,
    MaxNumAlgoOrders,
}

/// The column a listing may be ordered by, from its name.
pub open spec fn spec_parse_order_column(value: Seq<char>) -> Option<PairColumn> {
    if value == "id"@ {
        Some(PairColumn::Id)
    } else if value == "base_asset_id"@ {
        Some(PairColumn::BaseAssetId)
    } else if value == "quote_asset_id"@ {
        Some(PairColumn::QuoteAssetId)
    } else if value == "symbol"@ {
        Some(PairColumn::Symbol)
    } else if value == "update_date"@ {
        Some(PairColumn::UpdateDate)
    } else if value == "all_time_high_price"@ {
        Some(PairColumn::AllTimeHighPrice)
    } else if value == "percent_from_all_time_high"@ {
        Some(PairColumn::PercentFromAllTimeHigh)
    } else if value == "day_price_percent_change"@ {
        Some(PairColumn::DayPricePercentChange)
    } else if value == "week_price_percent_change"@ {
        Some(PairColumn::WeekPricePercentChange)
    } else if value == "month_price_percent_change"@ {
        Some(PairColumn::MonthPricePercentChange)
    } else if value == "year_price_percent_change"@ {
        Some(PairColumn::YearPricePercentChange)
    } else {
        None
    }
}

/// Each column name reads as its own column.
pub proof fn lemma_column_names_read_back()
    ensures
        spec_parse_order_column("id"@) == Some(PairColumn::Id),
        spec_parse_order_column("base_asset_id"@) == Some(PairColumn::BaseAssetId),
        spec_parse_order_column("quote_asset_id"@) == Some(PairColumn::QuoteAssetId),
        spec_parse_order_column("symbol"@) == Some(PairColumn::Symbol),
        spec_parse_order_column("update_date"@) == Some(PairColumn::UpdateDate),
        spec_parse_order_column("all_time_high_price"@) == Some(PairColumn::AllTimeHighPrice),
        spec_parse_order_column("percent_from_all_time_high"@) == Some(PairColumn::PercentFromAllTimeHigh),
        spec_parse_order_column("day_price_percent_change"@) == Some(PairColumn::DayPricePercentChange),
        spec_parse_order_column("week_price_percent_change"@) == Some(PairColumn::WeekPricePercentChange),
        spec_parse_order_column("month_price_percent_change"@) == Some(PairColumn::MonthPricePercentChange),
        spec_parse_order_column("year_price_percent_change"@) == Some(PairColumn::YearPricePercentChange),
{
    reveal_strlit("id");
    assert("id"@.len() == 2);
    reveal_strlit("base_asset_id");
    assert("base_asset_id"@.len() == 13);
    reveal_strlit("quote_asset_id");
    assert("quote_asset_id"@.len() == 14);
    reveal_strlit("symbol");
    assert("symbol"@.len() == 6);
    reveal_strlit("update_date");
    assert("update_date"@.len() == 11);
    reveal_strlit("all_time_high_price");
    assert("all_time_high_price"@.len() == 19);
    reveal_strlit("percent_from_all_time_high");
    assert("percent_from_all_time_high"@.len() == 26);
    reveal_strlit("day_price_percent_change");
    assert("day_price_percent_change"@.len() == 24);
    reveal_strlit("week_price_percent_change");
    assert("week_price_percent_change"@.len() == 25);
    reveal_strlit("month_price_percent_change");
    assert("month_price_percent_change"@.len() == 26);
    reveal_strlit("year_price_percent_change");
    assert("year_price_percent_change"@.len() == 25);
    assert("month_price_percent_change"@[0] != "percent_from_all_time_high"@[0]);
    assert("year_price_percent_change"@[0] != "week_price_percent_change"@[0]);
}

/// Reads the name of a column a listing may be ordered by; other names are ignored.
pub fn parse_order_column(value: &str) -> (res: Option<PairColumn>)
    ensures
        res == spec_parse_order_column(value@),
{
    if text_eq(value, "id") {
        Some(PairColumn::Id)
    } else if text_eq(value, "base_asset_id") {
        Some(PairColumn::BaseAssetId)
    } else if text_eq(value, "quote_asset_id") {
        Some(PairColumn::QuoteAssetId)
    } else if text_eq(value, "symbol") {
        Some(PairColumn::Symbol)
    } else if text_eq(value, "update_date") {
        Some(PairColumn::UpdateDate)
    } else if text_eq(value, "all_time_high_price") {
        Some(PairColumn::AllTimeHighPrice)
    } else if text_eq(value, "percent_from_all_time_high") {
        Some(PairColumn::PercentFromAllTimeHigh)
    } else if text_eq(value, "day_price_percent_change") {
        Some(PairColumn::DayPricePercentChange)
    } else if text_eq(value, "week_price_percent_change") {
        Some(PairColumn::WeekPricePercentChange)
    } else if text_eq(value, "month_price_percent_change") {
        Some(PairColumn::MonthPricePercentChange)
    } else if text_eq(value, "year_price_percent_change") {
        Some(PairColumn::YearPricePercentChange)
    } else {
        None
    }
}

/// How the pairs listing reads its table before the request's options apply.
pub open spec fn spec_listing_defaults() -> ListingDefaults<PairColumn> {
    ListingDefaults { limit: None, primary: None, direction: OrderDirection::Desc }
}

pub fn listing_defaults() -> (res: ListingDefaults<PairColumn>)
    ensures
        res == spec_listing_defaults(),
{
    ListingDefaults { limit: None, primary: None, direction: OrderDirection::Desc }
}

/// The plan of a listing of the pairs table with these options.
pub fn plan_query(query: &Option<QueryOptions>) -> (res: QueryPlan<PairColumn>)
    ensures
        (res.limit, res.offset, res.ordering@) == spec_plan(
            spec_listing_defaults(),
            options_shape(*query),
            match query {
                Some(q) => match q.order_by {
                    Some(name) => spec_parse_order_column(name@),
                    None => None,
                },
                None => None,
            },
        ),
{
    let column = match order_by_name(query) {
        Some(name) => parse_order_column(name),
        None => None,
    };
    build_plan(&listing_defaults(), query, column)
}

/// Whether `r` is the record an insert request creates under id `id` at time `now`: the assets and the symbol are taken from the request, every other field starts at its default; the update time is `now`.
pub open spec fn spec_is_new_record(r: Pair, req: PairRequest, id: i32, now: i64) -> bool {
    &&& r.id == (id)
    &&& r.base_asset_id == (match req.base_asset_id { Some(v) => v, None => 0i32 })
    &&& r.quote_asset_id == (match req.quote_asset_id { Some(v) => v, None => 0i32 })
    &&& r.symbol@ == (match req.symbol { Some(v) => v@, None => Seq::<char>::empty() })
    &&& r.update_date == (now)
    &&& r.all_time_high_date == (0i64)
    &&& r.last_price == (Amount::spec_zero())
    &&& r.all_time_high_price == (Amount::spec_zero())
    &&& r.percent_from_all_time_high == (Amount::spec_zero())
    &&& r.fifteen_minutes_price_percent_change == (Amount::spec_zero())
    &&& r.thirty_minutes_price_percent_change == (Amount::spec_zero())
    &&& r.hour_price_percent_change == (Amount::spec_zero())
    &&& r.six_hours_price_percent_change == (Amount::spec_zero())
    &&& r.twelve_hours_price_percent_change == (Amount::spec_zero())
    &&& r.day_price_percent_change == (Amount::spec_zero())
    &&& r.week_price_percent_change == (Amount::spec_zero())
    &&& r.month_price_percent_change == (Amount::spec_zero())
    &&& r.year_price_percent_change == (Amount::spec_zero())
    &&& r.price_filter_min_price == (Amount::spec_zero())
    &&& r.price_filter_max_price == (Amount::spec_zero())
    &&& r.price_filter_tick_size == (Amount::spec_zero())
    &&& r.lot_size_min_qty == (Amount::spec_zero())
    &&& r.lot_size_max_qty == (Amount::spec_zero())
    &&& r.lot_size_step_size == (Amount::spec_zero())
    &&& r.market_lot_size_min_qty == (Amount::spec_zero())
    &&& r.market_lot_size_max_qty == (Amount::spec_zero())
    &&& r.market_lot_size_step_size == (Amount::spec_zero())
    &&& r.trailing_delta_min_trailing_above_delta == (0i32)
    &&& r.trailing_delta_max_trailing_above_delta == (0i32)
    &&& r.trailing_delta_min_trailing_below_delta == (0i32)
    &&& r.trailing_delta_max_trailing_below_delta == (0i32)
    &&& r.percent_price_by_side_bid_multiplier_up == (Amount::spec_zero())
    &&& r.percent_price_by_side_bid_multiplier_down == (Amount::spec_zero())
    &&& r.percent_price_by_side_ask_multiplier_up == (Amount::spec_zero())
    &&& r.percent_price_by_side_ask_multiplier_down == (Amount::spec_zero())
    &&& r.percent_price_by_side_avg_price_mins == (0i32)
    &&& r.notional_min_notional == (Amount::spec_zero())
    &&& r.notional_apply_min_to_market == (false)
    &&& r.notional_max_notional == (Amount::spec_zero())
    &&& r.notional_apply_max_to_market == (false)
    &&& r.notional_avg_price_mins == (0i32)
    &&& r.max_num_orders == (0i32)
    &&& r.max_num_algo_orders == (0i32)
}

pub fn new_record(req: &PairRequest, id: i32, now: i64) -> (res: Pair)
    ensures
        spec_is_new_record(res, *req, id, now),
{
    Pair {
        id: id,
        base_asset_id: match req.base_asset_id { Some(v) => v, None => 0i32 },
        quote_asset_id: match req.quote_asset_id { Some(v) => v, None => 0i32 },
        symbol: match &req.symbol { Some(v) => v.clone(), None => empty_text() },
        update_date: now,
        all_time_high_date: 0i64,
        last_price: Amount::zero(),
        all_time_high_price: Amount::zero(),
        percent_from_all_time_high: Amount::zero(),
        fifteen_minutes_price_percent_change: Amount::zero(),
        thirty_minutes_price_percent_change: Amount::zero(),
        hour_price_percent_change: Amount::zero(),
        six_hours_price_percent_change: Amount::zero(),
        twelve_hours_price_percent_change: Amount::zero(),
        day_price_percent_change: Amount::zero(),
        week_price_percent_change: Amount::zero(),
        month_price_percent_change: Amount::zero(),
        year_price_percent_change: Amount::zero(),
        price_filter_min_price: Amount::zero(),
        price_filter_max_price: Amount::zero(),
        price_filter_tick_size: Amount::zero(),
        lot_size_min_qty: Amount::zero(),
        lot_size_max_qty: Amount::zero(),
        lot_size_step_size: Amount::zero(),
        market_lot_size_min_qty: Amount::zero(),
        market_lot_size_max_qty: Amount::zero(),
        market_lot_size_step_size: Amount::zero(),
        trailing_delta_min_trailing_above_delta: 0i32,
        trailing_delta_max_trailing_above_delta: 0i32,
        trailing_delta_min_trailing_below_delta: 0i32,
        trailing_delta_max_trailing_below_delta: 0i32,
        percent_price_by_side_bid_multiplier_up: Amount::zero(),
        percent_price_by_side_bid_multiplier_down: Amount::zero(),
        percent_price_by_side_ask_multiplier_up: Amount::zero(),
        percent_price_by_side_ask_multiplier_down: Amount::zero(),
        percent_price_by_side_avg_price_mins: 0i32,
        notional_min_notional: Amount::zero(),
        notional_apply_min_to_market: false,
        notional_max_notional: Amount::zero(),
        notional_apply_max_to_market: false,
        notional_avg_price_mins: 0i32,
        max_num_orders: 0i32,
        max_num_algo_orders: 0i32,
    }
}

/// A new record has the id it is given, each field an insert request sets
/// at the request's value and each other field at its default (the dates the
/// table fills at the time of the insert).
pub proof fn lemma_new_record_fields(r: Pair, req: PairRequest, id: i32, now: i64)
    requires
        spec_is_new_record(r, req, id, now),
    ensures
        r.id == id,
        req.base_asset_id matches Some(v) ==> r.base_asset_id == v,
        req.base_asset_id is None ==> r.base_asset_id == 0i32,
        req.quote_asset_id matches Some(v) ==> r.quote_asset_id == v,
        req.quote_asset_id is None ==> r.quote_asset_id == 0i32,
        req.symbol matches Some(v) ==> r.symbol@ == v@,
        req.symbol is None ==> r.symbol@ == Seq::<char>::empty(),
        r.update_date == now,
        r.all_time_high_date == 0i64,
        r.last_price == Amount::spec_zero(),
        r.all_time_high_price == Amount::spec_zero(),
        r.percent_from_all_time_high == Amount::spec_zero(),
        r.fifteen_minutes_price_percent_change == Amount::spec_zero(),
        r.thirty_minutes_price_percent_change == Amount::spec_zero(),
        r.hour_price_percent_change == Amount::spec_zero(),
        r.six_hours_price_percent_change == Amount::spec_zero(),
        r.twelve_hours_price_percent_change == Amount::spec_zero(),
        r.day_price_percent_change == Amount::spec_zero(),
        r.week_price_percent_change == Amount::spec_zero(),
        r.month_price_percent_change == Amount::spec_zero(),
        r.year_price_percent_change == Amount::spec_zero(),
        r.price_filter_min_price == Amount::spec_zero(),
        r.price_filter_max_price == Amount::spec_zero(),
        r.price_filter_tick_size == Amount::spec_zero(),
        r.lot_size_min_qty == Amount::spec_zero(),
        r.lot_size_max_qty == Amount::spec_zero(),
        r.lot_size_step_size == Amount::spec_zero(),
        r.market_lot_size_min_qty == Amount::spec_zero(),
        r.market_lot_size_max_qty == Amount::spec_zero(),
        r.market_lot_size_step_size == Amount::spec_zero(),
        r.trailing_delta_min_trailing_above_delta == 0i32,
        r.trailing_delta_max_trailing_above_delta == 0i32,
        r.trailing_delta_min_trailing_below_delta == 0i32,
        r.trailing_delta_max_trailing_below_delta == 0i32,
        r.percent_price_by_side_bid_multiplier_up == Amount::spec_zero(),
        r.percent_price_by_side_bid_multiplier_down == Amount::spec_zero(),
        r.percent_price_by_side_ask_multiplier_up == Amount::spec_zero(),
        r.percent_price_by_side_ask_multiplier_down == Amount::spec_zero(),
        r.percent_price_by_side_avg_price_mins == 0i32,
        r.notional_min_notional == Amount::spec_zero(),
        r.notional_apply_min_to_market == false,
        r.notional_max_notional == Amount::spec_zero(),
        r.notional_apply_max_to_market == false,
        r.notional_avg_price_mins == 0i32,
        r.max_num_orders == 0i32,
        r.max_num_algo_orders == 0i32,
{
}

/// Whether a single-record request selects `m` (the conditions of a lookup).
pub open spec fn spec_selects(m: Pair, req: PairRequest) -> bool {
    &&& (match req.id { Some(v) => m.id == v, None => true })
    &&& (match req.base_asset_id { Some(v) => m.base_asset_id == v, None => true })
    &&& (match req.quote_asset_id { Some(v) => m.quote_asset_id == v, None => true })
    &&& (match req.symbol { Some(v) => v@.len() == 0 || m.symbol@ == v@, None => true })
}

/// Whether a listing request selects `m` (the conditions of a listing).
pub open spec fn spec_lists(m: Pair, req: PairRequest) -> bool {
    &&& (match req.id { Some(v) => m.id == v, None => true })
    &&& (match req.base_asset_id { Some(v) => m.base_asset_id == v, None => true })
    &&& (match req.quote_asset_id { Some(v) => m.quote_asset_id == v, None => true })
    &&& (match req.symbol { Some(v) => v@.len() == 0 || m.symbol@ == v@, None => true })
}

/// A single-record request keeps only records that agree with it: a record it keeps has, in
/// each field it sets among `id`, `base_asset_id`, `quote_asset_id`, `symbol`, the value the request sets
/// (where an empty or non-positive value sets no condition). The blank
/// request keeps every record, and a kept record is still kept when a field
/// of the request is set to that record's own value.
pub proof fn lemma_selects_filters(m: Pair, req: PairRequest)
    ensures
        spec_selects(m, (PairRequest { id: None, base_asset_id: None, quote_asset_id: None, symbol: None, all_time_high_date: None, last_price: None, all_time_high_price: None, percent_from_all_time_high: None, fifteen_minutes_price_percent_change: None, thirty_minutes_price_percent_change: None, hour_price_percent_change: None, six_hours_price_percent_change: None, twelve_hours_price_percent_change: None, day_price_percent_change: None, week_price_percent_change: None, month_price_percent_change: None, year_price_percent_change: None, price_filter_min_price: None, price_filter_max_price: None, price_filter_tick_size: None, lot_size_min_qty: None, lot_size_max_qty: None, lot_size_step_size: None, market_lot_size_min_qty: None, market_lot_size_max_qty: None, market_lot_size_step_size: None, trailing_delta_min_trailing_above_delta: None, trailing_delta_max_trailing_above_delta: None, trailing_delta_min_trailing_below_delta: None, trailing_delta_max_trailing_below_delta: None, percent_price_by_side_bid_multiplier_up: None, percent_price_by_side_bid_multiplier_down: None, percent_price_by_side_ask_multiplier_up: None, percent_price_by_side_ask_multiplier_down: None, percent_price_by_side_avg_price_mins: None, notional_min_notional: None, notional_apply_min_to_market: None, notional_max_notional: None, notional_apply_max_to_market: None, notional_avg_price_mins: None, max_num_orders: None, max_num_algo_orders: None })),
        req.id matches Some(v) ==> (spec_selects(m, req) ==> m.id == v),
        req.base_asset_id matches Some(v) ==> (spec_selects(m, req) ==> m.base_asset_id == v),
        req.quote_asset_id matches Some(v) ==> (spec_selects(m, req) ==> m.quote_asset_id == v),
        req.symbol matches Some(v) ==> (spec_selects(m, req) ==> v@.len() > 0 ==> m.symbol@ == v@),
        spec_selects(m, req) ==> spec_selects(m, (PairRequest { id: Some(m.id), ..req })),
        spec_selects(m, req) ==> spec_selects(m, (PairRequest { base_asset_id: Some(m.base_asset_id), ..req })),
        spec_selects(m, req) ==> spec_selects(m, (PairRequest { quote_asset_id: Some(m.quote_asset_id), ..req })),
        spec_selects(m, req) ==> spec_selects(m, (PairRequest { symbol: Some(m.symbol), ..req })),
{
}

/// A listing request keeps only records that agree with it: a record it keeps has, in
/// each field it sets among `id`, `base_asset_id`, `quote_asset_id`, `symbol`, the value the request sets
/// (where an empty or non-positive value sets no condition). The blank
/// request keeps every record, and a kept record is still kept when a field
/// of the request is set to that record's own value.
pub proof fn lemma_lists_filters(m: Pair, req: PairRequest)
    ensures
        spec_lists(m, (PairRequest { id: None, base_asset_id: None, quote_asset_id: None, symbol: None, all_time_high_date: None, last_price: None, all_time_high_price: None, percent_from_all_time_high: None, fifteen_minutes_price_percent_change: None, thirty_minutes_price_percent_change: None, hour_price_percent_change: None, six_hours_price_percent_change: None, twelve_hours_price_percent_change: None, day_price_percent_change: None, week_price_percent_change: None, month_price_percent_change: None, year_price_percent_change: None, price_filter_min_price: None, price_filter_max_price: None, price_filter_tick_size: None, lot_size_min_qty: None, lot_size_max_qty: None, lot_size_step_size: None, market_lot_size_min_qty: None, market_lot_size_max_qty: None, market_lot_size_step_size: None, trailing_delta_min_trailing_above_delta: None, trailing_delta_max_trailing_above_delta: None, trailing_delta_min_trailing_below_delta: None, trailing_delta_max_trailing_below_delta: None, percent_price_by_side_bid_multiplier_up: None, percent_price_by_side_bid_multiplier_down: None, percent_price_by_side_ask_multiplier_up: None, percent_price_by_side_ask_multiplier_down: None, percent_price_by_side_avg_price_mins: None, notional_min_notional: None, notional_apply_min_to_market: None, notional_max_notional: None, notional_apply_max_to_market: None, notional_avg_price_mins: None, max_num_orders: None, max_num_algo_orders: None })),
        req.id matches Some(v) ==> (spec_lists(m, req) ==> m.id == v),
        req.base_asset_id matches Some(v) ==> (spec_lists(m, req) ==> m.base_asset_id == v),
        req.quote_asset_id matches Some(v) ==> (spec_lists(m, req) ==> m.quote_asset_id == v),
        req.symbol matches Some(v) ==> (spec_lists(m, req) ==> v@.len() > 0 ==> m.symbol@ == v@),
        spec_lists(m, req) ==> spec_lists(m, (PairRequest { id: Some(m.id), ..req })),
        spec_lists(m, req) ==> spec_lists(m, (PairRequest { base_asset_id: Some(m.base_asset_id), ..req })),
        spec_lists(m, req) ==> spec_lists(m, (PairRequest { quote_asset_id: Some(m.quote_asset_id), ..req })),
        spec_lists(m, req) ==> spec_lists(m, (PairRequest { symbol: Some(m.symbol), ..req })),
{
}

/// `m` after an update request at time `now`: every field the request sets is replaced, and the update time becomes `now`.
pub open spec fn spec_apply_update(m: Pair, req: PairRequest, now: i64) -> Pair {
    Pair {
        id: m.id,
        base_asset_id: match req.base_asset_id { Some(v) => v, None => m.base_asset_id },
        quote_asset_id: match req.quote_asset_id { Some(v) => v, None => m.quote_asset_id },
        symbol: match req.symbol { Some(v) => v, None => m.symbol },
        update_date: now,
        all_time_high_date: match req.all_time_high_date { Some(v) => v, None => m.all_time_high_date },
        last_price: match req.last_price { Some(v) => v, None => m.last_price },
        all_time_high_price: match req.all_time_high_price { Some(v) => v, None => m.all_time_high_price },
        percent_from_all_time_high: match req.percent_from_all_time_high { Some(v) => v, None => m.percent_from_all_time_high },
        fifteen_minutes_price_percent_change: match req.fifteen_minutes_price_percent_change { Some(v) => v, None => m.fifteen_minutes_price_percent_change },
        thirty_minutes_price_percent_change: match req.thirty_minutes_price_percent_change { Some(v) => v, None => m.thirty_minutes_price_percent_change },
        hour_price_percent_change: match req.hour_price_percent_change { Some(v) => v, None => m.hour_price_percent_change },
        six_hours_price_percent_change: match req.six_hours_price_percent_change { Some(v) => v, None => m.six_hours_price_percent_change },
        twelve_hours_price_percent_change: match req.twelve_hours_price_percent_change { Some(v) => v, None => m.twelve_hours_price_percent_change },
        day_price_percent_change: match req.day_price_percent_change { Some(v) => v, None => m.day_price_percent_change },
        week_price_percent_change: match req.week_price_percent_change { Some(v) => v, None => m.week_price_percent_change },
        month_price_percent_change: match req.month_price_percent_change { Some(v) => v, None => m.month_price_percent_change },
        year_price_percent_change: match req.year_price_percent_change { Some(v) => v, None => m.year_price_percent_change },
        price_filter_min_price: match req.price_filter_min_price { Some(v) => v, None => m.price_filter_min_price },
        price_filter_max_price: match req.price_filter_max_price { Some(v) => v, None => m.price_filter_max_price },
        price_filter_tick_size: match req.price_filter_tick_size { Some(v) => v, None => m.price_filter_tick_size },
        lot_size_min_qty: match req.lot_size_min_qty { Some(v) => v, None => m.lot_size_min_qty },
        lot_size_max_qty: match req.lot_size_max_qty { Some(v) => v, None => m.lot_size_max_qty },
        lot_size_step_size: match req.lot_size_step_size { Some(v) => v, None => m.lot_size_step_size },
        market_lot_size_min_qty: match req.market_lot_size_min_qty { Some(v) => v, None => m.market_lot_size_min_qty },
        market_lot_size_max_qty: match req.market_lot_size_max_qty { Some(v) => v, None => m.market_lot_size_max_qty },
        market_lot_size_step_size: match req.market_lot_size_step_size { Some(v) => v, None => m.market_lot_size_step_size },
        trailing_delta_min_trailing_above_delta: match req.trailing_delta_min_trailing_above_delta { Some(v) => v, None => m.trailing_delta_min_trailing_above_delta },
        trailing_delta_max_trailing_above_delta: match req.trailing_delta_max_trailing_above_delta { Some(v) => v, None => m.trailing_delta_max_trailing_above_delta },
        trailing_delta_min_trailing_below_delta: match req.trailing_delta_min_trailing_below_delta { Some(v) => v, None => m.trailing_delta_min_trailing_below_delta },
        trailing_delta_max_trailing_below_delta: match req.trailing_delta_max_trailing_below_delta { Some(v) => v, None => m.trailing_delta_max_trailing_below_delta },
        percent_price_by_side_bid_multiplier_up: match req.percent_price_by_side_bid_multiplier_up { Some(v) => v, None => m.percent_price_by_side_bid_multiplier_up },
        percent_price_by_side_bid_multiplier_down: match req.percent_price_by_side_bid_multiplier_down { Some(v) => v, None => m.percent_price_by_side_bid_multiplier_down },
        percent_price_by_side_ask_multiplier_up: match req.percent_price_by_side_ask_multiplier_up { Some(v) => v, None => m.percent_price_by_side_ask_multiplier_up },
        percent_price_by_side_ask_multiplier_down: match req.percent_price_by_side_ask_multiplier_down { Some(v) => v, None => m.percent_price_by_side_ask_multiplier_down },
        percent_price_by_side_avg_price_mins: match req.percent_price_by_side_avg_price_mins { Some(v) => v, None => m.percent_price_by_side_avg_price_mins },
        notional_min_notional: match req.notional_min_notional { Some(v) => v, None => m.notional_min_notional },
        notional_apply_min_to_market: match req.notional_apply_min_to_market { Some(v) => v, None => m.notional_apply_min_to_market },
        notional_max_notional: match req.notional_max_notional { Some(v) => v, None => m.notional_max_notional },
        notional_apply_max_to_market: match req.notional_apply_max_to_market { Some(v) => v, None => m.notional_apply_max_to_market },
        notional_avg_price_mins: match req.notional_avg_price_mins { Some(v) => v, None => m.notional_avg_price_mins },
        max_num_orders: match req.max_num_orders { Some(v) => v, None => m.max_num_orders },
        max_num_algo_orders: match req.max_num_algo_orders { Some(v) => v, None => m.max_num_algo_orders },
    }
}

/// An update request: each field the request sets among those it may change takes the
/// request's value, an unset one keeps the record's, the other fields stay as
/// they are (the update time becomes `now`), and doing it twice is doing it once.
pub proof fn lemma_apply_update_fields(m: Pair, req: PairRequest, now: i64)
    ensures
        spec_apply_update(m, req, now).id == m.id,
        req.base_asset_id matches Some(v) ==> spec_apply_update(m, req, now).base_asset_id == v,
        req.base_asset_id is None ==> spec_apply_update(m, req, now).base_asset_id == m.base_asset_id,
        req.quote_asset_id matches Some(v) ==> spec_apply_update(m, req, now).quote_asset_id == v,
        req.quote_asset_id is None ==> spec_apply_update(m, req, now).quote_asset_id == m.quote_asset_id,
        req.symbol matches Some(v) ==> spec_apply_update(m, req, now).symbol == v,
        req.symbol is None ==> spec_apply_update(m, req, now).symbol == m.symbol,
        spec_apply_update(m, req, now).update_date == now,
        req.all_time_high_date matches Some(v) ==> spec_apply_update(m, req, now).all_time_high_date == v,
        req.all_time_high_date is None ==> spec_apply_update(m, req, now).all_time_high_date == m.all_time_high_date,
        req.last_price matches Some(v) ==> spec_apply_update(m, req, now).last_price == v,
        req.last_price is None ==> spec_apply_update(m, req, now).last_price == m.last_price,
        req.all_time_high_price matches Some(v) ==> spec_apply_update(m, req, now).all_time_high_price == v,
        req.all_time_high_price is None ==> spec_apply_update(m, req, now).all_time_high_price == m.all_time_high_price,
        req.percent_from_all_time_high matches Some(v) ==> spec_apply_update(m, req, now).percent_from_all_time_high == v,
        req.percent_from_all_time_high is None ==> spec_apply_update(m, req, now).percent_from_all_time_high == m.percent_from_all_time_high,
        req.fifteen_minutes_price_percent_change matches Some(v) ==> spec_apply_update(m, req, now).fifteen_minutes_price_percent_change == v,
        req.fifteen_minutes_price_percent_change is None ==> spec_apply_update(m, req, now).fifteen_minutes_price_percent_change == m.fifteen_minutes_price_percent_change,
        req.thirty_minutes_price_percent_change matches Some(v) ==> spec_apply_update(m, req, now).thirty_minutes_price_percent_change == v,
        req.thirty_minutes_price_percent_change is None ==> spec_apply_update(m, req, now).thirty_minutes_price_percent_change == m.thirty_minutes_price_percent_change,
        req.hour_price_percent_change matches Some(v) ==> spec_apply_update(m, req, now).hour_price_percent_change == v,
        req.hour_price_percent_change is None ==> spec_apply_update(m, req, now).hour_price_percent_change == m.hour_price_percent_change,
        req.six_hours_price_percent_change matches Some(v) ==> spec_apply_update(m, req, now).six_hours_price_percent_change == v,
        req.six_hours_price_percent_change is None ==> spec_apply_update(m, req, now).six_hours_price_percent_change == m.six_hours_price_percent_change,
        req.twelve_hours_price_percent_change matches Some(v) ==> spec_apply_update(m, req, now).twelve_hours_price_percent_change == v,
        req.twelve_hours_price_percent_change is None ==> spec_apply_update(m, req, now).twelve_hours_price_percent_change == m.twelve_hours_price_percent_change,
        req.day_price_percent_change matches Some(v) ==> spec_apply_update(m, req, now).day_price_percent_change == v,
        req.day_price_percent_change is None ==> spec_apply_update(m, req, now).day_price_percent_change == m.day_price_percent_change,
        req.week_price_percent_change matches Some(v) ==> spec_apply_update(m, req, now).week_price_percent_change == v,
        req.week_price_percent_change is None ==> spec_apply_update(m, req, now).week_price_percent_change == m.week_price_percent_change,
        req.month_price_percent_change matches Some(v) ==> spec_apply_update(m, req, now).month_price_percent_change == v,
        req.month_price_percent_change is None ==> spec_apply_update(m, req, now).month_price_percent_change == m.month_price_percent_change,
        req.year_price_percent_change matches Some(v) ==> spec_apply_update(m, req, now).year_price_percent_change == v,
        req.year_price_percent_change is None ==> spec_apply_update(m, req, now).year_price_percent_change == m.year_price_percent_change,
        req.price_filter_min_price matches Some(v) ==> spec_apply_update(m, req, now).price_filter_min_price == v,
        req.price_filter_min_price is None ==> spec_apply_update(m, req, now).price_filter_min_price == m.price_filter_min_price,
        req.price_filter_max_price matches Some(v) ==> spec_apply_update(m, req, now).price_filter_max_price == v,
        req.price_filter_max_price is None ==> spec_apply_update(m, req, now).price_filter_max_price == m.price_filter_max_price,
        req.price_filter_tick_size matches Some(v) ==> spec_apply_update(m, req, now).price_filter_tick_size == v,
        req.price_filter_tick_size is None ==> spec_apply_update(m, req, now).price_filter_tick_size == m.price_filter_tick_size,
        req.lot_size_min_qty matches Some(v) ==> spec_apply_update(m, req, now).lot_size_min_qty == v,
        req.lot_size_min_qty is None ==> spec_apply_update(m, req, now).lot_size_min_qty == m.lot_size_min_qty,
        req.lot_size_max_qty matches Some(v) ==> spec_apply_update(m, req, now).lot_size_max_qty == v,
        req.lot_size_max_qty is None ==> spec_apply_update(m, req, now).lot_size_max_qty == m.lot_size_max_qty,
        req.lot_size_step_size matches Some(v) ==> spec_apply_update(m, req, now).lot_size_step_size == v,
        req.lot_size_step_size is None ==> spec_apply_update(m, req, now).lot_size_step_size == m.lot_size_step_size,
        req.market_lot_size_min_qty matches Some(v) ==> spec_apply_update(m, req, now).market_lot_size_min_qty == v,
        req.market_lot_size_min_qty is None ==> spec_apply_update(m, req, now).market_lot_size_min_qty == m.market_lot_size_min_qty,
        req.market_lot_size_max_qty matches Some(v) ==> spec_apply_update(m, req, now).market_lot_size_max_qty == v,
        req.market_lot_size_max_qty is None ==> spec_apply_update(m, req, now).market_lot_size_max_qty == m.market_lot_size_max_qty,
        req.market_lot_size_step_size matches Some(v) ==> spec_apply_update(m, req, now).market_lot_size_step_size == v,
        req.market_lot_size_step_size is None ==> spec_apply_update(m, req, now).market_lot_size_step_size == m.market_lot_size_step_size,
        req.trailing_delta_min_trailing_above_delta matches Some(v) ==> spec_apply_update(m, req, now).trailing_delta_min_trailing_above_delta == v,
        req.trailing_delta_min_trailing_above_delta is None ==> spec_apply_update(m, req, now).trailing_delta_min_trailing_above_delta == m.trailing_delta_min_trailing_above_delta,
        req.trailing_delta_max_trailing_above_delta matches Some(v) ==> spec_apply_update(m, req, now).trailing_delta_max_trailing_above_delta == v,
        req.trailing_delta_max_trailing_above_delta is None ==> spec_apply_update(m, req, now).trailing_delta_max_trailing_above_delta == m.trailing_delta_max_trailing_above_delta,
        req.trailing_delta_min_trailing_below_delta matches Some(v) ==> spec_apply_update(m, req, now).trailing_delta_min_trailing_below_delta == v,
        req.trailing_delta_min_trailing_below_delta is None ==> spec_apply_update(m, req, now).trailing_delta_min_trailing_below_delta == m.trailing_delta_min_trailing_below_delta,
        req.trailing_delta_max_trailing_below_delta matches Some(v) ==> spec_apply_update(m, req, now).trailing_delta_max_trailing_below_delta == v,
        req.trailing_delta_max_trailing_below_delta is None ==> spec_apply_update(m, req, now).trailing_delta_max_trailing_below_delta == m.trailing_delta_max_trailing_below_delta,
        req.percent_price_by_side_bid_multiplier_up matches Some(v) ==> spec_apply_update(m, req, now).percent_price_by_side_bid_multiplier_up == v,
        req.percent_price_by_side_bid_multiplier_up is None ==> spec_apply_update(m, req, now).percent_price_by_side_bid_multiplier_up == m.percent_price_by_side_bid_multiplier_up,
        req.percent_price_by_side_bid_multiplier_down matches Some(v) ==> spec_apply_update(m, req, now).percent_price_by_side_bid_multiplier_down == v,
        req.percent_price_by_side_bid_multiplier_down is None ==> spec_apply_update(m, req, now).percent_price_by_side_bid_multiplier_down == m.percent_price_by_side_bid_multiplier_down,
        req.percent_price_by_side_ask_multiplier_up matches Some(v) ==> spec_apply_update(m, req, now).percent_price_by_side_ask_multiplier_up == v,
        req.percent_price_by_side_ask_multiplier_up is None ==> spec_apply_update(m, req, now).percent_price_by_side_ask_multiplier_up == m.percent_price_by_side_ask_multiplier_up,
        req.percent_price_by_side_ask_multiplier_down matches Some(v) ==> spec_apply_update(m, req, now).percent_price_by_side_ask_multiplier_down == v,
        req.percent_price_by_side_ask_multiplier_down is None ==> spec_apply_update(m, req, now).percent_price_by_side_ask_multiplier_down == m.percent_price_by_side_ask_multiplier_down,
        req.percent_price_by_side_avg_price_mins matches Some(v) ==> spec_apply_update(m, req, now).percent_price_by_side_avg_price_mins == v,
        req.percent_price_by_side_avg_price_mins is None ==> spec_apply_update(m, req, now).percent_price_by_side_avg_price_mins == m.percent_price_by_side_avg_price_mins,
        req.notional_min_notional matches Some(v) ==> spec_apply_update(m, req, now).notional_min_notional == v,
        req.notional_min_notional is None ==> spec_apply_update(m, req, now).notional_min_notional == m.notional_min_notional,
        req.notional_apply_min_to_market matches Some(v) ==> spec_apply_update(m, req, now).notional_apply_min_to_market == v,
        req.notional_apply_min_to_market is None ==> spec_apply_update(m, req, now).notional_apply_min_to_market == m.notional_apply_min_to_market,
        req.notional_max_notional matches Some(v) ==> spec_apply_update(m, req, now).notional_max_notional == v,
        req.notional_max_notional is None ==> spec_apply_update(m, req, now).notional_max_notional == m.notional_max_notional,
        req.notional_apply_max_to_market matches Some(v) ==> spec_apply_update(m, req, now).notional_apply_max_to_market == v,
        req.notional_apply_max_to_market is None ==> spec_apply_update(m, req, now).notional_apply_max_to_market == m.notional_apply_max_to_market,
        req.notional_avg_price_mins matches Some(v) ==> spec_apply_update(m, req, now).notional_avg_price_mins == v,
        req.notional_avg_price_mins is None ==> spec_apply_update(m, req, now).notional_avg_price_mins == m.notional_avg_price_mins,
        req.max_num_orders matches Some(v) ==> spec_apply_update(m, req, now).max_num_orders == v,
        req.max_num_orders is None ==> spec_apply_update(m, req, now).max_num_orders == m.max_num_orders,
        req.max_num_algo_orders matches Some(v) ==> spec_apply_update(m, req, now).max_num_algo_orders == v,
        req.max_num_algo_orders is None ==> spec_apply_update(m, req, now).max_num_algo_orders == m.max_num_algo_orders,
        spec_apply_update(spec_apply_update(m, req, now), req, now) == spec_apply_update(m, req, now),
{
}

/// Whether `r` is the record with every field at its default.
pub open spec fn spec_is_default(r: Pair) -> bool {
    &&& r.id == 0i32
    &&& r.base_asset_id == 0i32
    &&& r.quote_asset_id == 0i32
    &&& r.symbol@ == Seq::<char>::empty()
    &&& r.update_date == 0i64
    &&& r.all_time_high_date == 0i64
    &&& r.last_price == Amount::spec_zero()
    &&& r.all_time_high_price == Amount::spec_zero()
    &&& r.percent_from_all_time_high == Amount::spec_zero()
    &&& r.fifteen_minutes_price_percent_change == Amount::spec_zero()
    &&& r.thirty_minutes_price_percent_change == Amount::spec_zero()
    &&& r.hour_price_percent_change == Amount::spec_zero()
    &&& r.six_hours_price_percent_change == Amount::spec_zero()
    &&& r.twelve_hours_price_percent_change == Amount::spec_zero()
    &&& r.day_price_percent_change == Amount::spec_zero()
    &&& r.week_price_percent_change == Amount::spec_zero()
    &&& r.month_price_percent_change == Amount::spec_zero()
    &&& r.year_price_percent_change == Amount::spec_zero()
    &&& r.price_filter_min_price == Amount::spec_zero()
    &&& r.price_filter_max_price == Amount::spec_zero()
    &&& r.price_filter_tick_size == Amount::spec_zero()
    &&& r.lot_size_min_qty == Amount::spec_zero()
    &&& r.lot_size_max_qty == Amount::spec_zero()
    &&& r.lot_size_step_size == Amount::spec_zero()
    &&& r.market_lot_size_min_qty == Amount::spec_zero()
    &&& r.market_lot_size_max_qty == Amount::spec_zero()
    &&& r.market_lot_size_step_size == Amount::spec_zero()
    &&& r.trailing_delta_min_trailing_above_delta == 0i32
    &&& r.trailing_delta_max_trailing_above_delta == 0i32
    &&& r.trailing_delta_min_trailing_below_delta == 0i32
    &&& r.trailing_delta_max_trailing_below_delta == 0i32
    &&& r.percent_price_by_side_bid_multiplier_up == Amount::spec_zero()
    &&& r.percent_price_by_side_bid_multiplier_down == Amount::spec_zero()
    &&& r.percent_price_by_side_ask_multiplier_up == Amount::spec_zero()
    &&& r.percent_price_by_side_ask_multiplier_down == Amount::spec_zero()
    &&& r.percent_price_by_side_avg_price_mins == 0i32
    &&& r.notional_min_notional == Amount::spec_zero()
    &&& r.notional_apply_min_to_market == false
    &&& r.notional_max_notional == Amount::spec_zero()
    &&& r.notional_apply_max_to_market == false
    &&& r.notional_avg_price_mins == 0i32
    &&& r.max_num_orders == 0i32
    &&& r.max_num_algo_orders == 0i32
}

impl Pair {
    /// The record with every field at its default.
    pub fn default_record() -> (res: Self)
        ensures
            spec_is_default(res),
    {
        Pair {
            id: 0i32,
            base_asset_id: 0i32,
            quote_asset_id: 0i32,
            symbol: empty_text(),
            update_date: 0i64,
            all_time_high_date: 0i64,
            last_price: Amount::zero(),
            all_time_high_price: Amount::zero(),
            percent_from_all_time_high: Amount::zero(),
            fifteen_minutes_price_percent_change: Amount::zero(),
            thirty_minutes_price_percent_change: Amount::zero(),
            hour_price_percent_change: Amount::zero(),
            six_hours_price_percent_change: Amount::zero(),
            twelve_hours_price_percent_change: Amount::zero(),
            day_price_percent_change: Amount::zero(),
            week_price_percent_change: Amount::zero(),
            month_price_percent_change: Amount::zero(),
            year_price_percent_change: Amount::zero(),
            price_filter_min_price: Amount::zero(),
            price_filter_max_price: Amount::zero(),
            price_filter_tick_size: Amount::zero(),
            lot_size_min_qty: Amount::zero(),
            lot_size_max_qty: Amount::zero(),
            lot_size_step_size: Amount::zero(),
            market_lot_size_min_qty: Amount::zero(),
            market_lot_size_max_qty: Amount::zero(),
            market_lot_size_step_size: Amount::zero(),
            trailing_delta_min_trailing_above_delta: 0i32,
            trailing_delta_max_trailing_above_delta: 0i32,
            trailing_delta_min_trailing_below_delta: 0i32,
            trailing_delta_max_trailing_below_delta: 0i32,
            percent_price_by_side_bid_multiplier_up: Amount::zero(),
            percent_price_by_side_bid_multiplier_down: Amount::zero(),
            percent_price_by_side_ask_multiplier_up: Amount::zero(),
            percent_price_by_side_ask_multiplier_down: Amount::zero(),
            percent_price_by_side_avg_price_mins: 0i32,
            notional_min_notional: Amount::zero(),
            notional_apply_min_to_market: false,
            notional_max_notional: Amount::zero(),
            notional_apply_max_to_market: false,
            notional_avg_price_mins: 0i32,
            max_num_orders: 0i32,
            max_num_algo_orders: 0i32,
        }
    }

    pub fn duplicate(&self) -> (res: Self)
        ensures
            res == *self,
    {
        Pair {
            id: self.id,
            base_asset_id: self.base_asset_id,
            quote_asset_id: self.quote_asset_id,
            symbol: self.symbol.clone(),
            update_date: self.update_date,
            all_time_high_date: self.all_time_high_date,
            last_price: self.last_price,
            all_time_high_price: self.all_time_high_price,
            percent_from_all_time_high: self.percent_from_all_time_high,
            fifteen_minutes_price_percent_change: self.fifteen_minutes_price_percent_change,
            thirty_minutes_price_percent_change: self.thirty_minutes_price_percent_change,
            hour_price_percent_change: self.hour_price_percent_change,
            six_hours_price_percent_change: self.six_hours_price_percent_change,
            twelve_hours_price_percent_change: self.twelve_hours_price_percent_change,
            day_price_percent_change: self.day_price_percent_change,
            week_price_percent_change: self.week_price_percent_change,
            month_price_percent_change: self.month_price_percent_change,
            year_price_percent_change: self.year_price_percent_change,
            price_filter_min_price: self.price_filter_min_price,
            price_filter_max_price: self.price_filter_max_price,
            price_filter_tick_size: self.price_filter_tick_size,
            lot_size_min_qty: self.lot_size_min_qty,
            lot_size_max_qty: self.lot_size_max_qty,
            lot_size_step_size: self.lot_size_step_size,
            market_lot_size_min_qty: self.market_lot_size_min_qty,
            market_lot_size_max_qty: self.market_lot_size_max_qty,
            market_lot_size_step_size: self.market_lot_size_step_size,
            trailing_delta_min_trailing_above_delta: self.trailing_delta_min_trailing_above_delta,
            trailing_delta_max_trailing_above_delta: self.trailing_delta_max_trailing_above_delta,
            trailing_delta_min_trailing_below_delta: self.trailing_delta_min_trailing_below_delta,
            trailing_delta_max_trailing_below_delta: self.trailing_delta_max_trailing_below_delta,
            percent_price_by_side_bid_multiplier_up: self.percent_price_by_side_bid_multiplier_up,
            percent_price_by_side_bid_multiplier_down: self.percent_price_by_side_bid_multiplier_down,
            percent_price_by_side_ask_multiplier_up: self.percent_price_by_side_ask_multiplier_up,
            percent_price_by_side_ask_multiplier_down: self.percent_price_by_side_ask_multiplier_down,
            percent_price_by_side_avg_price_mins: self.percent_price_by_side_avg_price_mins,
            notional_min_notional: self.notional_min_notional,
            notional_apply_min_to_market: self.notional_apply_min_to_market,
            notional_max_notional: self.notional_max_notional,
            notional_apply_max_to_market: self.notional_apply_max_to_market,
            notional_avg_price_mins: self.notional_avg_price_mins,
            max_num_orders: self.max_num_orders,
            max_num_algo_orders: self.max_num_algo_orders,
        }
    }

    /// This record after an update request at time `now`.
    pub fn apply_update(&self, req: &PairRequest, now: i64) -> (res: Self)
        ensures
            res == spec_apply_update(*self, *req, now),
    {
        Pair {
            id: self.id,
            base_asset_id: match req.base_asset_id { Some(v) => v, None => self.base_asset_id },
            quote_asset_id: match req.quote_asset_id { Some(v) => v, None => self.quote_asset_id },
            symbol: match &req.symbol { Some(v) => v.clone(), None => self.symbol.clone() },
            update_date: now,
            all_time_high_date: match req.all_time_high_date { Some(v) => v, None => self.all_time_high_date },
            last_price: match req.last_price { Some(v) => v, None => self.last_price },
            all_time_high_price: match req.all_time_high_price { Some(v) => v, None => self.all_time_high_price },
            percent_from_all_time_high: match req.percent_from_all_time_high { Some(v) => v, None => self.percent_from_all_time_high },
            fifteen_minutes_price_percent_change: match req.fifteen_minutes_price_percent_change { Some(v) => v, None => self.fifteen_minutes_price_percent_change },
            thirty_minutes_price_percent_change: match req.thirty_minutes_price_percent_change { Some(v) => v, None => self.thirty_minutes_price_percent_change },
            hour_price_percent_change: match req.hour_price_percent_change { Some(v) => v, None => self.hour_price_percent_change },
            six_hours_price_percent_change: match req.six_hours_price_percent_change { Some(v) => v, None => self.six_hours_price_percent_change },
            twelve_hours_price_percent_change: match req.twelve_hours_price_percent_change { Some(v) => v, None => self.twelve_hours_price_percent_change },
            day_price_percent_change: match req.day_price_percent_change { Some(v) => v, None => self.day_price_percent_change },
            week_price_percent_change: match req.week_price_percent_change { Some(v) => v, None => self.week_price_percent_change },
            month_price_percent_change: match req.month_price_percent_change { Some(v) => v, None => self.month_price_percent_change },
            year_price_percent_change: match req.year_price_percent_change { Some(v) => v, None => self.year_price_percent_change },
            price_filter_min_price: match req.price_filter_min_price { Some(v) => v, None => self.price_filter_min_price },
            price_filter_max_price: match req.price_filter_max_price { Some(v) => v, None => self.price_filter_max_price },
            price_filter_tick_size: match req.price_filter_tick_size { Some(v) => v, None => self.price_filter_tick_size },
            lot_size_min_qty: match req.lot_size_min_qty { Some(v) => v, None => self.lot_size_min_qty },
            lot_size_max_qty: match req.lot_size_max_qty { Some(v) => v, None => self.lot_size_max_qty },
            lot_size_step_size: match req.lot_size_step_size { Some(v) => v, None => self.lot_size_step_size },
            market_lot_size_min_qty: match req.market_lot_size_min_qty { Some(v) => v, None => self.market_lot_size_min_qty },
            market_lot_size_max_qty: match req.market_lot_size_max_qty { Some(v) => v, None => self.market_lot_size_max_qty },
            market_lot_size_step_size: match req.market_lot_size_step_size { Some(v) => v, None => self.market_lot_size_step_size },
            trailing_delta_min_trailing_above_delta: match req.trailing_delta_min_trailing_above_delta { Some(v) => v, None => self.trailing_delta_min_trailing_above_delta },
            trailing_delta_max_trailing_above_delta: match req.trailing_delta_max_trailing_above_delta { Some(v) => v, None => self.trailing_delta_max_trailing_above_delta },
            trailing_delta_min_trailing_below_delta: match req.trailing_delta_min_trailing_below_delta { Some(v) => v, None => self.trailing_delta_min_trailing_below_delta },
            trailing_delta_max_trailing_below_delta: match req.trailing_delta_max_trailing_below_delta { Some(v) => v, None => self.trailing_delta_max_trailing_below_delta },
            percent_price_by_side_bid_multiplier_up: match req.percent_price_by_side_bid_multiplier_up { Some(v) => v, None => self.percent_price_by_side_bid_multiplier_up },
            percent_price_by_side_bid_multiplier_down: match req.percent_price_by_side_bid_multiplier_down { Some(v) => v, None => self.percent_price_by_side_bid_multiplier_down },
            percent_price_by_side_ask_multiplier_up: match req.percent_price_by_side_ask_multiplier_up { Some(v) => v, None => self.percent_price_by_side_ask_multiplier_up },
            percent_price_by_side_ask_multiplier_down: match req.percent_price_by_side_ask_multiplier_down { Some(v) => v, None => self.percent_price_by_side_ask_multiplier_down },
            percent_price_by_side_avg_price_mins: match req.percent_price_by_side_avg_price_mins { Some(v) => v, None => self.percent_price_by_side_avg_price_mins },
            notional_min_notional: match req.notional_min_notional { Some(v) => v, None => self.notional_min_notional },
            notional_apply_min_to_market: match req.notional_apply_min_to_market { Some(v) => v, None => self.notional_apply_min_to_market },
            notional_max_notional: match req.notional_max_notional { Some(v) => v, None => self.notional_max_notional },
            notional_apply_max_to_market: match req.notional_apply_max_to_market { Some(v) => v, None => self.notional_apply_max_to_market },
            notional_avg_price_mins: match req.notional_avg_price_mins { Some(v) => v, None => self.notional_avg_price_mins },
            max_num_orders: match req.max_num_orders { Some(v) => v, None => self.max_num_orders },
            max_num_algo_orders: match req.max_num_algo_orders { Some(v) => v, None => self.max_num_algo_orders },
        }
    }

    pub fn selects(&self, req: &PairRequest) -> (res: bool)
        ensures
            res == spec_selects(*self, *req),
    {
        (match req.id { Some(v) => self.id == v, None => true })
        && (match req.base_asset_id { Some(v) => self.base_asset_id == v, None => true })
        && (match req.quote_asset_id { Some(v) => self.quote_asset_id == v, None => true })
        && (match &req.symbol { Some(v) => v.as_str().unicode_len() == 0 || text_is(&self.symbol, v), None => true })
    }

    pub fn lists(&self, req: &PairRequest) -> (res: bool)
        ensures
            res == spec_lists(*self, *req),
    {
        (match req.id { Some(v) => self.id == v, None => true })
        && (match req.base_asset_id { Some(v) => self.base_asset_id == v, None => true })
        && (match req.quote_asset_id { Some(v) => self.quote_asset_id == v, None => true })
        && (match &req.symbol { Some(v) => v.as_str().unicode_len() == 0 || text_is(&self.symbol, v), None => true })
    }

}

impl PairRequest {
    /// The request with no field set.
    pub fn blank() -> (res: Self)
        ensures
            res.id is None,
            res.base_asset_id is None,
            res.quote_asset_id is None,
            res.symbol is None,
            res.all_time_high_date is None,
            res.last_price is None,
            res.all_time_high_price is None,
            res.percent_from_all_time_high is None,
            res.fifteen_minutes_price_percent_change is None,
            res.thirty_minutes_price_percent_change is None,
            res.hour_price_percent_change is None,
            res.six_hours_price_percent_change is None,
            res.twelve_hours_price_percent_change is None,
            res.day_price_percent_change is None,
            res.week_price_percent_change is None,
            res.month_price_percent_change is None,
            res.year_price_percent_change is None,
            res.price_filter_min_price is None,
            res.price_filter_max_price is None,
            res.price_filter_tick_size is None,
            res.lot_size_min_qty is None,
            res.lot_size_max_qty is None,
            res.lot_size_step_size is None,
            res.market_lot_size_min_qty is None,
            res.market_lot_size_max_qty is None,
            res.market_lot_size_step_size is None,
            res.trailing_delta_min_trailing_above_delta is None,
            res.trailing_delta_max_trailing_above_delta is None,
            res.trailing_delta_min_trailing_below_delta is None,
            res.trailing_delta_max_trailing_below_delta is None,
            res.percent_price_by_side_bid_multiplier_up is None,
            res.percent_price_by_side_bid_multiplier_down is None,
            res.percent_price_by_side_ask_multiplier_up is None,
            res.percent_price_by_side_ask_multiplier_down is None,
            res.percent_price_by_side_avg_price_mins is None,
            res.notional_min_notional is None,
            res.notional_apply_min_to_market is None,
            res.notional_max_notional is None,
            res.notional_apply_max_to_market is None,
            res.notional_avg_price_mins is None,
            res.max_num_orders is None,
            res.max_num_algo_orders is None,
    {
        PairRequest { id: None, base_asset_id: None, quote_asset_id: None, symbol: None, all_time_high_date: None, last_price: None, all_time_high_price: None, percent_from_all_time_high: None, fifteen_minutes_price_percent_change: None, thirty_minutes_price_percent_change: None, hour_price_percent_change: None, six_hours_price_percent_change: None, twelve_hours_price_percent_change: None, day_price_percent_change: None, week_price_percent_change: None, month_price_percent_change: None, year_price_percent_change: None, price_filter_min_price: None, price_filter_max_price: None, price_filter_tick_size: None, lot_size_min_qty: None, lot_size_max_qty: None, lot_size_step_size: None, market_lot_size_min_qty: None, market_lot_size_max_qty: None, market_lot_size_step_size: None, trailing_delta_min_trailing_above_delta: None, trailing_delta_max_trailing_above_delta: None, trailing_delta_min_trailing_below_delta: None, trailing_delta_max_trailing_below_delta: None, percent_price_by_side_bid_multiplier_up: None, percent_price_by_side_bid_multiplier_down: None, percent_price_by_side_ask_multiplier_up: None, percent_price_by_side_ask_multiplier_down: None, percent_price_by_side_avg_price_mins: None, notional_min_notional: None, notional_apply_min_to_market: None, notional_max_notional: None, notional_apply_max_to_market: None, notional_avg_price_mins: None, max_num_orders: None, max_num_algo_orders: None }
    }

    pub fn duplicate(&self) -> (res: Self)
        ensures
            res == *self,
    {
        PairRequest {
            id: self.id,
            base_asset_id: self.base_asset_id,
            quote_asset_id: self.quote_asset_id,
            symbol: clone_text(&self.symbol),
            all_time_high_date: self.all_time_high_date,
            last_price: self.last_price,
            all_time_high_price: self.all_time_high_price,
            percent_from_all_time_high: self.percent_from_all_time_high,
            fifteen_minutes_price_percent_change: self.fifteen_minutes_price_percent_change,
            thirty_minutes_price_percent_change: self.thirty_minutes_price_percent_change,
            hour_price_percent_change: self.hour_price_percent_change,
            six_hours_price_percent_change: self.six_hours_price_percent_change,
            twelve_hours_price_percent_change: self.twelve_hours_price_percent_change,
            day_price_percent_change: self.day_price_percent_change,
            week_price_percent_change: self.week_price_percent_change,
            month_price_percent_change: self.month_price_percent_change,
            year_price_percent_change: self.year_price_percent_change,
            price_filter_min_price: self.price_filter_min_price,
            price_filter_max_price: self.price_filter_max_price,
            price_filter_tick_size: self.price_filter_tick_size,
            lot_size_min_qty: self.lot_size_min_qty,
            lot_size_max_qty: self.lot_size_max_qty,
            lot_size_step_size: self.lot_size_step_size,
            market_lot_size_min_qty: self.market_lot_size_min_qty,
            market_lot_size_max_qty: self.market_lot_size_max_qty,
            market_lot_size_step_size: self.market_lot_size_step_size,
            trailing_delta_min_trailing_above_delta: self.trailing_delta_min_trailing_above_delta,
            trailing_delta_max_trailing_above_delta: self.trailing_delta_max_trailing_above_delta,
            trailing_delta_min_trailing_below_delta: self.trailing_delta_min_trailing_below_delta,
            trailing_delta_max_trailing_below_delta: self.trailing_delta_max_trailing_below_delta,
            percent_price_by_side_bid_multiplier_up: self.percent_price_by_side_bid_multiplier_up,
            percent_price_by_side_bid_multiplier_down: self.percent_price_by_side_bid_multiplier_down,
            percent_price_by_side_ask_multiplier_up: self.percent_price_by_side_ask_multiplier_up,
            percent_price_by_side_ask_multiplier_down: self.percent_price_by_side_ask_multiplier_down,
            percent_price_by_side_avg_price_mins: self.percent_price_by_side_avg_price_mins,
            notional_min_notional: self.notional_min_notional,
            notional_apply_min_to_market: self.notional_apply_min_to_market,
            notional_max_notional: self.notional_max_notional,
            notional_apply_max_to_market: self.notional_apply_max_to_market,
            notional_avg_price_mins: self.notional_avg_price_mins,
            max_num_orders: self.max_num_orders,
            max_num_algo_orders: self.max_num_algo_orders,
        }
    }
}

/// Whether a lookup of the in-memory pairs table finds `m`: a record equal to the request in every field it sets among `id`, `base_asset_id`, `quote_asset_id`, `symbol`.
pub open spec fn spec_mock_finds(m: Pair, req: PairRequest) -> bool {
    &&& (match req.id { Some(v) => m.id == v, None => true })
    &&& (match req.base_asset_id { Some(v) => m.base_asset_id == v, None => true })
    &&& (match req.quote_asset_id { Some(v) => m.quote_asset_id == v, None => true })
    &&& (match req.symbol { Some(v) => m.symbol@ == v@, None => true })
}

/// Whether a listing of the in-memory pairs table keeps `m`: a record equal to the request in every field it sets among `id`, `base_asset_id`, `quote_asset_id`, `symbol`.
pub open spec fn spec_mock_lists(m: Pair, req: PairRequest) -> bool {
    &&& (match req.id { Some(v) => m.id == v, None => true })
    &&& (match req.base_asset_id { Some(v) => m.base_asset_id == v, None => true })
    &&& (match req.quote_asset_id { Some(v) => m.quote_asset_id == v, None => true })
    &&& (match req.symbol { Some(v) => m.symbol@ == v@, None => true })
}

/// A lookup of the in-memory table keeps only records that agree with it: a record it keeps has, in
/// each field it sets among `id`, `base_asset_id`, `quote_asset_id`, `symbol`, the value the request sets
/// (where an empty or non-positive value sets no condition). The blank
/// request keeps every record, and a kept record is still kept when a field
/// of the request is set to that record's own value.
pub proof fn lemma_mock_finds_filters(m: Pair, req: PairRequest)
    ensures
        spec_mock_finds(m, (PairRequest { id: None, base_asset_id: None, quote_asset_id: None, symbol: None, all_time_high_date: None, last_price: None, all_time_high_price: None, percent_from_all_time_high: None, fifteen_minutes_price_percent_change: None, thirty_minutes_price_percent_change: None, hour_price_percent_change: None, six_hours_price_percent_change: None, twelve_hours_price_percent_change: None, day_price_percent_change: None, week_price_percent_change: None, month_price_percent_change: None, year_price_percent_change: None, price_filter_min_price: None, price_filter_max_price: None, price_filter_tick_size: None, lot_size_min_qty: None, lot_size_max_qty: None, lot_size_step_size: None, market_lot_size_min_qty: None, market_lot_size_max_qty: None, market_lot_size_step_size: None, trailing_delta_min_trailing_above_delta: None, trailing_delta_max_trailing_above_delta: None, trailing_delta_min_trailing_below_delta: None, trailing_delta_max_trailing_below_delta: None, percent_price_by_side_bid_multiplier_up: None, percent_price_by_side_bid_multiplier_down: None, percent_price_by_side_ask_multiplier_up: None, percent_price_by_side_ask_multiplier_down: None, percent_price_by_side_avg_price_mins: None, notional_min_notional: None, notional_apply_min_to_market: None, notional_max_notional: None, notional_apply_max_to_market: None, notional_avg_price_mins: None, max_num_orders: None, max_num_algo_orders: None })),
        req.id matches Some(v) ==> (spec_mock_finds(m, req) ==> m.id == v),
        req.base_asset_id matches Some(v) ==> (spec_mock_finds(m, req) ==> m.base_asset_id == v),
        req.quote_asset_id matches Some(v) ==> (spec_mock_finds(m, req) ==> m.quote_asset_id == v),
        req.symbol matches Some(v) ==> (spec_mock_finds(m, req) ==> m.symbol@ == v@),
        spec_mock_finds(m, req) ==> spec_mock_finds(m, (PairRequest { id: Some(m.id), ..req })),
        spec_mock_finds(m, req) ==> spec_mock_finds(m, (PairRequest { base_asset_id: Some(m.base_asset_id), ..req })),
        spec_mock_finds(m, req) ==> spec_mock_finds(m, (PairRequest { quote_asset_id: Some(m.quote_asset_id), ..req })),
        spec_mock_finds(m, req) ==> spec_mock_finds(m, (PairRequest { symbol: Some(m.symbol), ..req })),
{
}

/// A listing of the in-memory table keeps only records that agree with it: a record it keeps has, in
/// each field it sets among `id`, `base_asset_id`, `quote_asset_id`, `symbol`, the value the request sets
/// (where an empty or non-positive value sets no condition). The blank
/// request keeps every record, and a kept record is still kept when a field
/// of the request is set to that record's own value.
pub proof fn lemma_mock_lists_filters(m: Pair, req: PairRequest)
    ensures
        spec_mock_lists(m, (PairRequest { id: None, base_asset_id: None, quote_asset_id: None, symbol: None, all_time_high_date: None, last_price: None, all_time_high_price: None, percent_from_all_time_high: None, fifteen_minutes_price_percent_change: None, thirty_minutes_price_percent_change: None, hour_price_percent_change: None, six_hours_price_percent_change: None, twelve_hours_price_percent_change: None, day_price_percent_change: None, week_price_percent_change: None, month_price_percent_change: None, year_price_percent_change: None, price_filter_min_price: None, price_filter_max_price: None, price_filter_tick_size: None, lot_size_min_qty: None, lot_size_max_qty: None, lot_size_step_size: None, market_lot_size_min_qty: None, market_lot_size_max_qty: None, market_lot_size_step_size: None, trailing_delta_min_trailing_above_delta: None, trailing_delta_max_trailing_above_delta: None, trailing_delta_min_trailing_below_delta: None, trailing_delta_max_trailing_below_delta: None, percent_price_by_side_bid_multiplier_up: None, percent_price_by_side_bid_multiplier_down: None, percent_price_by_side_ask_multiplier_up: None, percent_price_by_side_ask_multiplier_down: None, percent_price_by_side_avg_price_mins: None, notional_min_notional: None, notional_apply_min_to_market: None, notional_max_notional: None, notional_apply_max_to_market: None, notional_avg_price_mins: None, max_num_orders: None, max_num_algo_orders: None })),
        req.id matches Some(v) ==> (spec_mock_lists(m, req) ==> m.id == v),
        req.base_asset_id matches Some(v) ==> (spec_mock_lists(m, req) ==> m.base_asset_id == v),
        req.quote_asset_id matches Some(v) ==> (spec_mock_lists(m, req) ==> m.quote_asset_id == v),
        req.symbol matches Some(v) ==> (spec_mock_lists(m, req) ==> m.symbol@ == v@),
        spec_mock_lists(m, req) ==> spec_mock_lists(m, (PairRequest { id: Some(m.id), ..req })),
        spec_mock_lists(m, req) ==> spec_mock_lists(m, (PairRequest { base_asset_id: Some(m.base_asset_id), ..req })),
        spec_mock_lists(m, req) ==> spec_mock_lists(m, (PairRequest { quote_asset_id: Some(m.quote_asset_id), ..req })),
        spec_mock_lists(m, req) ==> spec_mock_lists(m, (PairRequest { symbol: Some(m.symbol), ..req })),
{
}

/// `m` after an update of the in-memory pairs table at time `now`: the request replaces `base_asset_id`, `quote_asset_id`, `symbol`, `last_price`, `all_time_high_price`, `all_time_high_date`, `percent_from_all_time_high`, `day_price_percent_change`, `week_price_percent_change`, `month_price_percent_change`, `year_price_percent_change` where it sets them, and `update_date` becomes `now`.
pub open spec fn spec_mock_update(m: Pair, req: PairRequest, now: i64) -> Pair {
    Pair {
        id: m.id,
        base_asset_id: match req.base_asset_id { Some(v) => v, None => m.base_asset_id },
        quote_asset_id: match req.quote_asset_id { Some(v) => v, None => m.quote_asset_id },
        symbol: match req.symbol { Some(v) => v, None => m.symbol },
        update_date: now,
        all_time_high_date: match req.all_time_high_date { Some(v) => v, None => m.all_time_high_date },
        last_price: match req.last_price { Some(v) => v, None => m.last_price },
        all_time_high_price: match req.all_time_high_price { Some(v) => v, None => m.all_time_high_price },
        percent_from_all_time_high: match req.percent_from_all_time_high { Some(v) => v, None => m.percent_from_all_time_high },
        fifteen_minutes_price_percent_change: m.fifteen_minutes_price_percent_change,
        thirty_minutes_price_percent_change: m.thirty_minutes_price_percent_change,
        hour_price_percent_change: m.hour_price_percent_change,
        six_hours_price_percent_change: m.six_hours_price_percent_change,
        twelve_hours_price_percent_change: m.twelve_hours_price_percent_change,
        day_price_percent_change: match req.day_price_percent_change { Some(v) => v, None => m.day_price_percent_change },
        week_price_percent_change: match req.week_price_percent_change { Some(v) => v, None => m.week_price_percent_change },
        month_price_percent_change: match req.month_price_percent_change { Some(v) => v, None => m.month_price_percent_change },
        year_price_percent_change: match req.year_price_percent_change { Some(v) => v, None => m.year_price_percent_change },
        price_filter_min_price: m.price_filter_min_price,
        price_filter_max_price: m.price_filter_max_price,
        price_filter_tick_size: m.price_filter_tick_size,
        lot_size_min_qty: m.lot_size_min_qty,
        lot_size_max_qty: m.lot_size_max_qty,
        lot_size_step_size: m.lot_size_step_size,
        market_lot_size_min_qty: m.market_lot_size_min_qty,
        market_lot_size_max_qty: m.market_lot_size_max_qty,
        market_lot_size_step_size: m.market_lot_size_step_size,
        trailing_delta_min_trailing_above_delta: m.trailing_delta_min_trailing_above_delta,
        trailing_delta_max_trailing_above_delta: m.trailing_delta_max_trailing_above_delta,
        trailing_delta_min_trailing_below_delta: m.trailing_delta_min_trailing_below_delta,
        trailing_delta_max_trailing_below_delta: m.trailing_delta_max_trailing_below_delta,
        percent_price_by_side_bid_multiplier_up: m.percent_price_by_side_bid_multiplier_up,
        percent_price_by_side_bid_multiplier_down: m.percent_price_by_side_bid_multiplier_down,
        percent_price_by_side_ask_multiplier_up: m.percent_price_by_side_ask_multiplier_up,
        percent_price_by_side_ask_multiplier_down: m.percent_price_by_side_ask_multiplier_down,
        percent_price_by_side_avg_price_mins: m.percent_price_by_side_avg_price_mins,
        notional_min_notional: m.notional_min_notional,
        notional_apply_min_to_market: m.notional_apply_min_to_market,
        notional_max_notional: m.notional_max_notional,
        notional_apply_max_to_market: m.notional_apply_max_to_market,
        notional_avg_price_mins: m.notional_avg_price_mins,
        max_num_orders: m.max_num_orders,
        max_num_algo_orders: m.max_num_algo_orders,
    }
}

/// An update of the in-memory table: each field the request sets among those it may change takes the
/// request's value, an unset one keeps the record's, the other fields stay as
/// they are (the update time becomes `now`), and doing it twice is doing it once.
pub proof fn lemma_mock_update_fields(m: Pair, req: PairRequest, now: i64)
    ensures
        spec_mock_update(m, req, now).id == m.id,
        req.base_asset_id matches Some(v) ==> spec_mock_update(m, req, now).base_asset_id == v,
        req.base_asset_id is None ==> spec_mock_update(m, req, now).base_asset_id == m.base_asset_id,
        req.quote_asset_id matches Some(v) ==> spec_mock_update(m, req, now).quote_asset_id == v,
        req.quote_asset_id is None ==> spec_mock_update(m, req, now).quote_asset_id == m.quote_asset_id,
        req.symbol matches Some(v) ==> spec_mock_update(m, req, now).symbol == v,
        req.symbol is None ==> spec_mock_update(m, req, now).symbol == m.symbol,
        spec_mock_update(m, req, now).update_date == now,
        req.all_time_high_date matches Some(v) ==> spec_mock_update(m, req, now).all_time_high_date == v,
        req.all_time_high_date is None ==> spec_mock_update(m, req, now).all_time_high_date == m.all_time_high_date,
        req.last_price matches Some(v) ==> spec_mock_update(m, req, now).last_price == v,
        req.last_price is None ==> spec_mock_update(m, req, now).last_price == m.last_price,
        req.all_time_high_price matches Some(v) ==> spec_mock_update(m, req, now).all_time_high_price == v,
        req.all_time_high_price is None ==> spec_mock_update(m, req, now).all_time_high_price == m.all_time_high_price,
        req.percent_from_all_time_high matches Some(v) ==> spec_mock_update(m, req, now).percent_from_all_time_high == v,
        req.percent_from_all_time_high is None ==> spec_mock_update(m, req, now).percent_from_all_time_high == m.percent_from_all_time_high,
        spec_mock_update(m, req, now).fifteen_minutes_price_percent_change == m.fifteen_minutes_price_percent_change,
        spec_mock_update(m, req, now).thirty_minutes_price_percent_change == m.thirty_minutes_price_percent_change,
        spec_mock_update(m, req, now).hour_price_percent_change == m.hour_price_percent_change,
        spec_mock_update(m, req, now).six_hours_price_percent_change == m.six_hours_price_percent_change,
        spec_mock_update(m, req, now).twelve_hours_price_percent_change == m.twelve_hours_price_percent_change,
        req.day_price_percent_change matches Some(v) ==> spec_mock_update(m, req, now).day_price_percent_change == v,
        req.day_price_percent_change is None ==> spec_mock_update(m, req, now).day_price_percent_change == m.day_price_percent_change,
        req.week_price_percent_change matches Some(v) ==> spec_mock_update(m, req, now).week_price_percent_change == v,
        req.week_price_percent_change is None ==> spec_mock_update(m, req, now).week_price_percent_change == m.week_price_percent_change,
        req.month_price_percent_change matches Some(v) ==> spec_mock_update(m, req, now).month_price_percent_change == v,
        req.month_price_percent_change is None ==> spec_mock_update(m, req, now).month_price_percent_change == m.month_price_percent_change,
        req.year_price_percent_change matches Some(v) ==> spec_mock_update(m, req, now).year_price_percent_change == v,
        req.year_price_percent_change is None ==> spec_mock_update(m, req, now).year_price_percent_change == m.year_price_percent_change,
        spec_mock_update(m, req, now).price_filter_min_price == m.price_filter_min_price,
        spec_mock_update(m, req, now).price_filter_max_price == m.price_filter_max_price,
        spec_mock_update(m, req, now).price_filter_tick_size == m.price_filter_tick_size,
        spec_mock_update(m, req, now).lot_size_min_qty == m.lot_size_min_qty,
        spec_mock_update(m, req, now).lot_size_max_qty == m.lot_size_max_qty,
        spec_mock_update(m, req, now).lot_size_step_size == m.lot_size_step_size,
        spec_mock_update(m, req, now).market_lot_size_min_qty == m.market_lot_size_min_qty,
        spec_mock_update(m, req, now).market_lot_size_max_qty == m.market_lot_size_max_qty,
        spec_mock_update(m, req, now).market_lot_size_step_size == m.market_lot_size_step_size,
        spec_mock_update(m, req, now).trailing_delta_min_trailing_above_delta == m.trailing_delta_min_trailing_above_delta,
        spec_mock_update(m, req, now).trailing_delta_max_trailing_above_delta == m.trailing_delta_max_trailing_above_delta,
        spec_mock_update(m, req, now).trailing_delta_min_trailing_below_delta == m.trailing_delta_min_trailing_below_delta,
        spec_mock_update(m, req, now).trailing_delta_max_trailing_below_delta == m.trailing_delta_max_trailing_below_delta,
        spec_mock_update(m, req, now).percent_price_by_side_bid_multiplier_up == m.percent_price_by_side_bid_multiplier_up,
        spec_mock_update(m, req, now).percent_price_by_side_bid_multiplier_down == m.percent_price_by_side_bid_multiplier_down,
        spec_mock_update(m, req, now).percent_price_by_side_ask_multiplier_up == m.percent_price_by_side_ask_multiplier_up,
        spec_mock_update(m, req, now).percent_price_by_side_ask_multiplier_down == m.percent_price_by_side_ask_multiplier_down,
        spec_mock_update(m, req, now).percent_price_by_side_avg_price_mins == m.percent_price_by_side_avg_price_mins,
        spec_mock_update(m, req, now).notional_min_notional == m.notional_min_notional,
        spec_mock_update(m, req, now).notional_apply_min_to_market == m.notional_apply_min_to_market,
        spec_mock_update(m, req, now).notional_max_notional == m.notional_max_notional,
        spec_mock_update(m, req, now).notional_apply_max_to_market == m.notional_apply_max_to_market,
        spec_mock_update(m, req, now).notional_avg_price_mins == m.notional_avg_price_mins,
        spec_mock_update(m, req, now).max_num_orders == m.max_num_orders,
        spec_mock_update(m, req, now).max_num_algo_orders == m.max_num_algo_orders,
        spec_mock_update(spec_mock_update(m, req, now), req, now) == spec_mock_update(m, req, now),
{
}

impl Pair {
    pub fn mock_finds(&self, req: &PairRequest) -> (res: bool)
        ensures
            res == spec_mock_finds(*self, *req),
    {
        (match req.id { Some(v) => self.id == v, None => true })
        && (match req.base_asset_id { Some(v) => self.base_asset_id == v, None => true })
        && (match req.quote_asset_id { Some(v) => self.quote_asset_id == v, None => true })
        && (match &req.symbol { Some(v) => text_is(&self.symbol, v), None => true })
    }

    pub fn mock_lists(&self, req: &PairRequest) -> (res: bool)
        ensures
            res == spec_mock_lists(*self, *req),
    {
        (match req.id { Some(v) => self.id == v, None => true })
        && (match req.base_asset_id { Some(v) => self.base_asset_id == v, None => true })
        && (match req.quote_asset_id { Some(v) => self.quote_asset_id == v, None => true })
        && (match &req.symbol { Some(v) => text_is(&self.symbol, v), None => true })
    }

    pub fn mock_update(&self, req: &PairRequest, now: i64) -> (res: Self)
        ensures
            res == spec_mock_update(*self, *req, now),
    {
        Pair {
            id: self.id,
            base_asset_id: match req.base_asset_id { Some(v) => v, None => self.base_asset_id },
            quote_asset_id: match req.quote_asset_id { Some(v) => v, None => self.quote_asset_id },
            symbol: match &req.symbol { Some(v) => v.clone(), None => self.symbol.clone() },
            update_date: now,
            all_time_high_date: match req.all_time_high_date { Some(v) => v, None => self.all_time_high_date },
            last_price: match req.last_price { Some(v) => v, None => self.last_price },
            all_time_high_price: match req.all_time_high_price { Some(v) => v, None => self.all_time_high_price },
            percent_from_all_time_high: match req.percent_from_all_time_high { Some(v) => v, None => self.percent_from_all_time_high },
            fifteen_minutes_price_percent_change: self.fifteen_minutes_price_percent_change,
            thirty_minutes_price_percent_change: self.thirty_minutes_price_percent_change,
            hour_price_percent_change: self.hour_price_percent_change,
            six_hours_price_percent_change: self.six_hours_price_percent_change,
            twelve_hours_price_percent_change: self.twelve_hours_price_percent_change,
            day_price_percent_change: match req.day_price_percent_change { Some(v) => v, None => self.day_price_percent_change },
            week_price_percent_change: match req.week_price_percent_change { Some(v) => v, None => self.week_price_percent_change },
            month_price_percent_change: match req.month_price_percent_change { Some(v) => v, None => self.month_price_percent_change },
            year_price_percent_change: match req.year_price_percent_change { Some(v) => v, None => self.year_price_percent_change },
            price_filter_min_price: self.price_filter_min_price,
            price_filter_max_price: self.price_filter_max_price,
            price_filter_tick_size: self.price_filter_tick_size,
            lot_size_min_qty: self.lot_size_min_qty,
            lot_size_max_qty: self.lot_size_max_qty,
            lot_size_step_size: self.lot_size_step_size,
            market_lot_size_min_qty: self.market_lot_size_min_qty,
            market_lot_size_max_qty: self.market_lot_size_max_qty,
            market_lot_size_step_size: self.market_lot_size_step_size,
            trailing_delta_min_trailing_above_delta: self.trailing_delta_min_trailing_above_delta,
            trailing_delta_max_trailing_above_delta: self.trailing_delta_max_trailing_above_delta,
            trailing_delta_min_trailing_below_delta: self.trailing_delta_min_trailing_below_delta,
            trailing_delta_max_trailing_below_delta: self.trailing_delta_max_trailing_below_delta,
            percent_price_by_side_bid_multiplier_up: self.percent_price_by_side_bid_multiplier_up,
            percent_price_by_side_bid_multiplier_down: self.percent_price_by_side_bid_multiplier_down,
            percent_price_by_side_ask_multiplier_up: self.percent_price_by_side_ask_multiplier_up,
            percent_price_by_side_ask_multiplier_down: self.percent_price_by_side_ask_multiplier_down,
            percent_price_by_side_avg_price_mins: self.percent_price_by_side_avg_price_mins,
            notional_min_notional: self.notional_min_notional,
            notional_apply_min_to_market: self.notional_apply_min_to_market,
            notional_max_notional: self.notional_max_notional,
            notional_apply_max_to_market: self.notional_apply_max_to_market,
            notional_avg_price_mins: self.notional_avg_price_mins,
            max_num_orders: self.max_num_orders,
            max_num_algo_orders: self.max_num_algo_orders,
        }
    }
}

/// Whether `r` is the record the in-memory pairs table creates for an insert
/// request when it holds `len` records, at time `now`: its id is the request's id, else one more than the number of records;
/// the other fields as the rules of this table say.
pub open spec fn spec_mock_created(r: Pair, req: PairRequest, len: nat, now: i64) -> bool {
    &&& r.id == (match req.id { Some(v) => v, None => (len + 1) as i32 })
    &&& r.base_asset_id == (match req.base_asset_id { Some(v) => v, None => 0i32 })
    &&& r.quote_asset_id == (match req.quote_asset_id { Some(v) => v, None => 0i32 })
    &&& r.symbol@ == (match req.symbol { Some(v) => v@, None => Seq::<char>::empty() })
    &&& r.update_date == now
    &&& r.all_time_high_date == (match req.all_time_high_date { Some(v) => v, None => 0i64 })
    &&& r.last_price == (match req.last_price { Some(v) => v, None => Amount::spec_zero() })
    &&& r.all_time_high_price == (match req.all_time_high_price { Some(v) => v, None => Amount::spec_zero() })
    &&& r.percent_from_all_time_high == (match req.percent_from_all_time_high { Some(v) => v, None => Amount::spec_zero() })
    &&& r.fifteen_minutes_price_percent_change == Amount::spec_zero()
    &&& r.thirty_minutes_price_percent_change == Amount::spec_zero()
    &&& r.hour_price_percent_change == Amount::spec_zero()
    &&& r.six_hours_price_percent_change == Amount::spec_zero()
    &&& r.twelve_hours_price_percent_change == Amount::spec_zero()
    &&& r.day_price_percent_change == (match req.day_price_percent_change { Some(v) => v, None => Amount::spec_zero() })
    &&& r.week_price_percent_change == (match req.week_price_percent_change { Some(v) => v, None => Amount::spec_zero() })
    &&& r.month_price_percent_change == (match req.month_price_percent_change { Some(v) => v, None => Amount::spec_zero() })
    &&& r.year_price_percent_change == (match req.year_price_percent_change { Some(v) => v, None => Amount::spec_zero() })
    &&& r.price_filter_min_price == Amount::spec_zero()
    &&& r.price_filter_max_price == Amount::spec_zero()
    &&& r.price_filter_tick_size == Amount::spec_zero()
    &&& r.lot_size_min_qty == Amount::spec_zero()
    &&& r.lot_size_max_qty == Amount::spec_zero()
    &&& r.lot_size_step_size == Amount::spec_zero()
    &&& r.market_lot_size_min_qty == Amount::spec_zero()
    &&& r.market_lot_size_max_qty == Amount::spec_zero()
    &&& r.market_lot_size_step_size == Amount::spec_zero()
    &&& r.trailing_delta_min_trailing_above_delta == 0i32
    &&& r.trailing_delta_max_trailing_above_delta == 0i32
    &&& r.trailing_delta_min_trailing_below_delta == 0i32
    &&& r.trailing_delta_max_trailing_below_delta == 0i32
    &&& r.percent_price_by_side_bid_multiplier_up == Amount::spec_zero()
    &&& r.percent_price_by_side_bid_multiplier_down == Amount::spec_zero()
    &&& r.percent_price_by_side_ask_multiplier_up == Amount::spec_zero()
    &&& r.percent_price_by_side_ask_multiplier_down == Amount::spec_zero()
    &&& r.percent_price_by_side_avg_price_mins == 0i32
    &&& r.notional_min_notional == Amount::spec_zero()
    &&& r.notional_apply_min_to_market == false
    &&& r.notional_max_notional == Amount::spec_zero()
    &&& r.notional_apply_max_to_market == false
    &&& r.notional_avg_price_mins == 0i32
    &&& r.max_num_orders == 0i32
    &&& r.max_num_algo_orders == 0i32
}

/// A record the in-memory table creates has the id its rule gives (the request's id, else one more than the number of records)
/// and each other field as the table's rules say: the request's value where it
/// sets one, else the default.
pub proof fn lemma_mock_created_fields(r: Pair, req: PairRequest, len: nat, now: i64)
    requires
        len < 2147483647,
        spec_mock_created(r, req, len, now),
    ensures
        req.id matches Some(v) ==> r.id == v,
        req.id is None ==> r.id == len + 1,
        req.base_asset_id matches Some(v) ==> r.base_asset_id == v,
        req.base_asset_id is None ==> r.base_asset_id == 0i32,
        req.quote_asset_id matches Some(v) ==> r.quote_asset_id == v,
        req.quote_asset_id is None ==> r.quote_asset_id == 0i32,
        req.symbol matches Some(v) ==> r.symbol@ == v@,
        req.symbol is None ==> r.symbol@ == Seq::<char>::empty(),
        r.update_date == now,
        req.all_time_high_date matches Some(v) ==> r.all_time_high_date == v,
        req.all_time_high_date is None ==> r.all_time_high_date == 0i64,
        req.last_price matches Some(v) ==> r.last_price == v,
        req.last_price is None ==> r.last_price == Amount::spec_zero(),
        req.all_time_high_price matches Some(v) ==> r.all_time_high_price == v,
        req.all_time_high_price is None ==> r.all_time_high_price == Amount::spec_zero(),
        req.percent_from_all_time_high matches Some(v) ==> r.percent_from_all_time_high == v,
        req.percent_from_all_time_high is None ==> r.percent_from_all_time_high == Amount::spec_zero(),
        r.fifteen_minutes_price_percent_change == Amount::spec_zero(),
        r.thirty_minutes_price_percent_change == Amount::spec_zero(),
        r.hour_price_percent_change == Amount::spec_zero(),
        r.six_hours_price_percent_change == Amount::spec_zero(),
        r.twelve_hours_price_percent_change == Amount::spec_zero(),
        req.day_price_percent_change matches Some(v) ==> r.day_price_percent_change == v,
        req.day_price_percent_change is None ==> r.day_price_percent_change == Amount::spec_zero(),
        req.week_price_percent_change matches Some(v) ==> r.week_price_percent_change == v,
        req.week_price_percent_change is None ==> r.week_price_percent_change == Amount::spec_zero(),
        req.month_price_percent_change matches Some(v) ==> r.month_price_percent_change == v,
        req.month_price_percent_change is None ==> r.month_price_percent_change == Amount::spec_zero(),
        req.year_price_percent_change matches Some(v) ==> r.year_price_percent_change == v,
        req.year_price_percent_change is None ==> r.year_price_percent_change == Amount::spec_zero(),
        r.price_filter_min_price == Amount::spec_zero(),
        r.price_filter_max_price == Amount::spec_zero(),
        r.price_filter_tick_size == Amount::spec_zero(),
        r.lot_size_min_qty == Amount::spec_zero(),
        r.lot_size_max_qty == Amount::spec_zero(),
        r.lot_size_step_size == Amount::spec_zero(),
        r.market_lot_size_min_qty == Amount::spec_zero(),
        r.market_lot_size_max_qty == Amount::spec_zero(),
        r.market_lot_size_step_size == Amount::spec_zero(),
        r.trailing_delta_min_trailing_above_delta == 0i32,
        r.trailing_delta_max_trailing_above_delta == 0i32,
        r.trailing_delta_min_trailing_below_delta == 0i32,
        r.trailing_delta_max_trailing_below_delta == 0i32,
        r.percent_price_by_side_bid_multiplier_up == Amount::spec_zero(),
        r.percent_price_by_side_bid_multiplier_down == Amount::spec_zero(),
        r.percent_price_by_side_ask_multiplier_up == Amount::spec_zero(),
        r.percent_price_by_side_ask_multiplier_down == Amount::spec_zero(),
        r.percent_price_by_side_avg_price_mins == 0i32,
        r.notional_min_notional == Amount::spec_zero(),
        r.notional_apply_min_to_market == false,
        r.notional_max_notional == Amount::spec_zero(),
        r.notional_apply_max_to_market == false,
        r.notional_avg_price_mins == 0i32,
        r.max_num_orders == 0i32,
        r.max_num_algo_orders == 0i32,
{
}

impl Pair {
    pub fn mock_created(req: &PairRequest, len: usize, now: i64) -> (res: Self)
        requires
            len < 2147483647,
        ensures
            spec_mock_created(res, *req, len as nat, now),
    {
        Pair {
            id: match req.id { Some(v) => v, None => (len as i32) + 1 },
            base_asset_id: match req.base_asset_id { Some(v) => v, None => 0i32 },
            quote_asset_id: match req.quote_asset_id { Some(v) => v, None => 0i32 },
            symbol: match &req.symbol { Some(v) => v.clone(), None => empty_text() },
            update_date: now,
            all_time_high_date: match req.all_time_high_date { Some(v) => v, None => 0i64 },
            last_price: match req.last_price { Some(v) => v, None => Amount::zero() },
            all_time_high_price: match req.all_time_high_price { Some(v) => v, None => Amount::zero() },
            percent_from_all_time_high: match req.percent_from_all_time_high { Some(v) => v, None => Amount::zero() },
            fifteen_minutes_price_percent_change: Amount::zero(),
            thirty_minutes_price_percent_change: Amount::zero(),
            hour_price_percent_change: Amount::zero(),
            six_hours_price_percent_change: Amount::zero(),
            twelve_hours_price_percent_change: Amount::zero(),
            day_price_percent_change: match req.day_price_percent_change { Some(v) => v, None => Amount::zero() },
            week_price_percent_change: match req.week_price_percent_change { Some(v) => v, None => Amount::zero() },
            month_price_percent_change: match req.month_price_percent_change { Some(v) => v, None => Amount::zero() },
            year_price_percent_change: match req.year_price_percent_change { Some(v) => v, None => Amount::zero() },
            price_filter_min_price: Amount::zero(),
            price_filter_max_price: Amount::zero(),
            price_filter_tick_size: Amount::zero(),
            lot_size_min_qty: Amount::zero(),
            lot_size_max_qty: Amount::zero(),
            lot_size_step_size: Amount::zero(),
            market_lot_size_min_qty: Amount::zero(),
            market_lot_size_max_qty: Amount::zero(),
            market_lot_size_step_size: Amount::zero(),
            trailing_delta_min_trailing_above_delta: 0i32,
            trailing_delta_max_trailing_above_delta: 0i32,
            trailing_delta_min_trailing_below_delta: 0i32,
            trailing_delta_max_trailing_below_delta: 0i32,
            percent_price_by_side_bid_multiplier_up: Amount::zero(),
            percent_price_by_side_bid_multiplier_down: Amount::zero(),
            percent_price_by_side_ask_multiplier_up: Amount::zero(),
            percent_price_by_side_ask_multiplier_down: Amount::zero(),
            percent_price_by_side_avg_price_mins: 0i32,
            notional_min_notional: Amount::zero(),
            notional_apply_min_to_market: false,
            notional_max_notional: Amount::zero(),
            notional_apply_max_to_market: false,
            notional_avg_price_mins: 0i32,
            max_num_orders: 0i32,
            max_num_algo_orders: 0i32,
        }
    }
}

impl Record for Pair {
    type Request = PairRequest;

    open spec fn key(&self) -> i32 {
        self.id
    }

    open spec fn request_key(req: &PairRequest) -> Option<i32> {
        req.id
    }

    open spec fn spec_finds(&self, req: &PairRequest) -> bool {
        spec_mock_finds(*self, *req)
    }

    open spec fn spec_created(&self, req: &PairRequest, len: nat, now: i64) -> bool {
        spec_mock_created(*self, *req, len, now)
    }

    open spec fn spec_matches(&self, req: &PairRequest) -> bool {
        spec_mock_lists(*self, *req)
    }

    open spec fn spec_patched(&self, req: &PairRequest, now: i64) -> Self {
        spec_mock_update(*self, *req, now)
    }

    open spec fn paging() -> Paging {
        Paging::OffsetThenLimit
    }

    open spec fn spec_missing_id_message() -> Seq<char> {
        "Invalid mock update id"@
    }

    fn record_id(&self) -> (id: i32) {
        self.id
    }

    fn request_id(req: &PairRequest) -> (id: Option<i32>) {
        req.id
    }

    fn finds(&self, req: &PairRequest) -> (b: bool) {
        self.mock_finds(req)
    }

    fn created(req: &PairRequest, len: usize, now: i64) -> (r: Self) {
        Pair::mock_created(req, len, now)
    }

    fn matches(&self, req: &PairRequest) -> (b: bool) {
        self.mock_lists(req)
    }

    fn patched(&self, req: &PairRequest, now: i64) -> (r: Self) {
        self.mock_update(req, now)
    }

    fn listing_paging() -> (p: Paging) {
        Paging::OffsetThenLimit
    }

    fn missing_id_message() -> (m: String) {
        String::from_str("Invalid mock update id")
    }

    fn duplicate(&self) -> (r: Self) {
        Pair::duplicate(self)
    }

    proof fn lemma_patch_keeps_key(&self, req: &PairRequest, now: i64) {
    }
}


/// The id an update of the pairs table writes to: the request's; a request
/// without an id is refused (404, "Invalid pair id").
pub fn update_id(req: &PairRequest) -> (res: Result<i32, crate::response::Response>)
    ensures
        match req.id {
            Some(id) => res == Ok::<i32, crate::response::Response>(id),
            None => res matches Err(r) && r.code == 404 && r.message@ == "Invalid pair id"@,
        },
{
    match req.id {
        Some(id) => Ok(id),
        None => Err(crate::response::Response::not_found(String::from_str("Invalid pair id"))),
    }
}

} // verus!
