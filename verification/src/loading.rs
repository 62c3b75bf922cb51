use vstd::prelude::*;

use crate::entities::actions::Action;
use crate::entities::indicators::Indicator;
use crate::entities::integration_settings::{IntegrationSetting, IntegrationSettingRequest};
use crate::overview::{first_match, lemma_first_match_end, lemma_first_match_found, lemma_first_match_none, lemma_first_match_step};
use crate::entities::strategies::Strategy;
use crate::entities::tasks::Task;
use crate::overview::CacheStrategy;
use crate::states::TradingState;

verus! {

/// Where a background task is between two runs.
#[derive(Debug, Clone, Copy, PartialEq, Eq, Structural)]
pub enum TaskState {
    Sleeping,
    Running,
}

/// A task as the task cache holds it.
pub struct CacheTask {
    pub model: Task,
    pub state: TaskState,
}

/// The active strategies of `s`, in order, each `Ready` to be evaluated.
pub open spec fn spec_active_strategies(s: Seq<Strategy>) -> Seq<CacheStrategy>
    decreases s.len(),
{
    if s.len() == 0 {
        Seq::empty()
    } else {
        let rest = spec_active_strategies(s.drop_last());
        if s.last().is_active {
            rest.push(CacheStrategy { model: s.last(), state: TradingState::Ready })
        } else {
            rest
        }
    }
}

/// The strategy cache holds exactly the active strategies: each cached entry is
/// an active loaded strategy, `Ready`, and every active loaded strategy is cached.
pub proof fn lemma_active_strategies_kept(s: Seq<Strategy>)
    ensures
        forall|k: int| 0 <= k < spec_active_strategies(s).len() ==> spec_active_strategies(s)[k].model.is_active && spec_active_strategies(s)[k].state == TradingState::Ready && s.contains(spec_active_strategies(s)[k].model),
        forall|i: int| 0 <= i < s.len() && s[i].is_active ==> spec_active_strategies(s).contains(CacheStrategy { model: s[i], state: TradingState::Ready }),
        spec_active_strategies(s).len() <= s.len(),
    decreases s.len(),
{
    if s.len() > 0 {
        let t = s.drop_last();
        lemma_active_strategies_kept(t);
        let r = spec_active_strategies(t);
        assert forall|k: int| 0 <= k < spec_active_strategies(s).len() implies spec_active_strategies(s)[k].model.is_active && spec_active_strategies(s)[k].state == TradingState::Ready && s.contains(spec_active_strategies(s)[k].model) by {
            if k < r.len() {
                assert(spec_active_strategies(s)[k] == r[k]);
                let j = choose|j: int| 0 <= j < t.len() && t[j] == r[k].model;
                assert(s[j] == t[j]);
            } else {
                assert(s[s.len() - 1] == s.last());
            }
        }
        assert forall|i: int| 0 <= i < s.len() && s[i].is_active implies spec_active_strategies(s).contains(CacheStrategy { model: s[i], state: TradingState::Ready }) by {
            if i < s.len() - 1 {
                assert(t[i] == s[i]);
                let j = choose|j: int| 0 <= j < r.len() && r[j] == CacheStrategy { model: t[i], state: TradingState::Ready };
                assert(spec_active_strategies(s)[j] == r[j]);
            } else {
                assert(spec_active_strategies(s)[spec_active_strategies(s).len() - 1] == CacheStrategy { model: s.last(), state: TradingState::Ready });
            }
        }
    }
}

/// What the strategy cache holds once started: the active strategies loaded
/// from the database, each `Ready`.
pub fn active_strategies(models: &Vec<Strategy>) -> (res: Vec<CacheStrategy>)
    ensures
        res@ == spec_active_strategies(models@),
{
    let mut res: Vec<CacheStrategy> = Vec::new();
    let mut i: usize = 0;
    while i < models.len()
        invariant
            i <= models@.len(),
            res@ == spec_active_strategies(models@.take(i as int)),
        decreases models@.len() - i,
    {
        assert(models@.take(i + 1).drop_last() =~= models@.take(i as int));
        if models[i].is_active {
            res.push(CacheStrategy { model: models[i].duplicate(), state: TradingState::Ready });
        }
        i = i + 1;
    }
    assert(models@.take(models@.len() as int) =~= models@);
    res
}

/// The ids of `s`, in order.
pub open spec fn spec_strategy_ids(s: Seq<Strategy>) -> Seq<i32> {
    s.map_values(|m: Strategy| m.id)
}

/// The ids are those of the strategies, one per strategy, in order.
pub proof fn lemma_strategy_ids_in_order(s: Seq<Strategy>)
    ensures
        spec_strategy_ids(s).len() == s.len(),
        forall|i: int| 0 <= i < s.len() ==> spec_strategy_ids(s)[i] == s[i].id,
{
}

pub fn strategy_ids(models: &Vec<Strategy>) -> (res: Vec<i32>)
    ensures
        res@ == spec_strategy_ids(models@),
{
    let mut res: Vec<i32> = Vec::new();
    let mut i: usize = 0;
    while i < models.len()
        invariant
            i <= models@.len(),
            res@ =~= spec_strategy_ids(models@.take(i as int)),
        decreases models@.len() - i,
    {
        res.push(models[i].id);
        i = i + 1;
        assert(spec_strategy_ids(models@.take(i as int)) =~= spec_strategy_ids(
            models@.take(i - 1),
        ).push(models@[i - 1].id));
    }
    assert(models@.take(models@.len() as int) =~= models@);
    res
}

pub fn contains_id(ids: &Vec<i32>, id: i32) -> (res: bool)
    ensures
        res == ids@.contains(id),
{
    let mut i: usize = 0;
    while i < ids.len()
        invariant
            i <= ids@.len(),
            forall|j: int| 0 <= j < i ==> ids@[j] != id,
        decreases ids@.len() - i,
    {
        if ids[i] == id {
            assert(ids@[i as int] == id);
            return true;
        }
        i = i + 1;
    }
    false
}

/// The actions of `s` that belong to one of the strategies `ids`, in order.
pub open spec fn spec_actions_of(s: Seq<Action>, ids: Seq<i32>) -> Seq<Action>
    decreases s.len(),
{
    if s.len() == 0 {
        Seq::empty()
    } else {
        let rest = spec_actions_of(s.drop_last(), ids);
        if ids.contains(s.last().strategy_id) {
            rest.push(s.last())
        } else {
            rest
        }
    }
}

/// The action cache holds exactly the actions of the given strategies: each
/// kept action is a loaded one whose strategy is among them, and every such
/// loaded action is kept.
pub proof fn lemma_actions_of_kept(s: Seq<Action>, ids: Seq<i32>)
    ensures
        forall|k: int| 0 <= k < spec_actions_of(s, ids).len() ==> ids.contains(spec_actions_of(s, ids)[k].strategy_id) && s.contains(spec_actions_of(s, ids)[k]),
        forall|i: int| 0 <= i < s.len() && ids.contains(s[i].strategy_id) ==> spec_actions_of(s, ids).contains(s[i]),
        spec_actions_of(s, ids).len() <= s.len(),
    decreases s.len(),
{
    if s.len() > 0 {
        let t = s.drop_last();
        lemma_actions_of_kept(t, ids);
        let r = spec_actions_of(t, ids);
        assert forall|k: int| 0 <= k < spec_actions_of(s, ids).len() implies ids.contains(spec_actions_of(s, ids)[k].strategy_id) && s.contains(spec_actions_of(s, ids)[k]) by {
            if k < r.len() {
                assert(spec_actions_of(s, ids)[k] == r[k]);
                let j = choose|j: int| 0 <= j < t.len() && t[j] == r[k];
                assert(s[j] == t[j]);
            } else {
                assert(s[s.len() - 1] == s.last());
            }
        }
        assert forall|i: int| 0 <= i < s.len() && ids.contains(s[i].strategy_id) implies spec_actions_of(s, ids).contains(s[i]) by {
            if i < s.len() - 1 {
                assert(t[i] == s[i]);
                let j = choose|j: int| 0 <= j < r.len() && r[j] == t[i];
                assert(spec_actions_of(s, ids)[j] == r[j]);
            } else {
                assert(spec_actions_of(s, ids)[spec_actions_of(s, ids).len() - 1] == s.last());
            }
        }
    }
}

/// What the action cache holds once started: the loaded actions that belong
/// to an active strategy.
pub fn actions_of_strategies(actions: &Vec<Action>, strategy_ids: &Vec<i32>) -> (res: Vec<Action>)
    ensures
        res@ == spec_actions_of(actions@, strategy_ids@),
{
    let mut res: Vec<Action> = Vec::new();
    let mut i: usize = 0;
    while i < actions.len()
        invariant
            i <= actions@.len(),
            res@ == spec_actions_of(actions@.take(i as int), strategy_ids@),
        decreases actions@.len() - i,
    {
        assert(actions@.take(i + 1).drop_last() =~= actions@.take(i as int));
        if contains_id(strategy_ids, actions[i].strategy_id) {
            res.push(actions[i].duplicate());
        }
        i = i + 1;
    }
    assert(actions@.take(actions@.len() as int) =~= actions@);
    res
}

/// The settings of `s` that belong to one of the integrations `ids`, in order.
pub open spec fn spec_settings_of(s: Seq<IntegrationSetting>, ids: Seq<i32>) -> Seq<IntegrationSetting>
    decreases s.len(),
{
    if s.len() == 0 {
        Seq::empty()
    } else {
        let rest = spec_settings_of(s.drop_last(), ids);
        if ids.contains(s.last().integration_id) {
            rest.push(s.last())
        } else {
            rest
        }
    }
}

/// The settings cache holds exactly the settings of the given integrations:
/// each kept setting is a loaded one of one of them, and every such loaded
/// setting is kept.
pub proof fn lemma_settings_of_kept(s: Seq<IntegrationSetting>, ids: Seq<i32>)
    ensures
        forall|k: int| 0 <= k < spec_settings_of(s, ids).len() ==> ids.contains(spec_settings_of(s, ids)[k].integration_id) && s.contains(spec_settings_of(s, ids)[k]),
        forall|i: int| 0 <= i < s.len() && ids.contains(s[i].integration_id) ==> spec_settings_of(s, ids).contains(s[i]),
        spec_settings_of(s, ids).len() <= s.len(),
    decreases s.len(),
{
    if s.len() > 0 {
        let t = s.drop_last();
        lemma_settings_of_kept(t, ids);
        let r = spec_settings_of(t, ids);
        assert forall|k: int| 0 <= k < spec_settings_of(s, ids).len() implies ids.contains(spec_settings_of(s, ids)[k].integration_id) && s.contains(spec_settings_of(s, ids)[k]) by {
            if k < r.len() {
                assert(spec_settings_of(s, ids)[k] == r[k]);
                let j = choose|j: int| 0 <= j < t.len() && t[j] == r[k];
                assert(s[j] == t[j]);
            } else {
                assert(s[s.len() - 1] == s.last());
            }
        }
        assert forall|i: int| 0 <= i < s.len() && ids.contains(s[i].integration_id) implies spec_settings_of(s, ids).contains(s[i]) by {
            if i < s.len() - 1 {
                assert(t[i] == s[i]);
                let j = choose|j: int| 0 <= j < r.len() && r[j] == t[i];
                assert(spec_settings_of(s, ids)[j] == r[j]);
            } else {
                assert(spec_settings_of(s, ids)[spec_settings_of(s, ids).len() - 1] == s.last());
            }
        }
    }
}

/// What the integration settings cache holds once started: the loaded
/// settings of the cached (enabled) integrations.
pub fn settings_of_integrations(settings: &Vec<IntegrationSetting>, integration_ids: &Vec<i32>) -> (res:
    Vec<IntegrationSetting>)
    ensures
        res@ == spec_settings_of(settings@, integration_ids@),
{
    let mut res: Vec<IntegrationSetting> = Vec::new();
    let mut i: usize = 0;
    while i < settings.len()
        invariant
            i <= settings@.len(),
            res@ == spec_settings_of(settings@.take(i as int), integration_ids@),
        decreases settings@.len() - i,
    {
        assert(settings@.take(i + 1).drop_last() =~= settings@.take(i as int));
        if contains_id(integration_ids, settings[i].integration_id) {
            res.push(settings[i].duplicate());
        }
        i = i + 1;
    }
    assert(settings@.take(settings@.len() as int) =~= settings@);
    res
}

/// The symbols of `s`, in order.
pub open spec fn spec_symbols(s: Seq<Indicator>) -> Seq<Seq<char>> {
    s.map_values(|m: Indicator| m.symbol@)
}

/// The symbols are those of the indicators, one per indicator, in order.
pub proof fn lemma_symbols_in_order(s: Seq<Indicator>)
    ensures
        spec_symbols(s).len() == s.len(),
        forall|i: int| 0 <= i < s.len() ==> spec_symbols(s)[i] == s[i].symbol@,
{
}

/// The symbols the engine subscribes to: the symbol of every cached
/// indicator, in order (a symbol appears once per indicator on it).
pub fn indicator_symbols(indicators: &Vec<Indicator>) -> (res: Vec<String>)
    ensures
        res@.map_values(|s: String| s@) == spec_symbols(indicators@),
{
    let mut res: Vec<String> = Vec::new();
    let mut i: usize = 0;
    while i < indicators.len()
        invariant
            i <= indicators@.len(),
            res@.map_values(|s: String| s@) =~= spec_symbols(indicators@.take(i as int)),
        decreases indicators@.len() - i,
    {
        res.push(indicators[i].symbol.clone());
        i = i + 1;
        assert(spec_symbols(indicators@.take(i as int)) =~= spec_symbols(indicators@.take(i - 1)).push(
            indicators@[i - 1].symbol@,
        ));
    }
    assert(indicators@.take(indicators@.len() as int) =~= indicators@);
    res
}

pub open spec fn spec_sleeping(s: Seq<Task>) -> Seq<CacheTask> {
    s.map_values(|t: Task| CacheTask { model: t, state: TaskState::Sleeping })
}

/// The task cache holds every loaded task, in order, each asleep.
pub proof fn lemma_sleeping_in_order(s: Seq<Task>)
    ensures
        spec_sleeping(s).len() == s.len(),
        forall|i: int| 0 <= i < s.len() ==> spec_sleeping(s)[i].model == s[i] && spec_sleeping(s)[i].state
            == TaskState::Sleeping,
{
}

/// What the task cache holds once started: every loaded task, asleep until
/// its next run.
pub fn sleeping_tasks(tasks: &Vec<Task>) -> (res: Vec<CacheTask>)
    ensures
        res@ == spec_sleeping(tasks@),
{
    let mut res: Vec<CacheTask> = Vec::new();
    let mut i: usize = 0;
    while i < tasks.len()
        invariant
            i <= tasks@.len(),
            res@ =~= spec_sleeping(tasks@.take(i as int)),
        decreases tasks@.len() - i,
    {
        res.push(CacheTask { model: tasks[i].duplicate(), state: TaskState::Sleeping });
        i = i + 1;
        assert(spec_sleeping(tasks@.take(i as int)) =~= spec_sleeping(tasks@.take(i - 1)).push(
            CacheTask { model: tasks@[i - 1], state: TaskState::Sleeping },
        ));
    }
    assert(tasks@.take(tasks@.len() as int) =~= tasks@);
    res
}

/// Where the settings of an integration are read from.
pub enum SettingsSource {
    /// The settings cache holds them: these.
    Cached(Vec<IntegrationSetting>),
    /// Read them from the database with the request.
    Database,
}

pub open spec fn settings_key(id: i32) -> spec_fn((i32, Vec<IntegrationSetting>)) -> bool {
    |e: (i32, Vec<IntegrationSetting>)| e.0 == id
}

/// The settings found for an integration are those the cache holds under
/// that integration's id, and none are found only when the cache holds no
/// entry for it.
pub proof fn lemma_settings_found_by_integration(c: Seq<(i32, Vec<IntegrationSetting>)>, id: i32)
    ensures
        first_match(c, settings_key(id)) matches Some(e) ==> e.0 == id && c.contains(e),
        first_match(c, settings_key(id)) is None <==> forall|i: int| 0 <= i < c.len() ==> (#[trigger] c[i]).0 != id,
{
    lemma_first_match_found(c, settings_key(id));
    lemma_first_match_none(c, settings_key(id));
}

/// The settings cache of an environment.
pub struct IntegrationsSettings;

impl IntegrationsSettings {
    /// Resolves the settings a request asks for: the settings the cache
    /// holds for the request's integration (0 when it names none), when the
    /// cache is loaded and holds that integration; otherwise the database is
    /// read with the request. `cache` holds each integration's settings.
    pub fn resolve_integration_settings(
        cache: &Option<Vec<(i32, Vec<IntegrationSetting>)>>,
        req: &IntegrationSettingRequest,
    ) -> (res: SettingsSource)
        ensures
            match *cache {
                None => res is Database,
                Some(c) => match first_match(
                    c@,
                    settings_key(match req.integration_id { Some(v) => v, None => 0i32 }),
                ) {
                    None => res is Database,
                    Some(e) => res matches SettingsSource::Cached(v) && v@ == e.1@,
                },
            },
    {
        let id = match req.integration_id {
            Some(v) => v,
            None => 0,
        };
        let c = match cache {
            None => {
                return SettingsSource::Database;
            },
            Some(c) => c,
        };
        let mut i: usize = 0;
        assert(c@.skip(0) =~= c@);
        while i < c.len()
            invariant
                i <= c@.len(),
                *cache == Some(*c),
                id == (match req.integration_id { Some(v) => v, None => 0i32 }),
                first_match(c@, settings_key(id)) == first_match(c@.skip(i as int), settings_key(id)),
            decreases c@.len() - i,
        {
            proof {
                lemma_first_match_step(c@, settings_key(id), i as int);
            }
            let entry = &c[i];
            if entry.0 == id {
                assert(settings_key(id)(c@[i as int]));
                return SettingsSource::Cached(copy_settings(&entry.1));
            }
            i = i + 1;
        }
        proof {
            lemma_first_match_end(c@, settings_key(id));
        }
        SettingsSource::Database
    }
}

fn copy_settings(v: &Vec<IntegrationSetting>) -> (res: Vec<IntegrationSetting>)
    ensures
        res@ == v@,
{
    let mut res: Vec<IntegrationSetting> = Vec::new();
    let mut i: usize = 0;
    while i < v.len()
        invariant
            i <= v@.len(),
            res@ =~= v@.take(i as int),
        decreases v@.len() - i,
    {
        res.push(v[i].duplicate());
        i = i + 1;
    }
    assert(v@.take(v@.len() as int) =~= v@);
    res
}

} // verus!
