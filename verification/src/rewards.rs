//! Reconciliation of channel-point rewards: a title-keyed diff of the
//! broadcaster's existing rewards against a desired list, yielding create,
//! update and delete actions. Updates set only the fields that differ and
//! never touch titles.

use vstd::prelude::*;
use crate::messages::{CustomReward, CustomRewardResponse};

verus! {

/// One action the reconciler asks Twitch to perform.
pub enum RewardAction {
    /// Create a reward with all the desired fields.
    Create { reward: CustomReward },
    /// Update the reward with the given id, setting only the fields held
    /// here as `Some`.
    Update {
        id: String,
        cost: Option<u32>,
        prompt: Option<String>,
        is_enabled: Option<bool>,
        is_global_cooldown_enabled: Option<bool>,
        global_cooldown_seconds: Option<u32>,
    },
    /// Delete the reward with the given id.
    Delete { id: String },
}

/// The mathematical shadow of an existing reward.
pub struct RewardRep {
    pub id: Seq<char>,
    pub title: Seq<char>,
    pub prompt: Seq<char>,
    pub cost: u32,
    pub is_enabled: bool,
    pub is_global_cooldown_enabled: bool,
    pub global_cooldown_seconds: u32,
}

/// The mathematical shadow of a desired reward.
pub struct DesiredRep {
    pub title: Seq<char>,
    pub prompt: Seq<char>,
    pub cost: u32,
    pub is_enabled: bool,
    pub is_global_cooldown_enabled: bool,
    pub global_cooldown_seconds: u32,
}

/// The mathematical shadow of one action.
pub enum ActionRep {
    Create { d: DesiredRep },
    Update {
        id: Seq<char>,
        cost: Option<u32>,
        prompt: Option<Seq<char>>,
        is_enabled: Option<bool>,
        is_global_cooldown_enabled: Option<bool>,
        global_cooldown_seconds: Option<u32>,
    },
    Delete { id: Seq<char> },
}

/// The shadow of an existing reward.
pub open spec fn resp_rep(e: CustomRewardResponse) -> RewardRep {
    RewardRep {
        id: e.id@,
        title: e.title@,
        prompt: e.prompt@,
        cost: e.cost,
        is_enabled: e.is_enabled,
        is_global_cooldown_enabled: e.is_global_cooldown_enabled,
        global_cooldown_seconds: e.global_cooldown_seconds,
    }
}

/// The shadow of a desired reward.
pub open spec fn desired_rep(d: CustomReward) -> DesiredRep {
    DesiredRep {
        title: d.title@,
        prompt: d.prompt@,
        cost: d.cost,
        is_enabled: d.is_enabled,
        is_global_cooldown_enabled: d.is_global_cooldown_enabled,
        global_cooldown_seconds: d.global_cooldown_seconds,
    }
}

/// The shadow of one action.
pub open spec fn action_rep(a: RewardAction) -> ActionRep {
    match a {
        RewardAction::Create { reward } => ActionRep::Create { d: desired_rep(reward) },
        RewardAction::Update {
            id,
            cost,
            prompt,
            is_enabled,
            is_global_cooldown_enabled,
            global_cooldown_seconds,
        } => ActionRep::Update {
            id: id@,
            cost,
            prompt: match prompt {
                Some(p) => Some(p@),
                None => None,
            },
            is_enabled,
            is_global_cooldown_enabled,
            global_cooldown_seconds,
        },
        RewardAction::Delete { id } => ActionRep::Delete { id: id@ },
    }
}

/// The shadows of a list of existing rewards.
pub open spec fn resp_reps(es: Seq<CustomRewardResponse>) -> Seq<RewardRep> {
    Seq::new(es.len(), |i: int| resp_rep(es[i]))
}

/// The shadows of a desired list.
pub open spec fn desired_reps(ds: Seq<CustomReward>) -> Seq<DesiredRep> {
    Seq::new(ds.len(), |i: int| desired_rep(ds[i]))
}

/// The shadows of an action list.
pub open spec fn action_reps(actions: Seq<RewardAction>) -> Seq<ActionRep> {
    Seq::new(actions.len(), |i: int| action_rep(actions[i]))
}

/// The index of the first existing reward with the given title, from `i`.
pub open spec fn find_title_from(es: Seq<RewardRep>, title: Seq<char>, i: int) -> Option<int>
    decreases es.len() - i,
{
    if i < 0 || i >= es.len() {
        None
    } else if es[i].title == title {
        Some(i)
    } else {
        find_title_from(es, title, i + 1)
    }
}

/// The index of the first existing reward with the given title.
pub open spec fn find_title(es: Seq<RewardRep>, title: Seq<char>) -> Option<int> {
    find_title_from(es, title, 0)
}

/// Whether any desired reward carries the given title.
pub open spec fn desired_has_title(ds: Seq<DesiredRep>, title: Seq<char>) -> bool {
    exists|j: int| 0 <= j < ds.len() && ds[j].title == title
}

/// Whether an existing reward differs from the desired one in any of the
/// five updatable fields.
pub open spec fn differs(e: RewardRep, d: DesiredRep) -> bool {
    ||| e.cost != d.cost
    ||| e.prompt != d.prompt
    ||| e.is_enabled != d.is_enabled
    ||| e.is_global_cooldown_enabled != d.is_global_cooldown_enabled
    ||| e.global_cooldown_seconds != d.global_cooldown_seconds
}

/// The update action for a matched pair, setting only differing fields.
pub open spec fn update_rep(e: RewardRep, d: DesiredRep) -> ActionRep {
    ActionRep::Update {
        id: e.id,
        cost: if e.cost != d.cost { Some(d.cost) } else { None },
        prompt: if e.prompt != d.prompt { Some(d.prompt) } else { None },
        is_enabled: if e.is_enabled != d.is_enabled { Some(d.is_enabled) } else { None },
        is_global_cooldown_enabled: if e.is_global_cooldown_enabled
            != d.is_global_cooldown_enabled {
            Some(d.is_global_cooldown_enabled)
        } else {
            None
        },
        global_cooldown_seconds: if e.global_cooldown_seconds != d.global_cooldown_seconds {
            Some(d.global_cooldown_seconds)
        } else {
            None
        },
    }
}

/// The actions for one desired reward: a create where no title matches, an
/// update where one matches and differs, nothing where they agree.
pub open spec fn desired_actions(es: Seq<RewardRep>, d: DesiredRep) -> Seq<ActionRep> {
    match find_title(es, d.title) {
        None => seq![ActionRep::Create { d }],
        Some(k) => if differs(es[k], d) {
            seq![update_rep(es[k], d)]
        } else {
            Seq::empty()
        },
    }
}

/// The create/update actions for the desired list from index `i` on.
pub open spec fn plan_upserts(es: Seq<RewardRep>, ds: Seq<DesiredRep>, i: int) -> Seq<ActionRep>
    decreases ds.len() - i,
{
    if i < 0 || i >= ds.len() {
        Seq::empty()
    } else {
        desired_actions(es, ds[i]) + plan_upserts(es, ds, i + 1)
    }
}

/// The delete actions for existing rewards from index `i` on whose titles
/// no desired reward carries.
pub open spec fn plan_deletes(es: Seq<RewardRep>, ds: Seq<DesiredRep>, i: int) -> Seq<ActionRep>
    decreases es.len() - i,
{
    if i < 0 || i >= es.len() {
        Seq::empty()
    } else if desired_has_title(ds, es[i].title) {
        plan_deletes(es, ds, i + 1)
    } else {
        seq![ActionRep::Delete { id: es[i].id }] + plan_deletes(es, ds, i + 1)
    }
}

/// The whole reconciliation plan: upserts in desired order, then deletes
/// in existing order.
pub open spec fn plan_rep(es: Seq<RewardRep>, ds: Seq<DesiredRep>) -> Seq<ActionRep> {
    plan_upserts(es, ds, 0) + plan_deletes(es, ds, 0)
}

/// The index of the first existing reward whose title equals `title`.
fn find_by_title(existing: &Vec<CustomRewardResponse>, title: &str) -> (r: Option<usize>)
    ensures
        match r {
            Some(k) => k < existing@.len() && find_title(resp_reps(existing@), title@) == Some(
                k as int,
            ),
            None => find_title(resp_reps(existing@), title@) is None,
        },
{
    let n = existing.len();
    let mut i: usize = 0;
    while i < n
        invariant
            n == existing@.len(),
            i <= n,
            find_title_from(resp_reps(existing@), title@, 0) == find_title_from(
                resp_reps(existing@),
                title@,
                i as int,
            ),
        decreases n - i,
    {
        if crate::wire::str_eq(existing[i].title.as_str(), title) {
            proof {
                assert(resp_reps(existing@)[i as int].title == title@);
            }
            return Some(i);
        }
        i = i + 1;
    }
    None
}

/// Whether any desired reward carries the given title.
fn desired_contains_title(desired: &Vec<CustomReward>, title: &str) -> (r: bool)
    ensures
        r == desired_has_title(desired_reps(desired@), title@),
{
    let n = desired.len();
    let mut i: usize = 0;
    while i < n
        invariant
            n == desired@.len(),
            i <= n,
            forall|j: int| 0 <= j < i ==> desired_reps(desired@)[j].title != title@,
        decreases n - i,
    {
        if crate::wire::str_eq(desired[i].title.as_str(), title) {
            proof {
                assert(desired_reps(desired@)[i as int].title == title@);
            }
            return true;
        }
        i = i + 1;
    }
    false
}

/// Computes the reconciliation plan for the desired list against the
/// existing rewards: a create for each new title, an update setting only
/// the differing fields for each changed one, nothing for an unchanged
/// one, and a delete for each existing title the desired list dropped.
pub fn plan_reward_actions(existing: &Vec<CustomRewardResponse>, desired: &Vec<CustomReward>) -> (
    plan: Vec<RewardAction>)
    ensures
        action_reps(plan@) == plan_rep(resp_reps(existing@), desired_reps(desired@)),
{
    let ghost es = resp_reps(existing@);
    let ghost ds = desired_reps(desired@);
    let mut plan: Vec<RewardAction> = Vec::new();
    let mut i: usize = 0;
    while i < desired.len()
        invariant
            i <= desired@.len(),
            es == resp_reps(existing@),
            ds == desired_reps(desired@),
            action_reps(plan@) + plan_upserts(es, ds, i as int) =~= plan_upserts(es, ds, 0),
        decreases desired@.len() - i,
    {
        let d = &desired[i];
        match find_by_title(existing, d.title.as_str()) {
            None => {
                let action = RewardAction::Create {
                    reward: CustomReward {
                        title: d.title.clone(),
                        prompt: d.prompt.clone(),
                        cost: d.cost,
                        is_enabled: d.is_enabled,
                        is_global_cooldown_enabled: d.is_global_cooldown_enabled,
                        global_cooldown_seconds: d.global_cooldown_seconds,
                    },
                };
                proof {
                    assert(action_rep(action) == ActionRep::Create { d: ds[i as int] });
                    assert(action_reps(plan@.push(action)) =~= action_reps(plan@).push(
                        action_rep(action),
                    ));
                }
                plan.push(action);
            }
            Some(k) => {
                let e = &existing[k];
                let cost_differs = e.cost != d.cost;
                let prompt_differs = !crate::wire::str_eq(e.prompt.as_str(), d.prompt.as_str());
                let enabled_differs = e.is_enabled != d.is_enabled;
                let gce_differs = e.is_global_cooldown_enabled != d.is_global_cooldown_enabled;
                let gcs_differs = e.global_cooldown_seconds != d.global_cooldown_seconds;
                if cost_differs || prompt_differs || enabled_differs || gce_differs
                    || gcs_differs {
                    let action = RewardAction::Update {
                        id: e.id.clone(),
                        cost: if cost_differs { Some(d.cost) } else { None },
                        prompt: if prompt_differs { Some(d.prompt.clone()) } else { None },
                        is_enabled: if enabled_differs { Some(d.is_enabled) } else { None },
                        is_global_cooldown_enabled: if gce_differs {
                            Some(d.is_global_cooldown_enabled)
                        } else {
                            None
                        },
                        global_cooldown_seconds: if gcs_differs {
                            Some(d.global_cooldown_seconds)
                        } else {
                            None
                        },
                    };
                    proof {
                        assert(action_rep(action) == update_rep(es[k as int], ds[i as int]));
                        assert(action_reps(plan@.push(action)) =~= action_reps(plan@).push(
                            action_rep(action),
                        ));
                    }
                    plan.push(action);
                } else {
                    proof {
                        assert(!differs(es[k as int], ds[i as int]));
                        assert(desired_actions(es, ds[i as int]) =~= Seq::<ActionRep>::empty());
                    }
                }
            }
        }
        i = i + 1;
        proof {
            assert(action_reps(plan@) + plan_upserts(es, ds, i as int) =~= plan_upserts(
                es,
                ds,
                0,
            ));
        }
    }
    let mut k: usize = 0;
    while k < existing.len()
        invariant
            k <= existing@.len(),
            es == resp_reps(existing@),
            ds == desired_reps(desired@),
            action_reps(plan@) + plan_deletes(es, ds, k as int) =~= plan_upserts(es, ds, 0)
                + plan_deletes(es, ds, 0),
        decreases existing@.len() - k,
    {
        if !desired_contains_title(desired, existing[k].title.as_str()) {
            let action = RewardAction::Delete { id: existing[k].id.clone() };
            proof {
                assert(action_rep(action) == (ActionRep::Delete { id: es[k as int].id }));
                assert(action_reps(plan@.push(action)) =~= action_reps(plan@).push(
                    action_rep(action),
                ));
            }
            plan.push(action);
        }
        k = k + 1;
        proof {
            assert(action_reps(plan@) + plan_deletes(es, ds, k as int) =~= plan_upserts(es, ds, 0)
                + plan_deletes(es, ds, 0));
        }
    }
    proof {
        assert(action_reps(plan@) =~= plan_rep(es, ds));
    }
    plan
}

/// The rewards that stand after the plan for `ds` against `es` has been
/// carried out: one reward per desired entry, keeping the id of the
/// matched existing reward or taking the id Twitch assigned to the
/// created one; every unmatched existing reward is gone.
pub open spec fn apply_plan(es: Seq<RewardRep>, ds: Seq<DesiredRep>, new_ids: Seq<Seq<char>>)
    -> Seq<RewardRep> {
    Seq::new(
        ds.len(),
        |i: int| RewardRep {
            id: match find_title(es, ds[i].title) {
                Some(k) => es[k].id,
                None => new_ids[i],
            },
            title: ds[i].title,
            prompt: ds[i].prompt,
            cost: ds[i].cost,
            is_enabled: ds[i].is_enabled,
            is_global_cooldown_enabled: ds[i].is_global_cooldown_enabled,
            global_cooldown_seconds: ds[i].global_cooldown_seconds,
        },
    )
}

proof fn lemma_find_from(es: Seq<RewardRep>, title: Seq<char>, i: int, k: int)
    requires
        0 <= i <= k < es.len(),
        es[k].title == title,
        forall|j: int| i <= j < k ==> es[j].title != title,
    ensures
        find_title_from(es, title, i) == Some(k),
    decreases k - i,
{
    if i < k {
        lemma_find_from(es, title, i + 1, k);
    }
}

proof fn lemma_upserts_empty(es: Seq<RewardRep>, ds: Seq<DesiredRep>, k: int)
    requires
        0 <= k,
        forall|i: int| k <= i < ds.len() ==> desired_actions(es, #[trigger] ds[i])
            =~= Seq::<ActionRep>::empty(),
    ensures
        plan_upserts(es, ds, k) =~= Seq::<ActionRep>::empty(),
    decreases ds.len() - k,
{
    if k < ds.len() {
        lemma_upserts_empty(es, ds, k + 1);
    }
}

proof fn lemma_deletes_empty(es: Seq<RewardRep>, ds: Seq<DesiredRep>, k: int)
    requires
        0 <= k,
        forall|i: int| k <= i < es.len() ==> desired_has_title(ds, #[trigger] es[i].title),
    ensures
        plan_deletes(es, ds, k) =~= Seq::<ActionRep>::empty(),
    decreases es.len() - k,
{
    if k < es.len() {
        lemma_deletes_empty(es, ds, k + 1);
    }
}

/// Reconciliation is idempotent: once the plan for a desired list with
/// distinct titles has been carried out, planning the same list again asks
/// for no create, no update and no delete, whatever ids Twitch assigned to
/// the created rewards.
pub proof fn lemma_reconcile_idempotent(
    es: Seq<RewardRep>,
    ds: Seq<DesiredRep>,
    new_ids: Seq<Seq<char>>,
)
    requires
        new_ids.len() == ds.len(),
        forall|i: int, j: int| 0 <= i < j < ds.len() ==> ds[i].title != ds[j].title,
    ensures
        plan_rep(apply_plan(es, ds, new_ids), ds) =~= Seq::<ActionRep>::empty(),
{
    let applied = apply_plan(es, ds, new_ids);
    assert forall|i: int| 0 <= i < ds.len() implies desired_actions(applied, #[trigger] ds[i])
        =~= Seq::<ActionRep>::empty() by {
        assert(forall|j: int| 0 <= j < i ==> applied[j].title != ds[i].title);
        lemma_find_from(applied, ds[i].title, 0, i);
        assert(find_title(applied, ds[i].title) == Some(i));
        assert(!differs(applied[i], ds[i]));
    }
    lemma_upserts_empty(applied, ds, 0);
    assert forall|i: int| 0 <= i < applied.len() implies desired_has_title(
        ds,
        #[trigger] applied[i].title,
    ) by {
        assert(ds[i].title == applied[i].title);
    }
    lemma_deletes_empty(applied, ds, 0);
    assert(plan_rep(applied, ds) =~= Seq::<ActionRep>::empty());
}

} // verus!
