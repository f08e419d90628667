//! Client-initiated Twitch actions: the Helix requests they need and the
//! refresh-on-401 retry rule.
//!
//! A Helix call that comes back 401 is retried exactly once, after the
//! token has been refreshed; the retry decision is single-shot and never
//! recurses.

use vstd::prelude::*;
use crate::json::{Json, Member};
use crate::messages::{CustomRewardResponse, ErrorMessage, TaskResponse, jstr, jmember, jint,
    jbool, member_texts, obj_join};
use crate::orchestrator::ClientContext;
use crate::rewards::RewardAction;
use crate::tokens::TwitchTokenData;
use crate::wire::{bool_field_of, bool_field_ok, jfield, str_field_of, str_field_ok,
    u32_field_of, u32_field_ok};

verus! {

/// The outcome of one Helix call, reduced to what the retry rule reads.
pub enum HelixOutcome {
    /// The call succeeded.
    Success,
    /// HTTP 401: the token is no longer accepted.
    Unauthorized,
    /// Any other failure, with its description.
    OtherError { message: String },
}

/// What the orchestrator does after one Helix call.
pub enum TriggerStep {
    /// Report success to the client.
    Respond { response: TaskResponse },
    /// Refresh the token and retry the call, once.
    RefreshAndRetry,
    /// Report the failure to the client.
    Fail { error: ErrorMessage },
}

/// Decides what follows one Helix call made for the given request.
///
/// Success answers the client; a 401 before any retry asks for one
/// refresh-and-retry; a 401 on the retry, or any other failure, is
/// reported.
pub fn trigger_call_step(
    outcome: &HelixOutcome,
    request_id: i32,
    source: &str,
    already_retried: bool,
) -> (r: TriggerStep)
    ensures
        trigger_step_spec(*outcome, r, already_retried),
        match *outcome {
            HelixOutcome::Success => r matches TriggerStep::Respond { response }
                && response.request_id == request_id && response.success && response.message
                is None,
            HelixOutcome::Unauthorized => {
                if already_retried {
                    r matches TriggerStep::Fail { error } && error.request_id == request_id
                        && error.source@ == source@
                } else {
                    r is RefreshAndRetry
                }
            },
            HelixOutcome::OtherError { message } => r matches TriggerStep::Fail { error }
                && error.request_id == request_id && error.source@ == source@ && error.message@
                == message@,
        },
{
    match outcome {
        HelixOutcome::Success => TriggerStep::Respond {
            response: TaskResponse { request_id, success: true, message: None },
        },
        HelixOutcome::Unauthorized => {
            if already_retried {
                TriggerStep::Fail {
                    error: ErrorMessage {
                        request_id,
                        source: source.to_owned(),
                        message: "request failed after token refresh".to_owned(),
                    },
                }
            } else {
                TriggerStep::RefreshAndRetry
            }
        }
        HelixOutcome::OtherError { message } => TriggerStep::Fail {
            error: ErrorMessage { request_id, source: source.to_owned(), message: message.clone() },
        },
    }
}

/// The refresh-and-retry rule is single-shot: whatever the second call
/// returns, it is never retried again.
pub proof fn lemma_retry_single_shot(
    first: HelixOutcome,
    second: HelixOutcome,
    r1: TriggerStep,
    r2: TriggerStep,
)
    requires
        first is Unauthorized,
        r1 is RefreshAndRetry,
        trigger_step_spec(second, r2, true),
    ensures
        !(r2 is RefreshAndRetry),
{
}

/// The retry rule as a relation, for stating laws about sequences of
/// calls: `trigger_call_step` establishes it for its arguments.
pub open spec fn trigger_step_spec(outcome: HelixOutcome, r: TriggerStep, already_retried: bool)
    -> bool {
    match outcome {
        HelixOutcome::Success => r is Respond,
        HelixOutcome::Unauthorized => if already_retried {
            r is Fail
        } else {
            r is RefreshAndRetry
        },
        HelixOutcome::OtherError { .. } => r is Fail,
    }
}

/// An HTTP method toward Helix.
pub enum HttpMethod {
    Get,
    Post,
    Patch,
    Delete,
}

/// One planned Helix request: method, full URL, and the body text to
/// send, if any.
pub struct HelixPlan {
    pub method: HttpMethod,
    pub url: String,
    pub body: Option<String>,
}

/// The URL that updates one redemption's status.
pub open spec fn redemption_url_text(broadcaster_id: Seq<char>, reward_id: Seq<char>,
    redemption_id: Seq<char>) -> Seq<char> {
    "https://api.twitch.tv/helix/channel_points/custom_rewards/redemptions?broadcaster_id="@
        + broadcaster_id + "&reward_id="@ + reward_id + "&id="@ + redemption_id
}

/// The redemption-status body: FULFILLED or CANCELED.
pub open spec fn redemption_body_text(fulfilled: bool) -> Seq<char> {
    obj_join(
        seq![
            jmember("status"@, jstr(if fulfilled { "FULFILLED"@ } else { "CANCELED"@ })),
        ],
    )
}

/// Plans the Helix PATCH that fulfills or cancels one redemption.
pub fn redemption_status_plan(
    broadcaster_id: &str,
    reward_id: &str,
    redemption_id: &str,
    fulfilled: bool,
) -> (r: HelixPlan)
    ensures
        r.method is Patch,
        r.url@ == redemption_url_text(broadcaster_id@, reward_id@, redemption_id@),
        r.body matches Some(b) && b@ == redemption_body_text(fulfilled),
{
    let mut url =
        "https://api.twitch.tv/helix/channel_points/custom_rewards/redemptions?broadcaster_id=".to_owned();
    url.append(broadcaster_id);
    url.append("&reward_id=");
    url.append(reward_id);
    url.append("&id=");
    url.append(redemption_id);
    let status: &str = if fulfilled { "FULFILLED" } else { "CANCELED" };
    let members = vec![
        Member { key: "status".to_owned(), value: Json::Str(status.to_owned()) },
    ];
    let body_json = Json::Obj(members);
    proof {
        crate::messages::lemma_obj_texts(
            body_json->Obj_0@,
            member_texts(body_json->Obj_0@),
            0,
        );
        assert(member_texts(body_json->Obj_0@) =~= seq![
            jmember("status"@, jstr(if fulfilled { "FULFILLED"@ } else { "CANCELED"@ })),
        ]);
    }
    let body = crate::json::json_string(&body_json);
    HelixPlan { method: HttpMethod::Patch, url, body: Some(body) }
}

/// The URL that lists the broadcaster's manageable rewards.
pub open spec fn get_rewards_url_text(broadcaster_id: Seq<char>) -> Seq<char> {
    "https://api.twitch.tv/helix/channel_points/custom_rewards?broadcaster_id="@ + broadcaster_id
        + "&only_manageable_rewards=true"@
}

/// Plans the Helix GET that fetches the broadcaster's manageable rewards.
pub fn get_rewards_plan(broadcaster_id: &str) -> (r: HelixPlan)
    ensures
        r.method is Get,
        r.url@ == get_rewards_url_text(broadcaster_id@),
        r.body is None,
{
    let mut url =
        "https://api.twitch.tv/helix/channel_points/custom_rewards?broadcaster_id=".to_owned();
    url.append(broadcaster_id);
    url.append("&only_manageable_rewards=true");
    HelixPlan { method: HttpMethod::Get, url, body: None }
}

/// The base URL for reward management, with the broadcaster id.
pub open spec fn rewards_url_text(broadcaster_id: Seq<char>) -> Seq<char> {
    "https://api.twitch.tv/helix/channel_points/custom_rewards?broadcaster_id="@ + broadcaster_id
}

/// The member texts of a create-reward body: every desired field.
pub open spec fn create_body_texts(title: Seq<char>, prompt: Seq<char>, cost: u32,
    is_enabled: bool, is_gce: bool, gcs: u32) -> Seq<Seq<char>> {
    seq![
        jmember("title"@, jstr(title)),
        jmember("cost"@, jint(cost as int)),
        jmember("prompt"@, jstr(prompt)),
        jmember("is_enabled"@, jbool(is_enabled)),
        jmember("is_global_cooldown_enabled"@, jbool(is_gce)),
        jmember("global_cooldown_seconds"@, jint(gcs as int)),
    ]
}

/// The member texts of an update-reward body: only the fields the action
/// sets, in a fixed order.
pub open spec fn update_body_texts(
    cost: Option<u32>,
    prompt: Option<Seq<char>>,
    is_enabled: Option<bool>,
    is_gce: Option<bool>,
    gcs: Option<u32>,
) -> Seq<Seq<char>> {
    (match cost {
        Some(c) => seq![jmember("cost"@, jint(c as int))],
        None => Seq::empty(),
    }) + (match prompt {
        Some(p) => seq![jmember("prompt"@, jstr(p))],
        None => Seq::empty(),
    }) + (match is_enabled {
        Some(b) => seq![jmember("is_enabled"@, jbool(b))],
        None => Seq::empty(),
    }) + (match is_gce {
        Some(b) => seq![jmember("is_global_cooldown_enabled"@, jbool(b))],
        None => Seq::empty(),
    }) + (match gcs {
        Some(g) => seq![jmember("global_cooldown_seconds"@, jint(g as int))],
        None => Seq::empty(),
    })
}

/// What the planned request for one reconciliation action must be.
pub open spec fn action_plan_ok(a: RewardAction, broadcaster_id: Seq<char>, r: HelixPlan)
    -> bool {
    match a {
        RewardAction::Create { reward } => {
            &&& r.method is Post
            &&& r.url@ == rewards_url_text(broadcaster_id)
            &&& r.body matches Some(b)
            &&& b@ == obj_join(
                create_body_texts(
                    reward.title@,
                    reward.prompt@,
                    reward.cost,
                    reward.is_enabled,
                    reward.is_global_cooldown_enabled,
                    reward.global_cooldown_seconds,
                ),
            )
        },
        RewardAction::Update {
            id,
            cost,
            prompt,
            is_enabled,
            is_global_cooldown_enabled,
            global_cooldown_seconds,
        } => {
            &&& r.method is Patch
            &&& r.url@ == rewards_url_text(broadcaster_id) + "&id="@ + id@
            &&& r.body matches Some(b)
            &&& b@ == obj_join(
                update_body_texts(
                    cost,
                    match prompt {
                        Some(p) => Some(p@),
                        None => None,
                    },
                    is_enabled,
                    is_global_cooldown_enabled,
                    global_cooldown_seconds,
                ),
            )
        },
        RewardAction::Delete { id } => {
            &&& r.method is Delete
            &&& r.url@ == rewards_url_text(broadcaster_id) + "&id="@ + id@
            &&& r.body is None
        },
    }
}

/// Plans the Helix request that carries out one reconciliation action.
pub fn reward_action_plan(a: &RewardAction, broadcaster_id: &str) -> (r: HelixPlan)
    ensures
        action_plan_ok(*a, broadcaster_id@, r),
{
    let mut url =
        "https://api.twitch.tv/helix/channel_points/custom_rewards?broadcaster_id=".to_owned();
    url.append(broadcaster_id);
    match a {
        RewardAction::Create { reward } => {
            let members = vec![
                Member { key: "title".to_owned(), value: Json::Str(reward.title.clone()) },
                Member { key: "cost".to_owned(), value: Json::Int(reward.cost as i64) },
                Member { key: "prompt".to_owned(), value: Json::Str(reward.prompt.clone()) },
                Member { key: "is_enabled".to_owned(), value: Json::Bool(reward.is_enabled) },
                Member {
                    key: "is_global_cooldown_enabled".to_owned(),
                    value: Json::Bool(reward.is_global_cooldown_enabled),
                },
                Member {
                    key: "global_cooldown_seconds".to_owned(),
                    value: Json::Int(reward.global_cooldown_seconds as i64),
                },
            ];
            let body_json = Json::Obj(members);
            proof {
                crate::messages::lemma_obj_texts(
                    body_json->Obj_0@,
                    member_texts(body_json->Obj_0@),
                    0,
                );
                assert(member_texts(body_json->Obj_0@) =~= create_body_texts(
                    reward.title@,
                    reward.prompt@,
                    reward.cost,
                    reward.is_enabled,
                    reward.is_global_cooldown_enabled,
                    reward.global_cooldown_seconds,
                ));
            }
            let body = crate::json::json_string(&body_json);
            HelixPlan { method: HttpMethod::Post, url, body: Some(body) }
        }
        RewardAction::Update {
            id,
            cost,
            prompt,
            is_enabled,
            is_global_cooldown_enabled,
            global_cooldown_seconds,
        } => {
            url.append("&id=");
            url.append(id.as_str());
            let mut members: Vec<Member> = Vec::new();
            if let Some(c) = cost {
                members.push(Member { key: "cost".to_owned(), value: Json::Int(*c as i64) });
            }
            if let Some(p) = prompt {
                members.push(Member { key: "prompt".to_owned(), value: Json::Str(p.clone()) });
            }
            if let Some(b) = is_enabled {
                members.push(Member { key: "is_enabled".to_owned(), value: Json::Bool(*b) });
            }
            if let Some(b) = is_global_cooldown_enabled {
                members.push(
                    Member {
                        key: "is_global_cooldown_enabled".to_owned(),
                        value: Json::Bool(*b),
                    },
                );
            }
            if let Some(g) = global_cooldown_seconds {
                members.push(
                    Member {
                        key: "global_cooldown_seconds".to_owned(),
                        value: Json::Int(*g as i64),
                    },
                );
            }
            let body_json = Json::Obj(members);
            proof {
                crate::messages::lemma_obj_texts(
                    body_json->Obj_0@,
                    member_texts(body_json->Obj_0@),
                    0,
                );
                assert(member_texts(body_json->Obj_0@) =~= update_body_texts(
                    *cost,
                    match *prompt {
                        Some(p) => Some(p@),
                        None => None,
                    },
                    *is_enabled,
                    *is_global_cooldown_enabled,
                    *global_cooldown_seconds,
                ));
            }
            let body = crate::json::json_string(&body_json);
            HelixPlan { method: HttpMethod::Patch, url, body: Some(body) }
        }
        RewardAction::Delete { id } => {
            url.append("&id=");
            url.append(id.as_str());
            HelixPlan { method: HttpMethod::Delete, url, body: None }
        }
    }
}

/// Gates a trigger request on a hydrated Twitch token: without one, the
/// request is refused with the error the client is owed.
pub fn trigger_token_gate(ctx: &ClientContext) -> (r: Result<TwitchTokenData, ErrorMessage>)
    ensures
        match ctx.twitch {
            Some(t) => r matches Ok(t2) && t2 == t,
            None => r matches Err(e) && e.request_id == -1 && e.source@ == "server"@
                && e.message@ == "Twitch not connected"@,
        },
{
    match &ctx.twitch {
        Some(t) => Ok(t.duplicate()),
        None => Err(
            ErrorMessage {
                request_id: -1,
                source: "server".to_owned(),
                message: "Twitch not connected".to_owned(),
            },
        ),
    }
}

/// The error source a failed reconciliation action is reported under.
pub open spec fn batch_source(a: RewardAction) -> Seq<char> {
    match a {
        RewardAction::Create { .. } => "twitch_create_custom_reward"@,
        RewardAction::Update { .. } => "twitch_update_custom_reward"@,
        RewardAction::Delete { .. } => "twitch_disable_custom_reward"@,
    }
}

/// Decides what one reconciliation action's outcome means for the batch:
/// a failure is reported per reward, under the action's own source, and
/// the batch continues either way.
pub fn reward_batch_step(action: &RewardAction, outcome: &HelixOutcome, request_id: i32) -> (r:
    Option<ErrorMessage>)
    ensures
        match *outcome {
            HelixOutcome::Success => r is None,
            HelixOutcome::Unauthorized => r matches Some(e) && e.request_id == request_id
                && e.source@ == batch_source(*action) && e.message@
                == "request was not authorized"@,
            HelixOutcome::OtherError { message } => r matches Some(e) && e.request_id
                == request_id && e.source@ == batch_source(*action) && e.message@ == message@,
        },
{
    let source: &str = match action {
        RewardAction::Create { .. } => "twitch_create_custom_reward",
        RewardAction::Update { .. } => "twitch_update_custom_reward",
        RewardAction::Delete { .. } => "twitch_disable_custom_reward",
    };
    match outcome {
        HelixOutcome::Success => None,
        HelixOutcome::Unauthorized => Some(
            ErrorMessage {
                request_id,
                source: source.to_owned(),
                message: "request was not authorized".to_owned(),
            },
        ),
        HelixOutcome::OtherError { message } => Some(
            ErrorMessage { request_id, source: source.to_owned(), message: message.clone() },
        ),
    }
}

/// The shape of one reward row in a Helix rewards response: every field
/// the reconciler reads must be there, with the cooldown setting nested.
pub open spec fn reward_row_ok(j: Json) -> bool {
    &&& str_field_ok(j, "id"@)
    &&& str_field_ok(j, "title"@)
    &&& str_field_ok(j, "prompt"@)
    &&& u32_field_ok(j, "cost"@)
    &&& bool_field_ok(j, "is_enabled"@)
    &&& jfield(j, "global_cooldown_setting"@) matches Some(c)
    &&& bool_field_ok(c, "is_enabled"@)
    &&& u32_field_ok(c, "global_cooldown_seconds"@)
}

/// Whether the row `j` reads as the reward `r`.
pub open spec fn reward_row_of(j: Json, r: CustomRewardResponse) -> bool {
    &&& str_field_of(j, "id"@, r.id@)
    &&& str_field_of(j, "title"@, r.title@)
    &&& str_field_of(j, "prompt"@, r.prompt@)
    &&& u32_field_of(j, "cost"@, r.cost)
    &&& bool_field_of(j, "is_enabled"@, r.is_enabled)
    &&& jfield(j, "global_cooldown_setting"@) matches Some(c)
    &&& bool_field_of(c, "is_enabled"@, r.is_global_cooldown_enabled)
    &&& u32_field_of(c, "global_cooldown_seconds"@, r.global_cooldown_seconds)
}

/// Reads one reward row of a Helix rewards response.
pub fn custom_reward_row_of_json(j: &Json) -> (r: Option<CustomRewardResponse>)
    ensures
        r is Some <==> reward_row_ok(*j),
        r matches Some(row) ==> reward_row_of(*j, row),
{
    let id = crate::wire::get_str_field(j, "id");
    let title = crate::wire::get_str_field(j, "title");
    let prompt = crate::wire::get_str_field(j, "prompt");
    let cost = crate::wire::get_u32_field(j, "cost");
    let is_enabled = crate::wire::get_bool_field(j, "is_enabled");
    let cooldown = match crate::wire::get_field(j, "global_cooldown_setting") {
        Some(c) => c,
        None => {
            return None;
        }
    };
    let gce = crate::wire::get_bool_field(cooldown, "is_enabled");
    let gcs = crate::wire::get_u32_field(cooldown, "global_cooldown_seconds");
    match (id, title, prompt, cost, is_enabled, gce, gcs) {
        (Some(id), Some(title), Some(prompt), Some(cost), Some(is_enabled), Some(gce), Some(
            gcs,
        )) => Some(
            CustomRewardResponse {
                id,
                title,
                prompt,
                cost,
                is_enabled,
                is_global_cooldown_enabled: gce,
                global_cooldown_seconds: gcs,
            },
        ),
        _ => None,
    }
}

/// The shape of a whole Helix rewards response: a `data` array whose
/// rows all read as rewards.
pub open spec fn rewards_response_ok(v: Json) -> bool {
    &&& jfield(v, "data"@) matches Some(d)
    &&& d matches Json::Arr(items)
    &&& forall|j: int| 0 <= j < items@.len() ==> reward_row_ok(#[trigger] items@[j])
}

/// Reads the broadcaster's rewards out of a Helix rewards response.
/// Succeeds exactly on responses whose every row is well-formed, and the
/// rows come back in order.
#[verifier::loop_isolation(false)]
pub fn custom_rewards_of_json(v: &Json) -> (r: Option<Vec<CustomRewardResponse>>)
    ensures
        r is Some <==> rewards_response_ok(*v),
        r matches Some(rows) ==> jfield(*v, "data"@) matches Some(d) && d matches Json::Arr(
            items,
        ) && rows@.len() == items@.len() && forall|j: int|
            0 <= j < items@.len() ==> reward_row_of(#[trigger] items@[j], rows@[j]),
{
    let items = match crate::wire::get_field(v, "data") {
        Some(d) => match d {
            Json::Arr(items) => items,
            _ => {
                return None;
            }
        },
        None => {
            return None;
        }
    };
    let mut rows: Vec<CustomRewardResponse> = Vec::new();
    let mut i: usize = 0;
    while i < items.len()
        invariant
            i <= items@.len(),
            rows@.len() == i,
            forall|j: int| 0 <= j < i ==> reward_row_of(#[trigger] items@[j], rows@[j])
                && reward_row_ok(items@[j]),
        decreases items@.len() - i,
    {
        match custom_reward_row_of_json(&items[i]) {
            Some(row) => {
                rows.push(row);
            }
            None => {
                return None;
            }
        }
        i = i + 1;
    }
    Some(rows)
}

} // verus!
