//! Reading client frames: field lookup in JSON objects and the
//! classification of incoming text into `ClientMessage` values.
//!
//! The shape of every accepted frame is written out as a spec predicate;
//! classification of a parsed document succeeds exactly on documents of
//! those shapes, and the value it returns corresponds field by field to
//! the document. Which texts parse into a document is decided by the
//! parser's code, not stated in its contract: a returned message is
//! guaranteed to read off a well-formed frame, but no clause yet forces
//! the parser to accept every text that denotes one.

use vstd::prelude::*;
use crate::json::{Json, Member};
use crate::messages::{ClientMessage, CodeRequest, ConnectRequest, CustomReward,
    TwitchTriggerRequest};

verus! {

/// The value of the first member with the given key, from index `i` on.
pub open spec fn jlookup_from(ms: Seq<Member>, key: Seq<char>, i: int) -> Option<Json>
    decreases ms.len() - i,
{
    if i < 0 || i >= ms.len() {
        None
    } else if ms[i].key@ == key {
        Some(ms[i].value)
    } else {
        jlookup_from(ms, key, i + 1)
    }
}

/// The value of the first member with the given key, if `v` is an object.
pub open spec fn jfield(v: Json, key: Seq<char>) -> Option<Json> {
    match v {
        Json::Obj(ms) => jlookup_from(ms@, key, 0),
        _ => None,
    }
}

/// Whether two string slices hold the same characters.
pub fn str_eq(a: &str, b: &str) -> (r: bool)
    ensures
        r == (a@ == b@),
{
    let na = a.unicode_len();
    let nb = b.unicode_len();
    if na != nb {
        return false;
    }
    let mut i: usize = 0;
    while i < na
        invariant
            na == a@.len(),
            na == b@.len(),
            i <= na,
            forall|j: int| 0 <= j < i ==> a@[j] == b@[j],
        decreases na - i,
    {
        if a.get_char(i) != b.get_char(i) {
            return false;
        }
        i = i + 1;
    }
    proof {
        assert(a@ =~= b@);
    }
    true
}

/// The first member value under `key`, as a reference.
pub fn get_field<'a>(v: &'a Json, key: &str) -> (r: Option<&'a Json>)
    ensures
        r matches Some(f) ==> jfield(*v, key@) == Some(*f),
        r is None ==> jfield(*v, key@) is None,
{
    match v {
        Json::Obj(ms) => {
            let n = ms.len();
            let mut i: usize = 0;
            while i < n
                invariant
                    n == ms@.len(),
                    i <= n,
                    *v is Obj,
                    (*v)->Obj_0@ == ms@,
                    jlookup_from(ms@, key@, 0) == jlookup_from(ms@, key@, i as int),
                decreases n - i,
            {
                if str_eq(ms[i].key.as_str(), key) {
                    return Some(&ms[i].value);
                }
                i = i + 1;
            }
            None
        }
        _ => None,
    }
}

/// Whether the frame's `type` tag equals the given text.
pub open spec fn has_tag(v: Json, tag: Seq<char>) -> bool {
    jfield(v, "type"@) matches Some(f) && f matches Json::Str(s) && s@ == tag
}

/// Whether `key` names a string member of `v`.
pub open spec fn str_field_ok(v: Json, key: Seq<char>) -> bool {
    jfield(v, key) matches Some(f) && f is Str
}

/// Whether the string member under `key` holds the text `s`.
pub open spec fn str_field_of(v: Json, key: Seq<char>, s: Seq<char>) -> bool {
    jfield(v, key) matches Some(f) && f matches Json::Str(fs) && fs@ == s
}

/// Whether `key` is absent, null, or a string member of `v`.
pub open spec fn opt_str_field_ok(v: Json, key: Seq<char>) -> bool {
    match jfield(v, key) {
        None => true,
        Some(f) => f is Str || f is Null,
    }
}

/// Whether the optional string member under `key` corresponds to `o`:
/// absent or null means `None`, a string means `Some` of its text.
pub open spec fn opt_str_field_of(v: Json, key: Seq<char>, o: Option<String>) -> bool {
    match jfield(v, key) {
        None => o is None,
        Some(f) => match f {
            Json::Null => o is None,
            Json::Str(fs) => o matches Some(os) && os@ == fs@,
            _ => false,
        },
    }
}

/// Whether `key` names an integer member of `v` in the signed 32-bit range.
pub open spec fn i32_field_ok(v: Json, key: Seq<char>) -> bool {
    jfield(v, key) matches Some(f) && f matches Json::Int(n) && i32::MIN <= n <= i32::MAX
}

/// Whether the integer member under `key` holds `n`.
pub open spec fn i32_field_of(v: Json, key: Seq<char>, n: i32) -> bool {
    jfield(v, key) matches Some(f) && f matches Json::Int(fn_) && fn_ == n as i64
}

/// Whether `key` names an integer member of `v` in the unsigned 32-bit
/// range.
pub open spec fn u32_field_ok(v: Json, key: Seq<char>) -> bool {
    jfield(v, key) matches Some(f) && f matches Json::Int(n) && 0 <= n <= u32::MAX
}

/// Whether the integer member under `key` holds `n`.
pub open spec fn u32_field_of(v: Json, key: Seq<char>, n: u32) -> bool {
    jfield(v, key) matches Some(f) && f matches Json::Int(fn_) && fn_ == n as i64
}

/// Whether `key` names a boolean member of `v`.
pub open spec fn bool_field_ok(v: Json, key: Seq<char>) -> bool {
    jfield(v, key) matches Some(f) && f is Bool
}

/// Whether the boolean member under `key` holds `b`.
pub open spec fn bool_field_of(v: Json, key: Seq<char>, b: bool) -> bool {
    jfield(v, key) matches Some(f) && f matches Json::Bool(fb) && fb == b
}

/// The string member under `key`, as an owned copy.
pub fn get_str_field(v: &Json, key: &str) -> (r: Option<String>)
    ensures
        r is Some <==> str_field_ok(*v, key@),
        r matches Some(s) ==> str_field_of(*v, key@, s@),
{
    match get_field(v, key) {
        Some(f) => match f {
            Json::Str(s) => Some(s.clone()),
            _ => None,
        },
        None => None,
    }
}

/// The optional string member under `key`. The outer `None` reports a
/// member of the wrong shape.
pub fn get_opt_str_field(v: &Json, key: &str) -> (r: Option<Option<String>>)
    ensures
        r is Some <==> opt_str_field_ok(*v, key@),
        r matches Some(o) ==> opt_str_field_of(*v, key@, o),
{
    match get_field(v, key) {
        None => Some(None),
        Some(f) => match f {
            Json::Null => Some(None),
            Json::Str(s) => Some(Some(s.clone())),
            _ => None,
        },
    }
}

/// The signed 32-bit member under `key`.
pub fn get_i32_field(v: &Json, key: &str) -> (r: Option<i32>)
    ensures
        r is Some <==> i32_field_ok(*v, key@),
        r matches Some(n) ==> i32_field_of(*v, key@, n),
{
    match get_field(v, key) {
        Some(f) => match f {
            Json::Int(n) => {
                if *n >= i32::MIN as i64 && *n <= i32::MAX as i64 {
                    Some(*n as i32)
                } else {
                    None
                }
            }
            _ => None,
        },
        None => None,
    }
}

/// The unsigned 32-bit member under `key`.
pub fn get_u32_field(v: &Json, key: &str) -> (r: Option<u32>)
    ensures
        r is Some <==> u32_field_ok(*v, key@),
        r matches Some(n) ==> u32_field_of(*v, key@, n),
{
    match get_field(v, key) {
        Some(f) => match f {
            Json::Int(n) => {
                if *n >= 0 && *n <= u32::MAX as i64 {
                    Some(*n as u32)
                } else {
                    None
                }
            }
            _ => None,
        },
        None => None,
    }
}

/// The boolean member under `key`.
pub fn get_bool_field(v: &Json, key: &str) -> (r: Option<bool>)
    ensures
        r is Some <==> bool_field_ok(*v, key@),
        r matches Some(b) ==> bool_field_of(*v, key@, b),
{
    match get_field(v, key) {
        Some(f) => match f {
            Json::Bool(b) => Some(*b),
            _ => None,
        },
        None => None,
    }
}

/// The shape of an acceptable reward entry in an update request.
pub open spec fn reward_entry_ok(j: Json) -> bool {
    &&& str_field_ok(j, "title"@)
    &&& str_field_ok(j, "prompt"@)
    &&& u32_field_ok(j, "cost"@)
    &&& bool_field_ok(j, "is_enabled"@)
    &&& bool_field_ok(j, "is_global_cooldown_enabled"@)
    &&& u32_field_ok(j, "global_cooldown_seconds"@)
}

/// Whether the reward entry `j` reads as the reward `r`.
pub open spec fn reward_entry_of(j: Json, r: CustomReward) -> bool {
    &&& str_field_of(j, "title"@, r.title@)
    &&& str_field_of(j, "prompt"@, r.prompt@)
    &&& u32_field_of(j, "cost"@, r.cost)
    &&& bool_field_of(j, "is_enabled"@, r.is_enabled)
    &&& bool_field_of(j, "is_global_cooldown_enabled"@, r.is_global_cooldown_enabled)
    &&& u32_field_of(j, "global_cooldown_seconds"@, r.global_cooldown_seconds)
}

/// The shape of the body of a redemption-status trigger.
pub open spec fn redemption_body_ok(b: Json) -> bool {
    &&& i32_field_ok(b, "request_id"@)
    &&& str_field_ok(b, "reward_id"@)
    &&& str_field_ok(b, "redemption_id"@)
}

/// The shape of the body of an update-rewards trigger.
pub open spec fn update_body_ok(b: Json) -> bool {
    &&& i32_field_ok(b, "request_id"@)
    &&& jfield(b, "rewards"@) matches Some(f)
    &&& f matches Json::Arr(items)
    &&& forall|j: int| 0 <= j < items@.len() ==> reward_entry_ok(#[trigger] items@[j])
}

/// The shape of an acceptable trigger body. The variants are tried in a
/// fixed order; the first one whose key is present decides, and must then
/// be well-formed.
pub open spec fn trigger_body_ok(t: Json) -> bool {
    match jfield(t, "ChannelPointsFulfill"@) {
        Some(b) => redemption_body_ok(b),
        None => match jfield(t, "ChannelPointsCancel"@) {
            Some(b) => redemption_body_ok(b),
            None => match jfield(t, "UpdateCustomRewards"@) {
                Some(b) => update_body_ok(b),
                None => match jfield(t, "GetCustomRewards"@) {
                    Some(b) => i32_field_ok(b, "request_id"@),
                    None => false,
                },
            },
        },
    }
}

/// Whether the redemption body `b` reads as the given fields.
pub open spec fn redemption_body_of(b: Json, request_id: i32, reward_id: Seq<char>,
    redemption_id: Seq<char>) -> bool {
    &&& i32_field_of(b, "request_id"@, request_id)
    &&& str_field_of(b, "reward_id"@, reward_id)
    &&& str_field_of(b, "redemption_id"@, redemption_id)
}

/// Whether the trigger body `t` reads as the request `r`, under the same
/// precedence order as `trigger_body_ok`.
pub open spec fn trigger_body_of(t: Json, r: TwitchTriggerRequest) -> bool {
    match jfield(t, "ChannelPointsFulfill"@) {
        Some(b) => {
            &&& r matches TwitchTriggerRequest::ChannelPointsFulfill {
                request_id,
                reward_id,
                redemption_id,
            }
            &&& redemption_body_of(b, request_id, reward_id@, redemption_id@)
        },
        None => match jfield(t, "ChannelPointsCancel"@) {
            Some(b) => {
                &&& r matches TwitchTriggerRequest::ChannelPointsCancel {
                    request_id,
                    reward_id,
                    redemption_id,
                }
                &&& redemption_body_of(b, request_id, reward_id@, redemption_id@)
            },
            None => match jfield(t, "UpdateCustomRewards"@) {
                Some(b) => {
                    &&& r matches TwitchTriggerRequest::UpdateCustomRewards {
                        request_id,
                        rewards,
                    }
                    &&& i32_field_of(b, "request_id"@, request_id)
                    &&& jfield(b, "rewards"@) matches Some(f)
                    &&& f matches Json::Arr(items)
                    &&& items@.len() == rewards@.len()
                    &&& forall|j: int|
                        0 <= j < items@.len() ==> reward_entry_of(
                            #[trigger] items@[j],
                            rewards@[j],
                        )
                },
                None => match jfield(t, "GetCustomRewards"@) {
                    Some(b) => {
                        &&& r matches TwitchTriggerRequest::GetCustomRewards { request_id }
                        &&& i32_field_of(b, "request_id"@, request_id)
                    },
                    None => false,
                },
            },
        },
    }
}

/// The shape of an acceptable client frame.
pub open spec fn client_frame_ok(v: Json) -> bool {
    ||| {
        &&& has_tag(v, "codeRequest"@)
        &&& opt_str_field_ok(v, "client_version"@)
    }
    ||| {
        &&& has_tag(v, "connect"@)
        &&& jfield(v, "ConnectRequest"@) matches Some(b)
        &&& str_field_ok(b, "state_token"@)
        &&& opt_str_field_ok(b, "client_version"@)
    }
    ||| {
        &&& has_tag(v, "twitchTrigger"@)
        &&& jfield(v, "TwitchTriggerRequest"@) matches Some(t)
        &&& trigger_body_ok(t)
    }
}

/// Whether the frame `v` reads as the message `m`.
pub open spec fn client_message_of(v: Json, m: ClientMessage) -> bool {
    match m {
        ClientMessage::CodeRequest(c) => {
            &&& has_tag(v, "codeRequest"@)
            &&& opt_str_field_of(v, "client_version"@, c.client_version)
        },
        ClientMessage::Connect(c) => {
            &&& has_tag(v, "connect"@)
            &&& jfield(v, "ConnectRequest"@) matches Some(b)
            &&& str_field_of(b, "state_token"@, c.state_token@)
            &&& opt_str_field_of(b, "client_version"@, c.client_version)
        },
        ClientMessage::TwitchTrigger(t) => {
            &&& has_tag(v, "twitchTrigger"@)
            &&& jfield(v, "TwitchTriggerRequest"@) matches Some(b)
            &&& trigger_body_of(b, t)
        },
    }
}

/// Reads one reward entry of an update request.
fn reward_of_json(j: &Json) -> (r: Option<CustomReward>)
    ensures
        r is Some <==> reward_entry_ok(*j),
        r matches Some(cr) ==> reward_entry_of(*j, cr),
{
    let title = get_str_field(j, "title");
    let prompt = get_str_field(j, "prompt");
    let cost = get_u32_field(j, "cost");
    let is_enabled = get_bool_field(j, "is_enabled");
    let is_gce = get_bool_field(j, "is_global_cooldown_enabled");
    let gcs = get_u32_field(j, "global_cooldown_seconds");
    match (title, prompt, cost, is_enabled, is_gce, gcs) {
        (Some(title), Some(prompt), Some(cost), Some(is_enabled), Some(is_gce), Some(gcs)) => Some(
            CustomReward {
                title,
                prompt,
                cost,
                is_enabled,
                is_global_cooldown_enabled: is_gce,
                global_cooldown_seconds: gcs,
            },
        ),
        _ => None,
    }
}

/// Reads the body of a redemption-status trigger.
fn redemption_body_of_json(b: &Json) -> (r: Option<(i32, String, String)>)
    ensures
        r is Some <==> redemption_body_ok(*b),
        r matches Some(t) ==> redemption_body_of(*b, t.0, t.1@, t.2@),
{
    let request_id = get_i32_field(b, "request_id");
    let reward_id = get_str_field(b, "reward_id");
    let redemption_id = get_str_field(b, "redemption_id");
    match (request_id, reward_id, redemption_id) {
        (Some(q), Some(rw), Some(rd)) => Some((q, rw, rd)),
        _ => None,
    }
}

/// Reads a trigger body, honouring the fixed variant precedence.
#[verifier::loop_isolation(false)]
fn trigger_of_json(t: &Json) -> (r: Option<TwitchTriggerRequest>)
    ensures
        r is Some <==> trigger_body_ok(*t),
        r matches Some(req) ==> trigger_body_of(*t, req),
{
    if let Some(b) = get_field(t, "ChannelPointsFulfill") {
        match redemption_body_of_json(b) {
            Some((request_id, reward_id, redemption_id)) => Some(
                TwitchTriggerRequest::ChannelPointsFulfill { request_id, reward_id, redemption_id },
            ),
            None => None,
        }
    } else if let Some(b) = get_field(t, "ChannelPointsCancel") {
        match redemption_body_of_json(b) {
            Some((request_id, reward_id, redemption_id)) => Some(
                TwitchTriggerRequest::ChannelPointsCancel { request_id, reward_id, redemption_id },
            ),
            None => None,
        }
    } else if let Some(b) = get_field(t, "UpdateCustomRewards") {
        let request_id = match get_i32_field(b, "request_id") {
            Some(q) => q,
            None => {
                return None;
            }
        };
        let items = match get_field(b, "rewards") {
            Some(f) => match f {
                Json::Arr(items) => items,
                _ => {
                    return None;
                }
            },
            None => {
                return None;
            }
        };
        let mut rewards: Vec<CustomReward> = Vec::new();
        let mut i: usize = 0;
        while i < items.len()
            invariant
                i <= items@.len(),
                rewards@.len() == i,
                forall|j: int| 0 <= j < i ==> reward_entry_of(
                    #[trigger] items@[j],
                    rewards@[j],
                ) && reward_entry_ok(items@[j]),
            decreases items@.len() - i,
        {
            match reward_of_json(&items[i]) {
                Some(cr) => {
                    rewards.push(cr);
                }
                None => {
                    return None;
                }
            }
            i = i + 1;
        }
        Some(TwitchTriggerRequest::UpdateCustomRewards { request_id, rewards })
    } else if let Some(b) = get_field(t, "GetCustomRewards") {
        match get_i32_field(b, "request_id") {
            Some(request_id) => Some(TwitchTriggerRequest::GetCustomRewards { request_id }),
            None => None,
        }
    } else {
        None
    }
}

proof fn lemma_tags_distinct()
    ensures
        "codeRequest"@ != "connect"@,
        "codeRequest"@ != "twitchTrigger"@,
        "connect"@ != "twitchTrigger"@,
{
    reveal_strlit("codeRequest");
    reveal_strlit("connect");
    reveal_strlit("twitchTrigger");
    assert("codeRequest"@.len() == 11);
    assert("connect"@.len() == 7);
    assert("twitchTrigger"@.len() == 13);
}

/// Classifies a parsed frame. Succeeds exactly on the shapes
/// `client_frame_ok` describes, and the message corresponds to the frame
/// field by field.
pub fn client_message_of_json(v: &Json) -> (r: Option<ClientMessage>)
    ensures
        r is Some <==> client_frame_ok(*v),
        r matches Some(m) ==> client_message_of(*v, m),
{
    proof {
        lemma_tags_distinct();
    }
    let tag = match get_str_field(v, "type") {
        Some(t) => t,
        None => {
            return None;
        }
    };
    if str_eq(tag.as_str(), "codeRequest") {
        match get_opt_str_field(v, "client_version") {
            Some(client_version) => Some(
                ClientMessage::CodeRequest(CodeRequest { client_version }),
            ),
            None => None,
        }
    } else if str_eq(tag.as_str(), "connect") {
        let b = match get_field(v, "ConnectRequest") {
            Some(b) => b,
            None => {
                return None;
            }
        };
        let state_token = match get_str_field(b, "state_token") {
            Some(s) => s,
            None => {
                return None;
            }
        };
        match get_opt_str_field(b, "client_version") {
            Some(client_version) => Some(
                ClientMessage::Connect(ConnectRequest { state_token, client_version }),
            ),
            None => None,
        }
    } else if str_eq(tag.as_str(), "twitchTrigger") {
        let b = match get_field(v, "TwitchTriggerRequest") {
            Some(b) => b,
            None => {
                return None;
            }
        };
        match trigger_of_json(b) {
            Some(req) => Some(ClientMessage::TwitchTrigger(req)),
            None => None,
        }
    } else {
        None
    }
}

/// Parses one inbound text frame and classifies it. The contract pins
/// the classification side: a returned message reads off some well-formed
/// frame, field by field. It does not pin acceptance: which texts parse
/// is decided by `parse_json`'s code, and only the tests exercise it.
pub fn parse_client_frame(text: &Vec<char>) -> (r: Option<ClientMessage>)
    ensures
        r matches Some(m) ==> exists|v: Json| client_frame_ok(v) && client_message_of(v, m),
{
    match crate::json::parse_json(text) {
        Some(v) => {
            let r = client_message_of_json(&v);
            proof {
                if r is Some {
                    assert(client_frame_ok(v) && client_message_of(v, r->0));
                }
            }
            r
        }
        None => None,
    }
}

/// Takes the first member value under `key` out of an owned object,
/// consuming the value. The result is exactly what `jfield` names.
pub fn take_field(v: Json, key: &str) -> (r: Option<Json>)
    ensures
        match jfield(v, key@) {
            Some(f) => r == Some(f),
            None => r is None,
        },
{
    match v {
        Json::Obj(mut ms) => {
            let ghost orig = ms@;
            let n = ms.len();
            let mut i: usize = 0;
            while i < n
                invariant
                    ms@ == orig,
                    v is Obj,
                    v->Obj_0@ == orig,
                    n == ms@.len(),
                    i <= n,
                    jlookup_from(ms@, key@, 0) == jlookup_from(ms@, key@, i as int),
                decreases n - i,
            {
                if str_eq(ms[i].key.as_str(), key) {
                    proof {
                        assert(jlookup_from(orig, key@, i as int) == Some(orig[i as int].value));
                    }
                    let m = ms.remove(i);
                    return Some(m.value);
                }
                i = i + 1;
            }
            None
        }
        _ => None,
    }
}

} // verus!
