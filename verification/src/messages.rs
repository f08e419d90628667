//! The client/server message vocabulary and its exact wire text.
//!
//! Every frame is a JSON object whose first member is a `type` tag. The
//! functions here turn messages into `Json` documents whose canonical text
//! is pinned, character for character, by spec functions.

use vstd::prelude::*;
use crate::json::{Json, Member, jtext, esc_str};

verus! {

/// A client asks to resume under an existing state token.
pub struct ConnectRequest {
    /// The random code given to the client to identify itself.
    pub state_token: String,
    /// The version the client reports, if any.
    pub client_version: Option<String>,
}

/// A client asks for a fresh state token.
pub struct CodeRequest {
    /// The version the client reports, if any.
    pub client_version: Option<String>,
}

/// The server hands out a fresh state token.
pub struct CodeResponse {
    /// The random code given to the client to identify itself.
    pub state_token: String,
}

/// The server reports which provider identities a state token carries.
pub struct ConnectResponse {
    pub has_twitch: bool,
    pub has_streamlabs: bool,
    pub twitch_id: Option<i32>,
    pub twitch_name: Option<String>,
    pub streamlabs_name: Option<String>,
    pub streamlabs_id: Option<String>,
}

/// A desired channel-point reward, as a client states it.
pub struct CustomReward {
    pub title: String,
    pub prompt: String,
    pub cost: u32,
    pub is_enabled: bool,
    pub is_global_cooldown_enabled: bool,
    pub global_cooldown_seconds: u32,
}

/// A client-initiated Twitch action.
pub enum TwitchTriggerRequest {
    ChannelPointsFulfill { request_id: i32, reward_id: String, redemption_id: String },
    ChannelPointsCancel { request_id: i32, reward_id: String, redemption_id: String },
    UpdateCustomRewards { request_id: i32, rewards: Vec<CustomReward> },
    GetCustomRewards { request_id: i32 },
}

/// A channel-point reward as Twitch reports it, with its upstream id.
pub struct CustomRewardResponse {
    pub id: String,
    pub title: String,
    pub prompt: String,
    pub cost: u32,
    pub is_enabled: bool,
    pub is_global_cooldown_enabled: bool,
    pub global_cooldown_seconds: u32,
}

/// A short notice shown to the user.
pub struct Notify {
    pub title: String,
    pub message: String,
}

/// An instruction to switch the client's avatar.
pub struct ChangeAvatar {
    pub id: String,
}

/// A Twitch event forwarded downstream.
pub struct TwitchEvent {
    pub user_id: String,
    pub user_name: String,
    pub event: TwitchEventSource,
}

/// The kinds of Twitch events the gateway forwards.
#[allow(inconsistent_fields)]
pub enum TwitchEventSource {
    ChannelPoints { reward_id: String, reward_name: String },
    BitDonation { amount: u32, message: Option<String>, emojis: Option<Vec<String>> },
    Whisper { sender: String, message: String },
    Message { sender: String, message: String },
}

/// One Streamlabs realtime payload, kept raw where its shape is unknown.
pub struct StreamLabsEvent {
    pub event_id: Option<String>,
    pub for_: Option<String>,
    pub message: Json,
    pub type_: String,
}

/// An error reported to the client.
pub struct ErrorMessage {
    pub request_id: i32,
    pub source: String,
    pub message: String,
}

/// The outcome of a client-initiated task.
pub struct TaskResponse {
    pub request_id: i32,
    pub success: bool,
    pub message: Option<String>,
}

/// Every frame the server sends.
pub enum ServerMessage {
    ConnectResponse(ConnectResponse),
    CodeResponse(CodeResponse),
    CustomRewards { rewards: Vec<CustomRewardResponse> },
    Notify(Notify),
    ChangeAvatar(ChangeAvatar),
    TwitchEvent(TwitchEvent),
    StreamLabsEvent { events: Vec<StreamLabsEvent> },
    Error(ErrorMessage),
    TaskResponse(TaskResponse),
}

/// Every frame a client may send.
pub enum ClientMessage {
    Connect(ConnectRequest),
    CodeRequest(CodeRequest),
    TwitchTrigger(TwitchTriggerRequest),
}

/// The text of a JSON string literal holding `s`.
pub open spec fn jstr(s: Seq<char>) -> Seq<char> {
    seq!['"'] + esc_str(s) + seq!['"']
}

/// The text of an optional string: a literal, or `null`.
pub open spec fn jopt_str(s: Option<String>) -> Seq<char> {
    match s {
        Some(v) => jstr(v@),
        None => seq!['n', 'u', 'l', 'l'],
    }
}

/// The text of an optional 32-bit integer: decimal, or `null`.
pub open spec fn jopt_i32(n: Option<i32>) -> Seq<char> {
    match n {
        Some(v) => crate::json::int_text(v as int),
        None => seq!['n', 'u', 'l', 'l'],
    }
}

/// The text of a boolean.
pub open spec fn jbool(b: bool) -> Seq<char> {
    if b { seq!['t', 'r', 'u', 'e'] } else { seq!['f', 'a', 'l', 's', 'e'] }
}


/// The decimal text of an integer member value.
pub open spec fn jint(n: int) -> Seq<char> {
    crate::json::int_text(n)
}

/// The text of one object member with the given key name and value text.
pub open spec fn jmember(name: Seq<char>, vtext: Seq<char>) -> Seq<char> {
    seq!['"'] + esc_str(name) + seq!['"', ':'] + vtext
}

/// The text of an object of one member.
pub open spec fn obj1_text(m0: Seq<char>) -> Seq<char> {
    seq!['{'] + m0 + seq!['}']
}

/// The text of an object of two members.
pub open spec fn obj2_text(m0: Seq<char>, m1: Seq<char>) -> Seq<char> {
    seq!['{'] + (m0 + seq![','] + m1) + seq!['}']
}

/// The text of an object of three members.
pub open spec fn obj3_text(m0: Seq<char>, m1: Seq<char>, m2: Seq<char>) -> Seq<char> {
    seq!['{'] + (m0 + seq![','] + (m1 + seq![','] + m2)) + seq!['}']
}

/// The text of an object of four members.
pub open spec fn obj4_text(m0: Seq<char>, m1: Seq<char>, m2: Seq<char>, m3: Seq<char>) -> Seq<
    char,
> {
    seq!['{'] + (m0 + seq![','] + (m1 + seq![','] + (m2 + seq![','] + m3))) + seq!['}']
}

/// The text of an object of seven members.
pub open spec fn obj7_text(
    m0: Seq<char>,
    m1: Seq<char>,
    m2: Seq<char>,
    m3: Seq<char>,
    m4: Seq<char>,
    m5: Seq<char>,
    m6: Seq<char>,
) -> Seq<char> {
    seq!['{'] + (m0 + seq![','] + (m1 + seq![','] + (m2 + seq![','] + (m3 + seq![','] + (m4
        + seq![','] + (m5 + seq![','] + m6)))))) + seq!['}']
}

/// The comma-separated concatenation of element texts from index `i` on.
pub open spec fn texts_from(ts: Seq<Seq<char>>, i: int) -> Seq<char>
    decreases ts.len() - i,
{
    if i < 0 || i >= ts.len() { Seq::empty() }
    else if i + 1 == ts.len() { ts[i] }
    else { ts[i] + seq![','] + texts_from(ts, i + 1) }
}

/// The text of an array whose elements have the given texts.
pub open spec fn jarr(ts: Seq<Seq<char>>) -> Seq<char> {
    seq!['['] + texts_from(ts, 0) + seq![']']
}

/// The text of an object whose members have the given texts.
pub open spec fn obj_join(ts: Seq<Seq<char>>) -> Seq<char> {
    seq!['{'] + texts_from(ts, 0) + seq!['}']
}

/// The texts of an object's members.
pub open spec fn member_texts(ms: Seq<Member>) -> Seq<Seq<char>> {
    Seq::new(ms.len(), |i: int| crate::json::member_text(ms[i]))
}

pub(crate) proof fn lemma_obj_text_1(ms: Seq<Member>)
    requires
        ms.len() == 1,
    ensures
        crate::json::obj_text_from(ms, 0) == crate::json::member_text(ms[0]),
{
    reveal_with_fuel(crate::json::obj_text_from, 2);
}

pub(crate) proof fn lemma_obj_text_2(ms: Seq<Member>)
    requires
        ms.len() == 2,
    ensures
        crate::json::obj_text_from(ms, 0) == crate::json::member_text(ms[0]) + seq![',']
            + crate::json::member_text(ms[1]),
{
    reveal_with_fuel(crate::json::obj_text_from, 3);
    assert(crate::json::obj_text_from(ms, 1) == crate::json::member_text(ms[1]));
}

pub(crate) proof fn lemma_obj_text_3(ms: Seq<Member>)
    requires
        ms.len() == 3,
    ensures
        crate::json::obj_text_from(ms, 0) == crate::json::member_text(ms[0]) + seq![','] + (
        crate::json::member_text(ms[1]) + seq![','] + crate::json::member_text(ms[2])),
{
    reveal_with_fuel(crate::json::obj_text_from, 4);
    assert(crate::json::obj_text_from(ms, 2) == crate::json::member_text(ms[2]));
    assert(crate::json::obj_text_from(ms, 1) == crate::json::member_text(ms[1]) + seq![',']
        + crate::json::obj_text_from(ms, 2));
}

pub(crate) proof fn lemma_obj_text_4(ms: Seq<Member>)
    requires
        ms.len() == 4,
    ensures
        crate::json::obj_text_from(ms, 0) == crate::json::member_text(ms[0]) + seq![','] + (
        crate::json::member_text(ms[1]) + seq![','] + (crate::json::member_text(ms[2]) + seq![',']
            + crate::json::member_text(ms[3]))),
{
    reveal_with_fuel(crate::json::obj_text_from, 5);
    assert(crate::json::obj_text_from(ms, 3) == crate::json::member_text(ms[3]));
    assert(crate::json::obj_text_from(ms, 2) == crate::json::member_text(ms[2]) + seq![',']
        + crate::json::obj_text_from(ms, 3));
    assert(crate::json::obj_text_from(ms, 1) == crate::json::member_text(ms[1]) + seq![',']
        + crate::json::obj_text_from(ms, 2));
}

pub(crate) proof fn lemma_obj_text_7(ms: Seq<Member>)
    requires
        ms.len() == 7,
    ensures
        crate::json::obj_text_from(ms, 0) == crate::json::member_text(ms[0]) + seq![','] + (
        crate::json::member_text(ms[1]) + seq![','] + (crate::json::member_text(ms[2]) + seq![',']
            + (crate::json::member_text(ms[3]) + seq![','] + (crate::json::member_text(ms[4])
            + seq![','] + (crate::json::member_text(ms[5]) + seq![',']
            + crate::json::member_text(ms[6])))))),
{
    reveal_with_fuel(crate::json::obj_text_from, 8);
    assert(crate::json::obj_text_from(ms, 6) == crate::json::member_text(ms[6]));
    assert(crate::json::obj_text_from(ms, 5) == crate::json::member_text(ms[5]) + seq![',']
        + crate::json::obj_text_from(ms, 6));
    assert(crate::json::obj_text_from(ms, 4) == crate::json::member_text(ms[4]) + seq![',']
        + crate::json::obj_text_from(ms, 5));
    assert(crate::json::obj_text_from(ms, 3) == crate::json::member_text(ms[3]) + seq![',']
        + crate::json::obj_text_from(ms, 4));
    assert(crate::json::obj_text_from(ms, 2) == crate::json::member_text(ms[2]) + seq![',']
        + crate::json::obj_text_from(ms, 3));
    assert(crate::json::obj_text_from(ms, 1) == crate::json::member_text(ms[1]) + seq![',']
        + crate::json::obj_text_from(ms, 2));
}

pub(crate) proof fn lemma_obj_texts(ms: Seq<Member>, ts: Seq<Seq<char>>, i: int)
    requires
        ts.len() == ms.len(),
        0 <= i,
        forall|j: int| i <= j < ms.len() ==> crate::json::member_text(#[trigger] ms[j]) == ts[j],
    ensures
        crate::json::obj_text_from(ms, i) == texts_from(ts, i),
    decreases ms.len() - i,
{
    if i < ms.len() {
        lemma_obj_texts(ms, ts, i + 1);
    }
}

pub(crate) proof fn lemma_arr_texts(items: Seq<Json>, ts: Seq<Seq<char>>, i: int)
    requires
        ts.len() == items.len(),
        0 <= i,
        forall|j: int| i <= j < items.len() ==> jtext(#[trigger] items[j]) == ts[j],
    ensures
        crate::json::arr_text_from(items, i) == texts_from(ts, i),
    decreases items.len() - i,
{
    if i < items.len() {
        lemma_arr_texts(items, ts, i + 1);
    }
}

/// Builds an optional string value: a JSON string, or null.
fn opt_str_json(o: &Option<String>) -> (r: Json)
    ensures
        jtext(r) == jopt_str(*o),
{
    match o {
        Some(s) => Json::Str(s.clone()),
        None => Json::Null,
    }
}

/// The wire text of a `notify` frame.
pub open spec fn notify_text(n: Notify) -> Seq<char> {
    obj3_text(
        jmember("type"@, jstr("notify"@)),
        jmember("title"@, jstr(n.title@)),
        jmember("message"@, jstr(n.message@)),
    )
}

/// Builds the `notify` frame.
pub fn notify_json(n: &Notify) -> (r: Json)
    ensures
        jtext(r) == notify_text(*n),
{
    let members = vec![
        Member { key: "type".to_owned(), value: Json::Str("notify".to_owned()) },
        Member { key: "title".to_owned(), value: Json::Str(n.title.clone()) },
        Member { key: "message".to_owned(), value: Json::Str(n.message.clone()) },
    ];
    let r = Json::Obj(members);
    proof {
        lemma_obj_text_3(r->Obj_0@);
        assert(jtext(r) == notify_text(*n));
    }
    r
}

/// The wire text of a `codeResponse` frame.
pub open spec fn code_response_text(c: CodeResponse) -> Seq<char> {
    obj2_text(
        jmember("type"@, jstr("codeResponse"@)),
        jmember("state_token"@, jstr(c.state_token@)),
    )
}

/// Builds the `codeResponse` frame.
pub fn code_response_json(c: &CodeResponse) -> (r: Json)
    ensures
        jtext(r) == code_response_text(*c),
{
    let members = vec![
        Member { key: "type".to_owned(), value: Json::Str("codeResponse".to_owned()) },
        Member { key: "state_token".to_owned(), value: Json::Str(c.state_token.clone()) },
    ];
    let r = Json::Obj(members);
    proof {
        lemma_obj_text_2(r->Obj_0@);
        assert(jtext(r) == code_response_text(*c));
    }
    r
}

/// The wire text of a `changeAvatar` frame.
pub open spec fn change_avatar_text(c: ChangeAvatar) -> Seq<char> {
    obj2_text(jmember("type"@, jstr("changeAvatar"@)), jmember("id"@, jstr(c.id@)))
}

/// Builds the `changeAvatar` frame.
pub fn change_avatar_json(c: &ChangeAvatar) -> (r: Json)
    ensures
        jtext(r) == change_avatar_text(*c),
{
    let members = vec![
        Member { key: "type".to_owned(), value: Json::Str("changeAvatar".to_owned()) },
        Member { key: "id".to_owned(), value: Json::Str(c.id.clone()) },
    ];
    let r = Json::Obj(members);
    proof {
        lemma_obj_text_2(r->Obj_0@);
        assert(jtext(r) == change_avatar_text(*c));
    }
    r
}

/// The wire text of an `error` frame.
pub open spec fn error_text(e: ErrorMessage) -> Seq<char> {
    obj4_text(
        jmember("type"@, jstr("error"@)),
        jmember("request_id"@, jint(e.request_id as int)),
        jmember("source"@, jstr(e.source@)),
        jmember("message"@, jstr(e.message@)),
    )
}

/// Builds the `error` frame.
pub fn error_json(e: &ErrorMessage) -> (r: Json)
    ensures
        jtext(r) == error_text(*e),
{
    let members = vec![
        Member { key: "type".to_owned(), value: Json::Str("error".to_owned()) },
        Member { key: "request_id".to_owned(), value: Json::Int(e.request_id as i64) },
        Member { key: "source".to_owned(), value: Json::Str(e.source.clone()) },
        Member { key: "message".to_owned(), value: Json::Str(e.message.clone()) },
    ];
    let r = Json::Obj(members);
    proof {
        lemma_obj_text_4(r->Obj_0@);
        assert(jtext(r) == error_text(*e));
    }
    r
}

/// The wire text of a `taskResponse` frame.
pub open spec fn task_response_text(t: TaskResponse) -> Seq<char> {
    obj4_text(
        jmember("type"@, jstr("taskResponse"@)),
        jmember("request_id"@, jint(t.request_id as int)),
        jmember("success"@, jbool(t.success)),
        jmember("message"@, jopt_str(t.message)),
    )
}

/// Builds the `taskResponse` frame.
pub fn task_response_json(t: &TaskResponse) -> (r: Json)
    ensures
        jtext(r) == task_response_text(*t),
{
    let members = vec![
        Member { key: "type".to_owned(), value: Json::Str("taskResponse".to_owned()) },
        Member { key: "request_id".to_owned(), value: Json::Int(t.request_id as i64) },
        Member { key: "success".to_owned(), value: Json::Bool(t.success) },
        Member { key: "message".to_owned(), value: opt_str_json(&t.message) },
    ];
    let r = Json::Obj(members);
    proof {
        lemma_obj_text_4(r->Obj_0@);
        assert(jtext(r) == task_response_text(*t));
    }
    r
}

/// The wire text of a `connectResponse` frame.
pub open spec fn connect_response_text(c: ConnectResponse) -> Seq<char> {
    obj7_text(
        jmember("type"@, jstr("connectResponse"@)),
        jmember("has_twitch"@, jbool(c.has_twitch)),
        jmember("has_streamlabs"@, jbool(c.has_streamlabs)),
        jmember("twitch_id"@, jopt_i32(c.twitch_id)),
        jmember("twitch_name"@, jopt_str(c.twitch_name)),
        jmember("streamlabs_name"@, jopt_str(c.streamlabs_name)),
        jmember("streamlabs_id"@, jopt_str(c.streamlabs_id)),
    )
}

/// Builds the `connectResponse` frame.
pub fn connect_response_json(c: &ConnectResponse) -> (r: Json)
    ensures
        jtext(r) == connect_response_text(*c),
{
    let twitch_id_value = match &c.twitch_id {
        Some(v) => Json::Int(*v as i64),
        None => Json::Null,
    };
    let members = vec![
        Member { key: "type".to_owned(), value: Json::Str("connectResponse".to_owned()) },
        Member { key: "has_twitch".to_owned(), value: Json::Bool(c.has_twitch) },
        Member { key: "has_streamlabs".to_owned(), value: Json::Bool(c.has_streamlabs) },
        Member { key: "twitch_id".to_owned(), value: twitch_id_value },
        Member { key: "twitch_name".to_owned(), value: opt_str_json(&c.twitch_name) },
        Member { key: "streamlabs_name".to_owned(), value: opt_str_json(&c.streamlabs_name) },
        Member { key: "streamlabs_id".to_owned(), value: opt_str_json(&c.streamlabs_id) },
    ];
    let r = Json::Obj(members);
    proof {
        lemma_obj_text_7(r->Obj_0@);
        assert(jtext(r) == connect_response_text(*c));
    }
    r
}

/// The wire text of one reward as Twitch reports it.
pub open spec fn reward_resp_text(r: CustomRewardResponse) -> Seq<char> {
    obj7_text(
        jmember("id"@, jstr(r.id@)),
        jmember("title"@, jstr(r.title@)),
        jmember("prompt"@, jstr(r.prompt@)),
        jmember("cost"@, jint(r.cost as int)),
        jmember("is_enabled"@, jbool(r.is_enabled)),
        jmember("is_global_cooldown_enabled"@, jbool(r.is_global_cooldown_enabled)),
        jmember("global_cooldown_seconds"@, jint(r.global_cooldown_seconds as int)),
    )
}

/// Builds one reward object.
pub fn reward_resp_json(r: &CustomRewardResponse) -> (j: Json)
    ensures
        jtext(j) == reward_resp_text(*r),
{
    let members = vec![
        Member { key: "id".to_owned(), value: Json::Str(r.id.clone()) },
        Member { key: "title".to_owned(), value: Json::Str(r.title.clone()) },
        Member { key: "prompt".to_owned(), value: Json::Str(r.prompt.clone()) },
        Member { key: "cost".to_owned(), value: Json::Int(r.cost as i64) },
        Member { key: "is_enabled".to_owned(), value: Json::Bool(r.is_enabled) },
        Member {
            key: "is_global_cooldown_enabled".to_owned(),
            value: Json::Bool(r.is_global_cooldown_enabled),
        },
        Member {
            key: "global_cooldown_seconds".to_owned(),
            value: Json::Int(r.global_cooldown_seconds as i64),
        },
    ];
    let j = Json::Obj(members);
    proof {
        lemma_obj_text_7(j->Obj_0@);
        assert(jtext(j) == reward_resp_text(*r));
    }
    j
}

/// The element texts of a reward list.
pub open spec fn reward_texts(rs: Seq<CustomRewardResponse>) -> Seq<Seq<char>> {
    Seq::new(rs.len(), |j: int| reward_resp_text(rs[j]))
}

/// The wire text of a `customRewards` frame.
pub open spec fn custom_rewards_text(rs: Seq<CustomRewardResponse>) -> Seq<char> {
    obj2_text(
        jmember("type"@, jstr("customRewards"@)),
        jmember("rewards"@, jarr(reward_texts(rs))),
    )
}

/// Builds the `customRewards` frame.
pub fn custom_rewards_json(rs: &Vec<CustomRewardResponse>) -> (r: Json)
    ensures
        jtext(r) == custom_rewards_text(rs@),
{
    let mut items: Vec<Json> = Vec::new();
    let mut i: usize = 0;
    while i < rs.len()
        invariant
            i <= rs@.len(),
            items@.len() == i,
            forall|j: int| 0 <= j < i ==> jtext(#[trigger] items@[j]) == reward_texts(rs@)[j],
        decreases rs@.len() - i,
    {
        items.push(reward_resp_json(&rs[i]));
        i = i + 1;
    }
    let arr = Json::Arr(items);
    let members = vec![
        Member { key: "type".to_owned(), value: Json::Str("customRewards".to_owned()) },
        Member { key: "rewards".to_owned(), value: arr },
    ];
    let r = Json::Obj(members);
    proof {
        lemma_arr_texts(r->Obj_0@[1].value->Arr_0@, reward_texts(rs@), 0);
        lemma_obj_text_2(r->Obj_0@);
        assert(jtext(r) == custom_rewards_text(rs@));
    }
    r
}

/// The element texts of a string list.
pub open spec fn str_texts(ss: Seq<String>) -> Seq<Seq<char>> {
    Seq::new(ss.len(), |j: int| jstr(ss[j]@))
}

/// The text of an optional string list: an array, or `null`.
pub open spec fn jopt_str_arr(o: Option<Vec<String>>) -> Seq<char> {
    match o {
        Some(v) => jarr(str_texts(v@)),
        None => seq!['n', 'u', 'l', 'l'],
    }
}

/// Builds an optional string-array value.
fn opt_str_arr_json(o: &Option<Vec<String>>) -> (r: Json)
    ensures
        jtext(r) == jopt_str_arr(*o),
{
    match o {
        None => Json::Null,
        Some(v) => {
            let mut items: Vec<Json> = Vec::new();
            let mut i: usize = 0;
            while i < v.len()
                invariant
                    i <= v@.len(),
                    items@.len() == i,
                    forall|j: int| 0 <= j < i ==> jtext(#[trigger] items@[j]) == str_texts(v@)[j],
                decreases v@.len() - i,
            {
                items.push(Json::Str(v[i].clone()));
                i = i + 1;
            }
            let r = Json::Arr(items);
            proof {
                lemma_arr_texts(r->Arr_0@, str_texts(v@), 0);
                assert(jtext(r) == jopt_str_arr(Some(*v)));
            }
            r
        }
    }
}

/// The wire text of the nested Twitch event object.
pub open spec fn twitch_event_source_text(e: TwitchEventSource) -> Seq<char> {
    match e {
        TwitchEventSource::ChannelPoints { reward_id, reward_name } => obj3_text(
            jmember("type"@, jstr("ChannelPoints"@)),
            jmember("reward_id"@, jstr(reward_id@)),
            jmember("reward_name"@, jstr(reward_name@)),
        ),
        TwitchEventSource::BitDonation { amount, message, emojis } => obj4_text(
            jmember("type"@, jstr("BitDonation"@)),
            jmember("amount"@, jint(amount as int)),
            jmember("message"@, jopt_str(message)),
            jmember("emojis"@, jopt_str_arr(emojis)),
        ),
        TwitchEventSource::Whisper { sender, message } => obj3_text(
            jmember("type"@, jstr("Whisper"@)),
            jmember("sender"@, jstr(sender@)),
            jmember("message"@, jstr(message@)),
        ),
        TwitchEventSource::Message { sender, message } => obj3_text(
            jmember("type"@, jstr("Message"@)),
            jmember("sender"@, jstr(sender@)),
            jmember("message"@, jstr(message@)),
        ),
    }
}

/// Builds the nested Twitch event object.
pub fn twitch_event_source_json(e: &TwitchEventSource) -> (r: Json)
    ensures
        jtext(r) == twitch_event_source_text(*e),
{
    match e {
        TwitchEventSource::ChannelPoints { reward_id, reward_name } => {
            let members = vec![
                Member { key: "type".to_owned(), value: Json::Str("ChannelPoints".to_owned()) },
                Member { key: "reward_id".to_owned(), value: Json::Str(reward_id.clone()) },
                Member { key: "reward_name".to_owned(), value: Json::Str(reward_name.clone()) },
            ];
            let r = Json::Obj(members);
            proof {
                lemma_obj_text_3(r->Obj_0@);
                assert(jtext(r) == twitch_event_source_text(*e));
            }
            r
        }
        TwitchEventSource::BitDonation { amount, message, emojis } => {
            let members = vec![
                Member { key: "type".to_owned(), value: Json::Str("BitDonation".to_owned()) },
                Member { key: "amount".to_owned(), value: Json::Int(*amount as i64) },
                Member { key: "message".to_owned(), value: opt_str_json(message) },
                Member { key: "emojis".to_owned(), value: opt_str_arr_json(emojis) },
            ];
            let r = Json::Obj(members);
            proof {
                lemma_obj_text_4(r->Obj_0@);
                assert(jtext(r) == twitch_event_source_text(*e));
            }
            r
        }
        TwitchEventSource::Whisper { sender, message } => {
            let members = vec![
                Member { key: "type".to_owned(), value: Json::Str("Whisper".to_owned()) },
                Member { key: "sender".to_owned(), value: Json::Str(sender.clone()) },
                Member { key: "message".to_owned(), value: Json::Str(message.clone()) },
            ];
            let r = Json::Obj(members);
            proof {
                lemma_obj_text_3(r->Obj_0@);
                assert(jtext(r) == twitch_event_source_text(*e));
            }
            r
        }
        TwitchEventSource::Message { sender, message } => {
            let members = vec![
                Member { key: "type".to_owned(), value: Json::Str("Message".to_owned()) },
                Member { key: "sender".to_owned(), value: Json::Str(sender.clone()) },
                Member { key: "message".to_owned(), value: Json::Str(message.clone()) },
            ];
            let r = Json::Obj(members);
            proof {
                lemma_obj_text_3(r->Obj_0@);
                assert(jtext(r) == twitch_event_source_text(*e));
            }
            r
        }
    }
}

/// The wire text of a `twitchEvent` frame.
pub open spec fn twitch_event_text(e: TwitchEvent) -> Seq<char> {
    obj4_text(
        jmember("type"@, jstr("twitchEvent"@)),
        jmember("user_id"@, jstr(e.user_id@)),
        jmember("user_name"@, jstr(e.user_name@)),
        jmember("event"@, twitch_event_source_text(e.event)),
    )
}

/// Builds the `twitchEvent` frame.
pub fn twitch_event_json(e: &TwitchEvent) -> (r: Json)
    ensures
        jtext(r) == twitch_event_text(*e),
{
    let members = vec![
        Member { key: "type".to_owned(), value: Json::Str("twitchEvent".to_owned()) },
        Member { key: "user_id".to_owned(), value: Json::Str(e.user_id.clone()) },
        Member { key: "user_name".to_owned(), value: Json::Str(e.user_name.clone()) },
        Member { key: "event".to_owned(), value: twitch_event_source_json(&e.event) },
    ];
    let r = Json::Obj(members);
    proof {
        lemma_obj_text_4(r->Obj_0@);
        assert(jtext(r) == twitch_event_text(*e));
    }
    r
}

/// The wire text of one Streamlabs event object.
pub open spec fn sl_event_text(e: StreamLabsEvent) -> Seq<char> {
    obj4_text(
        jmember("event_id"@, jopt_str(e.event_id)),
        jmember("for"@, jopt_str(e.for_)),
        jmember("message"@, jtext(e.message)),
        jmember("type"@, jstr(e.type_@)),
    )
}

/// Builds one Streamlabs event object. Takes the event by value: its raw
/// payload moves into the frame.
pub fn sl_event_json(e: StreamLabsEvent) -> (r: Json)
    ensures
        jtext(r) == sl_event_text(e),
{
    let StreamLabsEvent { event_id, for_, message, type_ } = e;
    let members = vec![
        Member { key: "event_id".to_owned(), value: opt_str_json(&event_id) },
        Member { key: "for".to_owned(), value: opt_str_json(&for_) },
        Member { key: "message".to_owned(), value: message },
        Member { key: "type".to_owned(), value: Json::Str(type_) },
    ];
    let r = Json::Obj(members);
    proof {
        lemma_obj_text_4(r->Obj_0@);
        assert(jtext(r) == sl_event_text(e));
    }
    r
}

/// The element texts of a Streamlabs event list.
pub open spec fn sl_event_texts(es: Seq<StreamLabsEvent>) -> Seq<Seq<char>> {
    Seq::new(es.len(), |j: int| sl_event_text(es[j]))
}

/// The wire text of a `streamLabsEvent` frame.
pub open spec fn stream_labs_text(es: Seq<StreamLabsEvent>) -> Seq<char> {
    obj2_text(
        jmember("type"@, jstr("streamLabsEvent"@)),
        jmember("events"@, jarr(sl_event_texts(es))),
    )
}

/// Builds the `streamLabsEvent` frame. Takes the events by value: their raw
/// payloads move into the frame.
pub fn stream_labs_json(events: Vec<StreamLabsEvent>) -> (r: Json)
    ensures
        jtext(r) == stream_labs_text(events@),
{
    let ghost orig = events@;
    let mut events = events;
    let mut items: Vec<Json> = Vec::new();
    while events.len() > 0
        invariant
            items@.len() + events@.len() == orig.len(),
            events@ =~= orig.subrange(items@.len() as int, orig.len() as int),
            forall|j: int| 0 <= j < items@.len() ==> jtext(#[trigger] items@[j])
                == sl_event_texts(orig)[j],
        decreases events@.len(),
    {
        let e = events.remove(0);
        items.push(sl_event_json(e));
    }
    let arr = Json::Arr(items);
    let members = vec![
        Member { key: "type".to_owned(), value: Json::Str("streamLabsEvent".to_owned()) },
        Member { key: "events".to_owned(), value: arr },
    ];
    let r = Json::Obj(members);
    proof {
        lemma_arr_texts(r->Obj_0@[1].value->Arr_0@, sl_event_texts(orig), 0);
        lemma_obj_text_2(r->Obj_0@);
        assert(jtext(r) == stream_labs_text(orig));
    }
    r
}

/// The type tag the server writes on a frame.
pub open spec fn server_tag(m: ServerMessage) -> Seq<char> {
    match m {
        ServerMessage::ConnectResponse(_) => "connectResponse"@,
        ServerMessage::CodeResponse(_) => "codeResponse"@,
        ServerMessage::CustomRewards { .. } => "customRewards"@,
        ServerMessage::Notify(_) => "notify"@,
        ServerMessage::ChangeAvatar(_) => "changeAvatar"@,
        ServerMessage::TwitchEvent(_) => "twitchEvent"@,
        ServerMessage::StreamLabsEvent { .. } => "streamLabsEvent"@,
        ServerMessage::Error(_) => "error"@,
        ServerMessage::TaskResponse(_) => "taskResponse"@,
    }
}

/// The wire text of any server frame.
pub open spec fn server_message_text(m: ServerMessage) -> Seq<char> {
    match m {
        ServerMessage::ConnectResponse(c) => connect_response_text(c),
        ServerMessage::CodeResponse(c) => code_response_text(c),
        ServerMessage::CustomRewards { rewards } => custom_rewards_text(rewards@),
        ServerMessage::Notify(n) => notify_text(n),
        ServerMessage::ChangeAvatar(c) => change_avatar_text(c),
        ServerMessage::TwitchEvent(e) => twitch_event_text(e),
        ServerMessage::StreamLabsEvent { events } => stream_labs_text(events@),
        ServerMessage::Error(e) => error_text(e),
        ServerMessage::TaskResponse(t) => task_response_text(t),
    }
}

/// Builds the JSON document of any server frame. Takes the message by
/// value: raw Streamlabs payloads move into the frame.
pub fn server_message_json(m: ServerMessage) -> (r: Json)
    ensures
        jtext(r) == server_message_text(m),
{
    match m {
        ServerMessage::ConnectResponse(c) => connect_response_json(&c),
        ServerMessage::CodeResponse(c) => code_response_json(&c),
        ServerMessage::CustomRewards { rewards } => custom_rewards_json(&rewards),
        ServerMessage::Notify(n) => notify_json(&n),
        ServerMessage::ChangeAvatar(c) => change_avatar_json(&c),
        ServerMessage::TwitchEvent(e) => twitch_event_json(&e),
        ServerMessage::StreamLabsEvent { events } => stream_labs_json(events),
        ServerMessage::Error(e) => error_json(&e),
        ServerMessage::TaskResponse(t) => task_response_json(&t),
    }
}

/// Serializes a server frame to its wire text.
pub fn encode_server_message(m: ServerMessage) -> (r: Vec<char>)
    ensures
        r@ == server_message_text(m),
{
    let j = server_message_json(m);
    crate::json::json_chars(&j)
}

/// Serializes a server frame to its wire text, as a string.
pub fn encode_server_message_string(m: ServerMessage) -> (r: String)
    ensures
        r@ == server_message_text(m),
{
    let j = server_message_json(m);
    crate::json::json_string(&j)
}

/// The members of a frame after its `type` tag, with the separating
/// comma: everything of the frame's text but the braces and the tag.
pub open spec fn server_frame_body(m: ServerMessage) -> Seq<char> {
    match m {
        ServerMessage::ConnectResponse(c) => seq![','] + (jmember(
            "has_twitch"@,
            jbool(c.has_twitch),
        ) + seq![','] + (jmember("has_streamlabs"@, jbool(c.has_streamlabs)) + seq![','] + (
        jmember("twitch_id"@, jopt_i32(c.twitch_id)) + seq![','] + (jmember(
            "twitch_name"@,
            jopt_str(c.twitch_name),
        ) + seq![','] + (jmember("streamlabs_name"@, jopt_str(c.streamlabs_name)) + seq![',']
            + jmember("streamlabs_id"@, jopt_str(c.streamlabs_id))))))),
        ServerMessage::CodeResponse(c) => seq![','] + jmember(
            "state_token"@,
            jstr(c.state_token@),
        ),
        ServerMessage::CustomRewards { rewards } => seq![','] + jmember(
            "rewards"@,
            jarr(reward_texts(rewards@)),
        ),
        ServerMessage::Notify(n) => seq![','] + (jmember("title"@, jstr(n.title@)) + seq![',']
            + jmember("message"@, jstr(n.message@))),
        ServerMessage::ChangeAvatar(c) => seq![','] + jmember("id"@, jstr(c.id@)),
        ServerMessage::TwitchEvent(e) => seq![','] + (jmember("user_id"@, jstr(e.user_id@))
            + seq![','] + (jmember("user_name"@, jstr(e.user_name@)) + seq![','] + jmember(
            "event"@,
            twitch_event_source_text(e.event),
        ))),
        ServerMessage::StreamLabsEvent { events } => seq![','] + jmember(
            "events"@,
            jarr(sl_event_texts(events@)),
        ),
        ServerMessage::Error(e) => seq![','] + (jmember("request_id"@, jint(e.request_id as int))
            + seq![','] + (jmember("source"@, jstr(e.source@)) + seq![','] + jmember(
            "message"@,
            jstr(e.message@),
        ))),
        ServerMessage::TaskResponse(t) => seq![','] + (jmember(
            "request_id"@,
            jint(t.request_id as int),
        ) + seq![','] + (jmember("success"@, jbool(t.success)) + seq![','] + jmember(
            "message"@,
            jopt_str(t.message),
        ))),
    }
}

/// An object text regrouped around its first member.
proof fn lemma_frame_shape(m0: Seq<char>, rest: Seq<char>)
    ensures
        seq!['{'] + (m0 + seq![','] + rest) + seq!['}'] =~= seq!['{'] + m0 + (seq![','] + rest)
            + seq!['}'],
{
}

/// Every outbound frame is the canonical text of a JSON object whose
/// first member is `type`, holding one of the nine enumerated tags,
/// followed by the frame's remaining members.
#[verifier::rlimit(100)]
pub proof fn lemma_outbound_frame_form(m: ServerMessage)
    ensures
        server_message_text(m) =~= seq!['{'] + jmember("type"@, jstr(server_tag(m)))
            + server_frame_body(m) + seq!['}'],
        server_tag(m) == "connectResponse"@ || server_tag(m) == "codeResponse"@ || server_tag(m)
            == "customRewards"@ || server_tag(m) == "notify"@ || server_tag(m) == "changeAvatar"@
            || server_tag(m) == "twitchEvent"@ || server_tag(m) == "streamLabsEvent"@
            || server_tag(m) == "error"@ || server_tag(m) == "taskResponse"@,
{
    let t = jmember("type"@, jstr(server_tag(m)));
    match m {
        ServerMessage::ConnectResponse(c) => {
            let rest = jmember("has_twitch"@, jbool(c.has_twitch)) + seq![','] + (jmember(
                "has_streamlabs"@,
                jbool(c.has_streamlabs),
            ) + seq![','] + (jmember("twitch_id"@, jopt_i32(c.twitch_id)) + seq![','] + (jmember(
                "twitch_name"@,
                jopt_str(c.twitch_name),
            ) + seq![','] + (jmember("streamlabs_name"@, jopt_str(c.streamlabs_name)) + seq![',']
                + jmember("streamlabs_id"@, jopt_str(c.streamlabs_id))))));
            lemma_frame_shape(t, rest);
        }
        ServerMessage::CodeResponse(c) => {
            let rest = jmember("state_token"@, jstr(c.state_token@));
            lemma_frame_shape(t, rest);
        }
        ServerMessage::CustomRewards { rewards } => {
            let rest = jmember("rewards"@, jarr(reward_texts(rewards@)));
            lemma_frame_shape(t, rest);
        }
        ServerMessage::Notify(n) => {
            let rest = jmember("title"@, jstr(n.title@)) + seq![','] + jmember(
                "message"@,
                jstr(n.message@),
            );
            lemma_frame_shape(t, rest);
        }
        ServerMessage::ChangeAvatar(c) => {
            let rest = jmember("id"@, jstr(c.id@));
            lemma_frame_shape(t, rest);
        }
        ServerMessage::TwitchEvent(e) => {
            let rest = jmember("user_id"@, jstr(e.user_id@)) + seq![','] + (jmember(
                "user_name"@,
                jstr(e.user_name@),
            ) + seq![','] + jmember("event"@, twitch_event_source_text(e.event)));
            lemma_frame_shape(t, rest);
        }
        ServerMessage::StreamLabsEvent { events } => {
            let rest = jmember("events"@, jarr(sl_event_texts(events@)));
            lemma_frame_shape(t, rest);
        }
        ServerMessage::Error(e) => {
            let rest = jmember("request_id"@, jint(e.request_id as int)) + seq![','] + (jmember(
                "source"@,
                jstr(e.source@),
            ) + seq![','] + jmember("message"@, jstr(e.message@)));
            lemma_frame_shape(t, rest);
        }
        ServerMessage::TaskResponse(t2) => {
            let rest = jmember("request_id"@, jint(t2.request_id as int)) + seq![','] + (jmember(
                "success"@,
                jbool(t2.success),
            ) + seq![','] + jmember("message"@, jopt_str(t2.message)));
            lemma_frame_shape(t, rest);
        }
    }
}

} // verus!
