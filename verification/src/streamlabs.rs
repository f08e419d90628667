//! The Streamlabs side: token material, the fields the gateway reads out
//! of Streamlabs API responses, the socket session gate, and the mapping
//! of realtime payloads into downstream events.
//!
//! Streamlabs access tokens do not expire, but the socket token is
//! short-lived and is fetched anew for each realtime session.

use vstd::prelude::*;
use crate::json::Json;
use crate::messages::StreamLabsEvent;
use crate::wire::{jfield, opt_str_field_of, opt_str_field_ok, str_field_of, str_field_ok,
    take_field};

verus! {

/// A validated Streamlabs user token.
pub struct UserToken {
    /// The access token used to authenticate requests with.
    pub access_token: String,
    /// Username of the user associated with this token.
    pub login: String,
    /// User id of the user associated with this token.
    pub user_id: i64,
    /// The refresh token used to extend the life of this user token.
    pub refresh_token: String,
    /// The socket token that can be used to open the realtime connection.
    pub socket_token: String,
}

/// Whether `key` names an integer member of `v`.
pub open spec fn i64_field_of(v: Json, key: Seq<char>, n: i64) -> bool {
    jfield(v, key) matches Some(f) && f matches Json::Int(fn_) && fn_ == n
}

/// Whether `key` names an integer member of `v` at all.
pub open spec fn i64_field_ok(v: Json, key: Seq<char>) -> bool {
    jfield(v, key) matches Some(f) && f is Int
}

/// The identity in a Streamlabs validation response: the `streamlabs`
/// object must hold an integer `id` and a string `display_name`.
pub open spec fn identity_ok(v: Json) -> bool {
    &&& jfield(v, "streamlabs"@) matches Some(s)
    &&& i64_field_ok(s, "id"@)
    &&& str_field_ok(s, "display_name"@)
}

/// Reads the identity out of a validation response.
pub fn extract_identity(v: &Json) -> (r: Option<(i64, String)>)
    ensures
        r is Some <==> identity_ok(*v),
        r matches Some(p) ==> jfield(*v, "streamlabs"@) matches Some(s) && i64_field_of(
            s,
            "id"@,
            p.0,
        ) && str_field_of(s, "display_name"@, p.1@),
{
    let s = match crate::wire::get_field(v, "streamlabs") {
        Some(s) => s,
        None => {
            return None;
        }
    };
    let id = match crate::wire::get_field(s, "id") {
        Some(f) => match f {
            Json::Int(n) => *n,
            _ => {
                return None;
            }
        },
        None => {
            return None;
        }
    };
    match crate::wire::get_str_field(s, "display_name") {
        Some(name) => Some((id, name)),
        None => None,
    }
}

/// Reads the socket token out of a socket-token response.
pub fn extract_socket_token(v: &Json) -> (r: Option<String>)
    ensures
        r is Some <==> str_field_ok(*v, "socket_token"@),
        r matches Some(t) ==> str_field_of(*v, "socket_token"@, t@),
{
    crate::wire::get_str_field(v, "socket_token")
}

/// Reads the token pair out of a token-grant response.
pub fn extract_token_pair(v: &Json) -> (r: Option<(String, String)>)
    ensures
        r is Some <==> str_field_ok(*v, "access_token"@) && str_field_ok(*v, "refresh_token"@),
        r matches Some(p) ==> str_field_of(*v, "access_token"@, p.0@) && str_field_of(
            *v,
            "refresh_token"@,
            p.1@,
        ),
{
    let access = match crate::wire::get_str_field(v, "access_token") {
        Some(a) => a,
        None => {
            return None;
        }
    };
    match crate::wire::get_str_field(v, "refresh_token") {
        Some(r) => Some((access, r)),
        None => None,
    }
}

/// Assembles a user token from validated parts.
pub fn make_user_token(
    access_token: String,
    refresh_token: String,
    user_id: i64,
    login: String,
    socket_token: String,
) -> (r: UserToken)
    ensures
        r.access_token@ == access_token@,
        r.refresh_token@ == refresh_token@,
        r.user_id == user_id,
        r.login@ == login@,
        r.socket_token@ == socket_token@,
{
    UserToken { access_token, login, user_id, refresh_token, socket_token }
}

/// The socket session: one shared flag, flipped on the upstream error
/// callback.
pub struct SocketSession {
    /// Whether the realtime connection still stands.
    pub connected: bool,
}

impl SocketSession {
    /// A session that just connected.
    pub fn new() -> (r: SocketSession)
        ensures
            r.connected,
    {
        SocketSession { connected: true }
    }

    /// One step of the session: whether the driver may await another
    /// payload. A session whose flag was flipped reports that it is over.
    pub fn run_gate(&self) -> (proceed: bool)
        ensures
            proceed == self.connected,
    {
        self.connected
    }

    /// The upstream error callback: flips the flag; the next step then
    /// ends the session.
    pub fn mark_disconnected(&mut self)
        ensures
            !final(self).connected,
    {
        self.connected = false;
    }

    /// One step of the session: a flipped flag ends it before anything is
    /// read; otherwise a received payload is handed on, and a closed
    /// payload channel yields nothing but keeps the session running.
    pub fn socket_step(&self, payload: Option<String>) -> (r: (bool, Option<String>))
        ensures
            !self.connected ==> r.0 == false && r.1 is None,
            self.connected ==> r.0,
            self.connected ==> (match payload {
                Some(p) => r.1 matches Some(q) && q@ == p@,
                None => r.1 is None,
            }),
    {
        if !self.connected {
            (false, None)
        } else {
            match payload {
                Some(p) => (true, Some(p)),
                None => (true, None),
            }
        }
    }
}

/// The realtime endpoint for a socket token.
pub fn socket_url(socket_token: &str) -> (r: String)
    ensures
        r@ == "wss://sockets.streamlabs.com?token="@ + socket_token@,
{
    let mut url = "wss://sockets.streamlabs.com?token=".to_owned();
    url.append(socket_token);
    url
}

/// Whether a payload entry has the recognised event shape: a string
/// `type`, a `message`, and optional string `event_id` and `for`.
pub open spec fn sl_entry_ok(item: Json) -> bool {
    &&& str_field_ok(item, "type"@)
    &&& opt_str_field_ok(item, "event_id"@)
    &&& opt_str_field_ok(item, "for"@)
    &&& jfield(item, "message"@) is Some
}

/// What one payload entry must become: a recognised entry is read field
/// by field; any other shape degrades to an `unknown` event keeping the
/// raw entry as its message.
pub open spec fn sl_event_of(item: Json, e: StreamLabsEvent) -> bool {
    if sl_entry_ok(item) {
        &&& str_field_of(item, "type"@, e.type_@)
        &&& opt_str_field_of(item, "event_id"@, e.event_id)
        &&& opt_str_field_of(item, "for"@, e.for_)
        &&& jfield(item, "message"@) matches Some(m) && e.message == m
    } else {
        &&& e.type_@ == "unknown"@
        &&& e.event_id is None
        &&& e.for_ is None
        &&& e.message == item
    }
}

/// Maps one payload entry to a downstream event.
pub fn sl_event_from_json(item: Json) -> (e: StreamLabsEvent)
    ensures
        sl_event_of(item, e),
{
    let type_ok = crate::wire::get_str_field(&item, "type");
    let ev_ok = crate::wire::get_opt_str_field(&item, "event_id");
    let for_ok = crate::wire::get_opt_str_field(&item, "for");
    let has_message = match crate::wire::get_field(&item, "message") {
        Some(_) => true,
        None => false,
    };
    match (type_ok, ev_ok, for_ok, has_message) {
        (Some(type_), Some(event_id), Some(for_), true) => {
            let message = match take_field(item, "message") {
                Some(m) => m,
                None => Json::Null,
            };
            StreamLabsEvent { event_id, for_, message, type_ }
        }
        (_, _, _, _) => StreamLabsEvent {
            event_id: None,
            for_: None,
            message: item,
            type_: "unknown".to_owned(),
        },
    }
}

/// Maps a whole payload array, entry by entry, in order.
pub fn sl_events_from_payload(items: Vec<Json>) -> (es: Vec<StreamLabsEvent>)
    ensures
        es@.len() == items@.len(),
        forall|j: int| 0 <= j < items@.len() ==> sl_event_of(items@[j], #[trigger] es@[j]),
{
    let ghost orig = items@;
    let mut items = items;
    let mut out: Vec<StreamLabsEvent> = Vec::new();
    while items.len() > 0
        invariant
            out@.len() + items@.len() == orig.len(),
            items@ =~= orig.subrange(out@.len() as int, orig.len() as int),
            forall|j: int| 0 <= j < out@.len() ==> sl_event_of(orig[j], #[trigger] out@[j]),
        decreases items@.len(),
    {
        let item = items.remove(0);
        out.push(sl_event_from_json(item));
    }
    out
}

} // verus!
