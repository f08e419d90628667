//! The Twitch EventSub session state machine.
//!
//! The session is driven one frame at a time. A welcome or reconnect
//! frame stores the session id, adopts a new connection URL when one is
//! supplied, and asks for the whole subscription catalogue; notifications
//! are handed upward; a revocation or a close ends the session; a
//! protocol reset asks for a silent reconnect to the current URL.

use vstd::prelude::*;
use crate::events::{BitsMessage, Fragment, TwitchNotification};
use crate::json::{Json, Member, jtext};
use crate::messages::{jstr, jmember, obj1_text, obj2_text, obj4_text};
use crate::wire::{jfield, opt_str_field_of, opt_str_field_ok, str_field_of, str_field_ok};

verus! {

/// One frame as the session sees it, after transport decoding.
pub enum EventSubFrame {
    /// The first message of a connection, carrying the session id.
    Welcome { session_id: String, reconnect_url: Option<String> },
    /// An instruction to move to another URL, carrying the session id.
    Reconnect { session_id: String, reconnect_url: Option<String> },
    /// A subscribed event.
    Notification { event: TwitchNotification },
    /// The subscription was revoked; the session is terminal.
    Revocation,
    /// A keepalive tick.
    Keepalive,
    /// Text the session cannot read: an unparseable frame, an unknown
    /// message type, or an envelope without its required payload. The
    /// original connection cannot be trusted after one of these.
    Malformed,
    /// A notification envelope whose event payload does not carry the
    /// fields its subscription type owes: reported as an error, without
    /// ending the session and without synthesizing a downstream event.
    BadNotification,
    /// A non-text frame.
    OtherFrame,
    /// The peer closed the stream.
    Close,
    /// The transport was reset without a closing handshake.
    ProtocolReset,
    /// Any other transport error.
    TransportError,
}

/// One create-subscription request toward Helix.
pub struct SubscriptionRequest {
    pub sub_type: String,
    pub version: String,
    pub broadcaster_user_id: Option<String>,
    pub user_id: Option<String>,
    pub session_id: String,
}

/// What one step of the session asks its driver to do.
pub struct StepOutcome {
    /// Keep driving the session; false means the session is over.
    pub keep_running: bool,
    /// An event to translate and fan out.
    pub event: Option<TwitchNotification>,
    /// Subscription requests to send, in order.
    pub subscribe: Vec<SubscriptionRequest>,
    /// Re-dial the session's current URL without surfacing anything.
    pub reconnect: bool,
    /// A transport error to surface before stopping.
    pub error: bool,
}

/// The EventSub session state.
pub struct EventSubSession {
    /// The session id of the current welcome, once one arrived.
    pub session_id: Option<String>,
    /// The URL the next (re)connection dials.
    pub connect_url: String,
    /// The broadcaster's user id, used in every subscription condition.
    pub user_id: String,
}

/// The subscription catalogue for a session id and broadcaster: the six
/// event types the gateway listens to, in order.
pub open spec fn catalogue_ok(subs: Seq<SubscriptionRequest>, sid: Seq<char>, uid: Seq<char>)
    -> bool {
    &&& subs.len() == 6
    &&& sub_ok(subs[0], "channel.bits.use"@, sid, uid, true, false)
    &&& sub_ok(subs[1], "channel.channel_points_custom_reward_redemption.add"@, sid, uid, true,
        false)
    &&& sub_ok(subs[2], "channel.channel_points_custom_reward_redemption.update"@, sid, uid, true,
        false)
    &&& sub_ok(subs[3], "channel.chat.message"@, sid, uid, true, true)
    &&& sub_ok(subs[4], "channel.chat.notification"@, sid, uid, true, true)
    &&& sub_ok(subs[5], "user.whisper.message"@, sid, uid, false, true)
}

/// One catalogue entry: type, version 1, session id, and the condition
/// fields the type needs.
pub open spec fn sub_ok(
    s: SubscriptionRequest,
    ty: Seq<char>,
    sid: Seq<char>,
    uid: Seq<char>,
    broadcaster: bool,
    user: bool,
) -> bool {
    &&& s.sub_type@ == ty
    &&& s.version@ == "1"@
    &&& s.session_id@ == sid
    &&& (if broadcaster {
        s.broadcaster_user_id matches Some(b) && b@ == uid
    } else {
        s.broadcaster_user_id is None
    })
    &&& (if user {
        s.user_id matches Some(u) && u@ == uid
    } else {
        s.user_id is None
    })
}

impl EventSubSession {
    /// A fresh session toward the standard EventSub endpoint.
    pub fn new(user_id: String) -> (r: EventSubSession)
        ensures
            r.session_id is None,
            r.connect_url@ == "wss://eventsub.wss.twitch.tv/ws"@,
            r.user_id@ == user_id@,
    {
        EventSubSession {
            session_id: None,
            connect_url: "wss://eventsub.wss.twitch.tv/ws".to_owned(),
            user_id,
        }
    }

    /// Drives the session one frame forward.
    ///
    /// A welcome or reconnect stores the session id, adopts the reconnect
    /// URL when one is given, and asks for the whole catalogue. The next
    /// reconnect then dials the adopted URL.
    pub fn process_frame(&mut self, frame: EventSubFrame) -> (r: StepOutcome)
        ensures
            final(self).user_id@ == old(self).user_id@,
            match frame {
                EventSubFrame::Welcome { session_id, reconnect_url }
                | EventSubFrame::Reconnect { session_id, reconnect_url } => {
                    &&& final(self).session_id matches Some(s)
                    &&& s@ == session_id@
                    &&& (match reconnect_url {
                        Some(u) => final(self).connect_url@ == u@,
                        None => final(self).connect_url@ == old(self).connect_url@,
                    })
                    &&& r.keep_running
                    &&& r.event is None
                    &&& catalogue_ok(r.subscribe@, session_id@, old(self).user_id@)
                    &&& !r.reconnect
                    &&& !r.error
                },
                EventSubFrame::Notification { event } => {
                    &&& *final(self) == *old(self)
                    &&& r.keep_running
                    &&& r.event == Some(event)
                    &&& r.subscribe@.len() == 0
                    &&& !r.reconnect
                    &&& !r.error
                },
                EventSubFrame::Revocation | EventSubFrame::Close => {
                    &&& *final(self) == *old(self)
                    &&& !r.keep_running
                    &&& r.event is None
                    &&& r.subscribe@.len() == 0
                    &&& !r.reconnect
                    &&& !r.error
                },
                EventSubFrame::Keepalive | EventSubFrame::OtherFrame => {
                    &&& *final(self) == *old(self)
                    &&& r.keep_running
                    &&& r.event is None
                    &&& r.subscribe@.len() == 0
                    &&& !r.reconnect
                    &&& !r.error
                },
                EventSubFrame::BadNotification => {
                    &&& *final(self) == *old(self)
                    &&& r.keep_running
                    &&& r.event is None
                    &&& r.subscribe@.len() == 0
                    &&& !r.reconnect
                    &&& r.error
                },
                EventSubFrame::Malformed => {
                    &&& *final(self) == *old(self)
                    &&& !r.keep_running
                    &&& r.event is None
                    &&& r.subscribe@.len() == 0
                    &&& !r.reconnect
                    &&& r.error
                },
                EventSubFrame::ProtocolReset => {
                    &&& *final(self) == *old(self)
                    &&& r.keep_running
                    &&& r.event is None
                    &&& r.subscribe@.len() == 0
                    &&& r.reconnect
                    &&& !r.error
                },
                EventSubFrame::TransportError => {
                    &&& *final(self) == *old(self)
                    &&& !r.keep_running
                    &&& r.event is None
                    &&& r.subscribe@.len() == 0
                    &&& !r.reconnect
                    &&& r.error
                },
            },
    {
        match frame {
            EventSubFrame::Welcome { session_id, reconnect_url }
            | EventSubFrame::Reconnect { session_id, reconnect_url } => {
                if let Some(u) = reconnect_url {
                    self.connect_url = u;
                }
                let subscribe = self.catalogue(&session_id);
                self.session_id = Some(session_id);
                StepOutcome {
                    keep_running: true,
                    event: None,
                    subscribe,
                    reconnect: false,
                    error: false,
                }
            }
            EventSubFrame::Notification { event } => StepOutcome {
                keep_running: true,
                event: Some(event),
                subscribe: Vec::new(),
                reconnect: false,
                error: false,
            },
            EventSubFrame::Revocation | EventSubFrame::Close => StepOutcome {
                keep_running: false,
                event: None,
                subscribe: Vec::new(),
                reconnect: false,
                error: false,
            },
            EventSubFrame::Keepalive | EventSubFrame::OtherFrame => {
                StepOutcome {
                    keep_running: true,
                    event: None,
                    subscribe: Vec::new(),
                    reconnect: false,
                    error: false,
                }
            }
            EventSubFrame::BadNotification => StepOutcome {
                keep_running: true,
                event: None,
                subscribe: Vec::new(),
                reconnect: false,
                error: true,
            },
            EventSubFrame::Malformed => StepOutcome {
                keep_running: false,
                event: None,
                subscribe: Vec::new(),
                reconnect: false,
                error: true,
            },
            EventSubFrame::ProtocolReset => StepOutcome {
                keep_running: true,
                event: None,
                subscribe: Vec::new(),
                reconnect: true,
                error: false,
            },
            EventSubFrame::TransportError => StepOutcome {
                keep_running: false,
                event: None,
                subscribe: Vec::new(),
                reconnect: false,
                error: true,
            },
        }
    }

    /// The six subscription requests for the given session id.
    pub fn catalogue(&self, session_id: &str) -> (subs: Vec<SubscriptionRequest>)
        ensures
            catalogue_ok(subs@, session_id@, self.user_id@),
    {
        let mut subs: Vec<SubscriptionRequest> = Vec::new();
        subs.push(
            SubscriptionRequest {
                sub_type: "channel.bits.use".to_owned(),
                version: "1".to_owned(),
                broadcaster_user_id: Some(self.user_id.clone()),
                user_id: None,
                session_id: session_id.to_owned(),
            },
        );
        subs.push(
            SubscriptionRequest {
                sub_type: "channel.channel_points_custom_reward_redemption.add".to_owned(),
                version: "1".to_owned(),
                broadcaster_user_id: Some(self.user_id.clone()),
                user_id: None,
                session_id: session_id.to_owned(),
            },
        );
        subs.push(
            SubscriptionRequest {
                sub_type: "channel.channel_points_custom_reward_redemption.update".to_owned(),
                version: "1".to_owned(),
                broadcaster_user_id: Some(self.user_id.clone()),
                user_id: None,
                session_id: session_id.to_owned(),
            },
        );
        subs.push(
            SubscriptionRequest {
                sub_type: "channel.chat.message".to_owned(),
                version: "1".to_owned(),
                broadcaster_user_id: Some(self.user_id.clone()),
                user_id: Some(self.user_id.clone()),
                session_id: session_id.to_owned(),
            },
        );
        subs.push(
            SubscriptionRequest {
                sub_type: "channel.chat.notification".to_owned(),
                version: "1".to_owned(),
                broadcaster_user_id: Some(self.user_id.clone()),
                user_id: Some(self.user_id.clone()),
                session_id: session_id.to_owned(),
            },
        );
        subs.push(
            SubscriptionRequest {
                sub_type: "user.whisper.message".to_owned(),
                version: "1".to_owned(),
                broadcaster_user_id: None,
                user_id: Some(self.user_id.clone()),
                session_id: session_id.to_owned(),
            },
        );
        subs
    }
}

/// The wire text of the condition object of a subscription request.
pub open spec fn condition_text(s: SubscriptionRequest) -> Seq<char> {
    match (s.broadcaster_user_id, s.user_id) {
        (Some(b), Some(u)) => obj2_text(
            jmember("broadcaster_user_id"@, jstr(b@)),
            jmember("user_id"@, jstr(u@)),
        ),
        (Some(b), None) => obj1_text(jmember("broadcaster_user_id"@, jstr(b@))),
        (None, Some(u)) => obj1_text(jmember("user_id"@, jstr(u@))),
        (None, None) => seq!['{', '}'],
    }
}

/// The wire text of a Helix create-subscription body.
pub open spec fn subscription_body_text(s: SubscriptionRequest) -> Seq<char> {
    obj4_text(
        jmember("type"@, jstr(s.sub_type@)),
        jmember("version"@, jstr(s.version@)),
        jmember("condition"@, condition_text(s)),
        jmember(
            "transport"@,
            obj2_text(
                jmember("method"@, jstr("websocket"@)),
                jmember("session_id"@, jstr(s.session_id@)),
            ),
        ),
    )
}

/// Builds the Helix create-subscription body for one request.
pub fn subscription_body_json(s: &SubscriptionRequest) -> (r: Json)
    ensures
        jtext(r) == subscription_body_text(*s),
{
    let condition = match (&s.broadcaster_user_id, &s.user_id) {
        (Some(b), Some(u)) => {
            let members = vec![
                Member { key: "broadcaster_user_id".to_owned(), value: Json::Str(b.clone()) },
                Member { key: "user_id".to_owned(), value: Json::Str(u.clone()) },
            ];
            let c = Json::Obj(members);
            proof {
                crate::messages::lemma_obj_text_2(c->Obj_0@);
            }
            c
        }
        (Some(b), None) => {
            let members = vec![
                Member { key: "broadcaster_user_id".to_owned(), value: Json::Str(b.clone()) },
            ];
            let c = Json::Obj(members);
            proof {
                crate::messages::lemma_obj_text_1(c->Obj_0@);
            }
            c
        }
        (None, Some(u)) => {
            let members = vec![
                Member { key: "user_id".to_owned(), value: Json::Str(u.clone()) },
            ];
            let c = Json::Obj(members);
            proof {
                crate::messages::lemma_obj_text_1(c->Obj_0@);
            }
            c
        }
        (None, None) => {
            let c = Json::Obj(Vec::new());
            proof {
                reveal_with_fuel(crate::json::obj_text_from, 2);
                assert(jtext(c) =~= seq!['{', '}']);
            }
            c
        }
    };
    let ghost condition_t = jtext(condition);
    let transport_members = vec![
        Member { key: "method".to_owned(), value: Json::Str("websocket".to_owned()) },
        Member { key: "session_id".to_owned(), value: Json::Str(s.session_id.clone()) },
    ];
    let transport = Json::Obj(transport_members);
    proof {
        crate::messages::lemma_obj_text_2(transport->Obj_0@);
    }
    let ghost transport_t = jtext(transport);
    let members = vec![
        Member { key: "type".to_owned(), value: Json::Str(s.sub_type.clone()) },
        Member { key: "version".to_owned(), value: Json::Str(s.version.clone()) },
        Member { key: "condition".to_owned(), value: condition },
        Member { key: "transport".to_owned(), value: transport },
    ];
    let r = Json::Obj(members);
    proof {
        crate::messages::lemma_obj_text_4(r->Obj_0@);
        assert(condition_t == condition_text(*s));
        assert(jtext(r) == subscription_body_text(*s));
    }
    r
}

/// Whether `key` names an integer member of `v` in the unsigned 32-bit
/// range, and what it holds.
pub open spec fn bits_field_of(v: Json, key: Seq<char>, n: u32) -> bool {
    jfield(v, key) matches Some(f) && f matches Json::Int(fn_) && fn_ == n as i64
}

/// What one chat fragment must become: `emote` and `cheermote` fragments
/// keep their kind, everything else is plain; the fragment's text must be
/// a string.
pub open spec fn fragment_of(j: Json, f: Fragment) -> bool {
    match jfield(j, "type"@) {
        Some(t) => match t {
            Json::Str(kind) => {
                if kind@ == "emote"@ {
                    f matches Fragment::Emote { text } && str_field_of(j, "text"@, text@)
                } else if kind@ == "cheermote"@ {
                    f matches Fragment::Cheermote { text } && str_field_of(j, "text"@, text@)
                } else {
                    f matches Fragment::Plain { text } && str_field_of(j, "text"@, text@)
                }
            },
            _ => false,
        },
        None => false,
    }
}

/// Reads one chat fragment; `None` reports a fragment of no usable
/// shape.
fn fragment_from_json(j: &Json) -> (r: Option<Fragment>)
    ensures
        r matches Some(f) ==> fragment_of(*j, f),
        r is None ==> !(jfield(*j, "type"@) matches Some(t) && t is Str && str_field_ok(
            *j,
            "text"@,
        )),
{
    let kind = match crate::wire::get_str_field(j, "type") {
        Some(k) => k,
        None => {
            return None;
        }
    };
    let text = match crate::wire::get_str_field(j, "text") {
        Some(t) => t,
        None => {
            return None;
        }
    };
    if crate::wire::str_eq(kind.as_str(), "emote") {
        Some(Fragment::Emote { text })
    } else if crate::wire::str_eq(kind.as_str(), "cheermote") {
        Some(Fragment::Cheermote { text })
    } else {
        Some(Fragment::Plain { text })
    }
}

/// What a parsed EventSub envelope must become. The envelope's
/// `metadata.message_type` decides; a recognised notification is reduced
/// to the fields the gateway reads; an envelope of no usable shape is a
/// `Malformed` frame, and a recognised notification whose event payload
/// lacks its owed fields is a `BadNotification`.
pub open spec fn eventsub_frame_of(v: Json, f: EventSubFrame) -> bool {
    match jfield(v, "metadata"@) {
        None => f is Malformed,
        Some(md) => match jfield(md, "message_type"@) {
            None => f is Malformed,
            Some(mt) => match mt {
                Json::Str(kind) => {
                    if kind@ == "session_welcome"@ {
                        session_frame_of(v, f, true)
                    } else if kind@ == "session_reconnect"@ {
                        session_frame_of(v, f, false)
                    } else if kind@ == "session_keepalive"@ {
                        f is Keepalive
                    } else if kind@ == "revocation"@ {
                        f is Revocation
                    } else if kind@ == "notification"@ {
                        notification_frame_of(v, f)
                    } else {
                        f is Malformed
                    }
                },
                _ => f is Malformed,
            },
        },
    }
}

/// A welcome or reconnect envelope: `payload.session.id` must be a
/// string; `reconnect_url` is kept when it is one.
pub open spec fn session_frame_of(v: Json, f: EventSubFrame, welcome: bool) -> bool {
    match jfield(v, "payload"@) {
        None => f is Malformed,
        Some(p) => match jfield(p, "session"@) {
            None => f is Malformed,
            Some(sess) => {
                if str_field_ok(sess, "id"@) && opt_str_field_ok(sess, "reconnect_url"@) {
                    if welcome {
                        f matches EventSubFrame::Welcome { session_id, reconnect_url }
                            && str_field_of(sess, "id"@, session_id@) && opt_str_field_of(
                            sess,
                            "reconnect_url"@,
                            reconnect_url,
                        )
                    } else {
                        f matches EventSubFrame::Reconnect { session_id, reconnect_url }
                            && str_field_of(sess, "id"@, session_id@) && opt_str_field_of(
                            sess,
                            "reconnect_url"@,
                            reconnect_url,
                        )
                    }
                } else {
                    f is Malformed
                }
            },
        },
    }
}

/// A notification envelope: the subscription type picks the event shape;
/// a subscribed type the gateway does not forward becomes an `Other`
/// notification.
pub open spec fn notification_frame_of(v: Json, f: EventSubFrame) -> bool {
    match jfield(v, "payload"@) {
        None => f is Malformed,
        Some(p) => match jfield(p, "subscription"@) {
            None => f is Malformed,
            Some(sub) => match jfield(sub, "type"@) {
                None => f is Malformed,
                Some(t) => match t {
                    Json::Str(ty) => match jfield(p, "event"@) {
                        None => f is Malformed,
                        Some(ev) => notification_event_of(ty@, ev, f),
                    },
                    _ => f is Malformed,
                },
            },
        },
    }
}

/// The event fields each forwarded subscription type must supply.
pub open spec fn notification_event_of(ty: Seq<char>, ev: Json, f: EventSubFrame) -> bool {
    if ty == "channel.channel_points_custom_reward_redemption.add"@ {
        if str_field_ok(ev, "user_login"@) && str_field_ok(ev, "user_name"@) && (jfield(
            ev,
            "reward"@,
        ) matches Some(rw) && str_field_ok(rw, "id"@) && str_field_ok(rw, "title"@)) {
            f matches EventSubFrame::Notification { event }
                && event matches TwitchNotification::ChannelPointsRedemptionAdd {
                user_login,
                user_name,
                reward_id,
                reward_title,
            } && str_field_of(ev, "user_login"@, user_login@) && str_field_of(
                ev,
                "user_name"@,
                user_name@,
            ) && (jfield(ev, "reward"@) matches Some(rw) && str_field_of(rw, "id"@, reward_id@)
                && str_field_of(rw, "title"@, reward_title@))
        } else {
            f is BadNotification
        }
    } else if ty == "user.whisper.message"@ {
        if str_field_ok(ev, "from_user_login"@) && str_field_ok(ev, "from_user_name"@) && (jfield(
            ev,
            "whisper"@,
        ) matches Some(w) && str_field_ok(w, "text"@)) {
            f matches EventSubFrame::Notification { event }
                && event matches TwitchNotification::Whisper {
                from_user_login,
                from_user_name,
                text,
            } && str_field_of(ev, "from_user_login"@, from_user_login@) && str_field_of(
                ev,
                "from_user_name"@,
                from_user_name@,
            ) && (jfield(ev, "whisper"@) matches Some(w) && str_field_of(w, "text"@, text@))
        } else {
            f is BadNotification
        }
    } else if ty == "channel.chat.message"@ {
        if str_field_ok(ev, "chatter_user_id"@) && str_field_ok(ev, "chatter_user_name"@) && (
        jfield(ev, "message"@) matches Some(msg) && str_field_ok(msg, "text"@)) {
            f matches EventSubFrame::Notification { event }
                && event matches TwitchNotification::ChatMessage {
                chatter_user_id,
                chatter_user_name,
                text,
            } && str_field_of(ev, "chatter_user_id"@, chatter_user_id@) && str_field_of(
                ev,
                "chatter_user_name"@,
                chatter_user_name@,
            ) && (jfield(ev, "message"@) matches Some(msg) && str_field_of(msg, "text"@, text@))
        } else {
            f is BadNotification
        }
    } else if ty == "channel.bits.use"@ {
        bits_event_of(ev, f)
    } else {
        f matches EventSubFrame::Notification { event } && event is Other
    }
}

/// Whether a fragment entry has a usable shape: a string kind and a
/// string text.
pub open spec fn fragment_shape_ok(j: Json) -> bool {
    jfield(j, "type"@) matches Some(t) && t is Str && str_field_ok(j, "text"@)
}

/// Whether the optional message of a bits-use event is absent, null, or
/// an object with a string text and a fragment array of usable shapes.
pub open spec fn bits_message_shape_ok(ev: Json) -> bool {
    match jfield(ev, "message"@) {
        None => true,
        Some(m) => match m {
            Json::Null => true,
            _ => {
                &&& str_field_ok(m, "text"@)
                &&& jfield(m, "fragments"@) matches Some(fr)
                &&& fr matches Json::Arr(items)
                &&& forall|j: int| 0 <= j < items@.len() ==> fragment_shape_ok(
                    #[trigger] items@[j],
                )
            },
        },
    }
}

/// A bits-use event: login, name and the bit count are required; the
/// message, when present as an object with a string text and a fragment
/// array of usable shapes, is kept with its fragments in order.
pub open spec fn bits_event_of(ev: Json, f: EventSubFrame) -> bool {
    if str_field_ok(ev, "user_login"@) && str_field_ok(ev, "user_name"@) && (jfield(ev, "bits"@)
        matches Some(b) && b matches Json::Int(n) && 0 <= n <= u32::MAX)
        && bits_message_shape_ok(ev) {
        f matches EventSubFrame::Notification { event }
            && event matches TwitchNotification::BitsUse { user_login, user_name, bits, message }
            && str_field_of(ev, "user_login"@, user_login@) && str_field_of(
            ev,
            "user_name"@,
            user_name@,
        ) && bits_field_of(ev, "bits"@, bits) && bits_message_of(ev, message)
    } else {
        f is BadNotification
    }
}

/// The optional message of a bits-use event: absent or null means none;
/// an object must supply a string `text` and a `fragments` array whose
/// entries all read as fragments.
pub open spec fn bits_message_of(ev: Json, message: Option<BitsMessage>) -> bool {
    match jfield(ev, "message"@) {
        None => message is None,
        Some(m) => match m {
            Json::Null => message is None,
            _ => {
                &&& message matches Some(bm)
                &&& str_field_of(m, "text"@, bm.text@)
                &&& jfield(m, "fragments"@) matches Some(fr)
                &&& fr matches Json::Arr(items)
                &&& items@.len() == bm.fragments@.len()
                &&& forall|j: int|
                    0 <= j < items@.len() ==> fragment_of(
                        #[trigger] items@[j],
                        bm.fragments@[j],
                    )
            },
        },
    }
}

/// Classifies one parsed EventSub envelope into the frame the session
/// machine consumes.
pub fn classify_eventsub_json(v: &Json) -> (f: EventSubFrame)
    ensures
        eventsub_frame_of(*v, f),
{
    let md = match crate::wire::get_field(v, "metadata") {
        Some(md) => md,
        None => {
            return EventSubFrame::Malformed;
        }
    };
    let kind = match crate::wire::get_str_field(md, "message_type") {
        Some(k) => k,
        None => {
            return EventSubFrame::Malformed;
        }
    };
    if crate::wire::str_eq(kind.as_str(), "session_welcome") {
        classify_session(v, true)
    } else if crate::wire::str_eq(kind.as_str(), "session_reconnect") {
        classify_session(v, false)
    } else if crate::wire::str_eq(kind.as_str(), "session_keepalive") {
        EventSubFrame::Keepalive
    } else if crate::wire::str_eq(kind.as_str(), "revocation") {
        EventSubFrame::Revocation
    } else if crate::wire::str_eq(kind.as_str(), "notification") {
        classify_notification(v)
    } else {
        EventSubFrame::Malformed
    }
}

/// Classifies a welcome or reconnect envelope.
fn classify_session(v: &Json, welcome: bool) -> (f: EventSubFrame)
    ensures
        session_frame_of(*v, f, welcome),
{
    let p = match crate::wire::get_field(v, "payload") {
        Some(p) => p,
        None => {
            return EventSubFrame::Malformed;
        }
    };
    let sess = match crate::wire::get_field(p, "session") {
        Some(s) => s,
        None => {
            return EventSubFrame::Malformed;
        }
    };
    let session_id = match crate::wire::get_str_field(sess, "id") {
        Some(s) => s,
        None => {
            return EventSubFrame::Malformed;
        }
    };
    let reconnect_url = match crate::wire::get_opt_str_field(sess, "reconnect_url") {
        Some(u) => u,
        None => {
            return EventSubFrame::Malformed;
        }
    };
    if welcome {
        EventSubFrame::Welcome { session_id, reconnect_url }
    } else {
        EventSubFrame::Reconnect { session_id, reconnect_url }
    }
}

/// Classifies a notification envelope.
fn classify_notification(v: &Json) -> (f: EventSubFrame)
    ensures
        notification_frame_of(*v, f),
{
    let p = match crate::wire::get_field(v, "payload") {
        Some(p) => p,
        None => {
            return EventSubFrame::Malformed;
        }
    };
    let sub = match crate::wire::get_field(p, "subscription") {
        Some(s) => s,
        None => {
            return EventSubFrame::Malformed;
        }
    };
    let ty = match crate::wire::get_str_field(sub, "type") {
        Some(t) => t,
        None => {
            return EventSubFrame::Malformed;
        }
    };
    let ev = match crate::wire::get_field(p, "event") {
        Some(e) => e,
        None => {
            return EventSubFrame::Malformed;
        }
    };
    if crate::wire::str_eq(ty.as_str(), "channel.channel_points_custom_reward_redemption.add") {
        let user_login = match crate::wire::get_str_field(ev, "user_login") {
            Some(s) => s,
            None => {
                return EventSubFrame::BadNotification;
            }
        };
        let user_name = match crate::wire::get_str_field(ev, "user_name") {
            Some(s) => s,
            None => {
                return EventSubFrame::BadNotification;
            }
        };
        let rw = match crate::wire::get_field(ev, "reward") {
            Some(r) => r,
            None => {
                return EventSubFrame::BadNotification;
            }
        };
        let reward_id = match crate::wire::get_str_field(rw, "id") {
            Some(s) => s,
            None => {
                return EventSubFrame::BadNotification;
            }
        };
        let reward_title = match crate::wire::get_str_field(rw, "title") {
            Some(s) => s,
            None => {
                return EventSubFrame::BadNotification;
            }
        };
        EventSubFrame::Notification {
            event: TwitchNotification::ChannelPointsRedemptionAdd {
                user_login,
                user_name,
                reward_id,
                reward_title,
            },
        }
    } else if crate::wire::str_eq(ty.as_str(), "user.whisper.message") {
        let from_user_login = match crate::wire::get_str_field(ev, "from_user_login") {
            Some(s) => s,
            None => {
                return EventSubFrame::BadNotification;
            }
        };
        let from_user_name = match crate::wire::get_str_field(ev, "from_user_name") {
            Some(s) => s,
            None => {
                return EventSubFrame::BadNotification;
            }
        };
        let w = match crate::wire::get_field(ev, "whisper") {
            Some(w) => w,
            None => {
                return EventSubFrame::BadNotification;
            }
        };
        let text = match crate::wire::get_str_field(w, "text") {
            Some(t) => t,
            None => {
                return EventSubFrame::BadNotification;
            }
        };
        EventSubFrame::Notification {
            event: TwitchNotification::Whisper { from_user_login, from_user_name, text },
        }
    } else if crate::wire::str_eq(ty.as_str(), "channel.chat.message") {
        let chatter_user_id = match crate::wire::get_str_field(ev, "chatter_user_id") {
            Some(s) => s,
            None => {
                return EventSubFrame::BadNotification;
            }
        };
        let chatter_user_name = match crate::wire::get_str_field(ev, "chatter_user_name") {
            Some(s) => s,
            None => {
                return EventSubFrame::BadNotification;
            }
        };
        let msg = match crate::wire::get_field(ev, "message") {
            Some(m) => m,
            None => {
                return EventSubFrame::BadNotification;
            }
        };
        let text = match crate::wire::get_str_field(msg, "text") {
            Some(t) => t,
            None => {
                return EventSubFrame::BadNotification;
            }
        };
        EventSubFrame::Notification {
            event: TwitchNotification::ChatMessage { chatter_user_id, chatter_user_name, text },
        }
    } else if crate::wire::str_eq(ty.as_str(), "channel.bits.use") {
        classify_bits(ev)
    } else {
        EventSubFrame::Notification { event: TwitchNotification::Other }
    }
}

/// Classifies a bits-use event.
#[verifier::loop_isolation(false)]
fn classify_bits(ev: &Json) -> (f: EventSubFrame)
    ensures
        bits_event_of(*ev, f),
{
    let user_login = match crate::wire::get_str_field(ev, "user_login") {
        Some(s) => s,
        None => {
            return EventSubFrame::BadNotification;
        }
    };
    let user_name = match crate::wire::get_str_field(ev, "user_name") {
        Some(s) => s,
        None => {
            return EventSubFrame::BadNotification;
        }
    };
    let bits = match crate::wire::get_field(ev, "bits") {
        Some(b) => match b {
            Json::Int(n) => {
                if *n >= 0 && *n <= u32::MAX as i64 {
                    *n as u32
                } else {
                    return EventSubFrame::BadNotification;
                }
            }
            _ => {
                return EventSubFrame::BadNotification;
            }
        },
        None => {
            return EventSubFrame::BadNotification;
        }
    };
    let message = match crate::wire::get_field(ev, "message") {
        None => None,
        Some(m) => match m {
            Json::Null => None,
            _ => {
                let text = match crate::wire::get_str_field(m, "text") {
                    Some(t) => t,
                    None => {
                        return EventSubFrame::BadNotification;
                    }
                };
                let items = match crate::wire::get_field(m, "fragments") {
                    Some(fr) => match fr {
                        Json::Arr(items) => items,
                        _ => {
                            return EventSubFrame::BadNotification;
                        }
                    },
                    None => {
                        return EventSubFrame::BadNotification;
                    }
                };
                let mut fragments: Vec<Fragment> = Vec::new();
                let mut i: usize = 0;
                while i < items.len()
                    invariant
                        i <= items@.len(),
                        fragments@.len() == i,
                        forall|j: int|
                            0 <= j < i ==> fragment_of(
                                #[trigger] items@[j],
                                fragments@[j],
                            ),
                    decreases items@.len() - i,
                {
                    match fragment_from_json(&items[i]) {
                        Some(fr) => {
                            fragments.push(fr);
                        }
                        None => {
                            return EventSubFrame::BadNotification;
                        }
                    }
                    i = i + 1;
                }
                Some(BitsMessage { text, fragments })
            }
        },
    };
    EventSubFrame::Notification {
        event: TwitchNotification::BitsUse { user_login, user_name, bits, message },
    }
}

} // verus!
