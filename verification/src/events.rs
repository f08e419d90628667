//! Translation of upstream Twitch notifications into downstream frames.
//!
//! Each notification kind maps to a fixed set of `ServerMessage` values;
//! a whisper yields exactly one `Notify` and then exactly one whisper
//! `TwitchEvent`, in that order.

use vstd::prelude::*;
use crate::messages::{Notify, ServerMessage, TwitchEvent, TwitchEventSource};

verus! {

/// One fragment of a chat or cheer message.
pub enum Fragment {
    Emote { text: String },
    Cheermote { text: String },
    Plain { text: String },
}

/// The text body attached to a bits-use notification.
pub struct BitsMessage {
    pub text: String,
    pub fragments: Vec<Fragment>,
}

/// An upstream Twitch notification, reduced to the fields the gateway
/// reads.
pub enum TwitchNotification {
    ChannelPointsRedemptionAdd {
        user_login: String,
        user_name: String,
        reward_id: String,
        reward_title: String,
    },
    BitsUse { user_login: String, user_name: String, bits: u32, message: Option<BitsMessage> },
    Whisper { from_user_login: String, from_user_name: String, text: String },
    ChatMessage { chatter_user_id: String, chatter_user_name: String, text: String },
    /// A notification of a subscribed type the gateway does not forward.
    Other,
}

/// The texts of the emote and cheermote fragments, in order, from `i` on.
pub open spec fn emoji_texts_from(fs: Seq<Fragment>, i: int) -> Seq<Seq<char>>
    decreases fs.len() - i,
{
    if i < 0 || i >= fs.len() {
        Seq::empty()
    } else {
        match fs[i] {
            Fragment::Emote { text } => seq![text@] + emoji_texts_from(fs, i + 1),
            Fragment::Cheermote { text } => seq![text@] + emoji_texts_from(fs, i + 1),
            Fragment::Plain { .. } => emoji_texts_from(fs, i + 1),
        }
    }
}

/// The views of a list of strings.
pub open spec fn str_views(ss: Seq<String>) -> Seq<Seq<char>> {
    Seq::new(ss.len(), |i: int| ss[i]@)
}

/// What the translation of a notification must be.
pub open spec fn translated(n: TwitchNotification, r: Seq<ServerMessage>) -> bool {
    match n {
        TwitchNotification::ChannelPointsRedemptionAdd {
            user_login,
            user_name,
            reward_id,
            reward_title,
        } => {
            &&& r.len() == 1
            &&& r[0] matches ServerMessage::TwitchEvent(e)
            &&& e.user_id@ == user_login@
            &&& e.user_name@ == user_name@
            &&& e.event matches TwitchEventSource::ChannelPoints { reward_id: ri, reward_name: rn }
            &&& ri@ == reward_id@
            &&& rn@ == reward_title@
        },
        TwitchNotification::BitsUse { user_login, user_name, bits, message } => {
            &&& r.len() == 1
            &&& r[0] matches ServerMessage::TwitchEvent(e)
            &&& e.user_id@ == user_login@
            &&& e.user_name@ == user_name@
            &&& e.event matches TwitchEventSource::BitDonation { amount, message: mt, emojis }
            &&& amount == bits
            &&& (match message {
                Some(m) => {
                    &&& mt matches Some(t) && t@ == m.text@
                    &&& emojis matches Some(es) && str_views(es@) == emoji_texts_from(
                        m.fragments@,
                        0,
                    )
                },
                None => mt is None && emojis is None,
            })
        },
        TwitchNotification::Whisper { from_user_login, from_user_name, text } => {
            &&& r.len() == 2
            &&& r[0] matches ServerMessage::Notify(nf)
            &&& nf.title@ == from_user_name@
            &&& nf.message@ == text@
            &&& r[1] matches ServerMessage::TwitchEvent(e)
            &&& e.user_id@ == from_user_login@
            &&& e.user_name@ == from_user_name@
            &&& e.event matches TwitchEventSource::Whisper { sender, message }
            &&& sender@ == from_user_name@
            &&& message@ == text@
        },
        TwitchNotification::ChatMessage { chatter_user_id, chatter_user_name, text } => {
            &&& r.len() == 1
            &&& r[0] matches ServerMessage::TwitchEvent(e)
            &&& e.user_id@ == chatter_user_id@
            &&& e.user_name@ == chatter_user_name@
            &&& e.event matches TwitchEventSource::Message { sender, message }
            &&& sender@ == chatter_user_name@
            &&& message@ == text@
        },
        TwitchNotification::Other => r.len() == 0,
    }
}

/// The emote and cheermote texts of the fragments, in order.
fn emoji_list(fragments: &Vec<Fragment>) -> (r: Vec<String>)
    ensures
        str_views(r@) == emoji_texts_from(fragments@, 0),
{
    let mut out: Vec<String> = Vec::new();
    let mut i: usize = 0;
    while i < fragments.len()
        invariant
            i <= fragments@.len(),
            str_views(out@) + emoji_texts_from(fragments@, i as int) =~= emoji_texts_from(
                fragments@,
                0,
            ),
        decreases fragments@.len() - i,
    {
        match &fragments[i] {
            Fragment::Emote { text } => {
                let t = text.clone();
                proof {
                    assert(str_views(out@.push(t)) =~= str_views(out@).push(t@));
                }
                out.push(t);
            }
            Fragment::Cheermote { text } => {
                let t = text.clone();
                proof {
                    assert(str_views(out@.push(t)) =~= str_views(out@).push(t@));
                }
                out.push(t);
            }
            Fragment::Plain { .. } => {}
        }
        i = i + 1;
        proof {
            assert(str_views(out@) + emoji_texts_from(fragments@, i as int) =~= emoji_texts_from(
                fragments@,
                0,
            ));
        }
    }
    proof {
        assert(str_views(out@) =~= emoji_texts_from(fragments@, 0));
    }
    out
}

/// Translates one upstream notification into the downstream frames to fan
/// out, in order. A whisper yields exactly one `Notify` and then exactly
/// one whisper `TwitchEvent`; an unforwarded notification yields nothing.
pub fn translate_notification(n: &TwitchNotification) -> (r: Vec<ServerMessage>)
    ensures
        translated(*n, r@),
{
    let mut out: Vec<ServerMessage> = Vec::new();
    match n {
        TwitchNotification::ChannelPointsRedemptionAdd {
            user_login,
            user_name,
            reward_id,
            reward_title,
        } => {
            out.push(
                ServerMessage::TwitchEvent(
                    TwitchEvent {
                        user_id: user_login.clone(),
                        user_name: user_name.clone(),
                        event: TwitchEventSource::ChannelPoints {
                            reward_id: reward_id.clone(),
                            reward_name: reward_title.clone(),
                        },
                    },
                ),
            );
        }
        TwitchNotification::BitsUse { user_login, user_name, bits, message } => {
            let (mt, emojis) = match message {
                Some(m) => (Some(m.text.clone()), Some(emoji_list(&m.fragments))),
                None => (None, None),
            };
            out.push(
                ServerMessage::TwitchEvent(
                    TwitchEvent {
                        user_id: user_login.clone(),
                        user_name: user_name.clone(),
                        event: TwitchEventSource::BitDonation { amount: *bits, message: mt, emojis },
                    },
                ),
            );
        }
        TwitchNotification::Whisper { from_user_login, from_user_name, text } => {
            out.push(
                ServerMessage::Notify(
                    Notify { title: from_user_name.clone(), message: text.clone() },
                ),
            );
            out.push(
                ServerMessage::TwitchEvent(
                    TwitchEvent {
                        user_id: from_user_login.clone(),
                        user_name: from_user_name.clone(),
                        event: TwitchEventSource::Whisper {
                            sender: from_user_name.clone(),
                            message: text.clone(),
                        },
                    },
                ),
            );
        }
        TwitchNotification::ChatMessage { chatter_user_id, chatter_user_name, text } => {
            out.push(
                ServerMessage::TwitchEvent(
                    TwitchEvent {
                        user_id: chatter_user_id.clone(),
                        user_name: chatter_user_name.clone(),
                        event: TwitchEventSource::Message {
                            sender: chatter_user_name.clone(),
                            message: text.clone(),
                        },
                    },
                ),
            );
        }
        TwitchNotification::Other => {}
    }
    out
}

} // verus!
