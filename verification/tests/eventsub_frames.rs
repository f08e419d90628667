//! Tests for the EventSub envelope classifier and the session's reaction
//! to each frame.

use lily_gateway::events::TwitchNotification;
use lily_gateway::eventsub::{classify_eventsub_json, EventSubFrame, EventSubSession};
use lily_gateway::json::parse_json_str;

fn classify(text: &str) -> EventSubFrame {
    let v = parse_json_str(text).expect("frame text parses");
    classify_eventsub_json(&v)
}

#[test]
fn welcome_envelope() {
    let f = classify(
        "{\"metadata\":{\"message_type\":\"session_welcome\"},\
         \"payload\":{\"session\":{\"id\":\"sess1\",\"reconnect_url\":null}}}",
    );
    match f {
        EventSubFrame::Welcome { session_id, reconnect_url } => {
            assert_eq!(session_id, "sess1");
            assert!(reconnect_url.is_none());
        }
        _ => panic!("expected a welcome"),
    }
}

#[test]
fn reconnect_envelope_carries_url() {
    let f = classify(
        "{\"metadata\":{\"message_type\":\"session_reconnect\"},\
         \"payload\":{\"session\":{\"id\":\"sess2\",\
         \"reconnect_url\":\"wss://other.example/ws\"}}}",
    );
    match f {
        EventSubFrame::Reconnect { session_id, reconnect_url } => {
            assert_eq!(session_id, "sess2");
            assert_eq!(reconnect_url.as_deref(), Some("wss://other.example/ws"));
        }
        _ => panic!("expected a reconnect"),
    }
}

#[test]
fn keepalive_and_revocation_envelopes() {
    assert!(matches!(
        classify("{\"metadata\":{\"message_type\":\"session_keepalive\"},\"payload\":{}}"),
        EventSubFrame::Keepalive
    ));
    assert!(matches!(
        classify("{\"metadata\":{\"message_type\":\"revocation\"},\"payload\":{}}"),
        EventSubFrame::Revocation
    ));
    assert!(matches!(
        classify("{\"payload\":{}}"),
        EventSubFrame::Malformed
    ));
    assert!(matches!(
        classify("{\"metadata\":{\"message_type\":\"session_welcome\"},\"payload\":{}}"),
        EventSubFrame::Malformed
    ));
    assert!(matches!(
        classify("{\"metadata\":{\"message_type\":\"something_else\"},\"payload\":{}}"),
        EventSubFrame::Malformed
    ));
}

#[test]
fn notification_with_missing_event_fields_is_reported() {
    // The envelope is a real whisper notification, but the event payload
    // lacks its text: reported as an error without ending the session.
    let f = classify(
        "{\"metadata\":{\"message_type\":\"notification\"},\
         \"payload\":{\"subscription\":{\"type\":\"user.whisper.message\"},\
         \"event\":{\"from_user_login\":\"u\",\"from_user_name\":\"n\"}}}",
    );
    assert!(matches!(f, EventSubFrame::BadNotification));
    let mut s = EventSubSession::new("42".to_owned());
    let out = s.process_frame(EventSubFrame::BadNotification);
    assert!(out.keep_running);
    assert!(out.error);
    assert!(out.event.is_none());
}

#[test]
fn unreadable_upstream_text_ends_the_session_with_an_error() {
    let mut s = EventSubSession::new("42".to_owned());
    let out = s.process_frame(EventSubFrame::Malformed);
    assert!(!out.keep_running);
    assert!(out.error);
    assert!(out.event.is_none());
}

#[test]
fn whisper_notification_envelope() {
    let f = classify(
        "{\"metadata\":{\"message_type\":\"notification\"},\
         \"payload\":{\"subscription\":{\"type\":\"user.whisper.message\"},\
         \"event\":{\"from_user_login\":\"ulogin\",\"from_user_name\":\"uname\",\
         \"whisper\":{\"text\":\"psst\"}}}}",
    );
    match f {
        EventSubFrame::Notification {
            event: TwitchNotification::Whisper { from_user_login, from_user_name, text },
        } => {
            assert_eq!(from_user_login, "ulogin");
            assert_eq!(from_user_name, "uname");
            assert_eq!(text, "psst");
        }
        _ => panic!("expected a whisper notification"),
    }
}

#[test]
fn redemption_notification_envelope() {
    let f = classify(
        "{\"metadata\":{\"message_type\":\"notification\"},\
         \"payload\":{\"subscription\":\
         {\"type\":\"channel.channel_points_custom_reward_redemption.add\"},\
         \"event\":{\"user_login\":\"u\",\"user_name\":\"n\",\
         \"reward\":{\"id\":\"r1\",\"title\":\"Hug\"}}}}",
    );
    match f {
        EventSubFrame::Notification {
            event:
                TwitchNotification::ChannelPointsRedemptionAdd {
                    user_login,
                    user_name,
                    reward_id,
                    reward_title,
                },
        } => {
            assert_eq!(user_login, "u");
            assert_eq!(user_name, "n");
            assert_eq!(reward_id, "r1");
            assert_eq!(reward_title, "Hug");
        }
        _ => panic!("expected a redemption notification"),
    }
}

#[test]
fn bits_notification_envelope() {
    let f = classify(
        "{\"metadata\":{\"message_type\":\"notification\"},\
         \"payload\":{\"subscription\":{\"type\":\"channel.bits.use\"},\
         \"event\":{\"user_login\":\"u\",\"user_name\":\"n\",\"bits\":500,\
         \"message\":{\"text\":\"cheer500 gg\",\"fragments\":[\
         {\"type\":\"cheermote\",\"text\":\"cheer500\"},\
         {\"type\":\"text\",\"text\":\" gg\"}]}}}}",
    );
    match f {
        EventSubFrame::Notification {
            event: TwitchNotification::BitsUse { bits, message, .. },
        } => {
            assert_eq!(bits, 500);
            let m = message.expect("message kept");
            assert_eq!(m.text, "cheer500 gg");
            assert_eq!(m.fragments.len(), 2);
        }
        _ => panic!("expected a bits notification"),
    }
}

#[test]
fn unforwarded_notification_envelope() {
    let f = classify(
        "{\"metadata\":{\"message_type\":\"notification\"},\
         \"payload\":{\"subscription\":{\"type\":\"channel.chat.notification\"},\
         \"event\":{\"anything\":1}}}",
    );
    match f {
        EventSubFrame::Notification { event: TwitchNotification::Other } => {}
        _ => panic!("expected an unforwarded notification"),
    }
}

#[test]
fn welcome_drives_subscriptions_once() {
    let mut s = EventSubSession::new("42".to_owned());
    let out = s.process_frame(EventSubFrame::Welcome {
        session_id: "sess1".to_owned(),
        reconnect_url: None,
    });
    assert!(out.keep_running);
    assert_eq!(out.subscribe.len(), 6);
    assert_eq!(s.session_id.as_deref(), Some("sess1"));
    // A notification afterwards asks for no further subscriptions.
    let out2 = s.process_frame(EventSubFrame::Notification {
        event: TwitchNotification::Other,
    });
    assert!(out2.keep_running);
    assert_eq!(out2.subscribe.len(), 0);
    assert!(matches!(out2.event, Some(TwitchNotification::Other)));
}
