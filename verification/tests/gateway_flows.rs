//! Scenario tests: registration, resume, sibling fanout, reward
//! reconciliation, the 401 refresh, and the EventSub reconnect URL.

use lily_gateway::events::{translate_notification, Fragment, BitsMessage, TwitchNotification};
use lily_gateway::eventsub::{EventSubFrame, EventSubSession};
use lily_gateway::messages::{CustomReward, CustomRewardResponse, ServerMessage,
    TwitchEventSource};
use lily_gateway::orchestrator::{
    apply_hydrated_tokens, apply_refreshed_token, connect_bind_token, connect_response_of,
    handle_code_request, is_state_token, make_state_token, parse_i32_str, version_notice,
    ClientContext,
};
use lily_gateway::registry::Registry;
use lily_gateway::rewards::{plan_reward_actions, RewardAction};
use lily_gateway::store::TokenStore;
use lily_gateway::streamlabs::UserToken;
use lily_gateway::tokens::TwitchTokenData;
use lily_gateway::trigger::{trigger_call_step, HelixOutcome, TriggerStep};

fn twitch_token(user_id: &str, login: &str) -> TwitchTokenData {
    TwitchTokenData {
        access: "A".to_owned(),
        refresh: "R".to_owned(),
        user_id: user_id.to_owned(),
        login: login.to_owned(),
    }
}

#[test]
fn registration_issues_uuid_and_records_it() {
    let mut ctx = ClientContext::new("127.0.0.1:1".to_owned());
    let mut store = TokenStore::new();
    let token = make_state_token();
    assert!(is_state_token(token.as_str()));
    let replies = handle_code_request(&mut ctx, &mut store, token.clone(), &None, "9.9.9");
    match &replies[0] {
        ServerMessage::CodeResponse(c) => assert_eq!(c.state_token, token),
        _ => panic!("expected code response first"),
    }
    assert_eq!(ctx.state_token.as_deref(), Some(token.as_str()));
    assert!(store.has_active_key(token.as_str()));
    // No version was sent, so an unknown-version notice follows.
    assert_eq!(replies.len(), 2);
    match &replies[1] {
        ServerMessage::Notify(n) => assert_eq!(n.title, "Version Unknown"),
        _ => panic!("expected a notice"),
    }
}

#[test]
fn version_notice_cases() {
    assert!(version_notice(&Some("1.0".to_owned()), "1.0").is_none());
    match version_notice(&Some("0.9".to_owned()), "1.0") {
        Some(ServerMessage::Notify(n)) => {
            assert_eq!(n.title, "Version Mismatch");
            assert_eq!(
                n.message,
                "Your client version (0.9) does not match the expected version (1.0). \
                 Please update your client for the best experience."
            );
        }
        _ => panic!("expected mismatch notice"),
    }
    match version_notice(&None, "1.0") {
        Some(ServerMessage::Notify(n)) => assert_eq!(n.title, "Version Unknown"),
        _ => panic!("expected unknown-version notice"),
    }
}

#[test]
fn resume_hydrates_context_from_store() {
    let mut store = TokenStore::new();
    store.upsert_twitch_key("A".to_owned(), "R".to_owned(), 42, "abc".to_owned());
    let row = store.get_twitch_key_by_state("abc").unwrap();
    assert_eq!(row.user, 42);
    assert_eq!(row.authentication, "A");
    assert_eq!(row.version, 1);

    let mut ctx = ClientContext::new("127.0.0.1:2".to_owned());
    connect_bind_token(&mut ctx, &mut store, "abc".to_owned());
    // The runtime validates the stored material and hands back a token.
    apply_hydrated_tokens(&mut ctx, Some(twitch_token("42", "streamer")), None);
    match connect_response_of(&ctx) {
        ServerMessage::ConnectResponse(c) => {
            assert!(c.has_twitch);
            assert!(!c.has_streamlabs);
            assert_eq!(c.twitch_id, Some(42));
            assert_eq!(c.twitch_name.as_deref(), Some("streamer"));
            assert!(c.streamlabs_id.is_none());
        }
        _ => panic!("expected connect response"),
    }
}

#[test]
fn connect_response_carries_streamlabs_identity() {
    let mut ctx = ClientContext::new("127.0.0.1:3".to_owned());
    let sl = UserToken {
        access_token: "a".to_owned(),
        login: "slname".to_owned(),
        user_id: 77,
        refresh_token: "r".to_owned(),
        socket_token: "s".to_owned(),
    };
    apply_hydrated_tokens(&mut ctx, None, Some(sl));
    match connect_response_of(&ctx) {
        ServerMessage::ConnectResponse(c) => {
            assert!(c.has_streamlabs);
            assert_eq!(c.streamlabs_id.as_deref(), Some("77"));
            assert_eq!(c.streamlabs_name.as_deref(), Some("slname"));
            assert!(c.twitch_id.is_none());
        }
        _ => panic!("expected connect response"),
    }
}

#[test]
fn sibling_fanout_delivers_whisper_to_each_socket() {
    let mut reg = Registry::new();
    let created = reg.register("abc".to_owned(), 1, 101, Some(11), None);
    assert!(created);
    let created_again = reg.register("abc".to_owned(), 1, 102, Some(99), Some(98));
    // The second sibling joins the existing entry; the sessions built at
    // creation stay as they were.
    assert!(!created_again);
    let info = reg.entry_info("abc").unwrap();
    assert_eq!(info.1, Some(11));
    assert_eq!(info.2, None);

    let senders = reg.fanout_senders("abc");
    assert_eq!(senders, vec![101, 102]);

    let frames = translate_notification(&TwitchNotification::Whisper {
        from_user_login: "ulogin".to_owned(),
        from_user_name: "uname".to_owned(),
        text: "psst".to_owned(),
    });
    // Exactly one notify and then exactly one whisper event, for every
    // sender.
    assert_eq!(frames.len(), 2);
    match &frames[0] {
        ServerMessage::Notify(n) => {
            assert_eq!(n.title, "uname");
            assert_eq!(n.message, "psst");
        }
        _ => panic!("expected notify first"),
    }
    match &frames[1] {
        ServerMessage::TwitchEvent(e) => {
            assert_eq!(e.user_id, "ulogin");
            match &e.event {
                TwitchEventSource::Whisper { sender, message } => {
                    assert_eq!(sender, "uname");
                    assert_eq!(message, "psst");
                }
                _ => panic!("expected whisper event"),
            }
        }
        _ => panic!("expected twitch event second"),
    }
}

#[test]
fn leaving_last_sibling_removes_entry_and_hands_back_sessions() {
    let mut reg = Registry::new();
    reg.register("abc".to_owned(), 1, 101, Some(11), Some(12));
    reg.register("abc".to_owned(), 1, 102, None, None);
    assert!(reg.leave("abc", 101).is_none());
    assert!(reg.contains("abc"));
    let handed = reg.leave("abc", 102).unwrap();
    assert_eq!(handed, (Some(11), Some(12)));
    assert!(!reg.contains("abc"));
    assert!(reg.leave("abc", 102).is_none());
}

#[test]
fn bits_event_filters_emotes() {
    let frames = translate_notification(&TwitchNotification::BitsUse {
        user_login: "u".to_owned(),
        user_name: "n".to_owned(),
        bits: 500,
        message: Some(BitsMessage {
            text: "cheer500 nice one".to_owned(),
            fragments: vec![
                Fragment::Cheermote { text: "cheer500".to_owned() },
                Fragment::Plain { text: " nice ".to_owned() },
                Fragment::Emote { text: "Kappa".to_owned() },
            ],
        }),
    });
    assert_eq!(frames.len(), 1);
    match &frames[0] {
        ServerMessage::TwitchEvent(e) => match &e.event {
            TwitchEventSource::BitDonation { amount, message, emojis } => {
                assert_eq!(*amount, 500);
                assert_eq!(message.as_deref(), Some("cheer500 nice one"));
                assert_eq!(emojis.as_ref().unwrap(), &vec!["cheer500", "Kappa"]);
            }
            _ => panic!("expected bit donation"),
        },
        _ => panic!("expected twitch event"),
    }
}

fn existing_hug() -> CustomRewardResponse {
    CustomRewardResponse {
        id: "id-hug".to_owned(),
        title: "Hug".to_owned(),
        prompt: "p".to_owned(),
        cost: 100,
        is_enabled: true,
        is_global_cooldown_enabled: false,
        global_cooldown_seconds: 0,
    }
}

fn desired(title: &str, cost: u32) -> CustomReward {
    CustomReward {
        title: title.to_owned(),
        prompt: "p".to_owned(),
        cost,
        is_enabled: true,
        is_global_cooldown_enabled: false,
        global_cooldown_seconds: 0,
    }
}

#[test]
fn reward_diff_updates_creates_and_second_run_is_empty() {
    let existing = vec![existing_hug()];
    let wanted = vec![desired("Hug", 200), desired("Dance", 50)];
    let plan = plan_reward_actions(&existing, &wanted);
    assert_eq!(plan.len(), 2);
    match &plan[0] {
        RewardAction::Update { id, cost, prompt, is_enabled, .. } => {
            assert_eq!(id, "id-hug");
            assert_eq!(*cost, Some(200));
            assert!(prompt.is_none());
            assert!(is_enabled.is_none());
        }
        _ => panic!("expected an update first"),
    }
    match &plan[1] {
        RewardAction::Create { reward } => assert_eq!(reward.title, "Dance"),
        _ => panic!("expected a create second"),
    }

    // After the plan ran, the broadcaster's rewards match the desired
    // list; planning the same list again asks for nothing.
    let after = vec![
        CustomRewardResponse {
            id: "id-hug".to_owned(),
            title: "Hug".to_owned(),
            prompt: "p".to_owned(),
            cost: 200,
            is_enabled: true,
            is_global_cooldown_enabled: false,
            global_cooldown_seconds: 0,
        },
        CustomRewardResponse {
            id: "id-dance".to_owned(),
            title: "Dance".to_owned(),
            prompt: "p".to_owned(),
            cost: 50,
            is_enabled: true,
            is_global_cooldown_enabled: false,
            global_cooldown_seconds: 0,
        },
    ];
    let second = plan_reward_actions(&after, &wanted);
    assert_eq!(second.len(), 0);
}

#[test]
fn reward_diff_deletes_dropped_titles() {
    let existing = vec![existing_hug()];
    let plan = plan_reward_actions(&existing, &Vec::new());
    assert_eq!(plan.len(), 1);
    match &plan[0] {
        RewardAction::Delete { id } => assert_eq!(id, "id-hug"),
        _ => panic!("expected a delete"),
    }
}

#[test]
fn refresh_retry_is_single_shot() {
    // First call comes back 401: refresh and retry, once.
    match trigger_call_step(&HelixOutcome::Unauthorized, 9, "twitch", false) {
        TriggerStep::RefreshAndRetry => {}
        _ => panic!("expected a refresh"),
    }
    // The refreshed token is what the context then holds.
    let mut ctx = ClientContext::new("127.0.0.1:4".to_owned());
    apply_hydrated_tokens(&mut ctx, Some(twitch_token("42", "s")), None);
    let refreshed = TwitchTokenData {
        access: "NEW".to_owned(),
        refresh: "R2".to_owned(),
        user_id: "42".to_owned(),
        login: "s".to_owned(),
    };
    apply_refreshed_token(&mut ctx, refreshed);
    assert_eq!(ctx.twitch.as_ref().unwrap().access, "NEW");
    // The retry succeeds: exactly one successful task response.
    match trigger_call_step(&HelixOutcome::Success, 9, "twitch", true) {
        TriggerStep::Respond { response } => {
            assert_eq!(response.request_id, 9);
            assert!(response.success);
            assert!(response.message.is_none());
        }
        _ => panic!("expected a response"),
    }
    // A second 401 is not retried again.
    match trigger_call_step(&HelixOutcome::Unauthorized, 9, "twitch", true) {
        TriggerStep::Fail { error } => assert_eq!(error.request_id, 9),
        _ => panic!("expected a failure"),
    }
}

#[test]
fn eventsub_reconnect_url_is_adopted() {
    let mut s = EventSubSession::new("42".to_owned());
    assert_eq!(s.connect_url, "wss://eventsub.wss.twitch.tv/ws");
    let out = s.process_frame(EventSubFrame::Reconnect {
        session_id: "sess2".to_owned(),
        reconnect_url: Some("wss://other.example/ws".to_owned()),
    });
    assert!(out.keep_running);
    assert_eq!(out.subscribe.len(), 6);
    assert_eq!(s.connect_url, "wss://other.example/ws");
    // A protocol reset re-dials the current URL: the adopted one.
    let out2 = s.process_frame(EventSubFrame::ProtocolReset);
    assert!(out2.keep_running);
    assert!(out2.reconnect);
    assert_eq!(s.connect_url, "wss://other.example/ws");
}

#[test]
fn eventsub_terminal_frames() {
    let mut s = EventSubSession::new("42".to_owned());
    assert!(!s.process_frame(EventSubFrame::Revocation).keep_running);
    assert!(!s.process_frame(EventSubFrame::Close).keep_running);
    let out = s.process_frame(EventSubFrame::Keepalive);
    assert!(out.keep_running && out.event.is_none());
    let err = s.process_frame(EventSubFrame::TransportError);
    assert!(!err.keep_running && err.error);
}

#[test]
fn eventsub_catalogue_types() {
    let s = EventSubSession::new("42".to_owned());
    let subs = s.catalogue("sess");
    let types: Vec<&str> = subs.iter().map(|x| x.sub_type.as_str()).collect();
    assert_eq!(
        types,
        vec![
            "channel.bits.use",
            "channel.channel_points_custom_reward_redemption.add",
            "channel.channel_points_custom_reward_redemption.update",
            "channel.chat.message",
            "channel.chat.notification",
            "user.whisper.message",
        ]
    );
    assert!(subs.iter().all(|x| x.version == "1" && x.session_id == "sess"));
    assert_eq!(subs[5].broadcaster_user_id, None);
    assert_eq!(subs[5].user_id.as_deref(), Some("42"));
}

#[test]
fn store_upsert_bumps_version() {
    let mut store = TokenStore::new();
    store.upsert_twitch_key("A1".to_owned(), "R1".to_owned(), 42, "abc".to_owned());
    store.upsert_twitch_key("A2".to_owned(), "R2".to_owned(), 42, "def".to_owned());
    let row = store.get_twitch_key_by_state("def").unwrap();
    assert_eq!(row.version, 2);
    assert_eq!(row.authentication, "A2");
    assert!(store.get_twitch_key_by_state("abc").is_none());
    store.upsert_sl_key("B1".to_owned(), "S1".to_owned(), 7, "abc".to_owned());
    let sl = store.get_sl_key_by_state("abc").unwrap();
    assert_eq!(sl.version, 1);
}

#[test]
fn parse_i32_edges() {
    assert_eq!(parse_i32_str("2147483647"), Some(i32::MAX));
    assert_eq!(parse_i32_str("-2147483648"), Some(i32::MIN));
    assert_eq!(parse_i32_str("2147483648"), None);
    assert_eq!(parse_i32_str("-2147483649"), None);
    assert_eq!(parse_i32_str("0"), Some(0));
    assert_eq!(parse_i32_str(""), None);
    assert_eq!(parse_i32_str("-"), None);
    assert_eq!(parse_i32_str("12x"), None);
}

#[test]
fn state_token_shape() {
    assert!(is_state_token("123e4567-e89b-42d3-a456-426614174000"));
    // Wrong version nibble.
    assert!(!is_state_token("123e4567-e89b-12d3-a456-426614174000"));
    // Wrong variant nibble.
    assert!(!is_state_token("123e4567-e89b-42d3-7456-426614174000"));
    // Uppercase hex is refused.
    assert!(!is_state_token("123E4567-E89B-42D3-A456-426614174000"));
    assert!(!is_state_token("123e4567e89b42d3a456426614174000"));
    assert!(!is_state_token(""));
}

#[test]
fn version_match_skips_notice_after_code_request() {
    let mut ctx = ClientContext::new("127.0.0.1:5".to_owned());
    let mut store = TokenStore::new();
    let replies = handle_code_request(
        &mut ctx,
        &mut store,
        "tok".to_owned(),
        &Some("1.0".to_owned()),
        "1.0",
    );
    assert_eq!(replies.len(), 1);
}

#[test]
fn connect_replies_in_order() {
    let mut ctx = ClientContext::new("127.0.0.1:6".to_owned());
    let mut store = TokenStore::new();
    let replies = lily_gateway::orchestrator::handle_connect(
        &mut ctx,
        &mut store,
        "abc".to_owned(),
        Some(twitch_token("42", "streamer")),
        None,
        &Some("0.9".to_owned()),
        "1.0",
    );
    assert_eq!(replies.len(), 2);
    match &replies[0] {
        ServerMessage::ConnectResponse(c) => {
            assert!(c.has_twitch);
            assert_eq!(c.twitch_id, Some(42));
        }
        _ => panic!("expected connect response first"),
    }
    match &replies[1] {
        ServerMessage::Notify(n) => assert_eq!(n.title, "Version Mismatch"),
        _ => panic!("expected version notice second"),
    }
    assert!(store.has_active_key("abc"));
    assert_eq!(ctx.state_token.as_deref(), Some("abc"));
}
