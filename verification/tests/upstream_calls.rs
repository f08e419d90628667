//! Tests for the planned upstream requests, the OAuth callback gates,
//! the entity rows, and the Streamlabs payload mapping.

use lily_gateway::callbacks::{
    authorize_url, code_exchange_form, refresh_form, streamlabs_callback_gate, success_page,
    twitch_callback_gate, CallbackGate, CallbackParams,
};
use lily_gateway::config::{Config, OAuthConfig};
use lily_gateway::eventsub::{subscription_body_json, SubscriptionRequest};
use lily_gateway::json::{json_string, parse_json_str, Json};
use lily_gateway::rewards::RewardAction;
use lily_gateway::store::{ActiveStreamLabsKey, ActiveTwitchKey};
use lily_gateway::streamlabs::{
    extract_identity, extract_socket_token, extract_token_pair, sl_events_from_payload,
    SocketSession,
};
use lily_gateway::orchestrator::ClientContext;
use lily_gateway::trigger::{
    get_rewards_plan, redemption_status_plan, reward_action_plan, reward_batch_step,
    trigger_token_gate, HelixOutcome, HttpMethod,
};

#[test]
fn redemption_plan_url_and_body() {
    let plan = redemption_status_plan("42", "rw", "rd", true);
    assert!(matches!(plan.method, HttpMethod::Patch));
    assert_eq!(
        plan.url,
        "https://api.twitch.tv/helix/channel_points/custom_rewards/redemptions?\
         broadcaster_id=42&reward_id=rw&id=rd"
    );
    assert_eq!(plan.body.as_deref(), Some("{\"status\":\"FULFILLED\"}"));
    let cancel = redemption_status_plan("42", "rw", "rd", false);
    assert_eq!(cancel.body.as_deref(), Some("{\"status\":\"CANCELED\"}"));
}

#[test]
fn get_rewards_plan_url() {
    let plan = get_rewards_plan("42");
    assert!(matches!(plan.method, HttpMethod::Get));
    assert_eq!(
        plan.url,
        "https://api.twitch.tv/helix/channel_points/custom_rewards?broadcaster_id=42\
         &only_manageable_rewards=true"
    );
    assert!(plan.body.is_none());
}

#[test]
fn reward_action_plans() {
    let create = reward_action_plan(
        &RewardAction::Create {
            reward: lily_gateway::messages::CustomReward {
                title: "Dance".to_owned(),
                prompt: "p".to_owned(),
                cost: 50,
                is_enabled: true,
                is_global_cooldown_enabled: false,
                global_cooldown_seconds: 0,
            },
        },
        "42",
    );
    assert!(matches!(create.method, HttpMethod::Post));
    assert_eq!(
        create.body.as_deref(),
        Some(
            "{\"title\":\"Dance\",\"cost\":50,\"prompt\":\"p\",\"is_enabled\":true,\
             \"is_global_cooldown_enabled\":false,\"global_cooldown_seconds\":0}"
        )
    );

    let update = reward_action_plan(
        &RewardAction::Update {
            id: "id-hug".to_owned(),
            cost: Some(200),
            prompt: None,
            is_enabled: None,
            is_global_cooldown_enabled: None,
            global_cooldown_seconds: None,
        },
        "42",
    );
    assert!(matches!(update.method, HttpMethod::Patch));
    assert_eq!(
        update.url,
        "https://api.twitch.tv/helix/channel_points/custom_rewards?broadcaster_id=42&id=id-hug"
    );
    assert_eq!(update.body.as_deref(), Some("{\"cost\":200}"));

    let delete = reward_action_plan(&RewardAction::Delete { id: "id-x".to_owned() }, "42");
    assert!(matches!(delete.method, HttpMethod::Delete));
    assert!(delete.body.is_none());
}

#[test]
fn subscription_body_text() {
    let s = SubscriptionRequest {
        sub_type: "user.whisper.message".to_owned(),
        version: "1".to_owned(),
        broadcaster_user_id: None,
        user_id: Some("42".to_owned()),
        session_id: "sess".to_owned(),
    };
    let body = json_string(&subscription_body_json(&s));
    assert_eq!(
        body,
        "{\"type\":\"user.whisper.message\",\"version\":\"1\",\
         \"condition\":{\"user_id\":\"42\"},\
         \"transport\":{\"method\":\"websocket\",\"session_id\":\"sess\"}}"
    );
}

fn params(
    error: Option<&str>,
    code: Option<&str>,
    state: Option<&str>,
    scope: Option<&str>,
) -> CallbackParams {
    CallbackParams {
        error: error.map(|s| s.to_owned()),
        error_description: None,
        code: code.map(|s| s.to_owned()),
        state: state.map(|s| s.to_owned()),
        scope: scope.map(|s| s.to_owned()),
    }
}

#[test]
fn twitch_gate_checks_scope_exactly() {
    match twitch_callback_gate(&params(None, Some("c"), Some("s"), Some("a b")), "a b") {
        CallbackGate::Proceed { code, state } => {
            assert_eq!(code, "c");
            assert_eq!(state, "s");
        }
        _ => panic!("expected proceed"),
    }
    match twitch_callback_gate(&params(None, Some("c"), Some("s"), Some("b a")), "a b") {
        CallbackGate::Reject { status, message } => {
            assert_eq!(status, 400);
            assert_eq!(message, "Invalid scopes: expected 'a b', got 'b a'");
        }
        _ => panic!("expected reject"),
    }
    match twitch_callback_gate(&params(None, Some("c"), Some("s"), None), "a b") {
        CallbackGate::Reject { status, message } => {
            assert_eq!(status, 400);
            assert_eq!(message, "Missing scope parameter");
        }
        _ => panic!("expected reject"),
    }
    match twitch_callback_gate(&params(Some("denied"), None, None, None), "a b") {
        CallbackGate::Reject { status, message } => {
            assert_eq!(status, 400);
            assert_eq!(message, "Twitch returned an error: denied: No description provided");
        }
        _ => panic!("expected reject"),
    }
    match twitch_callback_gate(&params(None, None, Some("s"), Some("a b")), "a b") {
        CallbackGate::Reject { message, .. } => assert_eq!(message, "Missing code parameter"),
        _ => panic!("expected reject"),
    }
}

#[test]
fn streamlabs_gate_needs_no_scope() {
    match streamlabs_callback_gate(&params(None, Some("c"), Some("s"), None)) {
        CallbackGate::Proceed { code, state } => {
            assert_eq!(code, "c");
            assert_eq!(state, "s");
        }
        _ => panic!("expected proceed"),
    }
    match streamlabs_callback_gate(&params(None, Some("c"), None, None)) {
        CallbackGate::Reject { message, .. } => assert_eq!(message, "Missing state parameter"),
        _ => panic!("expected reject"),
    }
}

#[test]
fn authorize_url_percent_encodes_scopes() {
    let url = authorize_url(
        "https://id.twitch.tv/oauth2/authorize",
        "cid",
        "http://cb",
        "chat:read chat:edit",
        "tok",
    );
    assert_eq!(
        url,
        "https://id.twitch.tv/oauth2/authorize?response_type=code&client_id=cid\
         &redirect_uri=http://cb&scope=chat:read%20chat:edit&state=tok"
    );
}

#[test]
fn exchange_forms() {
    let f = code_exchange_form("cid", "sec", "http://cb", "thecode");
    let pairs: Vec<(&str, &str)> =
        f.iter().map(|p| (p.0.as_str(), p.1.as_str())).collect();
    assert_eq!(
        pairs,
        vec![
            ("grant_type", "authorization_code"),
            ("client_id", "cid"),
            ("client_secret", "sec"),
            ("redirect_uri", "http://cb"),
            ("code", "thecode"),
        ]
    );
    let r = refresh_form("cid", "sec", "http://cb", "ref");
    assert_eq!(r[0].1, "refresh_token");
    assert_eq!(r[4], ("refresh_token".to_owned(), "ref".to_owned()));
}

#[test]
fn success_pages() {
    assert_eq!(
        success_page("Twitch"),
        "Twitch authentication successful! You can close this tab."
    );
    assert_eq!(
        success_page("Streamlabs"),
        "Streamlabs authentication successful! You can close this tab."
    );
}

#[test]
fn streamlabs_response_extraction() {
    let v = parse_json_str(
        "{\"streamlabs\":{\"id\":77,\"display_name\":\"slname\"},\"other\":1}",
    )
    .unwrap();
    assert_eq!(extract_identity(&v), Some((77, "slname".to_owned())));
    let missing = parse_json_str("{\"streamlabs\":{\"id\":\"77\"}}").unwrap();
    assert!(extract_identity(&missing).is_none());

    let st = parse_json_str("{\"socket_token\":\"sock\"}").unwrap();
    assert_eq!(extract_socket_token(&st), Some("sock".to_owned()));

    let pair = parse_json_str("{\"access_token\":\"a\",\"refresh_token\":\"r\"}").unwrap();
    assert_eq!(extract_token_pair(&pair), Some(("a".to_owned(), "r".to_owned())));
    let no_refresh = parse_json_str("{\"access_token\":\"a\"}").unwrap();
    assert!(extract_token_pair(&no_refresh).is_none());
}

#[test]
fn socket_session_gate() {
    let mut s = SocketSession::new();
    assert!(s.run_gate());
    s.mark_disconnected();
    assert!(!s.run_gate());
}

#[test]
fn streamlabs_payload_mapping() {
    let known = parse_json_str(
        "{\"type\":\"donation\",\"event_id\":\"e1\",\"message\":[{\"amount\":5}]}",
    )
    .unwrap();
    let unknown = parse_json_str("[1,2]").unwrap();
    let events = sl_events_from_payload(vec![known, unknown]);
    assert_eq!(events.len(), 2);
    assert_eq!(events[0].type_, "donation");
    assert_eq!(events[0].event_id.as_deref(), Some("e1"));
    assert!(events[0].for_.is_none());
    assert!(matches!(events[0].message, Json::Arr(_)));
    assert_eq!(events[1].type_, "unknown");
    assert!(matches!(events[1].message, Json::Arr(_)));
}

#[test]
fn entity_rows_and_config() {
    let t = ActiveTwitchKey::new("a".to_owned(), "r".to_owned(), 42, "abc".to_owned(), 1);
    assert_eq!(t.id, 0);
    assert_eq!(t.user, 42);
    let s = ActiveStreamLabsKey::new("a".to_owned(), "r".to_owned(), 7, "abc".to_owned(), 3);
    assert_eq!(s.version, 3);

    let cfg = Config::new(
        "127.0.0.1".to_owned(),
        3000,
        "gateway.db".to_owned(),
        OAuthConfig::new(
            "http://cb/t".to_owned(),
            "chat:read".to_owned(),
            "cid".to_owned(),
            "tsecret".to_owned(),
        ),
        OAuthConfig::new(
            "http://cb/s".to_owned(),
            "donations.read".to_owned(),
            "cid2".to_owned(),
            "ssecret".to_owned(),
        ),
        "1.0.0".to_owned(),
    );
    assert_eq!(cfg.server_host(), "127.0.0.1");
    assert_eq!(cfg.server_port(), 3000);
    assert_eq!(cfg.db_url(), "gateway.db");
    assert_eq!(cfg.twitch_oauth().redirect(), "http://cb/t");
    assert_eq!(cfg.twitch_oauth().scopes(), "chat:read");
    assert_eq!(cfg.twitch_oauth().client(), "cid");
    assert_eq!(cfg.streamlabs_oauth().client(), "cid2");
    assert_eq!(cfg.twitch_oauth().secret(), "tsecret");
    assert_eq!(cfg.streamlabs_oauth().secret(), "ssecret");
    assert_eq!(cfg.client_version(), "1.0.0");
}

#[test]
fn rewards_response_reader() {
    let v = parse_json_str(
        "{\"data\":[{\"id\":\"r1\",\"title\":\"Hug\",\"prompt\":\"p\",\"cost\":100,\
         \"is_enabled\":true,\"global_cooldown_setting\":\
         {\"is_enabled\":false,\"global_cooldown_seconds\":0}}]}",
    )
    .unwrap();
    let rows = lily_gateway::trigger::custom_rewards_of_json(&v).unwrap();
    assert_eq!(rows.len(), 1);
    assert_eq!(rows[0].id, "r1");
    assert_eq!(rows[0].title, "Hug");
    assert_eq!(rows[0].prompt, "p");
    assert_eq!(rows[0].cost, 100);
    assert!(rows[0].is_enabled);
    assert!(!rows[0].is_global_cooldown_enabled);
    assert_eq!(rows[0].global_cooldown_seconds, 0);

    // A row without its cooldown setting makes the whole response
    // unreadable, as the typed read did.
    let bad = parse_json_str(
        "{\"data\":[{\"id\":\"r1\",\"title\":\"Hug\",\"prompt\":\"p\",\"cost\":100,\
         \"is_enabled\":true}]}",
    )
    .unwrap();
    assert!(lily_gateway::trigger::custom_rewards_of_json(&bad).is_none());
    let no_data = parse_json_str("{}").unwrap();
    assert!(lily_gateway::trigger::custom_rewards_of_json(&no_data).is_none());
    let empty = parse_json_str("{\"data\":[]}").unwrap();
    assert_eq!(lily_gateway::trigger::custom_rewards_of_json(&empty).unwrap().len(), 0);
}

#[test]
fn reward_batch_errors_are_reported_per_action() {
    let delete = RewardAction::Delete { id: "id-x".to_owned() };
    assert!(reward_batch_step(&delete, &HelixOutcome::Success, 4).is_none());
    let e = reward_batch_step(
        &delete,
        &HelixOutcome::OtherError { message: "boom".to_owned() },
        4,
    )
    .unwrap();
    assert_eq!(e.request_id, 4);
    assert_eq!(e.source, "twitch_disable_custom_reward");
    assert_eq!(e.message, "boom");
    let create = RewardAction::Create {
        reward: lily_gateway::messages::CustomReward {
            title: "t".to_owned(),
            prompt: "p".to_owned(),
            cost: 1,
            is_enabled: true,
            is_global_cooldown_enabled: false,
            global_cooldown_seconds: 0,
        },
    };
    let e2 = reward_batch_step(&create, &HelixOutcome::Unauthorized, 4).unwrap();
    assert_eq!(e2.source, "twitch_create_custom_reward");
}

#[test]
fn trigger_gate_requires_twitch() {
    let ctx = ClientContext::new("127.0.0.1:7".to_owned());
    match trigger_token_gate(&ctx) {
        Err(e) => {
            assert_eq!(e.request_id, -1);
            assert_eq!(e.source, "server");
            assert_eq!(e.message, "Twitch not connected");
        }
        Ok(_) => panic!("expected a refusal"),
    }
}

#[test]
fn socket_step_semantics() {
    let s = SocketSession::new();
    assert_eq!(s.socket_step(Some("x".to_owned())), (true, Some("x".to_owned())));
    assert_eq!(s.socket_step(None), (true, None));
    let mut gone = SocketSession::new();
    gone.mark_disconnected();
    assert_eq!(gone.socket_step(Some("x".to_owned())), (false, None));
    assert_eq!(
        lily_gateway::streamlabs::socket_url("tok"),
        "wss://sockets.streamlabs.com?token=tok"
    );
}
