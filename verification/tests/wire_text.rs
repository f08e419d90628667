//! Wire-level tests: serializing server frames, parsing JSON text, and
//! classifying client frames.

use lily_gateway::json::{parse_json_str, Json};
use lily_gateway::messages::{
    ChangeAvatar, CodeResponse, ConnectResponse, CustomRewardResponse, ErrorMessage, Notify,
    ServerMessage, StreamLabsEvent, TaskResponse, TwitchEvent, TwitchEventSource,
};
use lily_gateway::wire::{client_message_of_json, parse_client_frame};
use lily_gateway::messages::{ClientMessage, TwitchTriggerRequest};

fn encode(m: ServerMessage) -> String {
    lily_gateway::messages::encode_server_message_string(m)
}

fn chars(s: &str) -> Vec<char> {
    s.chars().collect()
}

#[test]
fn notify_frame_text() {
    let m = ServerMessage::Notify(Notify {
        title: "Version Mismatch".to_owned(),
        message: "a \"quoted\" word".to_owned(),
    });
    assert_eq!(
        encode(m),
        "{\"type\":\"notify\",\"title\":\"Version Mismatch\",\"message\":\"a \\\"quoted\\\" word\"}"
    );
}

#[test]
fn code_response_frame_text() {
    let m = ServerMessage::CodeResponse(CodeResponse { state_token: "abc".to_owned() });
    assert_eq!(encode(m), "{\"type\":\"codeResponse\",\"state_token\":\"abc\"}");
}

#[test]
fn change_avatar_frame_text() {
    let m = ServerMessage::ChangeAvatar(ChangeAvatar { id: "ava".to_owned() });
    assert_eq!(encode(m), "{\"type\":\"changeAvatar\",\"id\":\"ava\"}");
}

#[test]
fn error_frame_text() {
    let m = ServerMessage::Error(ErrorMessage {
        request_id: -1,
        source: "server".to_owned(),
        message: "boom".to_owned(),
    });
    assert_eq!(
        encode(m),
        "{\"type\":\"error\",\"request_id\":-1,\"source\":\"server\",\"message\":\"boom\"}"
    );
}

#[test]
fn task_response_frame_text() {
    let m = ServerMessage::TaskResponse(TaskResponse {
        request_id: 7,
        success: true,
        message: None,
    });
    assert_eq!(
        encode(m),
        "{\"type\":\"taskResponse\",\"request_id\":7,\"success\":true,\"message\":null}"
    );
}

#[test]
fn connect_response_frame_text() {
    let m = ServerMessage::ConnectResponse(ConnectResponse {
        has_twitch: true,
        has_streamlabs: false,
        twitch_id: Some(42),
        twitch_name: Some("streamer".to_owned()),
        streamlabs_name: None,
        streamlabs_id: None,
    });
    assert_eq!(
        encode(m),
        "{\"type\":\"connectResponse\",\"has_twitch\":true,\"has_streamlabs\":false,\
         \"twitch_id\":42,\"twitch_name\":\"streamer\",\"streamlabs_name\":null,\
         \"streamlabs_id\":null}"
    );
}

#[test]
fn custom_rewards_frame_text() {
    let m = ServerMessage::CustomRewards {
        rewards: vec![CustomRewardResponse {
            id: "r1".to_owned(),
            title: "Hug".to_owned(),
            prompt: "p".to_owned(),
            cost: 100,
            is_enabled: true,
            is_global_cooldown_enabled: false,
            global_cooldown_seconds: 0,
        }],
    };
    assert_eq!(
        encode(m),
        "{\"type\":\"customRewards\",\"rewards\":[{\"id\":\"r1\",\"title\":\"Hug\",\
         \"prompt\":\"p\",\"cost\":100,\"is_enabled\":true,\
         \"is_global_cooldown_enabled\":false,\"global_cooldown_seconds\":0}]}"
    );
}

#[test]
fn twitch_event_whisper_frame_text() {
    let m = ServerMessage::TwitchEvent(TwitchEvent {
        user_id: "ulogin".to_owned(),
        user_name: "uname".to_owned(),
        event: TwitchEventSource::Whisper {
            sender: "uname".to_owned(),
            message: "hi".to_owned(),
        },
    });
    assert_eq!(
        encode(m),
        "{\"type\":\"twitchEvent\",\"user_id\":\"ulogin\",\"user_name\":\"uname\",\
         \"event\":{\"type\":\"Whisper\",\"sender\":\"uname\",\"message\":\"hi\"}}"
    );
}

#[test]
fn twitch_event_bits_frame_text() {
    let m = ServerMessage::TwitchEvent(TwitchEvent {
        user_id: "u".to_owned(),
        user_name: "n".to_owned(),
        event: TwitchEventSource::BitDonation {
            amount: 500,
            message: Some("cheer500 gg".to_owned()),
            emojis: Some(vec!["cheer500".to_owned()]),
        },
    });
    assert_eq!(
        encode(m),
        "{\"type\":\"twitchEvent\",\"user_id\":\"u\",\"user_name\":\"n\",\
         \"event\":{\"type\":\"BitDonation\",\"amount\":500,\"message\":\"cheer500 gg\",\
         \"emojis\":[\"cheer500\"]}}"
    );
}

#[test]
fn stream_labs_frame_text() {
    let m = ServerMessage::StreamLabsEvent {
        events: vec![StreamLabsEvent {
            event_id: Some("e1".to_owned()),
            for_: Some("streamlabs".to_owned()),
            message: Json::Int(3),
            type_: "donation".to_owned(),
        }],
    };
    assert_eq!(
        encode(m),
        "{\"type\":\"streamLabsEvent\",\"events\":[{\"event_id\":\"e1\",\
         \"for\":\"streamlabs\",\"message\":3,\"type\":\"donation\"}]}"
    );
}

#[test]
fn parse_json_values() {
    let v = parse_json_str(" {\"a\": [1, -2, true, null, \"x\\u0041\"] } ").unwrap();
    match v {
        Json::Obj(ms) => {
            assert_eq!(ms.len(), 1);
            assert_eq!(ms[0].key, "a");
            match &ms[0].value {
                Json::Arr(items) => {
                    assert_eq!(items.len(), 5);
                    assert!(matches!(items[0], Json::Int(1)));
                    assert!(matches!(items[1], Json::Int(-2)));
                    assert!(matches!(items[2], Json::Bool(true)));
                    assert!(matches!(items[3], Json::Null));
                    match &items[4] {
                        Json::Str(s) => assert_eq!(s, "xA"),
                        _ => panic!("expected string"),
                    }
                }
                _ => panic!("expected array"),
            }
        }
        _ => panic!("expected object"),
    }
}

#[test]
fn parse_json_rejects_bad_text() {
    assert!(parse_json_str("").is_none());
    assert!(parse_json_str("{\"a\":1} trailing").is_none());
    assert!(parse_json_str("1.5").is_none());
    assert!(parse_json_str("{\"a\"}").is_none());
    assert!(parse_json_str("\"unterminated").is_none());
    assert!(parse_json_str("99999999999999999999").is_none());
}

#[test]
fn parse_round_trip_escapes() {
    let m = ServerMessage::Notify(Notify {
        title: "t\ta\nb".to_owned(),
        message: "\\slash\"".to_owned(),
    });
    let text = encode(m);
    let v = parse_json_str(text.as_str()).unwrap();
    match v {
        Json::Obj(ms) => {
            match &ms[1].value {
                Json::Str(s) => assert_eq!(s, "t\ta\nb"),
                _ => panic!("expected string title"),
            }
            match &ms[2].value {
                Json::Str(s) => assert_eq!(s, "\\slash\""),
                _ => panic!("expected string message"),
            }
        }
        _ => panic!("expected object"),
    }
}

#[test]
fn classify_code_request() {
    let m = parse_client_frame(&chars("{\"type\":\"codeRequest\"}")).unwrap();
    match m {
        ClientMessage::CodeRequest(c) => assert!(c.client_version.is_none()),
        _ => panic!("expected code request"),
    }
    let m2 = parse_client_frame(&chars(
        "{\"type\":\"codeRequest\",\"client_version\":\"1.2.3\"}",
    ))
    .unwrap();
    match m2 {
        ClientMessage::CodeRequest(c) => assert_eq!(c.client_version.unwrap(), "1.2.3"),
        _ => panic!("expected code request"),
    }
}

#[test]
fn classify_connect() {
    let m = parse_client_frame(&chars(
        "{\"type\":\"connect\",\"ConnectRequest\":{\"state_token\":\"abc\"}}",
    ))
    .unwrap();
    match m {
        ClientMessage::Connect(c) => {
            assert_eq!(c.state_token, "abc");
            assert!(c.client_version.is_none());
        }
        _ => panic!("expected connect"),
    }
}

#[test]
fn classify_trigger_fulfill() {
    let m = parse_client_frame(&chars(
        "{\"type\":\"twitchTrigger\",\"TwitchTriggerRequest\":{\"ChannelPointsFulfill\":\
         {\"request_id\":5,\"reward_id\":\"rw\",\"redemption_id\":\"rd\"}}}",
    ))
    .unwrap();
    match m {
        ClientMessage::TwitchTrigger(TwitchTriggerRequest::ChannelPointsFulfill {
            request_id,
            reward_id,
            redemption_id,
        }) => {
            assert_eq!(request_id, 5);
            assert_eq!(reward_id, "rw");
            assert_eq!(redemption_id, "rd");
        }
        _ => panic!("expected fulfill trigger"),
    }
}

#[test]
fn classify_trigger_update_rewards() {
    let m = parse_client_frame(&chars(
        "{\"type\":\"twitchTrigger\",\"TwitchTriggerRequest\":{\"UpdateCustomRewards\":\
         {\"request_id\":1,\"rewards\":[{\"title\":\"Hug\",\"prompt\":\"p\",\"cost\":100,\
         \"is_enabled\":true,\"is_global_cooldown_enabled\":false,\
         \"global_cooldown_seconds\":0}]}}}",
    ))
    .unwrap();
    match m {
        ClientMessage::TwitchTrigger(TwitchTriggerRequest::UpdateCustomRewards {
            request_id,
            rewards,
        }) => {
            assert_eq!(request_id, 1);
            assert_eq!(rewards.len(), 1);
            assert_eq!(rewards[0].title, "Hug");
            assert_eq!(rewards[0].cost, 100);
        }
        _ => panic!("expected update trigger"),
    }
}

#[test]
fn classify_rejects_bad_frames() {
    assert!(parse_client_frame(&chars("not json")).is_none());
    assert!(parse_client_frame(&chars("{\"type\":\"unknownKind\"}")).is_none());
    assert!(parse_client_frame(&chars("{\"type\":\"connect\"}")).is_none());
    assert!(parse_client_frame(&chars(
        "{\"type\":\"connect\",\"ConnectRequest\":{\"state_token\":7}}"
    ))
    .is_none());
    assert!(parse_client_frame(&chars(
        "{\"type\":\"codeRequest\",\"client_version\":5}"
    ))
    .is_none());
    assert!(parse_client_frame(&chars(
        "{\"type\":\"twitchTrigger\",\"TwitchTriggerRequest\":{\"GetCustomRewards\":\
         {\"request_id\":\"x\"}}}"
    ))
    .is_none());
}

#[test]
fn classify_from_parsed_json() {
    let v = parse_json_str("{\"type\":\"codeRequest\"}").unwrap();
    assert!(client_message_of_json(&v).is_some());
    let bad = parse_json_str("{\"type\":5}").unwrap();
    assert!(client_message_of_json(&bad).is_none());
}
