//! Per-client orchestration decisions: the context a WebSocket carries,
//! state-token issue, resume handling, version notices, and the frames
//! the server answers with.

use vstd::prelude::*;
use crate::messages::{CodeResponse, ConnectResponse, Notify, ServerMessage};
use crate::store::{TokenStore, find_active_from};
use crate::streamlabs::UserToken;
use crate::tokens::TwitchTokenData;

verus! {

/// The in-memory state of one WebSocket connection.
pub struct ClientContext {
    /// The peer address, as text.
    pub remote_addr: String,
    /// The state token the client presented or was issued.
    pub state_token: Option<String>,
    /// The validated Twitch token, once hydrated.
    pub twitch: Option<TwitchTokenData>,
    /// The validated Streamlabs token, once hydrated.
    pub streamlabs: Option<UserToken>,
}

impl ClientContext {
    /// A fresh context for a newly accepted WebSocket.
    pub fn new(remote_addr: String) -> (r: ClientContext)
        ensures
            r.remote_addr@ == remote_addr@,
            r.state_token is None,
            r.twitch is None,
            r.streamlabs is None,
    {
        ClientContext { remote_addr, state_token: None, twitch: None, streamlabs: None }
    }
}

/// Whether a character is a lowercase hex digit.
pub open spec fn is_hex_lower(c: char) -> bool {
    ('0' <= c && c <= '9') || ('a' <= c && c <= 'f')
}

/// The shape of a version-4 UUID in its hyphenated lowercase text form:
/// 36 characters, hyphens at positions 8, 13, 18 and 23, the version
/// nibble `4`, a variant nibble in `8`, `9`, `a`, `b`, and lowercase hex
/// everywhere else.
pub open spec fn is_uuid_v4(s: Seq<char>) -> bool {
    &&& s.len() == 36
    &&& s[8] == '-'
    &&& s[13] == '-'
    &&& s[18] == '-'
    &&& s[23] == '-'
    &&& s[14] == '4'
    &&& (s[19] == '8' || s[19] == '9' || s[19] == 'a' || s[19] == 'b')
    &&& forall|i: int|
        0 <= i < 36 && i != 8 && i != 13 && i != 18 && i != 23 ==> is_hex_lower(#[trigger] s[i])
}

/// Relies on uuid::Uuid::new_v4 and its hyphenated lowercase rendering:
/// the version nibble is forced to 4 and the variant nibble to 8..b, and
/// the text is 36 lowercase-hex characters with hyphens at 8, 13, 18, 23.
#[verifier::external_body]
fn uuid_v4_string() -> (r: String)
    ensures
        is_uuid_v4(r@),
{
    uuid::Uuid::new_v4().to_string()
}

/// Draws a fresh state token.
pub fn make_state_token() -> (r: String)
    ensures
        is_uuid_v4(r@),
{
    uuid_v4_string()
}

/// Whether a string has the state-token shape.
pub fn is_state_token(s: &str) -> (r: bool)
    ensures
        r == is_uuid_v4(s@),
{
    let n = s.unicode_len();
    if n != 36 {
        return false;
    }
    let mut i: usize = 0;
    while i < 36
        invariant
            s@.len() == 36,
            i <= 36,
            forall|j: int|
                0 <= j < i && j != 8 && j != 13 && j != 18 && j != 23 ==> is_hex_lower(
                    #[trigger] s@[j],
                ),
            i > 8 ==> s@[8] == '-',
            i > 13 ==> s@[13] == '-',
            i > 18 ==> s@[18] == '-',
            i > 23 ==> s@[23] == '-',
            i > 14 ==> s@[14] == '4',
            i > 19 ==> (s@[19] == '8' || s@[19] == '9' || s@[19] == 'a' || s@[19] == 'b'),
        decreases 36 - i,
    {
        let c = s.get_char(i);
        if i == 8 || i == 13 || i == 18 || i == 23 {
            if c != '-' {
                return false;
            }
        } else if i == 14 {
            if c != '4' {
                return false;
            }
        } else if i == 19 {
            if !(c == '8' || c == '9' || c == 'a' || c == 'b') {
                return false;
            }
        } else {
            if !(('0' <= c && c <= '9') || ('a' <= c && c <= 'f')) {
                return false;
            }
        }
        i = i + 1;
    }
    true
}

/// The decimal value of the digits of `s` from `i` on, over `acc`; `None`
/// where a non-digit stands.
pub open spec fn dec_value_from(s: Seq<char>, i: int, acc: int) -> Option<int>
    decreases s.len() - i,
{
    if i < 0 || i >= s.len() {
        Some(acc)
    } else if '0' <= s[i] && s[i] <= '9' {
        dec_value_from(s, i + 1, acc * 10 + (s[i] as u32 - 48))
    } else {
        None
    }
}

/// The signed 32-bit integer a string denotes: an optional minus sign,
/// then one or more decimal digits, the value in range.
pub open spec fn parse_i32_spec(s: Seq<char>) -> Option<i32> {
    if s.len() == 0 {
        None
    } else if s[0] == '-' {
        if s.len() == 1 {
            None
        } else {
            match dec_value_from(s, 1, 0) {
                Some(v) => if -v >= i32::MIN { Some((-v) as i32) } else { None },
                None => None,
            }
        }
    } else {
        match dec_value_from(s, 0, 0) {
            Some(v) => if v <= i32::MAX { Some(v as i32) } else { None },
            None => None,
        }
    }
}

/// Reads a signed 32-bit integer from decimal text.
pub fn parse_i32_str(s: &str) -> (r: Option<i32>)
    ensures
        r == parse_i32_spec(s@),
{
    let n = s.unicode_len();
    if n == 0 {
        return None;
    }
    let neg = s.get_char(0) == '-';
    if neg && n == 1 {
        return None;
    }
    let start: usize = if neg { 1 } else { 0 };
    let mut i: usize = start;
    let mut acc: i64 = 0;
    while i < n
        invariant
            n == s@.len(),
            neg == (s@[0] == '-'),
            start == (if neg { 1int } else { 0int }),
            start <= i <= n,
            start < n,
            0 <= acc,
            acc <= 0x8000_0000i64,
            dec_value_from(s@, start as int, 0) == dec_value_from(s@, i as int, acc as int),
        decreases n - i,
    {
        let c = s.get_char(i);
        if !('0' <= c && c <= '9') {
            return None;
        }
        let d = (c as u32 - 48) as i64;
        if acc > (0x8000_0000i64 - d) / 10 {
            proof {
                lemma_dec_value_large(s@, i as int, acc as int);
            }
            return None;
        }
        proof {
            assert(acc * 10 + d <= 0x8000_0000i64) by (nonlinear_arith)
                requires
                    0 <= acc,
                    acc <= (0x8000_0000i64 - d) / 10,
                    0 <= d < 10,
            ;
        }
        acc = acc * 10 + d;
        i = i + 1;
    }
    if neg {
        if acc > 0x8000_0000i64 {
            None
        } else if acc == 0x8000_0000i64 {
            Some(i32::MIN)
        } else {
            Some(-(acc as i32))
        }
    } else {
        if acc > 0x7FFF_FFFFi64 {
            None
        } else {
            Some(acc as i32)
        }
    }
}

/// Digits only grow the value: from a non-negative accumulator, the final
/// value is at least the accumulator.
proof fn lemma_dec_value_grows(s: Seq<char>, i: int, acc: int)
    requires
        0 <= acc,
    ensures
        dec_value_from(s, i, acc) matches Some(v) ==> v >= acc,
    decreases s.len() - i,
{
    if 0 <= i < s.len() && '0' <= s[i] && s[i] <= '9' {
        assert(acc * 10 + (s[i] as u32 - 48) >= acc) by (nonlinear_arith)
            requires
                0 <= acc,
                s[i] as u32 >= 48,
        ;
        lemma_dec_value_grows(s, i + 1, acc * 10 + (s[i] as u32 - 48));
    }
}

/// Once the accumulator passes the 32-bit magnitude bound, the final
/// value does too.
proof fn lemma_dec_value_large(s: Seq<char>, i: int, acc: int)
    requires
        0 <= i < s.len(),
        '0' <= s[i] && s[i] <= '9',
        acc > (0x8000_0000i64 - (s[i] as u32 - 48)) / 10,
        0 <= acc,
    ensures
        dec_value_from(s, i, acc) matches Some(v) ==> v > 0x8000_0000,
{
    let d = (s[i] as u32 - 48) as int;
    assert(acc * 10 + d > 0x8000_0000) by (nonlinear_arith)
        requires
            acc > (0x8000_0000i64 - d) / 10,
            0 <= d < 10,
            0 <= acc,
    ;
    lemma_dec_value_grows(s, i + 1, acc * 10 + d);
}

/// The warning text for a client that reported a version other than the
/// expected one.
pub open spec fn version_mismatch_text(got: Seq<char>, expected: Seq<char>) -> Seq<char> {
    "Your client version ("@ + got + ") does not match the expected version ("@ + expected
        + "). Please update your client for the best experience."@
}

/// The version notice owed after a request: none when the reported
/// version matches, a mismatch warning when it differs, and an
/// unknown-version warning when none was reported.
pub open spec fn version_notice_spec(client_version: Option<String>, expected: Seq<char>,
    r: Option<ServerMessage>) -> bool {
    match client_version {
        Some(v) => if v@ == expected {
            r is None
        } else {
            r matches Some(m) && m matches ServerMessage::Notify(nf) && nf.title@
                == "Version Mismatch"@ && nf.message@ == version_mismatch_text(v@, expected)
        },
        None => r matches Some(m) && m matches ServerMessage::Notify(nf) && nf.title@
            == "Version Unknown"@ && nf.message@
            == "Your client did not send a version. Please ensure you are using the latest version for the best experience."@,
    }
}

/// Decides the version notice for a request.
pub fn version_notice(client_version: &Option<String>, expected: &str) -> (r: Option<
    ServerMessage,
>)
    ensures
        version_notice_spec(*client_version, expected@, r),
{
    match client_version {
        Some(v) => {
            if crate::wire::str_eq(v.as_str(), expected) {
                None
            } else {
                let mut message = "Your client version (".to_owned();
                message.append(v.as_str());
                message.append(") does not match the expected version (");
                message.append(expected);
                message.append("). Please update your client for the best experience.");
                Some(
                    ServerMessage::Notify(
                        Notify { title: "Version Mismatch".to_owned(), message },
                    ),
                )
            }
        }
        None => Some(
            ServerMessage::Notify(
                Notify {
                    title: "Version Unknown".to_owned(),
                    message:
                        "Your client did not send a version. Please ensure you are using the latest version for the best experience.".to_owned(),
                },
            ),
        ),
    }
}

/// Handles a `codeRequest`: binds the fresh token to the context, records
/// it in the store, and answers with a `codeResponse`, followed by the
/// version notice the request earned.
pub fn handle_code_request(
    ctx: &mut ClientContext,
    store: &mut TokenStore,
    token: String,
    client_version: &Option<String>,
    expected_version: &str,
) -> (r: Vec<ServerMessage>)
    requires
        old(store).wf(),
    ensures
        final(store).wf(),
        final(ctx).state_token matches Some(t) && t@ == token@,
        final(ctx).remote_addr@ == old(ctx).remote_addr@,
        final(ctx).twitch == old(ctx).twitch,
        final(ctx).streamlabs == old(ctx).streamlabs,
        find_active_from(final(store).active_keys@, token@, 0) is Some,
        final(store).twitch_keys@ == old(store).twitch_keys@,
        final(store).streamlabs_keys@ == old(store).streamlabs_keys@,
        r@.len() >= 1,
        r@[0] matches ServerMessage::CodeResponse(c) && c.state_token@ == token@,
        match version_notice_owed(*client_version, expected_version@) {
            true => r@.len() == 2 && version_notice_spec(
                *client_version,
                expected_version@,
                Some(r@[1]),
            ),
            false => r@.len() == 1,
        },
{
    let mut out: Vec<ServerMessage> = Vec::new();
    ctx.state_token = Some(clone_string(&token));
    out.push(ServerMessage::CodeResponse(CodeResponse { state_token: clone_string(&token) }));
    store.insert_or_ignore_active_key(token);
    if let Some(notice) = version_notice(client_version, expected_version) {
        out.push(notice);
    }
    out
}

/// Whether a version notice is owed: always, unless the reported version
/// matches the expected one.
pub open spec fn version_notice_owed(client_version: Option<String>, expected: Seq<char>)
    -> bool {
    match client_version {
        Some(v) => v@ != expected,
        None => true,
    }
}

/// An owned copy of a string.
fn clone_string(s: &String) -> (r: String)
    ensures
        r@ == s@,
{
    s.clone()
}

/// Binds a presented state token to the context and makes sure the store
/// knows it.
pub fn connect_bind_token(ctx: &mut ClientContext, store: &mut TokenStore, state_token: String)
    requires
        old(store).wf(),
    ensures
        final(store).wf(),
        final(ctx).state_token matches Some(t) && t@ == state_token@,
        final(ctx).remote_addr@ == old(ctx).remote_addr@,
        final(ctx).twitch == old(ctx).twitch,
        final(ctx).streamlabs == old(ctx).streamlabs,
        find_active_from(final(store).active_keys@, state_token@, 0) is Some,
        final(store).twitch_keys@ == old(store).twitch_keys@,
        final(store).streamlabs_keys@ == old(store).streamlabs_keys@,
{
    ctx.state_token = Some(clone_string(&state_token));
    store.insert_or_ignore_active_key(state_token);
}

/// Handles a `connect` resume once hydration finished: binds the token,
/// installs the provider tokens (copied from a sibling context, or
/// freshly validated from the store and the providers), and answers with
/// the `connectResponse` for the resulting context, followed by the
/// version notice the request earned.
pub fn handle_connect(
    ctx: &mut ClientContext,
    store: &mut TokenStore,
    state_token: String,
    twitch: Option<TwitchTokenData>,
    streamlabs: Option<UserToken>,
    client_version: &Option<String>,
    expected_version: &str,
) -> (r: Vec<ServerMessage>)
    requires
        old(store).wf(),
    ensures
        final(store).wf(),
        final(ctx).state_token matches Some(t) && t@ == state_token@,
        final(ctx).remote_addr@ == old(ctx).remote_addr@,
        final(ctx).twitch == twitch,
        final(ctx).streamlabs == streamlabs,
        find_active_from(final(store).active_keys@, state_token@, 0) is Some,
        final(store).twitch_keys@ == old(store).twitch_keys@,
        final(store).streamlabs_keys@ == old(store).streamlabs_keys@,
        r@.len() >= 1,
        r@[0] matches ServerMessage::ConnectResponse(c) && connect_response_spec(*final(ctx), c),
        match version_notice_owed(*client_version, expected_version@) {
            true => r@.len() == 2 && version_notice_spec(
                *client_version,
                expected_version@,
                Some(r@[1]),
            ),
            false => r@.len() == 1,
        },
{
    connect_bind_token(ctx, store, state_token);
    apply_hydrated_tokens(ctx, twitch, streamlabs);
    let mut out: Vec<ServerMessage> = Vec::new();
    out.push(connect_response_of(ctx));
    if let Some(notice) = version_notice(client_version, expected_version) {
        out.push(notice);
    }
    out
}

/// Installs the provider tokens a resume produced: copied from a sibling
/// context, or freshly hydrated from the store and the providers.
pub fn apply_hydrated_tokens(
    ctx: &mut ClientContext,
    twitch: Option<TwitchTokenData>,
    streamlabs: Option<UserToken>,
)
    ensures
        final(ctx).twitch == twitch,
        final(ctx).streamlabs == streamlabs,
        final(ctx).state_token == old(ctx).state_token,
        final(ctx).remote_addr@ == old(ctx).remote_addr@,
{
    ctx.twitch = twitch;
    ctx.streamlabs = streamlabs;
}

/// Replaces the context's Twitch token with the freshly validated one a
/// 401 refresh produced: the stored token then equals the validated
/// result.
pub fn apply_refreshed_token(ctx: &mut ClientContext, validated: TwitchTokenData)
    ensures
        final(ctx).twitch == Some(validated),
        final(ctx).streamlabs == old(ctx).streamlabs,
        final(ctx).state_token == old(ctx).state_token,
        final(ctx).remote_addr@ == old(ctx).remote_addr@,
{
    ctx.twitch = Some(validated);
}

/// What the `connectResponse` for a context must say: which providers
/// are bound, the parsed Twitch id, and the Streamlabs id in decimal.
pub open spec fn connect_response_spec(ctx: ClientContext, c: ConnectResponse) -> bool {
    &&& c.has_twitch == (ctx.twitch is Some)
    &&& c.has_streamlabs == (ctx.streamlabs is Some)
    &&& (match ctx.twitch {
        Some(t) => {
            &&& c.twitch_id == parse_i32_spec(t.user_id@)
            &&& c.twitch_name matches Some(nm)
            &&& nm@ == t.login@
        },
        None => c.twitch_id is None && c.twitch_name is None,
    })
    &&& (match ctx.streamlabs {
        Some(s) => {
            &&& c.streamlabs_id matches Some(sid)
            &&& sid@ == crate::json::int_text(s.user_id as int)
            &&& c.streamlabs_name matches Some(nm)
            &&& nm@ == s.login@
        },
        None => c.streamlabs_id is None && c.streamlabs_name is None,
    })
}

/// Builds the `connectResponse` for a context.
pub fn connect_response_of(ctx: &ClientContext) -> (r: ServerMessage)
    ensures
        r matches ServerMessage::ConnectResponse(c) && connect_response_spec(*ctx, c),
{
    let (has_twitch, twitch_id, twitch_name) = match &ctx.twitch {
        Some(t) => (true, parse_i32_str(t.user_id.as_str()), Some(t.login.clone())),
        None => (false, None, None),
    };
    let (has_streamlabs, streamlabs_id, streamlabs_name) = match &ctx.streamlabs {
        Some(s) => {
            let mut digits: Vec<char> = Vec::new();
            crate::json::write_int_chars(s.user_id, &mut digits);
            (
                true,
                Some(crate::json::string_of_chars(&digits)),
                Some(s.login.clone()),
            )
        }
        None => (false, None, None),
    };
    ServerMessage::ConnectResponse(
        ConnectResponse {
            has_twitch,
            has_streamlabs,
            twitch_id,
            twitch_name,
            streamlabs_name,
            streamlabs_id,
        },
    )
}

/// A downstream socket frame, reduced to what the loop decides on.
pub enum SocketIn {
    Ping,
    Pong,
    Close,
    Binary,
    Text { text: Vec<char> },
}

/// What the loop does with one downstream frame.
pub enum FrameStep {
    /// Nothing to do; keep looping.
    Ignore,
    /// The peer is closing; end the loop.
    Stop,
    /// A binary frame is a protocol violation.
    Violation,
    /// A text frame to parse and handle.
    HandleText { text: Vec<char> },
}

/// Decides the first step for one downstream frame: pings and pongs need
/// no answer, a close ends the loop, a binary frame is refused, and text
/// goes to the message handler.
pub fn socket_frame_step(frame: SocketIn) -> (r: FrameStep)
    ensures
        match frame {
            SocketIn::Ping | SocketIn::Pong => r is Ignore,
            SocketIn::Close => r is Stop,
            SocketIn::Binary => r is Violation,
            SocketIn::Text { text } => r matches FrameStep::HandleText { text: t } && t@
                == text@,
        },
{
    match frame {
        SocketIn::Ping => FrameStep::Ignore,
        SocketIn::Pong => FrameStep::Ignore,
        SocketIn::Close => FrameStep::Stop,
        SocketIn::Binary => FrameStep::Violation,
        SocketIn::Text { text } => FrameStep::HandleText { text },
    }
}

} // verus!
