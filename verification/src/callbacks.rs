//! The OAuth callback surface: the authorize-redirect URLs and the
//! strict validation a provider callback goes through before a code is
//! exchanged. Twitch callbacks must carry a `scope` equal, byte for
//! byte, to the configured scopes string; a mismatch is a hard 400.

use vstd::prelude::*;

verus! {

/// The query parameters a provider callback may carry.
pub struct CallbackParams {
    pub error: Option<String>,
    pub error_description: Option<String>,
    pub code: Option<String>,
    pub state: Option<String>,
    pub scope: Option<String>,
}

/// The decision on one callback request.
pub enum CallbackGate {
    /// Refuse with the given HTTP status and body.
    Reject { status: u16, message: String },
    /// Exchange this code for the client waiting under this state token.
    Proceed { code: String, state: String },
}

/// The body of a provider-reported error: the error, a colon, and the
/// description or its placeholder.
pub open spec fn provider_error_text(provider: Seq<char>, error: Seq<char>,
    description: Option<String>) -> Seq<char> {
    provider + " returned an error: "@ + error + ": "@ + (match description {
        Some(d) => d@,
        None => "No description provided"@,
    })
}

/// The scope-mismatch body.
pub open spec fn scope_mismatch_text(expected: Seq<char>, got: Seq<char>) -> Seq<char> {
    "Invalid scopes: expected '"@ + expected + "', got '"@ + got + "'"@
}

/// What the Twitch callback gate must decide: provider errors and missing
/// parameters are 400s, a scope other than the configured string is a
/// 400, and only a full, exactly-scoped callback proceeds.
pub open spec fn twitch_gate_spec(p: CallbackParams, expected_scopes: Seq<char>,
    r: CallbackGate) -> bool {
    match p.error {
        Some(e) => r matches CallbackGate::Reject { status, message } && status == 400
            && message@ == provider_error_text("Twitch"@, e@, p.error_description),
        None => match p.code {
            None => r matches CallbackGate::Reject { status, message } && status == 400
                && message@ == "Missing code parameter"@,
            Some(code) => match p.state {
                None => r matches CallbackGate::Reject { status, message } && status == 400
                    && message@ == "Missing state parameter"@,
                Some(state) => match p.scope {
                    None => r matches CallbackGate::Reject { status, message } && status == 400
                        && message@ == "Missing scope parameter"@,
                    Some(scope) => if scope@ != expected_scopes {
                        r matches CallbackGate::Reject { status, message } && status == 400
                            && message@ == scope_mismatch_text(expected_scopes, scope@)
                    } else {
                        r matches CallbackGate::Proceed { code: c, state: s } && c@ == code@
                            && s@ == state@
                    },
                },
            },
        },
    }
}

/// Gates a Twitch OAuth callback.
pub fn twitch_callback_gate(p: &CallbackParams, expected_scopes: &str) -> (r: CallbackGate)
    ensures
        twitch_gate_spec(*p, expected_scopes@, r),
{
    if let Some(e) = &p.error {
        let mut message = "Twitch".to_owned();
        message.append(" returned an error: ");
        message.append(e.as_str());
        message.append(": ");
        match &p.error_description {
            Some(d) => message.append(d.as_str()),
            None => message.append("No description provided"),
        }
        return CallbackGate::Reject { status: 400, message };
    }
    let code = match &p.code {
        Some(c) => c,
        None => {
            return CallbackGate::Reject {
                status: 400,
                message: "Missing code parameter".to_owned(),
            };
        }
    };
    let state = match &p.state {
        Some(s) => s,
        None => {
            return CallbackGate::Reject {
                status: 400,
                message: "Missing state parameter".to_owned(),
            };
        }
    };
    let scope = match &p.scope {
        Some(s) => s,
        None => {
            return CallbackGate::Reject {
                status: 400,
                message: "Missing scope parameter".to_owned(),
            };
        }
    };
    if !crate::wire::str_eq(scope.as_str(), expected_scopes) {
        let mut message = "Invalid scopes: expected '".to_owned();
        message.append(expected_scopes);
        message.append("', got '");
        message.append(scope.as_str());
        message.append("'");
        return CallbackGate::Reject { status: 400, message };
    }
    CallbackGate::Proceed { code: code.clone(), state: state.clone() }
}

/// What the Streamlabs callback gate must decide: as for Twitch, but
/// with no scope check.
pub open spec fn streamlabs_gate_spec(p: CallbackParams, r: CallbackGate) -> bool {
    match p.error {
        Some(e) => r matches CallbackGate::Reject { status, message } && status == 400
            && message@ == provider_error_text("Streamlabs"@, e@, p.error_description),
        None => match p.code {
            None => r matches CallbackGate::Reject { status, message } && status == 400
                && message@ == "Missing code parameter"@,
            Some(code) => match p.state {
                None => r matches CallbackGate::Reject { status, message } && status == 400
                    && message@ == "Missing state parameter"@,
                Some(state) => r matches CallbackGate::Proceed { code: c, state: s } && c@
                    == code@ && s@ == state@,
            },
        },
    }
}

/// Gates a Streamlabs OAuth callback.
pub fn streamlabs_callback_gate(p: &CallbackParams) -> (r: CallbackGate)
    ensures
        streamlabs_gate_spec(*p, r),
{
    if let Some(e) = &p.error {
        let mut message = "Streamlabs".to_owned();
        message.append(" returned an error: ");
        message.append(e.as_str());
        message.append(": ");
        match &p.error_description {
            Some(d) => message.append(d.as_str()),
            None => message.append("No description provided"),
        }
        return CallbackGate::Reject { status: 400, message };
    }
    let code = match &p.code {
        Some(c) => c,
        None => {
            return CallbackGate::Reject {
                status: 400,
                message: "Missing code parameter".to_owned(),
            };
        }
    };
    let state = match &p.state {
        Some(s) => s,
        None => {
            return CallbackGate::Reject {
                status: 400,
                message: "Missing state parameter".to_owned(),
            };
        }
    };
    CallbackGate::Proceed { code: code.clone(), state: state.clone() }
}

/// Spaces percent-encoded, every other character as itself, from `i` on.
pub open spec fn pct_spaces_from(s: Seq<char>, i: int) -> Seq<char>
    decreases s.len() - i,
{
    if i < 0 || i >= s.len() {
        Seq::empty()
    } else if s[i] == ' ' {
        seq!['%', '2', '0'] + pct_spaces_from(s, i + 1)
    } else {
        seq![s[i]] + pct_spaces_from(s, i + 1)
    }
}

/// The authorize-redirect URL for one provider: the authorize endpoint
/// with the client id, the redirect URI, the scopes with spaces
/// percent-encoded, and the state token.
pub open spec fn authorize_url_text(endpoint: Seq<char>, client: Seq<char>, redirect: Seq<char>,
    scopes: Seq<char>, state: Seq<char>) -> Seq<char> {
    endpoint + "?response_type=code&client_id="@ + client + "&redirect_uri="@ + redirect
        + "&scope="@ + pct_spaces_from(scopes, 0) + "&state="@ + state
}

/// Percent-encodes the spaces of a scopes string.
fn pct_spaces(s: &str) -> (r: String)
    ensures
        r@ == pct_spaces_from(s@, 0),
{
    let n = s.unicode_len();
    let mut out: Vec<char> = Vec::new();
    let mut i: usize = 0;
    while i < n
        invariant
            n == s@.len(),
            i <= n,
            out@ + pct_spaces_from(s@, i as int) =~= pct_spaces_from(s@, 0),
        decreases n - i,
    {
        let c = s.get_char(i);
        if c == ' ' {
            out.push('%');
            out.push('2');
            out.push('0');
        } else {
            out.push(c);
        }
        i = i + 1;
        proof {
            assert(out@ + pct_spaces_from(s@, i as int) =~= pct_spaces_from(s@, 0));
        }
    }
    proof {
        assert(out@ =~= pct_spaces_from(s@, 0));
    }
    crate::json::string_of_chars(&out)
}

/// Builds an authorize-redirect URL.
pub fn authorize_url(endpoint: &str, client: &str, redirect: &str, scopes: &str, state: &str)
    -> (r: String)
    ensures
        r@ == authorize_url_text(endpoint@, client@, redirect@, scopes@, state@),
{
    let mut url = endpoint.to_owned();
    url.append("?response_type=code&client_id=");
    url.append(client);
    url.append("&redirect_uri=");
    url.append(redirect);
    url.append("&scope=");
    let encoded = pct_spaces(scopes);
    url.append(encoded.as_str());
    url.append("&state=");
    url.append(state);
    url
}

/// The body of a token-grant form: the grant type, the client
/// credentials, the redirect URI, and the grant's own parameter, as
/// key-value pairs in order.
pub open spec fn token_form_spec(grant: Seq<char>, client: Seq<char>, secret: Seq<char>,
    redirect: Seq<char>, last_key: Seq<char>, last_value: Seq<char>,
    form: Seq<(Seq<char>, Seq<char>)>) -> bool {
    form =~= seq![
        ("grant_type"@, grant),
        ("client_id"@, client),
        ("client_secret"@, secret),
        ("redirect_uri"@, redirect),
        (last_key, last_value),
    ]
}

/// The views of a form's pairs.
pub open spec fn form_views(form: Seq<(String, String)>) -> Seq<(Seq<char>, Seq<char>)> {
    Seq::new(form.len(), |i: int| (form[i].0@, form[i].1@))
}

/// Builds the token-exchange form for an authorization-code grant.
pub fn code_exchange_form(client: &str, secret: &str, redirect: &str, code: &str) -> (r: Vec<
    (String, String),
>)
    ensures
        token_form_spec(
            "authorization_code"@,
            client@,
            secret@,
            redirect@,
            "code"@,
            code@,
            form_views(r@),
        ),
{
    let mut out: Vec<(String, String)> = Vec::new();
    out.push(("grant_type".to_owned(), "authorization_code".to_owned()));
    out.push(("client_id".to_owned(), client.to_owned()));
    out.push(("client_secret".to_owned(), secret.to_owned()));
    out.push(("redirect_uri".to_owned(), redirect.to_owned()));
    out.push(("code".to_owned(), code.to_owned()));
    proof {
        assert(form_views(out@) =~= seq![
            ("grant_type"@, "authorization_code"@),
            ("client_id"@, client@),
            ("client_secret"@, secret@),
            ("redirect_uri"@, redirect@),
            ("code"@, code@),
        ]);
    }
    out
}

/// Builds the token-exchange form for a refresh-token grant.
pub fn refresh_form(client: &str, secret: &str, redirect: &str, refresh_token: &str) -> (r: Vec<
    (String, String),
>)
    ensures
        token_form_spec(
            "refresh_token"@,
            client@,
            secret@,
            redirect@,
            "refresh_token"@,
            refresh_token@,
            form_views(r@),
        ),
{
    let mut out: Vec<(String, String)> = Vec::new();
    out.push(("grant_type".to_owned(), "refresh_token".to_owned()));
    out.push(("client_id".to_owned(), client.to_owned()));
    out.push(("client_secret".to_owned(), secret.to_owned()));
    out.push(("redirect_uri".to_owned(), redirect.to_owned()));
    out.push(("refresh_token".to_owned(), refresh_token.to_owned()));
    proof {
        assert(form_views(out@) =~= seq![
            ("grant_type"@, "refresh_token"@),
            ("client_id"@, client@),
            ("client_secret"@, secret@),
            ("redirect_uri"@, redirect@),
            ("refresh_token"@, refresh_token@),
        ]);
    }
    out
}

/// The page shown after a successful authorization.
pub fn success_page(provider: &str) -> (r: String)
    ensures
        r@ == provider@ + " authentication successful! You can close this tab."@,
{
    let mut page = provider.to_owned();
    page.append(" authentication successful! You can close this tab.");
    page
}

} // verus!
