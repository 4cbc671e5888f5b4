//! The identity chain: OAuth2 authorization, Xbox Live and XSTS token
//! exchanges, the game-service login, and the entitlement decision.
//!
//! Every function here is a pure step of the chain: it builds a request body
//! or URL, or classifies a response body handed in as text. The caller
//! performs the HTTP calls and feeds the answers back.

use crate::errors::{LauncherError, XboxRestriction};
use crate::strutil::dec_seq;
use crate::strutil::u16_to_string;
use rand::distr::SampleString;
use vstd::prelude::*;
use vstd::string::*;

verus! {

/// How the authorization page prompts the user.
#[derive(Debug, Clone, Copy, PartialEq, Eq, Structural)]
pub enum Prompt {
    Login,
    NoPrompt,
    Consent,
    SelectAccount,
}

impl Prompt {
    /// The query-parameter value of this prompt mode.
    pub open spec fn tag_spec(self) -> Seq<char> {
        match self {
            Prompt::Login => "login"@,
            Prompt::NoPrompt => "none"@,
            Prompt::Consent => "consent"@,
            Prompt::SelectAccount => "select_account"@,
        }
    }

    /// Serializes the prompt mode for the authorization URL.
    pub fn tag(&self) -> (r: &'static str)
        ensures
            r@ == self.tag_spec(),
    {
        match self {
            Prompt::Login => "login",
            Prompt::NoPrompt => "none",
            Prompt::Consent => "consent",
            Prompt::SelectAccount => "select_account",
        }
    }
}

/// The fixed parameters of one authorization attempt.
pub struct OauthToken {
    pub client_id: String,
    pub redirect: String,
    pub prompt: Prompt,
}

/// What the redirect receiver captured: the authorization code and the
/// echoed state.
#[derive(Debug, Clone)]
pub struct ReceivedCode {
    pub code: String,
    pub state: String,
}

/// The OAuth tokens returned by the code exchange.
pub struct AccessRefreshToken {
    pub access_token: String,
    pub refresh_token: String,
}

/// The Xbox Live user token and the user hash that accompanies it.
#[derive(Debug, Clone)]
pub struct XboxAuthData {
    pub token: String,
    pub uhs: String,
}

/// The durable output of the identity chain. The skin and cape entries are
/// carried as raw document text; this core never reads into them.
#[derive(Debug, Clone)]
pub struct GameProfile {
    pub id: String,
    pub name: String,
    pub skins: Vec<String>,
    pub capes: Vec<String>,
}

/// What `urlencoding::encode` returns: percent-encoding of the text's
/// UTF-8 bytes, keeping only ASCII alphanumerics and `-`, `_`, `.`, `~`.
pub uninterp spec fn url_encoded(s: Seq<char>) -> Seq<char>;

/// Relies on urlencoding::encode: the result is a function of the input text
/// alone, here named `url_encoded`.
#[verifier::external_body]
fn url_encode(s: &str) -> (r: String)
    ensures
        r@ == url_encoded(s@),
        s@.len() == 0 ==> r@.len() == 0,
{
    urlencoding::encode(s).into_owned()
}

/// An ASCII letter or digit.
pub open spec fn is_alnum_char(c: char) -> bool {
    ('a' <= c && c <= 'z') || ('A' <= c && c <= 'Z') || ('0' <= c && c <= '9')
}

/// Relies on rand's Alphanumeric distribution sampled from rand::rng: a
/// fresh token of exactly `len` ASCII letters and digits. The value is
/// random, so nothing more is promised of it.
#[verifier::external_body]
fn random_alphanumeric(len: usize) -> (r: String)
    ensures
        r@.len() == len,
        forall|i: int| 0 <= i < r@.len() ==> is_alnum_char(r@[i]),
{
    rand::distr::Alphanumeric.sample_string(&mut rand::rng(), len)
}

/// Draws the CSRF state of a fresh login attempt: 16 characters, each an
/// ASCII letter or digit, unguessable to anyone not holding it.
pub fn new_csrf_state() -> (r: String)
    ensures
        r@.len() == 16,
        forall|i: int| 0 <= i < r@.len() ==> is_alnum_char(r@[i]),
{
    random_alphanumeric(16)
}

/// The local port range probed for the redirect receiver.
pub const PORT_RANGE_START: u16 = 7878;

/// The end of the probed port range (exclusive).
pub const PORT_RANGE_END: u16 = 65535;

/// Classifies the outcome of probing the whole port range: a bound port
/// lets the chain proceed, and exhaustion is `NoPortAvailable`.
pub fn port_probe_result(bound_port: Option<u16>) -> (r: Result<u16, LauncherError>)
    ensures
        (match bound_port {
            Some(p) => r is Ok && r->Ok_0 == p,
            None => r is Err && r->Err_0 is NoPortAvailable,
        }),
{
    match bound_port {
        Some(p) => Ok(p),
        None => Err(LauncherError::NoPortAvailable),
    }
}

/// The redirect URI announced to the provider for a receiver bound on `port`.
pub open spec fn redirect_uri_spec(port: u16) -> Seq<char> {
    "http://localhost:"@ + dec_seq(port as nat) + "/api/auth/redirect"@
}

/// The authorization URL for the given attempt parameters.
pub open spec fn authorize_url_spec(
    client_id: Seq<char>,
    redirect: Seq<char>,
    prompt: Prompt,
    state: Seq<char>,
) -> Seq<char> {
    "https://login.live.com/oauth20_authorize.srf?client_id="@ + client_id
        + "&response_type=code&redirect_uri="@ + url_encoded(redirect)
        + "&scope=Xboxlive.signin+Xboxlive.offline_access&prompt="@ + prompt.tag_spec()
        + "&state="@ + state
}

/// The form body of the authorization-code exchange.
pub open spec fn token_request_body_spec(
    client_id: Seq<char>,
    code: Seq<char>,
    redirect: Seq<char>,
) -> Seq<char> {
    "client_id="@ + client_id + "&code="@ + code + "&grant_type=authorization_code&redirect_uri="@
        + redirect
}

/// The session context of the whole chain.
pub struct Authentification;

impl Authentification {
    /// The attempt parameters for a receiver bound on `port`: the fixed
    /// client id, the local redirect URI carrying the port, and the prompt.
    pub fn mojang_auth_token(prompt: Prompt, port: u16) -> (r: OauthToken)
        ensures
            r.client_id@ == "89db80b6-8a97-4d00-97e8-48b18f377871"@,
            r.redirect@ == redirect_uri_spec(port),
            r.prompt == prompt,
    {
        let mut redirect = String::from_str("http://localhost:");
        let port_str = u16_to_string(port);
        redirect.append(port_str.as_str());
        redirect.append("/api/auth/redirect");
        proof {
            assert(redirect@ =~= redirect_uri_spec(port));
        }
        OauthToken {
            client_id: String::from_str("89db80b6-8a97-4d00-97e8-48b18f377871"),
            redirect,
            prompt,
        }
    }

    /// Builds the authorization URL the browser view is pointed at.
    pub fn create_link(token: &OauthToken, state: &String) -> (r: String)
        ensures
            r@ == authorize_url_spec(token.client_id@, token.redirect@, token.prompt, state@),
    {
        let mut s = String::from_str("https://login.live.com/oauth20_authorize.srf?client_id=");
        s.append(token.client_id.as_str());
        s.append("&response_type=code&redirect_uri=");
        let enc = url_encode(token.redirect.as_str());
        s.append(enc.as_str());
        s.append("&scope=Xboxlive.signin+Xboxlive.offline_access&prompt=");
        s.append(token.prompt.tag());
        s.append("&state=");
        s.append(state.as_str());
        proof {
            assert(s@ =~= authorize_url_spec(
                token.client_id@,
                token.redirect@,
                token.prompt,
                state@,
            ));
        }
        s
    }

    /// Checks the redirect's echoed state against the session's own: equality
    /// lets the chain proceed; anything else is a `CsrfMismatch`, never a
    /// pass-through.
    pub fn verify_csrf(received: &ReceivedCode, expected_state: &String) -> (r: Result<
        (),
        LauncherError,
    >)
        ensures
            r is Ok <==> received.state@ == expected_state@,
            r is Err ==> r->Err_0 is CsrfMismatch,
    {
        if received.state == *expected_state {
            Ok(())
        } else {
            Err(LauncherError::CsrfMismatch)
        }
    }

    /// The form body of the authorization-code exchange.
    pub fn token_request_body(token_data: &OauthToken, oauth_code: &ReceivedCode) -> (r: String)
        ensures
            r@ == token_request_body_spec(
                token_data.client_id@,
                oauth_code.code@,
                token_data.redirect@,
            ),
    {
        let mut s = String::from_str("client_id=");
        s.append(token_data.client_id.as_str());
        s.append("&code=");
        s.append(oauth_code.code.as_str());
        s.append("&grant_type=authorization_code&redirect_uri=");
        s.append(token_data.redirect.as_str());
        proof {
            assert(s@ =~= token_request_body_spec(
                token_data.client_id@,
                oauth_code.code@,
                token_data.redirect@,
            ));
        }
        s
    }

    /// The `RpsTicket` field of the Xbox Live authentication request.
    pub fn rps_ticket(access_token: &String) -> (r: String)
        ensures
            r@ == "d="@ + access_token@,
    {
        let mut s = String::from_str("d=");
        s.append(access_token.as_str());
        proof {
            assert(s@ =~= "d="@ + access_token@);
        }
        s
    }

    /// The `identityToken` field of the game-service login request.
    pub fn identity_token(uhs: &String, xsts: &String) -> (r: String)
        ensures
            r@ == "XBL3.0 x="@ + uhs@ + ";"@ + xsts@,
    {
        let mut s = String::from_str("XBL3.0 x=");
        s.append(uhs.as_str());
        s.append(";");
        s.append(xsts.as_str());
        proof {
            assert(s@ =~= "XBL3.0 x="@ + uhs@ + ";"@ + xsts@);
        }
        s
    }

    /// The `Authorization` header value for a bearer token.
    pub fn bearer(token: &String) -> (r: String)
        ensures
            r@ == "Bearer "@ + token@,
    {
        let mut s = String::from_str("Bearer ");
        s.append(token.as_str());
        proof {
            assert(s@ =~= "Bearer "@ + token@);
        }
        s
    }
}

/// The `access_token` and `refresh_token` fields of the token-exchange
/// response text, when it is a JSON object carrying both as strings.
pub uninterp spec fn oauth_tokens_of(body: Seq<char>) -> Option<(Seq<char>, Seq<char>)>;

/// Relies on serde_json::from_str and Value::as_str: reads the string fields
/// `access_token` and `refresh_token`, a function of the text alone, here
/// named `oauth_tokens_of`.
#[verifier::external_body]
fn extract_oauth_tokens(body: &str) -> (r: Option<(String, String)>)
    ensures
        (match (r, oauth_tokens_of(body@)) {
            (Some(p), Some(q)) => p.0@ == q.0 && p.1@ == q.1,
            (None, None) => true,
            _ => false,
        }),
{
    let v: serde_json::Value = match serde_json::from_str(body) {
        Ok(v) => v,
        Err(_) => return None,
    };
    match (v["access_token"].as_str(), v["refresh_token"].as_str()) {
        (Some(a), Some(b)) => Some((a.to_string(), b.to_string())),
        _ => None,
    }
}

/// Parses the authorization-code exchange response: both tokens must be
/// present, and their absence is a protocol error, never a pass-through.
pub fn parse_token_response(body: &str) -> (r: Result<AccessRefreshToken, LauncherError>)
    ensures
        (match oauth_tokens_of(body@) {
            Some(t) => r is Ok && r->Ok_0.access_token@ == t.0 && r->Ok_0.refresh_token@ == t.1,
            None => r is Err && r->Err_0 is ProtocolError,
        }),
{
    match extract_oauth_tokens(body) {
        Some((access_token, refresh_token)) => Ok(
            AccessRefreshToken { access_token, refresh_token },
        ),
        None => Err(
            LauncherError::ProtocolError(
                String::from_str("token exchange response carries no access_token/refresh_token"),
            ),
        ),
    }
}

/// The `Token` and `DisplayClaims.xui[0].uhs` fields of the Xbox Live
/// authentication response text.
pub uninterp spec fn xbox_auth_of(body: Seq<char>) -> Option<(Seq<char>, Seq<char>)>;

/// Relies on serde_json::from_str and Value::as_str: reads the string fields
/// `Token` and `DisplayClaims.xui[0].uhs`, a function of the text alone, here
/// named `xbox_auth_of`.
#[verifier::external_body]
fn extract_xbox_auth(body: &str) -> (r: Option<(String, String)>)
    ensures
        (match (r, xbox_auth_of(body@)) {
            (Some(p), Some(q)) => p.0@ == q.0 && p.1@ == q.1,
            (None, None) => true,
            _ => false,
        }),
{
    let v: serde_json::Value = match serde_json::from_str(body) {
        Ok(v) => v,
        Err(_) => return None,
    };
    match (v["Token"].as_str(), v["DisplayClaims"]["xui"][0]["uhs"].as_str()) {
        (Some(t), Some(u)) => Some((t.to_string(), u.to_string())),
        _ => None,
    }
}

/// Parses the Xbox Live authentication response: the token and the user hash
/// must both be present.
pub fn parse_xbox_auth_response(body: &str) -> (r: Result<XboxAuthData, LauncherError>)
    ensures
        (match xbox_auth_of(body@) {
            Some(t) => r is Ok && r->Ok_0.token@ == t.0 && r->Ok_0.uhs@ == t.1,
            None => r is Err && r->Err_0 is ProtocolError,
        }),
{
    match extract_xbox_auth(body) {
        Some((token, uhs)) => Ok(XboxAuthData { token, uhs }),
        None => Err(
            LauncherError::ProtocolError(
                String::from_str("xbox live response carries no Token/DisplayClaims"),
            ),
        ),
    }
}

/// The `Token` field of the XSTS response text.
pub uninterp spec fn xsts_token_of(body: Seq<char>) -> Option<Seq<char>>;

/// Relies on serde_json::from_str and Value::as_str: reads the string field
/// `Token`, a function of the text alone, here named `xsts_token_of`.
#[verifier::external_body]
fn extract_xsts_token(body: &str) -> (r: Option<String>)
    ensures
        (match (r, xsts_token_of(body@)) {
            (Some(p), Some(q)) => p@ == q,
            (None, None) => true,
            _ => false,
        }),
{
    let v: serde_json::Value = match serde_json::from_str(body) {
        Ok(v) => v,
        Err(_) => return None,
    };
    v["Token"].as_str().map(|s| s.to_string())
}

/// The numeric `XErr` field of the XSTS error response text.
pub uninterp spec fn xerr_of(body: Seq<char>) -> Option<u64>;

/// Relies on serde_json::from_str and Value::as_u64: reads the numeric field
/// `XErr`, a function of the text alone, here named `xerr_of`.
#[verifier::external_body]
fn extract_xerr(body: &str) -> (r: Option<u64>)
    ensures
        r == xerr_of(body@),
{
    let v: serde_json::Value = match serde_json::from_str(body) {
        Ok(v) => v,
        Err(_) => return None,
    };
    v["XErr"].as_u64()
}

/// The restriction kind for an XSTS `XErr` code: the known codes map to
/// their own kinds, anything else to `Unknown` carrying the code.
pub open spec fn classify_xerr(code: u64) -> XboxRestriction {
    if code == 2148916233 {
        XboxRestriction::SignUpRequired
    } else if code == 2148916235 {
        XboxRestriction::RegionUnavailable
    } else if code == 2148916236 || code == 2148916237 {
        XboxRestriction::AdultVerificationRequired
    } else if code == 2148916238 {
        XboxRestriction::ChildAccount
    } else {
        XboxRestriction::Unknown(code)
    }
}

/// Maps an XSTS 401 `XErr` code to its user-meaningful restriction kind.
pub fn classify_xsts_error(code: u64) -> (r: XboxRestriction)
    ensures
        r == classify_xerr(code),
{
    if code == 2148916233 {
        XboxRestriction::SignUpRequired
    } else if code == 2148916235 {
        XboxRestriction::RegionUnavailable
    } else if code == 2148916236 || code == 2148916237 {
        XboxRestriction::AdultVerificationRequired
    } else if code == 2148916238 {
        XboxRestriction::ChildAccount
    } else {
        XboxRestriction::Unknown(code)
    }
}

/// Classifies the XSTS response. A 200 must carry the token; a 401 must
/// carry an `XErr` code, which is mapped to its restriction kind; any other
/// status, and any malformed body, is a protocol error.
pub fn parse_xsts_response(status: u16, body: &str) -> (r: Result<String, LauncherError>)
    ensures
        status == 200 ==> (match xsts_token_of(body@) {
            Some(t) => r is Ok && r->Ok_0@ == t,
            None => r is Err && r->Err_0 is ProtocolError,
        }),
        status == 401 ==> (match xerr_of(body@) {
            Some(c) => r is Err && r->Err_0 == LauncherError::XboxRestriction(classify_xerr(c)),
            None => r is Err && r->Err_0 is ProtocolError,
        }),
        status != 200 && status != 401 ==> r is Err && r->Err_0 is ProtocolError,
{
    if status == 200 {
        match extract_xsts_token(body) {
            Some(token) => Ok(token),
            None => Err(
                LauncherError::ProtocolError(String::from_str("xsts response carries no Token")),
            ),
        }
    } else if status == 401 {
        match extract_xerr(body) {
            Some(code) => Err(LauncherError::XboxRestriction(classify_xsts_error(code))),
            None => Err(
                LauncherError::ProtocolError(
                    String::from_str("xsts refusal carries no XErr code"),
                ),
            ),
        }
    } else {
        Err(LauncherError::ProtocolError(String::from_str("xsts returned an unexpected status")))
    }
}

/// The `access_token` field of the game-service login response text.
pub uninterp spec fn game_token_of(body: Seq<char>) -> Option<Seq<char>>;

/// Relies on serde_json::from_str and Value::as_str: reads the string field
/// `access_token`, a function of the text alone, here named `game_token_of`.
#[verifier::external_body]
fn extract_game_token(body: &str) -> (r: Option<String>)
    ensures
        (match (r, game_token_of(body@)) {
            (Some(p), Some(q)) => p@ == q,
            (None, None) => true,
            _ => false,
        }),
{
    let v: serde_json::Value = match serde_json::from_str(body) {
        Ok(v) => v,
        Err(_) => return None,
    };
    v["access_token"].as_str().map(|s| s.to_string())
}

/// Parses the game-service login response: the access token must be present.
pub fn parse_game_token_response(body: &str) -> (r: Result<String, LauncherError>)
    ensures
        (match game_token_of(body@) {
            Some(t) => r is Ok && r->Ok_0@ == t,
            None => r is Err && r->Err_0 is ProtocolError,
        }),
{
    match extract_game_token(body) {
        Some(token) => Ok(token),
        None => Err(
            LauncherError::ProtocolError(
                String::from_str("game service login carries no access_token"),
            ),
        ),
    }
}

/// How many entries the entitlement response object carries, when the text
/// is a JSON object.
pub uninterp spec fn entitlement_count_of(body: Seq<char>) -> Option<usize>;

/// Relies on serde_json::from_str and Value::as_object: counts the entries
/// of the response object, a function of the text alone, here named
/// `entitlement_count_of`.
#[verifier::external_body]
fn extract_entitlement_count(body: &str) -> (r: Option<usize>)
    ensures
        r == entitlement_count_of(body@),
{
    let v: serde_json::Value = match serde_json::from_str(body) {
        Ok(v) => v,
        Err(_) => return None,
    };
    v.as_object().map(|m| m.len())
}

/// Reads the entitlement response: the account counts as owning the game
/// exactly when the response is an object with at least one entry.
pub fn parse_ownership_response(body: &str) -> (r: bool)
    ensures
        r == (match entitlement_count_of(body@) {
            Some(n) => n != 0,
            None => false,
        }),
{
    match extract_entitlement_count(body) {
        Some(n) => n != 0,
        None => false,
    }
}

/// The profile fields of the profile response text: id, name, and the raw
/// text of each skin and cape entry.
pub uninterp spec fn profile_of(body: Seq<char>) -> Option<
    (Seq<char>, Seq<char>, Seq<Seq<char>>, Seq<Seq<char>>),
>;

/// Relies on serde_json::from_str, Value::as_str and Value::as_array: reads
/// the string fields `id` and `name` and the arrays `skins` and `capes`
/// (each entry re-rendered as text), a function of the text alone, here
/// named `profile_of`.
#[verifier::external_body]
fn extract_profile(body: &str) -> (r: Option<(String, String, Vec<String>, Vec<String>)>)
    ensures
        (match (r, profile_of(body@)) {
            (Some(p), Some(q)) => p.0@ == q.0 && p.1@ == q.1 && p.2.deep_view() == q.2
                && p.3.deep_view() == q.3,
            (None, None) => true,
            _ => false,
        }),
{
    let v: serde_json::Value = match serde_json::from_str(body) {
        Ok(v) => v,
        Err(_) => return None,
    };
    match (v["id"].as_str(), v["name"].as_str(), v["skins"].as_array(), v["capes"].as_array()) {
        (Some(id), Some(name), Some(skins), Some(capes)) => Some((
            id.to_string(),
            name.to_string(),
            skins.iter().map(|x| x.to_string()).collect(),
            capes.iter().map(|x| x.to_string()).collect(),
        )),
        _ => None,
    }
}

/// The `error` field of the profile response text, when present as a string.
pub uninterp spec fn profile_error_of(body: Seq<char>) -> Option<Seq<char>>;

/// Relies on serde_json::from_str, Value::get and Value::as_str: reads the
/// string field `error` if the object carries one, a function of the text
/// alone, here named `profile_error_of`.
#[verifier::external_body]
fn extract_profile_error(body: &str) -> (r: Option<String>)
    ensures
        (match (r, profile_error_of(body@)) {
            (Some(p), Some(q)) => p@ == q,
            (None, None) => true,
            _ => false,
        }),
{
    let v: serde_json::Value = match serde_json::from_str(body) {
        Ok(v) => v,
        Err(_) => return None,
    };
    v.get("error").and_then(|e| e.as_str()).map(|s| s.to_string())
}

/// Parses the profile response. A declared `error` field is surfaced as a
/// protocol error carrying its text; otherwise the profile fields must all
/// be present.
pub fn parse_profile_response(body: &str) -> (r: Result<GameProfile, LauncherError>)
    ensures
        (match profile_error_of(body@) {
            Some(e) => r is Err && r->Err_0 is ProtocolError && r->Err_0->ProtocolError_0@ == e,
            None => (match profile_of(body@) {
                Some(p) => r is Ok && r->Ok_0.id@ == p.0 && r->Ok_0.name@ == p.1
                    && r->Ok_0.skins.deep_view() == p.2 && r->Ok_0.capes.deep_view() == p.3,
                None => r is Err && r->Err_0 is ProtocolError,
            }),
        }),
{
    match extract_profile_error(body) {
        Some(e) => Err(LauncherError::ProtocolError(e)),
        None => match extract_profile(body) {
            Some((id, name, skins, capes)) => Ok(GameProfile { id, name, skins, capes }),
            None => Err(
                LauncherError::ProtocolError(
                    String::from_str("profile response carries no profile"),
                ),
            ),
        },
    }
}

/// Combines the concurrent ownership check and profile fetch. An error of
/// the ownership check itself is surfaced. Otherwise the profile stands
/// whenever the account owns the game or a profile came back (an account can
/// have access without a purchase record); an account that owns nothing and
/// has no profile is `NotEntitled`.
pub fn resolve_entitlement(
    ownership: Result<bool, LauncherError>,
    profile: Result<GameProfile, LauncherError>,
) -> (r: Result<GameProfile, LauncherError>)
    ensures
        ownership is Err ==> r is Err && r->Err_0 == ownership->Err_0,
        ownership is Ok && (ownership->Ok_0 || profile is Ok) ==> r == profile,
        ownership is Ok && !ownership->Ok_0 && profile is Err ==> r is Err
            && r->Err_0 is NotEntitled,
{
    match ownership {
        Ok(owns) => {
            if owns || profile.is_ok() {
                profile
            } else {
                Err(LauncherError::NotEntitled)
            }
        },
        Err(e) => Err(e),
    }
}

} // verus!
