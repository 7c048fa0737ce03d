//! The authorization-code flow and the token cache policy.
//!
//! Obtaining a token runs through fixed stages: check the cached token,
//! open the authorization page in a browser, wait for the local callback
//! request, exchange the captured code for a token, persist it.  The browser,
//! the listener socket and the exchange request live with the caller; the
//! functions here decide what each stage does with what came back.

use vstd::prelude::*;
use vstd::string::StrSliceExecFns;
use vstd::string::StringExecFns;

use crate::config::Config;
use crate::config::TokenInfo;
use crate::config::TOKEN_VALIDITY_SECS;
use crate::text::contains_seq;
use crate::text::find_str;
use crate::text::first_occurrence;
use crate::text::is_space;
use crate::text::lemma_first_occurrence;
use crate::text::occurs_at;

verus! {

/// Why obtaining a token failed; `TokenExchangeRejected` carries the body of
/// the rejecting response for diagnostics.
#[derive(Debug, Clone, PartialEq)]
pub enum AuthError {
    MissingCredentials,
    BrowserLaunchFailed,
    CallbackListenFailed,
    CallbackReadFailed,
    TokenExchangeRejected(String),
    TransportError,
    ParseError,
}

/// What the caller has to do to end up with a valid token: use the cached
/// one as it is, or run the full authorization flow with these credentials.
#[derive(Debug, Clone, PartialEq)]
pub enum TokenDecision {
    UseCached { access_token: String },
    StartAuthorization { client_id: String, client_secret: String },
}

/// The token cache policy: with a fresh cached token the decision is to use
/// it, and no network activity is called for; with a stale or absent token
/// the full authorization flow is called for, and only with both credentials
/// present.
pub fn get_access_token(config: &Config, now: u64) -> (r: Result<TokenDecision, AuthError>)
    ensures
        match config.fresh_token(now) {
            Some(t) => r == Ok::<TokenDecision, AuthError>(
                TokenDecision::UseCached { access_token: t.access_token },
            ),
            None => match (config.client_id, config.client_secret) {
                (Some(id), Some(secret)) => r == Ok::<TokenDecision, AuthError>(
                    TokenDecision::StartAuthorization { client_id: id, client_secret: secret },
                ),
                _ => r == Err::<TokenDecision, AuthError>(AuthError::MissingCredentials),
            },
        },
{
    match &config.token_info {
        Some(t) => {
            if t.created_at <= now && now - t.created_at < TOKEN_VALIDITY_SECS {
                return Ok(TokenDecision::UseCached { access_token: t.access_token.clone() });
            }
        },
        None => {},
    }
    let client_id = match &config.client_id {
        Some(id) => id.clone(),
        None => {
            return Err(AuthError::MissingCredentials);
        },
    };
    let client_secret = match &config.client_secret {
        Some(secret) => secret.clone(),
        None => {
            return Err(AuthError::MissingCredentials);
        },
    };
    Ok(TokenDecision::StartAuthorization { client_id, client_secret })
}

/// The page a user is sent to so they can grant access: the fixed
/// authorization endpoint with the client identity and the local redirect
/// target filled in.
pub open spec fn authorization_url(client_id: Seq<char>) -> Seq<char> {
    "https://www.eventbrite.com/oauth/authorize?response_type=code&client_id="@ + client_id
        + "&redirect_uri="@ + "http://localhost:5000/callback"@
}

/// Builds the authorization URL for `client_id`.
pub fn build_authorization_url(client_id: &str) -> (r: String)
    ensures
        r@ == authorization_url(client_id@),
{
    let mut url = String::from_str(
        "https://www.eventbrite.com/oauth/authorize?response_type=code&client_id=",
    );
    url.append(client_id);
    url.append("&redirect_uri=");
    url.append("http://localhost:5000/callback");
    url
}

/// The request line that announces an authorization callback.
pub open spec fn callback_marker() -> Seq<char> {
    "GET /callback?code="@
}

/// The longest prefix of `s` that holds no whitespace.
pub open spec fn prefix_until_space(s: Seq<char>) -> Seq<char>
    decreases s.len(),
{
    if s.len() == 0 || is_space(s[0]) {
        Seq::empty()
    } else {
        seq![s[0]] + prefix_until_space(s.skip(1))
    }
}

/// The longest prefix of `s` that holds no `&`.
pub open spec fn prefix_until_amp(s: Seq<char>) -> Seq<char>
    decreases s.len(),
{
    if s.len() == 0 || s[0] == '&' {
        Seq::empty()
    } else {
        seq![s[0]] + prefix_until_amp(s.skip(1))
    }
}

/// The authorization code carried by a callback request: the text after the
/// first `code=` marker, up to the next whitespace, truncated at the first
/// `&` so that trailing query parameters are discarded.
pub open spec fn extracted_code(request: Seq<char>) -> Seq<char> {
    prefix_until_amp(prefix_until_space(request.skip(first_occurrence(request, "code="@) + 5)))
}

proof fn lemma_prefix_until_space_take(s: Seq<char>, k: int)
    requires
        0 <= k <= s.len(),
        forall|j: int| 0 <= j < k ==> !is_space(s[j]),
        k == s.len() || is_space(s[k]),
    ensures
        prefix_until_space(s) == s.take(k),
    decreases k,
{
    if k == 0 {
        assert(s.take(0) =~= Seq::<char>::empty());
    } else {
        assert(!is_space(s[0]));
        lemma_prefix_until_space_take(s.skip(1), k - 1);
        assert(s.skip(1).take(k - 1) =~= s.take(k).skip(1));
        assert(seq![s[0]] + s.take(k).skip(1) =~= s.take(k));
    }
}

proof fn lemma_prefix_until_amp_take(s: Seq<char>, k: int)
    requires
        0 <= k <= s.len(),
        forall|j: int| 0 <= j < k ==> s[j] != '&',
        k == s.len() || s[k] == '&',
    ensures
        prefix_until_amp(s) == s.take(k),
    decreases k,
{
    if k == 0 {
        assert(s.take(0) =~= Seq::<char>::empty());
    } else {
        assert(s[0] != '&');
        lemma_prefix_until_amp_take(s.skip(1), k - 1);
        assert(s.skip(1).take(k - 1) =~= s.take(k).skip(1));
        assert(seq![s[0]] + s.take(k).skip(1) =~= s.take(k));
    }
}

/// Parses the authorization code out of a raw callback request.  A request
/// that does not announce a callback yields `None`; one that does yields the
/// code exactly as [`extracted_code`] describes it.
pub fn parse_callback_code(request: &str) -> (r: Option<String>)
    ensures
        match r {
            Some(code) => contains_seq(request@, callback_marker()) && code@ == extracted_code(
                request@,
            ),
            None => !contains_seq(request@, callback_marker()),
        },
{
    if find_str(request, "GET /callback?code=").is_none() {
        proof {
            assert(!contains_seq(request@, callback_marker()));
        }
        return None;
    }
    proof {
        let g = choose|i: int| occurs_at(request@, "GET /callback?code="@, i);
        reveal_strlit("GET /callback?code=");
        reveal_strlit("code=");
        assert(request@.subrange(g, g + 19) == "GET /callback?code="@);
        assert forall|i: int| 0 <= i < 5 implies request@.subrange(g + 14, g + 19)[i]
            == "code="@[i] by {
            assert(request@.subrange(g + 14, g + 19)[i] == request@[g + 14 + i]);
            assert(request@.subrange(g, g + 19)[14 + i] == request@[g + 14 + i]);
            assert("GET /callback?code="@[14 + i] == "code="@[i]);
        }
        assert(request@.subrange(g + 14, g + 19) =~= "code="@);
        assert(occurs_at(request@, "code="@, g + 14));
    }
    let start = match find_str(request, "code=") {
        Some(i) => i,
        None => {
            proof {
                assert(false);
            }
            return None;
        },
    };
    proof {
        lemma_first_occurrence(request@, "code="@);
        let f = first_occurrence(request@, "code="@);
        assert(occurs_at(request@, "code="@, f));
        assert(!(f < start) && !(start < f));
        assert(start + 5 <= request@.len());
    }
    let len = request.unicode_len();
    let tail = request.substring_char(start + 5, len);
    let tail_len = request.unicode_len() - (start + 5);
    let mut ws: usize = 0;
    while ws < tail_len && !is_space_at(tail, ws)
        invariant
            tail@.len() == tail_len,
            ws <= tail_len,
            forall|j: int| 0 <= j < ws ==> !is_space(tail@[j]),
        decreases tail_len - ws,
    {
        ws = ws + 1;
    }
    let token = tail.substring_char(0, ws);
    proof {
        lemma_prefix_until_space_take(tail@, ws as int);
        assert(tail@.take(ws as int) == token@);
    }
    let mut amp: usize = 0;
    while amp < ws && !is_amp_at(token, amp)
        invariant
            token@.len() == ws,
            amp <= ws,
            forall|j: int| 0 <= j < amp ==> token@[j] != '&',
        decreases ws - amp,
    {
        amp = amp + 1;
    }
    let code = token.substring_char(0, amp);
    proof {
        lemma_prefix_until_amp_take(token@, amp as int);
        assert(request@.skip(start + 5) =~= request@.subrange(
            start + 5,
            request@.len() as int,
        ));
        assert(code@ == extracted_code(request@));
    }
    Some(String::from_str(code))
}

fn is_space_at(s: &str, i: usize) -> (r: bool)
    requires
        i < s@.len(),
    ensures
        r == is_space(s@[i as int]),
{
    crate::text::is_space_char(s.get_char(i))
}

fn is_amp_at(s: &str, i: usize) -> (r: bool)
    requires
        i < s@.len(),
    ensures
        r == (s@[i as int] == '&'),
{
    s.get_char(i) == '&'
}

/// What the token exchange makes of the endpoint's response: a rejecting
/// status is a hard failure carrying the response body, a success whose body
/// held no token is a parse failure, and a success with a token becomes the
/// cached record stamped at `now`.
pub fn accept_token_response(status_success: bool, body: String, access_token: Option<String>, now: u64) -> (r: Result<
    TokenInfo,
    AuthError,
>)
    ensures
        !status_success ==> r == Err::<TokenInfo, AuthError>(
            AuthError::TokenExchangeRejected(body),
        ),
        status_success ==> match access_token {
            None => r == Err::<TokenInfo, AuthError>(AuthError::ParseError),
            Some(tok) => r == Ok::<TokenInfo, AuthError>(
                TokenInfo { access_token: tok, created_at: now },
            ),
        },
{
    if !status_success {
        return Err(AuthError::TokenExchangeRejected(body));
    }
    match access_token {
        Some(tok) => Ok(TokenInfo { access_token: tok, created_at: now }),
        None => Err(AuthError::ParseError),
    }
}

} // verus!
