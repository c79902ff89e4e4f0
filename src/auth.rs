//! The token lifecycle: authorization with PKCE, code exchange, refresh,
//! the freshness policy and sign-out. Each operation is a decision over
//! plain values; the writes it asks of the credential store come back as
//! `StoreOp`s, and the network exchanges are left to the caller.

use vstd::prelude::*;
use vstd::string::*;
use crate::keychain::{CredentialKey, StoreOp, apply_ops, stored, lemma_apply_ops_push};
use crate::decimal::{decimal_text, decimal_of, parse_u64, parsed_u64, lemma_decimal_round_trip};
use crate::encoding::{url_encode, url_encoded};
use crate::pkce::{generate_pkce, base64url_of, challenge_of, VERIFIER_BYTES};

verus! {

/// The client id used when no custom one is configured.
pub const DEFAULT_CLIENT_ID: &'static str = "YOUR_CLIENT_ID.apps.googleusercontent.com";

/// The local address that the authorization server redirects to.
pub const REDIRECT_URI: &'static str = "http://localhost:8085";

pub const AUTH_ENDPOINT: &'static str = "https://accounts.google.com/o/oauth2/v2/auth";

pub const TOKEN_ENDPOINT: &'static str = "https://oauth2.googleapis.com/token";

/// The requested scopes: files created by the app, and read access.
pub const SCOPES: &'static str = "https://www.googleapis.com/auth/drive.file https://www.googleapis.com/auth/drive.readonly";

/// A token counts as fresh only with more than this many seconds left.
pub const FRESHNESS_MARGIN_SECS: u64 = 300;

pub const NO_VERIFIER: &'static str = "No PKCE verifier found";

pub const NO_REFRESH_TOKEN: &'static str = "No refresh token found";

pub const NOT_AUTHENTICATED: &'static str = "Not authenticated";

/// The token endpoint's answer.
#[derive(Debug)]
pub struct TokenResponse {
    pub access_token: String,
    pub refresh_token: Option<String>,
    pub expires_in: u64,
    pub token_type: String,
}

/// What callers learn of the session.
#[derive(Debug, Clone)]
pub struct AuthState {
    pub is_authenticated: bool,
    pub access_token: Option<String>,
    pub expires_at: Option<u64>,
}

pub open spec fn state_is(s: AuthState, authenticated: bool, token: Option<Seq<char>>, expires_at: Option<u64>) -> bool {
    &&& s.is_authenticated == authenticated
    &&& s.access_token.deep_view() == token
    &&& s.expires_at == expires_at
}

impl AuthState {
    /// The state of a session that must sign in again.
    pub fn signed_out() -> (r: AuthState)
        ensures
            state_is(r, false, None, None),
    {
        AuthState { is_authenticated: false, access_token: None, expires_at: None }
    }
}

pub open spec fn effective_client_id_of(custom: Option<Seq<char>>) -> Seq<char> {
    match custom {
        Some(id) => if id.len() > 0 { id } else { DEFAULT_CLIENT_ID@ },
        None => DEFAULT_CLIENT_ID@,
    }
}

pub open spec fn effective_client_secret_of(custom: Option<Seq<char>>) -> Option<Seq<char>> {
    match custom {
        Some(secret) => if secret.len() > 0 { Some(secret) } else { None },
        None => None,
    }
}

/// The client id to use: the stored custom one when it is non-empty, else
/// the built-in default.
pub fn effective_client_id(custom: Option<String>) -> (r: String)
    ensures
        r@ == effective_client_id_of(custom.deep_view()),
{
    match custom {
        Some(id) => if id.as_str().unicode_len() > 0 {
            id
        } else {
            String::from_str(DEFAULT_CLIENT_ID)
        },
        None => String::from_str(DEFAULT_CLIENT_ID),
    }
}

/// The client secret to send: only a non-empty stored custom one.
pub fn effective_client_secret(custom: Option<String>) -> (r: Option<String>)
    ensures
        r.deep_view() == effective_client_secret_of(custom.deep_view()),
{
    match custom {
        Some(secret) => if secret.as_str().unicode_len() > 0 {
            Some(secret)
        } else {
            None
        },
        None => None,
    }
}

pub open spec fn authorization_url_of(client_id: Seq<char>, challenge: Seq<char>) -> Seq<char> {
    AUTH_ENDPOINT@ + "?client_id="@ + url_encoded(client_id) + "&redirect_uri="@
        + url_encoded(REDIRECT_URI@) + "&response_type=code&scope="@ + url_encoded(SCOPES@)
        + "&code_challenge="@ + url_encoded(challenge)
        + "&code_challenge_method=S256&access_type=offline&prompt=consent"@
}

/// The authorization URL for a client id and a PKCE challenge.
pub fn authorization_url(client_id: &str, challenge: &str) -> (r: String)
    ensures
        r@ == authorization_url_of(client_id@, challenge@),
{
    let mut url = String::from_str(AUTH_ENDPOINT);
    url.append("?client_id=");
    url.append(url_encode(client_id).as_str());
    url.append("&redirect_uri=");
    url.append(url_encode(REDIRECT_URI).as_str());
    url.append("&response_type=code&scope=");
    url.append(url_encode(SCOPES).as_str());
    url.append("&code_challenge=");
    url.append(url_encode(challenge).as_str());
    url.append("&code_challenge_method=S256&access_type=offline&prompt=consent");
    url
}

/// The start of an authorization attempt: the URL to open, and the write
/// that keeps the verifier until the code comes back.
#[derive(Debug)]
pub struct AuthorizationStart {
    pub url: String,
    pub writes: Vec<StoreOp>,
}

/// Generate a PKCE pair and the authorization URL for it, with the
/// effective client id of the stored custom one.
pub fn start_authorization(custom_client_id: Option<String>) -> (r: AuthorizationStart)
    ensures
        r.writes@.len() == 1,
        match r.writes@[0] {
            StoreOp::Put(k, verifier) => {
                &&& k == CredentialKey::PkceVerifier
                &&& r.url@ == authorization_url_of(
                    effective_client_id_of(custom_client_id.deep_view()),
                    challenge_of(verifier@),
                )
                &&& exists|b: Seq<u8>| b.len() == VERIFIER_BYTES && verifier@ == #[trigger] base64url_of(b)
            },
            StoreOp::Remove(_) => false,
        },
{
    let (verifier, challenge) = generate_pkce();
    let client_id = effective_client_id(custom_client_id);
    let url = authorization_url(client_id.as_str(), challenge.as_str());
    let mut writes: Vec<StoreOp> = Vec::new();
    writes.push(StoreOp::Put(CredentialKey::PkceVerifier, verifier));
    AuthorizationStart { url, writes }
}

/// A stored value that an operation cannot go on without.
pub fn require_stored(value: Option<String>, missing: &str) -> (r: Result<String, String>)
    ensures
        match value {
            Some(v) => r matches Ok(x) && x@ == v@,
            None => r matches Err(e) && e@ == missing@,
        },
{
    match value {
        Some(v) => Ok(v),
        None => Err(String::from_str(missing)),
    }
}

pub open spec fn form_view(f: Seq<(&'static str, String)>) -> Seq<(Seq<char>, Seq<char>)> {
    f.map_values(|p: (&'static str, String)| (p.0@, p.1@))
}

pub open spec fn with_secret(
    f: Seq<(Seq<char>, Seq<char>)>,
    secret: Option<Seq<char>>,
) -> Seq<(Seq<char>, Seq<char>)> {
    match secret {
        Some(s) => f.push(("client_secret"@, s)),
        None => f,
    }
}

pub open spec fn exchange_form_of(
    code: Seq<char>,
    client_id: Seq<char>,
    verifier: Seq<char>,
    secret: Option<Seq<char>>,
) -> Seq<(Seq<char>, Seq<char>)> {
    with_secret(
        seq![
            ("code"@, code),
            ("client_id"@, client_id),
            ("redirect_uri"@, REDIRECT_URI@),
            ("grant_type"@, "authorization_code"@),
            ("code_verifier"@, verifier),
        ],
        secret,
    )
}

pub open spec fn refresh_form_of(
    refresh_token: Seq<char>,
    client_id: Seq<char>,
    secret: Option<Seq<char>>,
) -> Seq<(Seq<char>, Seq<char>)> {
    with_secret(
        seq![
            ("refresh_token"@, refresh_token),
            ("client_id"@, client_id),
            ("grant_type"@, "refresh_token"@),
        ],
        secret,
    )
}

fn push_secret(form: &mut Vec<(&'static str, String)>, secret: Option<String>)
    ensures
        form_view(final(form)@) == with_secret(form_view(old(form)@), secret.deep_view()),
{
    match secret {
        Some(s) => {
            let ghost before = form@;
            form.push(("client_secret", s));
            assert(form_view(form@) =~= form_view(before).push(("client_secret"@, s@)));
        },
        None => {},
    }
}

/// The form fields of an authorization-code exchange; the secret is sent
/// only when there is one.
pub fn exchange_form(code: String, client_id: String, verifier: String, secret: Option<String>) -> (r: Vec<(&'static str, String)>)
    ensures
        form_view(r@) == exchange_form_of(code@, client_id@, verifier@, secret.deep_view()),
{
    let ghost (c, id, v) = (code@, client_id@, verifier@);
    let mut form: Vec<(&'static str, String)> = Vec::new();
    form.push(("code", code));
    form.push(("client_id", client_id));
    form.push(("redirect_uri", String::from_str(REDIRECT_URI)));
    form.push(("grant_type", String::from_str("authorization_code")));
    form.push(("code_verifier", verifier));
    assert(form_view(form@) =~= seq![
        ("code"@, c),
        ("client_id"@, id),
        ("redirect_uri"@, REDIRECT_URI@),
        ("grant_type"@, "authorization_code"@),
        ("code_verifier"@, v),
    ]);
    push_secret(&mut form, secret);
    form
}

/// The form fields of a refresh request; the secret is sent only when
/// there is one.
pub fn refresh_form(refresh_token: String, client_id: String, secret: Option<String>) -> (r: Vec<(&'static str, String)>)
    ensures
        form_view(r@) == refresh_form_of(refresh_token@, client_id@, secret.deep_view()),
{
    let ghost (t, id) = (refresh_token@, client_id@);
    let mut form: Vec<(&'static str, String)> = Vec::new();
    form.push(("refresh_token", refresh_token));
    form.push(("client_id", client_id));
    form.push(("grant_type", String::from_str("refresh_token")));
    assert(form_view(form@) =~= seq![
        ("refresh_token"@, t),
        ("client_id"@, id),
        ("grant_type"@, "refresh_token"@),
    ]);
    push_secret(&mut form, secret);
    form
}

/// The outcome of a successful token response: what to write, and the
/// state to report.
#[derive(Debug)]
pub struct TokenUpdate {
    pub writes: Vec<StoreOp>,
    pub state: AuthState,
}

/// The store after an exchange: the new access token, the refresh token if
/// one came, the expiry as decimal text, and no verifier.
pub open spec fn after_exchange(
    m: Map<CredentialKey, Seq<char>>,
    access: Seq<char>,
    refresh: Option<Seq<char>>,
    expires_at: nat,
) -> Map<CredentialKey, Seq<char>> {
    let m1 = m.insert(CredentialKey::AccessToken, access);
    let m2 = match refresh {
        Some(t) => m1.insert(CredentialKey::RefreshToken, t),
        None => m1,
    };
    m2.insert(CredentialKey::TokenExpiry, decimal_of(expires_at)).remove(CredentialKey::PkceVerifier)
}

/// The store after a refresh: the new access token and expiry; the refresh
/// token is left as it was.
pub open spec fn after_refresh(
    m: Map<CredentialKey, Seq<char>>,
    access: Seq<char>,
    expires_at: nat,
) -> Map<CredentialKey, Seq<char>> {
    m.insert(CredentialKey::AccessToken, access).insert(CredentialKey::TokenExpiry, decimal_of(expires_at))
}

/// The store after sign-out: no tokens, no expiry, no verifier.
pub open spec fn after_sign_out(m: Map<CredentialKey, Seq<char>>) -> Map<CredentialKey, Seq<char>> {
    m.remove(CredentialKey::AccessToken).remove(CredentialKey::RefreshToken).remove(
        CredentialKey::TokenExpiry,
    ).remove(CredentialKey::PkceVerifier)
}

/// The absolute expiry of a token that lives `expires_in` seconds from `now`.
pub fn token_expiry(now: u64, expires_in: u64) -> (r: u64)
    requires
        now + expires_in <= u64::MAX,
    ensures
        r == now + expires_in,
{
    now + expires_in
}

/// Apply a successful authorization-code exchange received at `now`.
pub fn apply_exchange(response: TokenResponse, now: u64) -> (r: TokenUpdate)
    requires
        now + response.expires_in <= u64::MAX,
    ensures
        state_is(r.state, true, Some(response.access_token@), Some((now + response.expires_in) as u64)),
        forall|m: Map<CredentialKey, Seq<char>>| #[trigger] apply_ops(m, r.writes@) == after_exchange(
            m,
            response.access_token@,
            response.refresh_token.deep_view(),
            (now + response.expires_in) as nat,
        ),
{
    let expires_at = token_expiry(now, response.expires_in);
    let ghost refresh = response.refresh_token.deep_view();
    let ghost access_v = response.access_token@;
    let access = response.access_token;
    let reported = access.clone();
    let mut writes: Vec<StoreOp> = Vec::new();
    let ghost w0 = writes@;
    writes.push(StoreOp::Put(CredentialKey::AccessToken, access));
    let ghost w1 = writes@;
    proof {
        assert forall|m: Map<CredentialKey, Seq<char>>| apply_ops(m, w1) == m.insert(CredentialKey::AccessToken, access_v) by {
            lemma_apply_ops_push(m, w0, w1.last());
            assert(w0.push(w1.last()) =~= w1);
        }
    }
    match response.refresh_token {
        Some(t) => writes.push(StoreOp::Put(CredentialKey::RefreshToken, t)),
        None => {},
    }
    let ghost w2 = writes@;
    proof {
        assert forall|m: Map<CredentialKey, Seq<char>>| apply_ops(m, w2) == (match refresh {
            Some(t) => m.insert(CredentialKey::AccessToken, access_v).insert(CredentialKey::RefreshToken, t),
            None => m.insert(CredentialKey::AccessToken, access_v),
        }) by {
            if w2.len() > w1.len() {
                lemma_apply_ops_push(m, w1, w2.last());
                assert(w1.push(w2.last()) =~= w2);
            }
        }
    }
    writes.push(StoreOp::Put(CredentialKey::TokenExpiry, decimal_text(expires_at)));
    let ghost w3 = writes@;
    writes.push(StoreOp::Remove(CredentialKey::PkceVerifier));
    proof {
        assert forall|m: Map<CredentialKey, Seq<char>>| #[trigger] apply_ops(m, writes@) == after_exchange(
            m,
            access_v,
            refresh,
            expires_at as nat,
        ) by {
            lemma_apply_ops_push(m, w2, w3.last());
            assert(w2.push(w3.last()) =~= w3);
            lemma_apply_ops_push(m, w3, writes@.last());
            assert(w3.push(writes@.last()) =~= writes@);
        }
    }
    TokenUpdate {
        writes,
        state: AuthState { is_authenticated: true, access_token: Some(reported), expires_at: Some(expires_at) },
    }
}

/// Apply a successful refresh received at `now`. A refresh token in the
/// response is not kept.
pub fn apply_refresh(response: TokenResponse, now: u64) -> (r: TokenUpdate)
    requires
        now + response.expires_in <= u64::MAX,
    ensures
        state_is(r.state, true, Some(response.access_token@), Some((now + response.expires_in) as u64)),
        forall|m: Map<CredentialKey, Seq<char>>| #[trigger] apply_ops(m, r.writes@) == after_refresh(
            m,
            response.access_token@,
            (now + response.expires_in) as nat,
        ),
{
    let expires_at = token_expiry(now, response.expires_in);
    let access = response.access_token;
    let reported = access.clone();
    let mut writes: Vec<StoreOp> = Vec::new();
    writes.push(StoreOp::Put(CredentialKey::AccessToken, access));
    writes.push(StoreOp::Put(CredentialKey::TokenExpiry, decimal_text(expires_at)));
    proof {
        reveal_with_fuel(apply_ops, 3);
    }
    TokenUpdate {
        writes,
        state: AuthState { is_authenticated: true, access_token: Some(reported), expires_at: Some(expires_at) },
    }
}

/// The writes of a sign-out: remove both tokens, the expiry and any stray
/// verifier.
pub fn sign_out_writes() -> (r: Vec<StoreOp>)
    ensures
        forall|m: Map<CredentialKey, Seq<char>>| #[trigger] apply_ops(m, r@) == after_sign_out(m),
{
    let mut writes: Vec<StoreOp> = Vec::new();
    writes.push(StoreOp::Remove(CredentialKey::AccessToken));
    writes.push(StoreOp::Remove(CredentialKey::RefreshToken));
    writes.push(StoreOp::Remove(CredentialKey::TokenExpiry));
    writes.push(StoreOp::Remove(CredentialKey::PkceVerifier));
    proof {
        reveal_with_fuel(apply_ops, 5);
    }
    writes
}

/// What the check of the session decides.
#[derive(Debug)]
pub enum CheckDecision {
    /// The state to report, with no refresh.
    Settled(AuthState),
    /// The token is not fresh and a refresh token is stored: try a refresh.
    AttemptRefresh,
}

/// The expiry that the stored text spells, if it spells one.
pub open spec fn stored_expiry(expiry: Option<Seq<char>>) -> Option<u64> {
    match expiry {
        Some(t) => parsed_u64(t),
        None => None,
    }
}

/// A token is fresh when one is stored with an expiry more than the margin
/// after `now`.
pub open spec fn is_fresh(access: Option<Seq<char>>, expiry: Option<Seq<char>>, now: u64) -> bool {
    &&& access is Some
    &&& match stored_expiry(expiry) {
        Some(e) => e > now + FRESHNESS_MARGIN_SECS,
        None => false,
    }
}

pub open spec fn decision_is(
    d: CheckDecision,
    access: Option<Seq<char>>,
    expiry: Option<Seq<char>>,
    refresh_stored: bool,
    now: u64,
) -> bool {
    if is_fresh(access, expiry, now) {
        match d {
            CheckDecision::Settled(s) => state_is(s, true, access, stored_expiry(expiry)),
            CheckDecision::AttemptRefresh => false,
        }
    } else if refresh_stored {
        d is AttemptRefresh
    } else {
        match d {
            CheckDecision::Settled(s) => state_is(s, false, None, stored_expiry(expiry)),
            CheckDecision::AttemptRefresh => false,
        }
    }
}

/// Decide the session state from the stored access token and expiry text,
/// whether a refresh token is stored, and the time `now`.
pub fn check_decision(access: Option<String>, expiry: Option<String>, refresh_stored: bool, now: u64) -> (r: CheckDecision)
    ensures
        decision_is(r, access.deep_view(), expiry.deep_view(), refresh_stored, now),
{
    let expires_at: Option<u64> = match &expiry {
        Some(t) => parse_u64(t.as_str()),
        None => None,
    };
    let fresh = match (&access, expires_at) {
        (Some(_), Some(e)) => e > FRESHNESS_MARGIN_SECS && e - FRESHNESS_MARGIN_SECS > now,
        _ => false,
    };
    if fresh {
        CheckDecision::Settled(AuthState { is_authenticated: true, access_token: access, expires_at })
    } else if refresh_stored {
        CheckDecision::AttemptRefresh
    } else {
        CheckDecision::Settled(AuthState { is_authenticated: false, access_token: None, expires_at })
    }
}

/// The state to report after a silent refresh: its own state on success;
/// on failure a signed-out state, not the error.
pub fn settle_refresh(outcome: Result<AuthState, String>) -> (r: AuthState)
    ensures
        match outcome {
            Ok(s) => r == s,
            Err(_) => state_is(r, false, None, None),
        },
{
    match outcome {
        Ok(s) => s,
        Err(_) => AuthState::signed_out(),
    }
}

/// The access token of a checked state, or the error that no valid one
/// exists.
pub fn valid_token(state: AuthState) -> (r: Result<String, String>)
    ensures
        match state.access_token {
            Some(t) => r matches Ok(x) && x == t,
            None => r matches Err(e) && e@ == NOT_AUTHENTICATED@,
        },
{
    match state.access_token {
        Some(t) => Ok(t),
        None => Err(String::from_str(NOT_AUTHENTICATED)),
    }
}

/// Right after an exchange whose token lives longer than the freshness
/// margin, the check finds the new token fresh and reports the session as
/// authenticated with it, whatever the store held before.
pub proof fn lemma_fresh_after_exchange(
    m: Map<CredentialKey, Seq<char>>,
    access: Seq<char>,
    refresh: Option<Seq<char>>,
    now: u64,
    expires_in: u64,
    d: CheckDecision,
)
    requires
        now + expires_in <= u64::MAX,
        expires_in > FRESHNESS_MARGIN_SECS,
        ({
            let after = after_exchange(m, access, refresh, (now + expires_in) as nat);
            decision_is(
                d,
                stored(after, CredentialKey::AccessToken),
                stored(after, CredentialKey::TokenExpiry),
                stored(after, CredentialKey::RefreshToken) is Some,
                now,
            )
        }),
    ensures
        ({
            let after = after_exchange(m, access, refresh, (now + expires_in) as nat);
            &&& stored(after, CredentialKey::AccessToken) == Some(access)
            &&& stored_expiry(stored(after, CredentialKey::TokenExpiry)) == Some((now + expires_in) as u64)
            &&& is_fresh(stored(after, CredentialKey::AccessToken), stored(after, CredentialKey::TokenExpiry), now)
        }),
        match d {
            CheckDecision::Settled(s) => state_is(s, true, Some(access), Some((now + expires_in) as u64)),
            CheckDecision::AttemptRefresh => false,
        },
{
    lemma_decimal_round_trip((now + expires_in) as u64);
}

/// A stored token that expires within the freshness margin is not fresh;
/// with a refresh token stored, the check asks for a refresh.
pub proof fn lemma_stale_token_needs_refresh(
    access: Seq<char>,
    expires_at: u64,
    now: u64,
    d: CheckDecision,
)
    requires
        expires_at <= now + FRESHNESS_MARGIN_SECS,
        decision_is(d, Some(access), Some(decimal_of(expires_at as nat)), true, now),
    ensures
        !is_fresh(Some(access), Some(decimal_of(expires_at as nat)), now),
        d is AttemptRefresh,
{
    lemma_decimal_round_trip(expires_at);
}

/// Signing out twice leaves the store as signing out once did; after it
/// neither token is stored and the check reports a signed-out session.
pub proof fn lemma_sign_out_idempotent(m: Map<CredentialKey, Seq<char>>, now: u64, d: CheckDecision)
    requires
        decision_is(
            d,
            stored(after_sign_out(m), CredentialKey::AccessToken),
            stored(after_sign_out(m), CredentialKey::TokenExpiry),
            stored(after_sign_out(m), CredentialKey::RefreshToken) is Some,
            now,
        ),
    ensures
        after_sign_out(after_sign_out(m)) == after_sign_out(m),
        stored(after_sign_out(m), CredentialKey::AccessToken) is None,
        stored(after_sign_out(m), CredentialKey::RefreshToken) is None,
        match d {
            CheckDecision::Settled(s) => !s.is_authenticated && s.access_token is None,
            CheckDecision::AttemptRefresh => false,
        },
{
    assert(after_sign_out(after_sign_out(m)) =~= after_sign_out(m));
}

} // verus!
