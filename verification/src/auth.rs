//! OAuth authorization-code flow: the authorization URL, the redirect that
//! carries the code back, and the bookkeeping of the tokens it yields.

use vstd::prelude::*;
use vstd::string::StringExecFns;
use crate::text::{decimal, push_decimal, owned};
use crate::random::generate_random_string;
use crate::clock::{UtcInstant, checked_add_seconds, utc_now, is_not_after, not_after, shifted, in_range,
    earliest_timestamp, latest_timestamp};

verus! {

/// The authorization URL for the application with `client_id`, redirecting
/// to `http://localhost:<port>` and carrying the anti-forgery `state`.
pub open spec fn authorization_url(client_id: Seq<char>, port: u16, state: Seq<char>) -> Seq<char> {
    "https://id.twitch.tv/oauth2/authorize?response_type=code&client_id="@
        + client_id
        + "&redirect_uri=http%3A%2F%2Flocalhost%3A"@
        + decimal(port as nat)
        + "&scope=channel%3Aread%3Aredemptions&state="@
        + state
}

/// Builds the authorization URL for the Twitch application.
pub fn build_authorization(client_id: &str, port: u16, state: &str) -> (url: String)
    ensures
        url@ == authorization_url(client_id@, port, state@),
{
    let mut url = String::new();
    url.append("https://id.twitch.tv/oauth2/authorize?response_type=code&client_id=");
    url.append(client_id);
    url.append("&redirect_uri=http%3A%2F%2Flocalhost%3A");
    push_decimal(&mut url, port as u64);
    url.append("&scope=channel%3Aread%3Aredemptions&state=");
    url.append(state);
    url
}


/// The tokens the token endpoint answers with.
#[derive(Debug)]
pub struct TokenResponse {
    /// The bearer token for API requests.
    pub access_token: String,
    pub refresh_token: String,
    /// Lifetime of the access token in seconds.
    pub expires_in: u64,
}

/// Tokens as kept between runs, with the instant from which they count as
/// expired.
pub struct SavedTokens {
    pub access_token: String,
    pub refresh_token: String,
    pub expires_at: UtcInstant,
}

/// What the saved tokens allow.
#[derive(Debug)]
pub enum SavedTokensState {
    /// The access token can be used as it is.
    Valid(String),
    /// The tokens have expired and must be refreshed.
    Expired { access: String, refresh: String },
    /// There are no usable tokens: the user must authorize again.
    NeedsAuth,
}

impl PartialEq for SavedTokensState {
    fn eq(&self, other: &Self) -> (r: bool) {
        match (self, other) {
            (SavedTokensState::Valid(a), SavedTokensState::Valid(b)) => a.eq(b),
            (
                SavedTokensState::Expired { access: a1, refresh: r1 },
                SavedTokensState::Expired { access: a2, refresh: r2 },
            ) => a1.eq(a2) && r1.eq(r2),
            (SavedTokensState::NeedsAuth, SavedTokensState::NeedsAuth) => true,
            _ => false,
        }
    }
}

impl vstd::std_specs::cmp::PartialEqSpecImpl for SavedTokensState {
    open spec fn obeys_eq_spec() -> bool {
        true
    }

    open spec fn eq_spec(&self, other: &Self) -> bool {
        match (self, other) {
            (SavedTokensState::Valid(a), SavedTokensState::Valid(b)) => a@ == b@,
            (
                SavedTokensState::Expired { access: a1, refresh: r1 },
                SavedTokensState::Expired { access: a2, refresh: r2 },
            ) => a1@ == a2@ && r1@ == r2@,
            (SavedTokensState::NeedsAuth, SavedTokensState::NeedsAuth) => true,
            _ => false,
        }
    }
}

impl Eq for SavedTokensState {}

/// Seconds by which the saved expiry precedes the real one.
pub const GRACE_PERIOD_SECONDS: i64 = 60;

/// `expires_in as i64`: the lifetime reinterpreted as a signed count.
pub open spec fn signed_lifetime(expires_in: u64) -> int {
    if expires_in <= i64::MAX {
        expires_in as int
    } else {
        expires_in - 0x1_0000_0000_0000_0000
    }
}

fn to_signed(expires_in: u64) -> (r: i64)
    ensures
        r == signed_lifetime(expires_in),
{
    if expires_in <= i64::MAX as u64 {
        expires_in as i64
    } else {
        let below: u64 = u64::MAX - expires_in;
        -(below as i64) - 1
    }
}

/// The instant `now + expires_in - 60 s`, when every step of it is
/// representable.
pub open spec fn expiry_after(now: UtcInstant, expires_in: u64) -> Option<UtcInstant> {
    match shifted(now, signed_lifetime(expires_in)) {
        None => None,
        Some(t) => shifted(t, -GRACE_PERIOD_SECONDS),
    }
}

/// Whether the expiry of tokens issued at `now` with this lifetime can be
/// represented.
pub fn expiry_representable(now: UtcInstant, expires_in: u64) -> (r: bool)
    requires
        now.nanos < 1_000_000_000,
        in_range(now.secs as int),
    ensures
        r == expiry_after(now, expires_in) is Some,
{
    match checked_add_seconds(now, to_signed(expires_in)) {
        None => false,
        Some(t) => checked_add_seconds(t, -GRACE_PERIOD_SECONDS).is_some(),
    }
}

/// The tokens to save for a token response received at `now`: they count as
/// expired a grace period before the end of their lifetime.
pub fn tokens_to_save(tokens: &TokenResponse, now: UtcInstant) -> (saved: SavedTokens)
    requires
        now.nanos < 1_000_000_000,
        in_range(now.secs as int),
        expiry_after(now, tokens.expires_in) is Some,
    ensures
        saved.access_token@ == tokens.access_token@,
        saved.refresh_token@ == tokens.refresh_token@,
        Some(saved.expires_at) == expiry_after(now, tokens.expires_in),
        saved.expires_at.secs == now.secs + signed_lifetime(tokens.expires_in) - GRACE_PERIOD_SECONDS,
        saved.expires_at.nanos == now.nanos,
{
    let lifetime_end = checked_add_seconds(now, to_signed(tokens.expires_in)).unwrap();
    let expires_at = checked_add_seconds(lifetime_end, -GRACE_PERIOD_SECONDS).unwrap();
    SavedTokens {
        access_token: tokens.access_token.clone(),
        refresh_token: tokens.refresh_token.clone(),
        expires_at,
    }
}

/// An instant the clock can read (`utc_now` gives one).
pub open spec fn clock_reading(now: UtcInstant) -> bool {
    0 <= now.secs <= latest_timestamp() && now.nanos < 1_000_000_000
}

/// The tokens to save for a token response received now; `None` when their
/// expiry cannot be represented. Lifetimes that no clock reading can push out
/// of range always succeed; lifetimes that every reading pushes out of range
/// always fail.
pub fn tokens_to_save_now(tokens: &TokenResponse) -> (saved: Option<SavedTokens>)
    ensures
        match saved {
            Some(s) => {
                &&& s.access_token@ == tokens.access_token@
                &&& s.refresh_token@ == tokens.refresh_token@
                &&& exists|now: UtcInstant|
                    clock_reading(now) && #[trigger] expiry_after(now, tokens.expires_in) == Some(
                        s.expires_at,
                    )
            },
            None => exists|now: UtcInstant|
                clock_reading(now) && #[trigger] expiry_after(now, tokens.expires_in) is None,
        },
        earliest_timestamp() + GRACE_PERIOD_SECONDS <= signed_lifetime(tokens.expires_in) <= 0
            ==> saved is Some,
        signed_lifetime(tokens.expires_in) > latest_timestamp() ==> saved is None,
        signed_lifetime(tokens.expires_in) < earliest_timestamp() - latest_timestamp() ==> saved is None,
{
    let now = utc_now();
    if expiry_representable(now, tokens.expires_in) {
        Some(tokens_to_save(tokens, now))
    } else {
        None
    }
}

/// What saved tokens allow at `now`: `saved` is `None` when there are no
/// readable saved tokens.
pub open spec fn token_state_matches(
    saved: Option<SavedTokens>,
    now: UtcInstant,
    state: SavedTokensState,
) -> bool {
    match saved {
        None => state is NeedsAuth,
        Some(t) => if t.access_token@.len() == 0 || t.refresh_token@.len() == 0 {
            state is NeedsAuth
        } else if not_after(t.expires_at, now) {
            state matches SavedTokensState::Expired { access, refresh }
                && access@ == t.access_token@ && refresh@ == t.refresh_token@
        } else {
            state matches SavedTokensState::Valid(access) && access@ == t.access_token@
        },
    }
}

/// Decides what the saved tokens allow at `now`.
pub fn classify_saved_tokens(saved: Option<SavedTokens>, now: UtcInstant) -> (state: SavedTokensState)
    ensures
        token_state_matches(saved, now, state),
{
    match saved {
        None => SavedTokensState::NeedsAuth,
        Some(t) => {
            if t.access_token.as_str().is_empty() || t.refresh_token.as_str().is_empty() {
                SavedTokensState::NeedsAuth
            } else if is_not_after(t.expires_at, now) {
                SavedTokensState::Expired { access: t.access_token, refresh: t.refresh_token }
            } else {
                SavedTokensState::Valid(t.access_token)
            }
        },
    }
}

/// Decides what the saved tokens allow now.
pub fn classify_saved_tokens_now(saved: Option<SavedTokens>) -> (state: SavedTokensState)
    ensures
        exists|now: UtcInstant| clock_reading(now) && #[trigger] token_state_matches(saved, now, state),
{
    let now = utc_now();
    classify_saved_tokens(saved, now)
}

/// The form that exchanges an authorization code for tokens.
pub open spec fn code_exchange_form_matches(
    form: Seq<(String, String)>,
    client_id: Seq<char>,
    client_secret: Seq<char>,
    code: Seq<char>,
    port: u16,
) -> bool {
    &&& form.len() == 5
    &&& form[0].0@ == "client_id"@ && form[0].1@ == client_id
    &&& form[1].0@ == "client_secret"@ && form[1].1@ == client_secret
    &&& form[2].0@ == "redirect_uri"@ && form[2].1@ == "http://localhost:"@ + decimal(port as nat)
    &&& form[3].0@ == "code"@ && form[3].1@ == code
    &&& form[4].0@ == "grant_type"@ && form[4].1@ == "authorization_code"@
}

/// The form fields posted to the token endpoint to exchange `code`, with
/// the redirect URI on `port`.
pub fn code_exchange_form(client_id: &str, client_secret: &str, code: &str, port: u16) -> (form: Vec<
    (String, String),
>)
    ensures
        code_exchange_form_matches(form@, client_id@, client_secret@, code@, port),
{
    let mut redirect_url = owned("http://localhost:");
    push_decimal(&mut redirect_url, port as u64);
    let mut form: Vec<(String, String)> = Vec::new();
    form.push((owned("client_id"), owned(client_id)));
    form.push((owned("client_secret"), owned(client_secret)));
    form.push((owned("redirect_uri"), redirect_url));
    form.push((owned("code"), owned(code)));
    form.push((owned("grant_type"), owned("authorization_code")));
    form
}

/// The form that trades a refresh token for new tokens.
pub open spec fn refresh_form_matches(
    form: Seq<(String, String)>,
    client_id: Seq<char>,
    client_secret: Seq<char>,
    refresh_token: Seq<char>,
) -> bool {
    &&& form.len() == 4
    &&& form[0].0@ == "client_id"@ && form[0].1@ == client_id
    &&& form[1].0@ == "client_secret"@ && form[1].1@ == client_secret
    &&& form[2].0@ == "refresh_token"@ && form[2].1@ == refresh_token
    &&& form[3].0@ == "grant_type"@ && form[3].1@ == "refresh_token"@
}

/// The form fields posted to the token endpoint to refresh the tokens.
pub fn refresh_form(client_id: &str, client_secret: &str, refresh_token: &str) -> (form: Vec<
    (String, String),
>)
    ensures
        refresh_form_matches(form@, client_id@, client_secret@, refresh_token@),
{
    let mut form: Vec<(String, String)> = Vec::new();
    form.push((owned("client_id"), owned(client_id)));
    form.push((owned("client_secret"), owned(client_secret)));
    form.push((owned("refresh_token"), owned(refresh_token)));
    form.push((owned("grant_type"), owned("refresh_token")));
    form
}

/// Tokens saved for a response received at `now` stay valid until their
/// lifetime less the grace period has passed, and count as expired from then
/// on (provided neither token is empty).
pub proof fn law_saved_tokens_valid_until_expiry(
    saved: SavedTokens,
    now: UtcInstant,
    expires_in: u64,
    later: UtcInstant,
    state: SavedTokensState,
)
    requires
        saved.access_token@.len() > 0,
        saved.refresh_token@.len() > 0,
        expiry_after(now, expires_in) == Some(saved.expires_at),
        token_state_matches(Some(saved), later, state),
    ensures
        ({
            let deadline = now.secs + signed_lifetime(expires_in) - GRACE_PERIOD_SECONDS;
            &&& state is Valid <==> (later.secs < deadline || (later.secs == deadline
                && later.nanos < now.nanos))
            &&& state is Expired <==> !(later.secs < deadline || (later.secs == deadline
                && later.nanos < now.nanos))
            &&& state is Valid ==> (state matches SavedTokensState::Valid(a) && a@
                == saved.access_token@)
        }),
{
}

/// Expiry is monotone in time: tokens found expired at some instant are
/// expired at every later instant, and tokens found valid at some instant
/// were valid at every earlier one.
pub proof fn law_expiry_is_monotone(
    saved: SavedTokens,
    earlier: UtcInstant,
    later: UtcInstant,
    at_earlier: SavedTokensState,
    at_later: SavedTokensState,
)
    requires
        earlier.secs < later.secs || (earlier.secs == later.secs && earlier.nanos <= later.nanos),
        token_state_matches(Some(saved), earlier, at_earlier),
        token_state_matches(Some(saved), later, at_later),
    ensures
        at_earlier is Expired ==> at_later is Expired,
        at_later is Valid ==> at_earlier is Valid,
        at_earlier is NeedsAuth <==> at_later is NeedsAuth,
{
}

/// The saved expiry lies the lifetime less one minute after the instant the
/// response was received, at the same fraction of a second.
pub proof fn law_expiry_offset(now: UtcInstant, expires_in: u64)
    requires
        expiry_after(now, expires_in) is Some,
    ensures
        expiry_after(now, expires_in)->0.secs - now.secs == signed_lifetime(expires_in) - 60,
        expiry_after(now, expires_in)->0.nanos == now.nanos,
        expires_in <= i64::MAX ==> signed_lifetime(expires_in) == expires_in,
        expires_in > i64::MAX ==> signed_lifetime(expires_in) == expires_in as int - 18446744073709551616,
{
}

/// Saved tokens with an empty access or refresh token always call for a new
/// authorization, whatever their expiry.
pub proof fn law_empty_tokens_need_auth(saved: SavedTokens, now: UtcInstant, state: SavedTokensState)
    requires
        saved.access_token@.len() == 0 || saved.refresh_token@.len() == 0,
        token_state_matches(Some(saved), now, state),
    ensures
        state is NeedsAuth,
{
}

/// The local port the authorization redirect is awaited on.
pub const AUTH_LISTEN_PORT: u16 = 3000;

/// Length of the anti-forgery state sent with an authorization request.
pub const STATE_LENGTH: usize = 20;

/// What obtaining an access token takes, given the saved tokens.
pub enum TokenPlan {
    /// Open `url` in the browser, await the redirect on `listen_port` with
    /// `expected_state`, then exchange the code and save the new tokens.
    Authorize { url: String, listen_port: u16, expected_state: String },
    /// Refresh the expired tokens and save the new ones.
    Refresh,
    /// Use this saved access token.
    Use(String),
}

/// Decides how to obtain an access token from the state of the saved tokens,
/// for the application `client_id`, with a fresh `expected_state`.
pub fn plan_token_check(state: SavedTokensState, client_id: &str, expected_state: String) -> (plan:
    TokenPlan)
    ensures
        match state {
            SavedTokensState::NeedsAuth => plan matches TokenPlan::Authorize {
                url,
                listen_port,
                expected_state: sent,
            } && listen_port == AUTH_LISTEN_PORT && sent@ == expected_state@ && url@
                == authorization_url(client_id@, AUTH_LISTEN_PORT, expected_state@),
            SavedTokensState::Expired { .. } => plan is Refresh,
            SavedTokensState::Valid(access) => plan matches TokenPlan::Use(a) && a@ == access@,
        },
{
    match state {
        SavedTokensState::NeedsAuth => {
            let url = build_authorization(client_id, AUTH_LISTEN_PORT, expected_state.as_str());
            TokenPlan::Authorize { url, listen_port: AUTH_LISTEN_PORT, expected_state }
        },
        SavedTokensState::Expired { .. } => TokenPlan::Refresh,
        SavedTokensState::Valid(access) => TokenPlan::Use(access),
    }
}

/// Decides how to obtain an access token, drawing a fresh random state of
/// `STATE_LENGTH` alphanumeric characters for a new authorization.
pub fn plan_token_check_now(state: SavedTokensState, client_id: &str) -> (plan: TokenPlan)
    ensures
        match state {
            SavedTokensState::NeedsAuth => plan matches TokenPlan::Authorize {
                url,
                listen_port,
                expected_state,
            } && listen_port == AUTH_LISTEN_PORT && expected_state@.len() == STATE_LENGTH
                && crate::random::all_alphanumeric(expected_state@) && url@ == authorization_url(
                client_id@,
                AUTH_LISTEN_PORT,
                expected_state@,
            ),
            SavedTokensState::Expired { .. } => plan is Refresh,
            SavedTokensState::Valid(access) => plan matches TokenPlan::Use(a) && a@ == access@,
        },
{
    let expected_state = generate_random_string(STATE_LENGTH);
    plan_token_check(state, client_id, expected_state)
}

} // verus!
