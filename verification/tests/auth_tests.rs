use channel_points::auth::{
    build_authorization, classify_saved_tokens, classify_saved_tokens_now, code_exchange_form,
    expiry_representable, plan_token_check, plan_token_check_now, refresh_form, tokens_to_save,
    tokens_to_save_now, SavedTokens, SavedTokensState, TokenPlan, TokenResponse, AUTH_LISTEN_PORT,
    STATE_LENGTH,
};
use channel_points::clock::UtcInstant;
use channel_points::random::generate_random_string;

#[test]
fn test_build_auth_url() {
    let client_id = "test_client";
    let port = 3000;
    let state = "temp_state";
    let url = build_authorization(client_id, port, state);

    assert!(
        url.contains("https://id.twitch.tv/oauth2/authorize?response_type=code&client_id=test_client&redirect_uri=http%3A%2F%2Flocalhost%3A3000&scope=channel%3Aread%3Aredemptions&state=temp_state"),
        "Authentication URL is not correct upon test."
    );
}

#[test]
fn test_build_auth_url_includes_client_id() {
    let client_id = "test_client";
    let port = 3000;
    let state = "temp_state";
    let url = build_authorization(client_id, port, state);

    assert!(
        url.contains("client_id=test_client"),
        "Client id parameter must be in authentication url"
    );
}

#[test]
fn test_build_auth_url_includes_port() {
    let client_id = "test_client";
    let port = 3000;
    let state = "temp_state";
    let url = build_authorization(client_id, port, state);

    assert!(
        url.contains("redirect_uri=http%3A%2F%2Flocalhost%3A3000"),
        "Redirect URL Port parameter must be in authentication URL"
    );
}

#[test]
fn test_build_auth_url_includes_state() {
    let client_id = "test_client";
    let port = 3000;
    let state = "temp_state";
    let url = build_authorization(client_id, port, state);

    assert!(
        url.contains("state=temp_state"),
        "State parameter must be in authentication URL"
    );
}

#[test]
fn auth_url_is_exactly_the_template() {
    assert_eq!(
        build_authorization("abc", 0, ""),
        "https://id.twitch.tv/oauth2/authorize?response_type=code&client_id=abc&redirect_uri=http%3A%2F%2Flocalhost%3A0&scope=channel%3Aread%3Aredemptions&state="
    );
    assert_eq!(
        build_authorization("", 65535, "s"),
        "https://id.twitch.tv/oauth2/authorize?response_type=code&client_id=&redirect_uri=http%3A%2F%2Flocalhost%3A65535&scope=channel%3Aread%3Aredemptions&state=s"
    );
    assert!(build_authorization("x", 8081, "y").contains("localhost%3A8081&"));
}

fn response(access: &str, refresh: &str, expires_in: u64) -> TokenResponse {
    TokenResponse {
        access_token: access.to_string(),
        refresh_token: refresh.to_string(),
        expires_in,
    }
}

fn saved(access: &str, refresh: &str, secs: i64, nanos: u32) -> SavedTokens {
    SavedTokens {
        access_token: access.to_string(),
        refresh_token: refresh.to_string(),
        expires_at: UtcInstant { secs, nanos },
    }
}

#[test]
fn saved_tokens_expire_a_minute_early() {
    let now = UtcInstant { secs: 1_700_000_000, nanos: 5 };
    let s = tokens_to_save(&response("acc", "ref", 3600), now);
    assert_eq!(s.access_token, "acc");
    assert_eq!(s.refresh_token, "ref");
    assert_eq!(s.expires_at, UtcInstant { secs: 1_700_003_540, nanos: 5 });
}

#[test]
fn lifetime_is_read_as_signed() {
    let now = UtcInstant { secs: 1_000, nanos: 0 };
    let s = tokens_to_save(&response("a", "r", u64::MAX), now);
    assert_eq!(s.expires_at, UtcInstant { secs: 1_000 - 1 - 60, nanos: 0 });
}

#[test]
fn unrepresentable_expiry_is_detected() {
    let now = UtcInstant { secs: 1_000, nanos: 0 };
    assert!(expiry_representable(now, 3600));
    assert!(expiry_representable(now, 8_210_266_876_799 - 1_000));
    assert!(!expiry_representable(now, 8_210_266_876_799 - 1_000 + 1));
    assert!(!expiry_representable(now, 9_223_372_036_854_776));
    let late = UtcInstant { secs: 8_210_266_876_799 - 10, nanos: 0 };
    assert!(!expiry_representable(late, 100));
    assert!(expiry_representable(late, 10));
    assert!(!expiry_representable(late, 11));
    let early = UtcInstant { secs: -8_334_601_228_800 + 100, nanos: 0 };
    assert!(expiry_representable(early, u64::MAX - 39));
    assert!(!expiry_representable(early, u64::MAX - 40));
    let s = tokens_to_save(&response("a", "r", u64::MAX - 39), early);
    assert_eq!(s.expires_at, UtcInstant { secs: -8_334_601_228_800, nanos: 0 });
}

#[test]
fn saving_now_copies_tokens() {
    let s = tokens_to_save_now(&response("acc", "ref", 3600)).expect("representable");
    assert_eq!(s.access_token, "acc");
    assert_eq!(s.refresh_token, "ref");
    assert!(s.expires_at.secs > 1_600_000_000);
    assert!(tokens_to_save_now(&response("a", "r", 9_223_372_036_854_776)).is_none());
    assert!(tokens_to_save_now(&response("a", "r", 8_210_266_876_800)).is_none());
    assert!(tokens_to_save_now(&response("a", "r", 0)).is_some());
    assert!(tokens_to_save_now(&response("a", "r", u64::MAX)).is_some());
}

#[test]
fn missing_or_empty_tokens_need_auth() {
    let now = UtcInstant { secs: 100, nanos: 0 };
    assert_eq!(classify_saved_tokens(None, now), SavedTokensState::NeedsAuth);
    assert_eq!(classify_saved_tokens(Some(saved("", "r", 500, 0)), now), SavedTokensState::NeedsAuth);
    assert_eq!(classify_saved_tokens(Some(saved("a", "", 500, 0)), now), SavedTokensState::NeedsAuth);
}

#[test]
fn tokens_expire_at_their_instant() {
    let now = UtcInstant { secs: 100, nanos: 7 };
    assert_eq!(
        classify_saved_tokens(Some(saved("a", "r", 100, 7)), now),
        SavedTokensState::Expired { access: "a".to_string(), refresh: "r".to_string() }
    );
    assert_eq!(
        classify_saved_tokens(Some(saved("a", "r", 99, 999_999_999)), now),
        SavedTokensState::Expired { access: "a".to_string(), refresh: "r".to_string() }
    );
    assert_eq!(
        classify_saved_tokens(Some(saved("a", "r", 100, 8)), now),
        SavedTokensState::Valid("a".to_string())
    );
}

#[test]
fn tokens_saved_now_are_valid_until_expiry() {
    let issued = UtcInstant { secs: 1_700_000_000, nanos: 0 };
    let s = tokens_to_save(&response("a", "r", 120), issued);
    let before = UtcInstant { secs: 1_700_000_059, nanos: 999 };
    let s2 = tokens_to_save(&response("a", "r", 120), issued);
    assert_eq!(classify_saved_tokens(Some(s), before), SavedTokensState::Valid("a".to_string()));
    let at = UtcInstant { secs: 1_700_000_060, nanos: 0 };
    assert_eq!(
        classify_saved_tokens(Some(s2), at),
        SavedTokensState::Expired { access: "a".to_string(), refresh: "r".to_string() }
    );
}

#[test]
fn classification_now_uses_the_clock() {
    assert_eq!(
        classify_saved_tokens_now(Some(saved("a", "r", 8_000_000_000_000, 0))),
        SavedTokensState::Valid("a".to_string())
    );
    assert_eq!(
        classify_saved_tokens_now(Some(saved("a", "r", 0, 0))),
        SavedTokensState::Expired { access: "a".to_string(), refresh: "r".to_string() }
    );
}

#[test]
fn code_exchange_form_fields() {
    let form = code_exchange_form("id", "secret", "the_code", 3000);
    let expected: Vec<(String, String)> = vec![
        ("client_id".to_string(), "id".to_string()),
        ("client_secret".to_string(), "secret".to_string()),
        ("redirect_uri".to_string(), "http://localhost:3000".to_string()),
        ("code".to_string(), "the_code".to_string()),
        ("grant_type".to_string(), "authorization_code".to_string()),
    ];
    assert_eq!(form, expected);
}

#[test]
fn refresh_form_fields() {
    let form = refresh_form("id", "secret", "rt");
    let expected: Vec<(String, String)> = vec![
        ("client_id".to_string(), "id".to_string()),
        ("client_secret".to_string(), "secret".to_string()),
        ("refresh_token".to_string(), "rt".to_string()),
        ("grant_type".to_string(), "refresh_token".to_string()),
    ];
    assert_eq!(form, expected);
}

#[test]
fn plan_follows_token_state() {
    match plan_token_check(SavedTokensState::NeedsAuth, "cid", "st".to_string()) {
        TokenPlan::Authorize { url, listen_port, expected_state } => {
            assert_eq!(listen_port, 3000);
            assert_eq!(expected_state, "st");
            assert_eq!(url, build_authorization("cid", 3000, "st"));
        }
        _ => panic!("expected an authorization"),
    }
    let expired = SavedTokensState::Expired { access: "a".to_string(), refresh: "r".to_string() };
    assert!(matches!(plan_token_check(expired, "cid", "st".to_string()), TokenPlan::Refresh));
    match plan_token_check(SavedTokensState::Valid("tok".to_string()), "cid", "st".to_string()) {
        TokenPlan::Use(t) => assert_eq!(t, "tok"),
        _ => panic!("expected the saved token"),
    }
}

#[test]
fn fresh_authorization_draws_a_state() {
    match plan_token_check_now(SavedTokensState::NeedsAuth, "cid") {
        TokenPlan::Authorize { url, listen_port, expected_state } => {
            assert_eq!(listen_port, AUTH_LISTEN_PORT);
            assert_eq!(expected_state.len(), STATE_LENGTH);
            assert!(expected_state.chars().all(|c| c.is_ascii_alphanumeric()));
            assert!(url.ends_with(&format!("&state={}", expected_state)));
        }
        _ => panic!("expected an authorization"),
    }
}

#[test]
fn random_strings_are_alphanumeric() {
    assert_eq!(generate_random_string(0), "");
    let a = generate_random_string(32);
    let b = generate_random_string(32);
    assert_eq!(a.chars().count(), 32);
    assert!(a.chars().all(|c| c.is_ascii_alphanumeric()));
    assert_ne!(a, b);
}
