use channel_points::connect::{
    channel_points_request, message_kind, subscription_reply, subscription_report, MessageKind,
    ResponseArray, ResponseBody, RewardSelection, SessionAction, SessionEvent, SessionState,
    SubscriptionReply, INITIAL_TIMEOUT_SECS,
};

fn selection(ids: &[&str], exists: bool) -> RewardSelection {
    RewardSelection { reward_list: ids.iter().map(|s| s.to_string()).collect(), exists }
}

#[test]
fn message_kinds() {
    assert_eq!(message_kind("session_welcome"), MessageKind::Welcome);
    assert_eq!(message_kind("session_keepalive"), MessageKind::KeepAlive);
    assert_eq!(message_kind("notification"), MessageKind::Notification);
    assert_eq!(message_kind("session_reconnect"), MessageKind::Reconnect);
    assert_eq!(message_kind("revocation"), MessageKind::Other);
    assert_eq!(message_kind(""), MessageKind::Other);
}

#[test]
fn new_session() {
    let s = SessionState::new();
    assert_eq!(s.url, "wss://eventsub.wss.twitch.tv/ws");
    assert!(!s.is_reconnect);
    assert_eq!(s.timeout_secs, INITIAL_TIMEOUT_SECS);
    assert_eq!(INITIAL_TIMEOUT_SECS, 10);
}

#[test]
fn welcome_subscribes_and_sets_timeout() {
    let mut s = SessionState::new();
    let rewards = selection(&[], false);
    let act = s.step(
        SessionEvent::Welcome { session_id: "sess".to_string(), keepalive_timeout_seconds: 10 },
        &rewards,
    );
    match act {
        SessionAction::Subscribe { session_id } => assert_eq!(session_id, "sess"),
        _ => panic!("expected a subscription"),
    }
    assert_eq!(s.timeout_secs, 20);
}

#[test]
fn reconnect_message_moves_and_stops_resubscribing() {
    let mut s = SessionState::new();
    let rewards = selection(&[], false);
    let act = s.step(SessionEvent::Reconnect { reconnect_url: "wss://other/ws".to_string() }, &rewards);
    assert!(matches!(act, SessionAction::Reconnect));
    assert_eq!(s.url, "wss://other/ws");
    assert!(s.is_reconnect);
    let act = s.step(
        SessionEvent::Welcome { session_id: "new".to_string(), keepalive_timeout_seconds: 30 },
        &rewards,
    );
    assert!(matches!(act, SessionAction::Continue));
    assert_eq!(s.timeout_secs, 60);
    let act = s.step(SessionEvent::TimedOut, &rewards);
    assert!(matches!(act, SessionAction::Reconnect));
    let act = s.step(
        SessionEvent::Welcome { session_id: "again".to_string(), keepalive_timeout_seconds: 30 },
        &rewards,
    );
    assert!(matches!(act, SessionAction::Continue));
}

#[test]
fn lost_connection_keeps_session() {
    let rewards = selection(&[], false);
    for event in [SessionEvent::StreamError, SessionEvent::Closed, SessionEvent::TimedOut] {
        let mut s = SessionState::new();
        let act = s.step(event, &rewards);
        assert!(matches!(act, SessionAction::Reconnect));
        assert_eq!(s.url, "wss://eventsub.wss.twitch.tv/ws");
        assert!(!s.is_reconnect);
        assert_eq!(s.timeout_secs, 10);
    }
    let mut s = SessionState::new();
    for event in [SessionEvent::KeepAlive, SessionEvent::Unknown, SessionEvent::NonText] {
        assert!(matches!(s.step(event, &rewards), SessionAction::Continue));
    }
    let act = s.step(
        SessionEvent::Welcome { session_id: "s".to_string(), keepalive_timeout_seconds: 1 },
        &rewards,
    );
    assert!(matches!(act, SessionAction::Subscribe { .. }));
}

#[test]
fn notifications_follow_the_selection() {
    let mut s = SessionState::new();
    let none = selection(&["a"], false);
    let act = s.step(SessionEvent::Notification { reward_id: "zzz".to_string() }, &none);
    assert!(matches!(act, SessionAction::Broadcast { count: 1 }));
    let chosen = selection(&["a", "b", "a"], true);
    let act = s.step(SessionEvent::Notification { reward_id: "a".to_string() }, &chosen);
    assert!(matches!(act, SessionAction::Broadcast { count: 2 }));
    let act = s.step(SessionEvent::Notification { reward_id: "c".to_string() }, &chosen);
    assert!(matches!(act, SessionAction::Broadcast { count: 0 }));
    let empty = selection(&[], true);
    assert_eq!(empty.broadcasts_for("a"), 0);
}

#[test]
fn reward_selection_loading_and_replacing() {
    let loaded = RewardSelection::loaded(None);
    assert!(loaded.reward_list.is_empty());
    assert!(!loaded.exists);
    let loaded = RewardSelection::loaded(Some(Vec::new()));
    assert!(!loaded.exists);
    let mut loaded = RewardSelection::loaded(Some(vec!["x".to_string()]));
    assert!(loaded.exists);
    assert_eq!(loaded.reward_list, vec!["x".to_string()]);
    loaded.replace(Vec::new());
    assert!(loaded.exists);
    assert!(loaded.reward_list.is_empty());
    assert_eq!(loaded.broadcasts_for("x"), 0);
}

#[test]
fn subscription_request_body() {
    let body = channel_points_request("1234", "sess");
    assert_eq!(body.subscription_type, "channel.channel_points_custom_reward_redemption.add");
    assert_eq!(body.version, "1");
    assert_eq!(body.condition.broadcaster_user_id, "1234");
    assert_eq!(body.transport.method, "websocket");
    assert_eq!(body.transport.session_id, "sess");
}

#[test]
fn subscription_replies() {
    assert_eq!(subscription_reply(401), SubscriptionReply::RetryWithFreshToken);
    assert_eq!(subscription_reply(400), SubscriptionReply::RetryWithFreshToken);
    assert_eq!(subscription_reply(202), SubscriptionReply::ReadBody { failed: false });
    assert_eq!(subscription_reply(500), SubscriptionReply::ReadBody { failed: true });
    assert_eq!(subscription_reply(302), SubscriptionReply::ReadBody { failed: true });
}

#[test]
fn subscription_report_line() {
    let answer = ResponseBody {
        data: vec![ResponseArray {
            status: "enabled".to_string(),
            subscription_type: "channel.channel_points_custom_reward_redemption.add".to_string(),
        }],
    };
    assert_eq!(
        subscription_report(&answer),
        "Subscribed to channel.channel_points_custom_reward_redemption.add with a status of enabled"
    );
}
