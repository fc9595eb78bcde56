//! The EventSub websocket session: which messages lead to a subscription, a
//! broadcast to the overlay or a reconnection, and the subscription request.

use vstd::prelude::*;
use vstd::string::StringExecFns;
use crate::text::{chars_of, same_chars, owned};
use crate::http::{is_client_error, is_success, is_client_error_status, is_success_status};

verus! {

/// The first address the session connects to.
pub open spec fn initial_url() -> Seq<char> {
    "wss://eventsub.wss.twitch.tv/ws"@
}

/// Seconds to wait for a message before the first welcome sets the keepalive.
pub const INITIAL_TIMEOUT_SECS: u64 = 10;

/// The rewards whose redemption starts the overlay.
pub struct RewardSelection {
    /// Ids of the selected rewards.
    pub reward_list: Vec<String>,
    /// Whether a selection has been made; without one, every redemption counts.
    pub exists: bool,
}

/// The selection as a model: the reward ids and whether a selection exists.
pub struct RewardSelectionView {
    pub ids: Seq<Seq<char>>,
    pub exists: bool,
}

impl View for RewardSelection {
    type V = RewardSelectionView;

    open spec fn view(&self) -> RewardSelectionView {
        RewardSelectionView {
            ids: self.reward_list@.map_values(|s: String| s@),
            exists: self.exists,
        }
    }
}

/// How many of the first `n` ids equal `id`.
pub open spec fn count_in(ids: Seq<Seq<char>>, id: Seq<char>, n: int) -> nat
    decreases n,
{
    if n <= 0 {
        0
    } else {
        count_in(ids, id, n - 1) + if ids[n - 1] == id { 1nat } else { 0nat }
    }
}

/// How many start messages a redemption of `reward_id` sends: one when no
/// selection exists, otherwise one per selected id equal to it.
pub open spec fn broadcasts_for(selection: RewardSelectionView, reward_id: Seq<char>) -> nat {
    if !selection.exists {
        1
    } else {
        count_in(selection.ids, reward_id, selection.ids.len() as int)
    }
}

proof fn lemma_count_in_zero(ids: Seq<Seq<char>>, id: Seq<char>, n: int)
    requires
        0 <= n <= ids.len(),
        forall|k: int| 0 <= k < n ==> #[trigger] ids[k] != id,
    ensures
        count_in(ids, id, n) == 0,
    decreases n,
{
    if n > 0 {
        lemma_count_in_zero(ids, id, n - 1);
    }
}

proof fn lemma_count_in_positive(ids: Seq<Seq<char>>, id: Seq<char>, n: int, k: int)
    requires
        0 <= k < n <= ids.len(),
        ids[k] == id,
    ensures
        count_in(ids, id, n) >= 1,
    decreases n,
{
    if n - 1 > k {
        lemma_count_in_positive(ids, id, n - 1, k);
    }
}

/// Once a selection exists, a redemption starts the overlay exactly when the
/// redeemed reward is among the selected ones; without a selection every
/// redemption starts it once.
pub proof fn law_only_selected_rewards_start(selection: RewardSelectionView, reward_id: Seq<char>)
    ensures
        !selection.exists ==> broadcasts_for(selection, reward_id) == 1,
        selection.exists ==> (broadcasts_for(selection, reward_id) > 0 <==> selection.ids.contains(
            reward_id,
        )),
{
    if selection.exists {
        let n = selection.ids.len() as int;
        if selection.ids.contains(reward_id) {
            let k = choose|k: int| 0 <= k < n && selection.ids[k] == reward_id;
            lemma_count_in_positive(selection.ids, reward_id, n, k);
        } else {
            assert forall|k: int| 0 <= k < n implies #[trigger] selection.ids[k] != reward_id by {
                if selection.ids[k] == reward_id {
                    assert(selection.ids.contains(reward_id));
                }
            }
            lemma_count_in_zero(selection.ids, reward_id, n);
        }
    }
}

impl RewardSelection {
    /// The selection read at start-up: `saved` is `None` when the saved list
    /// could not be read; a selection exists when the list is not empty.
    pub fn loaded(saved: Option<Vec<String>>) -> (selection: RewardSelection)
        ensures
            match saved {
                Some(list) => selection.reward_list@ == list@ && selection.exists == (list@.len() > 0),
                None => selection.reward_list@.len() == 0 && !selection.exists,
            },
    {
        let reward_list = match saved {
            Some(list) => list,
            None => Vec::new(),
        };
        let exists = reward_list.len() != 0;
        RewardSelection { reward_list, exists }
    }

    /// Replaces the selection by the ids saved from the configuration page;
    /// a selection then exists, even an empty one.
    pub fn replace(&mut self, ids: Vec<String>)
        ensures
            final(self).reward_list@ == ids@,
            final(self).exists,
    {
        self.reward_list = ids;
        self.exists = true;
    }

    /// How many start messages a redemption of `reward_id` sends.
    pub fn broadcasts_for(&self, reward_id: &str) -> (n: usize)
        ensures
            n == broadcasts_for(self@, reward_id@),
    {
        if !self.exists {
            return 1;
        }
        let target = chars_of(reward_id);
        let mut n: usize = 0;
        let mut i: usize = 0;
        while i < self.reward_list.len()
            invariant
                i <= self.reward_list@.len(),
                n == count_in(self@.ids, reward_id@, i as int),
                n <= i,
                target@ == reward_id@,
            decreases self.reward_list.len() - i,
        {
            let candidate = chars_of(self.reward_list[i].as_str());
            if same_chars(&candidate, &target) {
                n = n + 1;
            }
            i = i + 1;
        }
        n
    }
}

/// The kinds of EventSub message, by their `metadata.message_type`.
#[derive(PartialEq, Eq, Structural, Debug, Clone, Copy)]
pub enum MessageKind {
    Welcome,
    KeepAlive,
    Notification,
    Reconnect,
    Other,
}

/// The kind named by a `message_type`.
pub open spec fn kind_of(message_type: Seq<char>) -> MessageKind {
    if message_type == "session_welcome"@ {
        MessageKind::Welcome
    } else if message_type == "session_keepalive"@ {
        MessageKind::KeepAlive
    } else if message_type == "notification"@ {
        MessageKind::Notification
    } else if message_type == "session_reconnect"@ {
        MessageKind::Reconnect
    } else {
        MessageKind::Other
    }
}

/// The kind of message a `message_type` names.
pub fn message_kind(message_type: &str) -> (kind: MessageKind)
    ensures
        kind == kind_of(message_type@),
{
    let t = chars_of(message_type);
    if same_chars(&t, &chars_of("session_welcome")) {
        MessageKind::Welcome
    } else if same_chars(&t, &chars_of("session_keepalive")) {
        MessageKind::KeepAlive
    } else if same_chars(&t, &chars_of("notification")) {
        MessageKind::Notification
    } else if same_chars(&t, &chars_of("session_reconnect")) {
        MessageKind::Reconnect
    } else {
        MessageKind::Other
    }
}

/// The state of the websocket session across connections.
pub struct SessionState {
    /// The address to connect to next.
    pub url: String,
    /// Whether the current connection follows a reconnect message, in which
    /// case the subscription carries over and is not made again.
    pub is_reconnect: bool,
    /// Seconds to wait for the next message before reconnecting.
    pub timeout_secs: u64,
}

/// The session state as a model.
pub struct SessionView {
    pub url: Seq<char>,
    pub is_reconnect: bool,
    pub timeout_secs: u64,
}

impl View for SessionState {
    type V = SessionView;

    open spec fn view(&self) -> SessionView {
        SessionView { url: self.url@, is_reconnect: self.is_reconnect, timeout_secs: self.timeout_secs }
    }
}

/// What happened on the connection.
pub enum SessionEvent {
    /// A `session_welcome` message.
    Welcome { session_id: String, keepalive_timeout_seconds: u64 },
    /// A `session_keepalive` message.
    KeepAlive,
    /// A `notification` message: a reward was redeemed.
    Notification { reward_id: String },
    /// A `session_reconnect` message.
    Reconnect { reconnect_url: String },
    /// A text message of another type.
    Unknown,
    /// A frame that is not text.
    NonText,
    /// The stream reported an error.
    StreamError,
    /// The stream ended.
    Closed,
    /// No message arrived within the timeout.
    TimedOut,
}

/// An event as a model.
pub enum EventView {
    Welcome(Seq<char>, u64),
    KeepAlive,
    Notification(Seq<char>),
    Reconnect(Seq<char>),
    Unknown,
    NonText,
    StreamError,
    Closed,
    TimedOut,
}

impl View for SessionEvent {
    type V = EventView;

    open spec fn view(&self) -> EventView {
        match self {
            SessionEvent::Welcome { session_id, keepalive_timeout_seconds } => EventView::Welcome(
                session_id@,
                *keepalive_timeout_seconds,
            ),
            SessionEvent::KeepAlive => EventView::KeepAlive,
            SessionEvent::Notification { reward_id } => EventView::Notification(reward_id@),
            SessionEvent::Reconnect { reconnect_url } => EventView::Reconnect(reconnect_url@),
            SessionEvent::Unknown => EventView::Unknown,
            SessionEvent::NonText => EventView::NonText,
            SessionEvent::StreamError => EventView::StreamError,
            SessionEvent::Closed => EventView::Closed,
            SessionEvent::TimedOut => EventView::TimedOut,
        }
    }
}

/// What to do after an event.
pub enum SessionAction {
    /// Subscribe to redemptions on the session with this id, then read on.
    Subscribe { session_id: String },
    /// Read the next message.
    Continue,
    /// Send the start message to the overlay `count` times, then read on.
    Broadcast { count: usize },
    /// Drop the connection and connect to the session's `url` again.
    Reconnect,
}

/// An action as a model.
pub enum ActionView {
    Subscribe(Seq<char>),
    Continue,
    Broadcast(nat),
    Reconnect,
}

impl View for SessionAction {
    type V = ActionView;

    open spec fn view(&self) -> ActionView {
        match self {
            SessionAction::Subscribe { session_id } => ActionView::Subscribe(session_id@),
            SessionAction::Continue => ActionView::Continue,
            SessionAction::Broadcast { count } => ActionView::Broadcast(*count as nat),
            SessionAction::Reconnect => ActionView::Reconnect,
        }
    }
}

/// The session's state before any message.
pub open spec fn initial_session() -> SessionView {
    SessionView { url: initial_url(), is_reconnect: false, timeout_secs: INITIAL_TIMEOUT_SECS }
}

/// The next state and the action for an event, given the reward selection
/// at that moment.
pub open spec fn transition(s: SessionView, e: EventView, rewards: RewardSelectionView) -> (
    SessionView,
    ActionView,
) {
    match e {
        EventView::Welcome(session_id, keepalive) => (
            SessionView {
                url: s.url,
                is_reconnect: s.is_reconnect,
                timeout_secs: (2 * keepalive) as u64,
            },
            if s.is_reconnect {
                ActionView::Continue
            } else {
                ActionView::Subscribe(session_id)
            },
        ),
        EventView::Notification(reward_id) => (
            s,
            ActionView::Broadcast(broadcasts_for(rewards, reward_id)),
        ),
        EventView::Reconnect(url) => (
            SessionView { url, is_reconnect: true, timeout_secs: s.timeout_secs },
            ActionView::Reconnect,
        ),
        EventView::StreamError | EventView::Closed | EventView::TimedOut => (
            s,
            ActionView::Reconnect,
        ),
        _ => (s, ActionView::Continue),
    }
}

/// Whether an event can be handled: the doubled keepalive of a welcome must
/// fit in a `Duration`'s seconds.
pub open spec fn event_allowed(e: EventView) -> bool {
    e matches EventView::Welcome(_, keepalive) ==> keepalive <= u64::MAX / 2
}

impl SessionState {
    /// The state before the first connection.
    pub fn new() -> (s: SessionState)
        ensures
            s@ == initial_session(),
    {
        let mut url = String::new();
        url.append("wss://eventsub.wss.twitch.tv/ws");
        SessionState { url, is_reconnect: false, timeout_secs: INITIAL_TIMEOUT_SECS }
    }

    /// Handles one event and says what to do next.
    pub fn step(&mut self, event: SessionEvent, rewards: &RewardSelection) -> (action: SessionAction)
        requires
            event_allowed(event@),
        ensures
            (final(self)@, action@) == transition(old(self)@, event@, rewards@),
    {
        match event {
            SessionEvent::Welcome { session_id, keepalive_timeout_seconds } => {
                self.timeout_secs = keepalive_timeout_seconds * 2;
                if self.is_reconnect {
                    SessionAction::Continue
                } else {
                    SessionAction::Subscribe { session_id }
                }
            },
            SessionEvent::Notification { reward_id } => {
                let count = rewards.broadcasts_for(reward_id.as_str());
                SessionAction::Broadcast { count }
            },
            SessionEvent::Reconnect { reconnect_url } => {
                self.url = reconnect_url;
                self.is_reconnect = true;
                SessionAction::Reconnect
            },
            SessionEvent::StreamError | SessionEvent::Closed | SessionEvent::TimedOut => {
                SessionAction::Reconnect
            },
            _ => SessionAction::Continue,
        }
    }
}

/// The state after a series of events, each with the reward selection at its
/// moment, and the actions taken on the way.
pub open spec fn run(s: SessionView, events: Seq<(EventView, RewardSelectionView)>) -> (
    SessionView,
    Seq<ActionView>,
)
    decreases events.len(),
{
    if events.len() == 0 {
        (s, seq![])
    } else {
        let (s1, a) = transition(s, events[0].0, events[0].1);
        let (s2, rest) = run(s1, events.drop_first());
        (s2, seq![a] + rest)
    }
}

/// Once a reconnect message has been handled, the session stays in the
/// reconnected state and no later event leads to a new subscription.
pub proof fn law_no_resubscription_after_reconnect(
    s: SessionView,
    events: Seq<(EventView, RewardSelectionView)>,
)
    requires
        s.is_reconnect,
    ensures
        run(s, events).0.is_reconnect,
        run(s, events).1.len() == events.len(),
        forall|i: int| 0 <= i < events.len() ==> !(#[trigger] run(s, events).1[i] is Subscribe),
    decreases events.len(),
{
    if events.len() > 0 {
        let (s1, a) = transition(s, events[0].0, events[0].1);
        law_no_resubscription_after_reconnect(s1, events.drop_first());
        let rest = run(s1, events.drop_first()).1;
        assert forall|i: int| 0 <= i < events.len() implies !(#[trigger] run(s, events).1[i] is Subscribe) by {
            if i > 0 {
                assert(run(s, events).1[i] == rest[i - 1]);
            }
        }
    }
}

/// Handling a reconnect message makes the next connection go to the address
/// it names and marks the session as reconnected, whatever came before.
pub proof fn law_reconnect_follows_new_url(
    s: SessionView,
    url: Seq<char>,
    rewards: RewardSelectionView,
)
    ensures
        transition(s, EventView::Reconnect(url), rewards).0.url == url,
        transition(s, EventView::Reconnect(url), rewards).0.is_reconnect,
        transition(s, EventView::Reconnect(url), rewards).1 is Reconnect,
{
}

/// A redemption is handled the same way in every session state: the state
/// is left as it is, and the overlay is told to start once per selected id
/// equal to the redeemed reward (once when no selection exists), whether or
/// not the session has reconnected.
pub proof fn law_redemptions_ignore_session_state(
    s: SessionView,
    other: SessionView,
    reward_id: Seq<char>,
    rewards: RewardSelectionView,
)
    ensures
        transition(s, EventView::Notification(reward_id), rewards).0 == s,
        transition(s, EventView::Notification(reward_id), rewards).1 == transition(
            other,
            EventView::Notification(reward_id),
            rewards,
        ).1,
        transition(s, EventView::Notification(reward_id), rewards).1 matches ActionView::Broadcast(
            n,
        ) && n == (if rewards.exists {
            rewards.ids.filter(|id: Seq<char>| id == reward_id).len()
        } else {
            1
        }),
{
    lemma_count_in_is_filter(rewards.ids, reward_id, rewards.ids.len() as int);
    assert(rewards.ids.take(rewards.ids.len() as int) =~= rewards.ids);
}

proof fn lemma_count_in_is_filter(ids: Seq<Seq<char>>, id: Seq<char>, n: int)
    requires
        0 <= n <= ids.len(),
    ensures
        count_in(ids, id, n) == ids.take(n).filter(|x: Seq<char>| x == id).len(),
    decreases n,
{
    reveal_with_fuel(Seq::<_>::filter, 1);
    if n > 0 {
        lemma_count_in_is_filter(ids, id, n - 1);
        assert(ids.take(n).drop_last() =~= ids.take(n - 1));
    } else {
        assert(ids.take(0) =~= Seq::<Seq<char>>::empty());
    }
}

/// A lost connection (error, end of stream or timeout) reconnects to the same
/// address and leaves the session as it was.
pub proof fn law_lost_connection_keeps_session(s: SessionView, rewards: RewardSelectionView)
    ensures
        transition(s, EventView::StreamError, rewards) == (s, ActionView::Reconnect),
        transition(s, EventView::Closed, rewards) == (s, ActionView::Reconnect),
        transition(s, EventView::TimedOut, rewards) == (s, ActionView::Reconnect),
{
}

/// The body of a subscription request.
pub struct RequestBody {
    /// The subscription type (the JSON field `type`).
    pub subscription_type: String,
    pub version: String,
    pub condition: Condition,
    pub transport: Transport,
}

/// Whose events the subscription is for.
pub struct Condition {
    pub broadcaster_user_id: String,
}

/// How the events are delivered.
pub struct Transport {
    pub method: String,
    pub session_id: String,
}

/// The subscription type for custom channel-points reward redemptions.
pub open spec fn channel_points_type() -> Seq<char> {
    "channel.channel_points_custom_reward_redemption.add"@
}

/// The request that subscribes the websocket session `session_id` to the
/// reward redemptions of `broadcaster_user_id`.
pub fn channel_points_request(broadcaster_user_id: &str, session_id: &str) -> (body: RequestBody)
    ensures
        body.subscription_type@ == channel_points_type(),
        body.version@ == "1"@,
        body.condition.broadcaster_user_id@ == broadcaster_user_id@,
        body.transport.method@ == "websocket"@,
        body.transport.session_id@ == session_id@,
{
    RequestBody {
        subscription_type: owned("channel.channel_points_custom_reward_redemption.add"),
        version: owned("1"),
        condition: Condition { broadcaster_user_id: owned(broadcaster_user_id) },
        transport: Transport { method: owned("websocket"), session_id: owned(session_id) },
    }
}

/// What the subscription endpoint answers.
pub struct ResponseBody {
    pub data: Vec<ResponseArray>,
}

/// One subscription in the answer.
pub struct ResponseArray {
    pub status: String,
    /// The subscription type (the JSON field `type`).
    pub subscription_type: String,
}

/// What to do with the status of a subscription reply.
#[derive(PartialEq, Eq, Structural, Debug, Clone, Copy)]
pub enum SubscriptionReply {
    /// A client error: obtain a fresh access token and send the request again.
    RetryWithFreshToken,
    /// Read the body as the answer; `failed` when the status is not a success,
    /// which is reported before reading.
    ReadBody { failed: bool },
}

/// Decides what to do with the HTTP status of a subscription reply.
pub fn subscription_reply(status: u16) -> (reply: SubscriptionReply)
    ensures
        is_client_error_status(status) ==> reply == SubscriptionReply::RetryWithFreshToken,
        !is_client_error_status(status) ==> reply == (SubscriptionReply::ReadBody {
            failed: !is_success_status(status),
        }),
{
    if is_client_error(status) {
        SubscriptionReply::RetryWithFreshToken
    } else {
        SubscriptionReply::ReadBody { failed: !is_success(status) }
    }
}

/// The line that reports the first subscription of an answer.
pub fn subscription_report(answer: &ResponseBody) -> (line: String)
    requires
        answer.data@.len() > 0,
    ensures
        line@ == "Subscribed to "@ + answer.data@[0].subscription_type@ + " with a status of "@
            + answer.data@[0].status@,
{
    let first = &answer.data[0];
    let mut line = owned("Subscribed to ");
    line.append(first.subscription_type.as_str());
    line.append(" with a status of ");
    line.append(first.status.as_str());
    line
}

} // verus!
