//! Tests for the session state machine: authentication transitions,
//! observer notifications, command planning and the viewer-count
//! scheduler.

use tilepad_twitch::action::{
    Action, AdBreakProperties, CommercialLength, MarkerProperties, SendMessageProperties,
};
use tilepad_twitch::messages::InspectorMessageOut;
use tilepad_twitch::platform::{ChatSettings, PlatformCall};
use tilepad_twitch::state::{
    AccessState, ActionPlan, AuthStateTag, ChatToggleField, State, UserToken,
};

/// In these tests the observer endpoint handle is a plain number: the
/// core only stores it and checks whether one is attached.
type TestState = State<u32>;

fn token(name: &str, user: &str) -> UserToken {
    UserToken { access_token: name.to_owned(), user_id: user.to_owned() }
}

fn note_tag(note: &Option<InspectorMessageOut>) -> Option<String> {
    match note {
        Some(InspectorMessageOut::State { state }) => Some(state.clone()),
        None => None,
    }
}

fn authenticated_state() -> TestState {
    let mut state: TestState = State::new();
    state.complete_auth(token("tok", "broadcaster"));
    state
}

#[test]
fn new_session_starts_loading() {
    let state: TestState = State::new();
    assert!(matches!(state.access_state, AccessState::Loading));
    assert!(state.get_user_token().is_none());
    assert_eq!(state.current_view_count(), 0);
}

#[test]
fn set_logged_out_from_any_state_notifies_once() {
    // From the startup state, with an observer attached: exactly one
    // notification, carrying the logged-out tag.
    let mut state: TestState = State::new();
    state.set_inspector(Some(7));
    let note = state.set_logged_out();
    assert!(matches!(state.access_state, AccessState::NotAuthenticate));
    assert_eq!(note_tag(&note).as_deref(), Some("NOT_AUTHENTICATED"));

    // From an authenticated state.
    let mut state = authenticated_state();
    state.set_inspector(Some(7));
    let note = state.set_logged_out();
    assert!(matches!(state.access_state, AccessState::NotAuthenticate));
    assert_eq!(note_tag(&note).as_deref(), Some("NOT_AUTHENTICATED"));
    assert!(state.get_user_token().is_none());

    // From the logged-out state itself.
    let note = state.set_logged_out();
    assert_eq!(note_tag(&note).as_deref(), Some("NOT_AUTHENTICATED"));

    // Without an observer there is nothing to notify.
    let mut state: TestState = State::new();
    let note = state.set_logged_out();
    assert!(note.is_none());
}

#[test]
fn attempt_auth_notifies_loading_then_authenticated() {
    let mut state: TestState = State::new();
    state.set_inspector(Some(1));
    let note = state.begin_auth();
    assert!(matches!(state.access_state, AccessState::Loading));
    assert_eq!(note_tag(&note).as_deref(), Some("LOADING"));
    let note = state.complete_auth(token("tok1", "user1"));
    assert_eq!(note_tag(&note).as_deref(), Some("AUTHENTICATED"));
    let t = state.get_user_token().expect("authenticated");
    assert_eq!(t.access_token, "tok1");
    assert_eq!(t.user_id, "user1");
}

#[test]
fn repeated_auth_keeps_latest_credential() {
    // Two successful attempts: the observer sees LOADING then
    // AUTHENTICATED each time, and the latest credential wins.
    let mut state: TestState = State::new();
    state.set_inspector(Some(1));
    let n1 = state.begin_auth();
    let n2 = state.complete_auth(token("tok1", "user1"));
    let n3 = state.begin_auth();
    let n4 = state.complete_auth(token("tok2", "user2"));
    assert_eq!(note_tag(&n1).as_deref(), Some("LOADING"));
    assert_eq!(note_tag(&n2).as_deref(), Some("AUTHENTICATED"));
    assert_eq!(note_tag(&n3).as_deref(), Some("LOADING"));
    assert_eq!(note_tag(&n4).as_deref(), Some("AUTHENTICATED"));
    let t = state.get_user_token().expect("authenticated");
    assert_eq!(t.access_token, "tok2");
    assert_eq!(t.user_id, "user2");
}

#[test]
fn failed_auth_reverts_to_logged_out() {
    // A validation failure must not leave the UI in a permanent
    // loading state: the attempt reverts to logged out and notifies
    // exactly once.
    let mut state: TestState = State::new();
    state.set_inspector(Some(1));
    let note = state.begin_auth();
    assert_eq!(note_tag(&note).as_deref(), Some("LOADING"));
    let note = state.fail_auth();
    assert!(matches!(state.access_state, AccessState::NotAuthenticate));
    assert_eq!(note_tag(&note).as_deref(), Some("NOT_AUTHENTICATED"));
    assert!(state.get_user_token().is_none());
    // A later attempt can still succeed.
    state.begin_auth();
    let note = state.complete_auth(token("tok", "user"));
    assert_eq!(note_tag(&note).as_deref(), Some("AUTHENTICATED"));
}

#[test]
fn observer_tag_round_trip() {
    // The three wire tags form a closed set and the round trip loses
    // nothing the UI displays.
    for tag in [AuthStateTag::NotAuthenticated, AuthStateTag::Loading, AuthStateTag::Authenticated]
    {
        let wire = tag.to_message();
        assert_eq!(AuthStateTag::parse(&wire), Some(tag));
    }
    assert_eq!(AuthStateTag::parse("LOADING"), Some(AuthStateTag::Loading));
    assert!(AuthStateTag::parse("loading").is_none());
    assert!(AuthStateTag::parse("").is_none());
    assert!(AuthStateTag::parse("AUTH").is_none());
}

#[test]
fn update_inspector_replays_current_state() {
    let mut state: TestState = State::new();
    // No observer: no notification to send.
    assert!(state.update_inspector().is_none());
    state.set_inspector(Some(3));
    assert_eq!(note_tag(&state.update_inspector()).as_deref(), Some("LOADING"));
    state.complete_auth(token("tok", "user"));
    assert_eq!(note_tag(&state.update_inspector()).as_deref(), Some("AUTHENTICATED"));
    // Replacing the observer wholesale, then clearing it.
    state.set_inspector(Some(4));
    assert_eq!(state.inspector(), &Some(4));
    state.set_inspector(None);
    assert!(state.update_inspector().is_none());
}

#[test]
fn planners_require_a_credential() {
    let state: TestState = State::new();
    assert!(state.send_chat_message("hi").is_err());
    assert!(state.send_chat_message_chunked("hi").is_err());
    assert!(state.clear_chat().is_err());
    assert!(state.create_clip().is_err());
    assert!(state.create_marker("m".to_owned()).is_err());
    assert!(state.get_chat_settings().is_err());
    assert!(state.start_commercial(CommercialLength::Length30).is_err());
    assert!(state.get_view_count().is_none());
    let settings =
        ChatSettings { emote_mode: false, follower_mode: false, slow_mode: false, subscriber_mode: false };
    assert!(state.toggle_sub_only(&settings).is_err());
}

#[test]
fn send_chat_message_plans_one_call() {
    let state = authenticated_state();
    match state.send_chat_message("hello chat").unwrap() {
        PlatformCall::SendChatMessage { broadcaster_id, sender_id, message } => {
            assert_eq!(broadcaster_id, "broadcaster");
            assert_eq!(sender_id, "broadcaster");
            assert_eq!(message, "hello chat");
        }
        other => panic!("unexpected call: {other:?}"),
    }
}

#[test]
fn chunked_send_plans_ordered_calls() {
    let state = authenticated_state();
    let message: String = "ab".repeat(600);
    let calls = state.send_chat_message_chunked(&message).unwrap();
    assert_eq!(calls.len(), 3);
    let mut rebuilt = String::new();
    for call in &calls {
        match call {
            PlatformCall::SendChatMessage { broadcaster_id, sender_id, message } => {
                assert_eq!(broadcaster_id, "broadcaster");
                assert_eq!(sender_id, "broadcaster");
                assert!(message.chars().count() <= 500);
                rebuilt.push_str(message);
            }
            other => panic!("unexpected call: {other:?}"),
        }
    }
    assert_eq!(rebuilt, message);
    // An empty message plans no send at all.
    let calls = state.send_chat_message_chunked("").unwrap();
    assert!(calls.is_empty());
}

#[test]
fn simple_planners_build_their_calls() {
    let state = authenticated_state();
    assert!(matches!(
        state.clear_chat().unwrap(),
        PlatformCall::DeleteChatMessages { broadcaster_id, moderator_id }
            if broadcaster_id == "broadcaster" && moderator_id == "broadcaster"
    ));
    assert!(matches!(
        state.create_clip().unwrap(),
        PlatformCall::CreateClip { broadcaster_id } if broadcaster_id == "broadcaster"
    ));
    assert!(matches!(
        state.create_marker("checkpoint".to_owned()).unwrap(),
        PlatformCall::CreateStreamMarker { user_id, description }
            if user_id == "broadcaster" && description == "checkpoint"
    ));
    assert!(matches!(
        state.get_chat_settings().unwrap(),
        PlatformCall::GetChatSettings { broadcaster_id } if broadcaster_id == "broadcaster"
    ));
    assert!(matches!(
        state.start_commercial(CommercialLength::Length90).unwrap(),
        PlatformCall::StartCommercial { broadcaster_id, length }
            if broadcaster_id == "broadcaster" && length == CommercialLength::Length90
    ));
    assert!(matches!(
        state.get_view_count().unwrap(),
        PlatformCall::GetStreams { user_id } if user_id == "broadcaster"
    ));
}

#[test]
fn sub_only_toggle_patches_one_field() {
    // Subscriber-only mode currently off: the patch turns exactly that
    // field on and leaves every other setting unspecified.
    let state = authenticated_state();
    let settings =
        ChatSettings { emote_mode: true, follower_mode: true, slow_mode: true, subscriber_mode: false };
    match state.toggle_sub_only(&settings).unwrap() {
        PlatformCall::UpdateChatSettings { broadcaster_id, moderator_id, patch } => {
            assert_eq!(broadcaster_id, "broadcaster");
            assert_eq!(moderator_id, "broadcaster");
            assert_eq!(patch.subscriber_mode, Some(true));
            assert_eq!(patch.emote_mode, None);
            assert_eq!(patch.follower_mode, None);
            assert_eq!(patch.slow_mode, None);
        }
        other => panic!("unexpected call: {other:?}"),
    }
}

#[test]
fn every_toggle_negates_its_own_field() {
    let state = authenticated_state();
    let settings =
        ChatSettings { emote_mode: true, follower_mode: false, slow_mode: true, subscriber_mode: false };
    match state.toggle_emote_only(&settings).unwrap() {
        PlatformCall::UpdateChatSettings { patch, .. } => {
            assert_eq!(patch.emote_mode, Some(false));
            assert_eq!(patch.follower_mode, None);
            assert_eq!(patch.slow_mode, None);
            assert_eq!(patch.subscriber_mode, None);
        }
        other => panic!("unexpected call: {other:?}"),
    }
    match state.toggle_follower_only(&settings).unwrap() {
        PlatformCall::UpdateChatSettings { patch, .. } => {
            assert_eq!(patch.follower_mode, Some(true));
            assert_eq!(patch.emote_mode, None);
        }
        other => panic!("unexpected call: {other:?}"),
    }
    match state.toggle_slow_mode(&settings).unwrap() {
        PlatformCall::UpdateChatSettings { patch, .. } => {
            assert_eq!(patch.slow_mode, Some(false));
            assert_eq!(patch.subscriber_mode, None);
        }
        other => panic!("unexpected call: {other:?}"),
    }
}

#[test]
fn plan_action_dispatches() {
    let state = authenticated_state();

    // A send with no message is swallowed, not rejected.
    let action = Action::SendMessage(SendMessageProperties { message: None });
    assert!(matches!(state.plan_action(&action).unwrap(), ActionPlan::Noop));

    // Placeholder actions do nothing.
    assert!(matches!(state.plan_action(&Action::OpenClip).unwrap(), ActionPlan::Noop));
    assert!(matches!(state.plan_action(&Action::ViewerCount).unwrap(), ActionPlan::Noop));

    // A chat toggle becomes a read-modify-write plan.
    assert!(matches!(
        state.plan_action(&Action::SubOnly).unwrap(),
        ActionPlan::ChatToggle(ChatToggleField::SubOnly)
    ));
    assert!(matches!(
        state.plan_action(&Action::SlowMode).unwrap(),
        ActionPlan::ChatToggle(ChatToggleField::SlowMode)
    ));

    // A message splits into its ordered chunks.
    let action = Action::SendMessage(SendMessageProperties { message: Some("hi".to_owned()) });
    match state.plan_action(&action).unwrap() {
        ActionPlan::Calls(calls) => {
            assert_eq!(calls.len(), 1);
            assert!(matches!(
                &calls[0],
                PlatformCall::SendChatMessage { message, .. } if message == "hi"
            ));
        }
        other => panic!("unexpected plan: {other:?}"),
    }

    // Clearing chat is a single call.
    match state.plan_action(&Action::ClearChat).unwrap() {
        ActionPlan::Calls(calls) => {
            assert_eq!(calls.len(), 1);
            assert!(matches!(&calls[0], PlatformCall::DeleteChatMessages { .. }));
        }
        other => panic!("unexpected plan: {other:?}"),
    }

    // A marker defaults its description to the empty string.
    let action = Action::Marker(MarkerProperties { description: None });
    match state.plan_action(&action).unwrap() {
        ActionPlan::Calls(calls) => {
            assert!(matches!(
                &calls[0],
                PlatformCall::CreateStreamMarker { description, .. } if description.is_empty()
            ));
        }
        other => panic!("unexpected plan: {other:?}"),
    }
}

#[test]
fn ad_break_defaults_to_shortest_duration() {
    // Decoded from payload `{}`, the ad break starts one commercial of
    // the shortest allowed duration.
    let state = authenticated_state();
    let action = Action::AdBreak(AdBreakProperties { length: None });
    match state.plan_action(&action).unwrap() {
        ActionPlan::Calls(calls) => {
            assert_eq!(calls.len(), 1);
            assert!(matches!(
                &calls[0],
                PlatformCall::StartCommercial { broadcaster_id, length }
                    if broadcaster_id == "broadcaster" && *length == CommercialLength::Length30
            ));
        }
        other => panic!("unexpected plan: {other:?}"),
    }
    // An explicit length is kept.
    let action = Action::AdBreak(AdBreakProperties { length: Some(CommercialLength::Length180) });
    match state.plan_action(&action).unwrap() {
        ActionPlan::Calls(calls) => {
            assert!(matches!(
                &calls[0],
                PlatformCall::StartCommercial { length, .. } if *length == CommercialLength::Length180
            ));
        }
        other => panic!("unexpected plan: {other:?}"),
    }
}

#[test]
fn plan_action_without_credential() {
    let state: TestState = State::new();
    // Calls that need the platform fail closed.
    let action = Action::SendMessage(SendMessageProperties { message: Some("hi".to_owned()) });
    assert!(state.plan_action(&action).is_err());
    assert!(state.plan_action(&Action::ClearChat).is_err());
    // No-ops and toggles succeed: a toggle re-derives the credential at
    // call time.
    assert!(matches!(state.plan_action(&Action::OpenClip).unwrap(), ActionPlan::Noop));
    assert!(matches!(
        state.plan_action(&Action::EmoteOnly).unwrap(),
        ActionPlan::ChatToggle(ChatToggleField::EmoteOnly)
    ));
    let settings =
        ChatSettings { emote_mode: false, follower_mode: false, slow_mode: false, subscriber_mode: false };
    assert!(state.plan_chat_toggle(ChatToggleField::EmoteOnly, &settings).is_err());
}

#[test]
fn display_registry_keeps_one_entry_per_identity() {
    let mut state: TestState = State::new();
    state.push_active_display("display-a", 1000);
    state.push_active_display("display-b", 1500);
    state.push_active_display("display-a", 2000);
    assert_eq!(state.get_active_displays(2500), 2);
    // Refreshing never duplicates: purge keeps both entries live.
    assert_eq!(state.get_active_displays(2500), 2);
}

#[test]
fn stale_displays_are_purged() {
    let mut state: TestState = State::new();
    state.push_active_display("display-a", 0);
    // Strictly before the keep-alive bound: still live.
    assert_eq!(state.get_active_displays(4999), 1);
    // At the bound: purged.
    assert_eq!(state.get_active_displays(5000), 0);
    // Purged entries stay gone.
    assert_eq!(state.get_active_displays(5001), 0);
}

#[test]
fn idle_scheduler_never_polls() {
    // With zero live display subscriptions, consecutive ticks make no
    // platform call, authenticated or not.
    let mut state = authenticated_state();
    for tick in 0..10u64 {
        assert!(state.view_count_tick(tick * 5000).is_none());
    }
}

#[test]
fn refreshed_subscription_keeps_polling() {
    // One display refreshes every 3 seconds: the subscription never
    // expires, so every tick polls.
    let mut state = authenticated_state();
    let mut now: u64 = 0;
    state.push_active_display("display-a", now);
    for _ in 0..5 {
        now += 3000;
        state.push_active_display("display-a", now);
        let poll = state.view_count_tick(now);
        assert!(matches!(
            poll,
            Some(PlatformCall::GetStreams { ref user_id }) if user_id == "broadcaster"
        ));
    }
}

#[test]
fn abandoned_subscription_expires() {
    // Refreshed once, then idle for 6 seconds: the entry expires and
    // polling stops on the following tick.
    let mut state = authenticated_state();
    state.push_active_display("display-a", 1000);
    assert!(state.view_count_tick(2000).is_some());
    assert!(state.view_count_tick(7000).is_none());
    // And it stays stopped until a display subscribes again.
    assert!(state.view_count_tick(12000).is_none());
    state.push_active_display("display-a", 12000);
    assert!(state.view_count_tick(12500).is_some());
}

#[test]
fn unauthenticated_scheduler_skips_the_call() {
    // Subscriptions are tracked, but no call is planned without a
    // credential.
    let mut state: TestState = State::new();
    state.push_active_display("display-a", 0);
    assert!(state.view_count_tick(1000).is_none());
    // The subscription survived: authenticating resumes polling.
    state.complete_auth(token("tok", "broadcaster"));
    assert!(state.view_count_tick(2000).is_some());
}

#[test]
fn view_count_cache_updates_only_on_success() {
    let mut state: TestState = State::new();
    assert_eq!(state.current_view_count(), 0);
    state.record_view_count(Some(42));
    assert_eq!(state.current_view_count(), 42);
    // A failed or skipped poll leaves the previous value untouched.
    state.record_view_count(None);
    assert_eq!(state.current_view_count(), 42);
    state.record_view_count(Some(7));
    assert_eq!(state.current_view_count(), 7);
}
