use codex_logic::protocol::ContentItem;
use codex_logic::protocol::EventMsg;
use codex_logic::protocol::ResponseItem;
use codex_logic::protocol::RolloutItem;
use codex_logic::protocol::TurnItemKind;
use codex_logic::truncation::truncate_rollout_before_last_user_message;
use codex_logic::truncation::truncate_rollout_before_last_user_turn_segment;
use codex_logic::truncation::truncate_rollout_before_nth_user_message_from_start;
use codex_logic::truncation::turn_ids_are_compatible;
use codex_logic::truncation::user_message_positions_in_rollout;

fn user_msg(text: &str) -> ResponseItem {
    ResponseItem::Message {
        role: "user".to_string(),
        content: vec![ContentItem::OutputText {
            text: text.to_string(),
        }],
        turn_item: Some(TurnItemKind::UserMessage),
    }
}

fn assistant_msg(text: &str) -> ResponseItem {
    ResponseItem::Message {
        role: "assistant".to_string(),
        content: vec![ContentItem::OutputText {
            text: text.to_string(),
        }],
        turn_item: Some(TurnItemKind::AgentMessage),
    }
}

/// A session-prefix message: it has the role `user`, but the turn parser does not
/// read it as a user message.
fn session_prefix_msg(text: &str) -> ResponseItem {
    ResponseItem::Message {
        role: "user".to_string(),
        content: vec![ContentItem::InputText {
            text: text.to_string(),
        }],
        turn_item: None,
    }
}

fn developer_msg(text: &str) -> ResponseItem {
    ResponseItem::Message {
        role: "developer".to_string(),
        content: vec![ContentItem::InputText {
            text: text.to_string(),
        }],
        turn_item: None,
    }
}

fn function_call(call_id: &str, name: &str) -> ResponseItem {
    ResponseItem::FunctionCall {
        call_id: call_id.to_string(),
        name: name.to_string(),
        arguments: "{}".to_string(),
    }
}

fn turn_started(turn_id: &str) -> RolloutItem {
    RolloutItem::EventMsg(EventMsg::TurnStarted {
        turn_id: turn_id.to_string(),
    })
}

fn user_event(message: &str) -> RolloutItem {
    RolloutItem::EventMsg(EventMsg::UserMessage {
        message: message.to_string(),
    })
}

fn turn_complete(turn_id: &str) -> RolloutItem {
    RolloutItem::EventMsg(EventMsg::TurnComplete {
        turn_id: turn_id.to_string(),
        last_agent_message: None,
    })
}

fn rolled_back(num_turns: u32) -> RolloutItem {
    RolloutItem::EventMsg(EventMsg::ThreadRolledBack { num_turns })
}

#[test]
fn truncates_rollout_from_start_before_nth_user_only() {
    let items = [
        user_msg("u1"),
        assistant_msg("a1"),
        assistant_msg("a2"),
        user_msg("u2"),
        assistant_msg("a3"),
        ResponseItem::Reasoning {
            id: "r1".to_string(),
            summary: vec!["s".to_string()],
        },
        function_call("c1", "tool"),
        assistant_msg("a4"),
    ];

    let rollout: Vec<RolloutItem> = items
        .iter()
        .cloned()
        .map(RolloutItem::ResponseItem)
        .collect();

    let truncated = truncate_rollout_before_nth_user_message_from_start(&rollout, 1);
    let expected = vec![
        RolloutItem::ResponseItem(items[0].clone()),
        RolloutItem::ResponseItem(items[1].clone()),
        RolloutItem::ResponseItem(items[2].clone()),
    ];
    assert_eq!(truncated, expected);

    let truncated2 = truncate_rollout_before_nth_user_message_from_start(&rollout, 2);
    assert!(matches!(truncated2.as_slice(), []));
}

#[test]
fn truncation_max_keeps_full_rollout() {
    let rollout = vec![
        RolloutItem::ResponseItem(user_msg("u1")),
        RolloutItem::ResponseItem(assistant_msg("a1")),
        RolloutItem::ResponseItem(user_msg("u2")),
    ];

    let truncated = truncate_rollout_before_nth_user_message_from_start(&rollout, usize::MAX);

    assert_eq!(truncated, rollout);
}

#[test]
fn truncates_rollout_before_last_user_message_only() {
    let rollout = vec![
        RolloutItem::ResponseItem(user_msg("u1")),
        RolloutItem::ResponseItem(assistant_msg("a1")),
        RolloutItem::ResponseItem(user_msg("u2")),
        RolloutItem::ResponseItem(assistant_msg("a2")),
        RolloutItem::ResponseItem(function_call("c1", "spawn_agent")),
    ];

    let truncated = truncate_rollout_before_last_user_message(&rollout);
    let expected = vec![
        RolloutItem::ResponseItem(user_msg("u1")),
        RolloutItem::ResponseItem(assistant_msg("a1")),
    ];

    assert_eq!(truncated, expected);
}

#[test]
fn truncate_before_last_user_keeps_full_rollout_without_user_messages() {
    let rollout = vec![
        RolloutItem::ResponseItem(assistant_msg("a1")),
        RolloutItem::ResponseItem(function_call("c1", "spawn_agent")),
    ];

    let truncated = truncate_rollout_before_last_user_message(&rollout);

    assert_eq!(truncated, rollout);
}

#[test]
fn truncates_rollout_before_last_user_turn_segment_start_when_turn_events_exist() {
    let rollout = vec![
        turn_started("turn-1"),
        user_event("u1"),
        RolloutItem::ResponseItem(assistant_msg("a1")),
        turn_complete("turn-1"),
        turn_started("turn-2"),
        user_event("u2"),
        RolloutItem::ResponseItem(assistant_msg("a2")),
        RolloutItem::ResponseItem(function_call("spawn-1", "spawn_agent")),
    ];

    let truncated = truncate_rollout_before_last_user_turn_segment(&rollout);
    let expected = rollout[..4].to_vec();

    assert_eq!(truncated, expected);
}

#[test]
fn truncates_rollout_before_last_user_turn_segment_applies_thread_rollback_markers() {
    let rollout = vec![
        turn_started("turn-1"),
        user_event("u1"),
        turn_complete("turn-1"),
        turn_started("turn-2"),
        user_event("u2"),
        turn_complete("turn-2"),
        rolled_back(1),
        turn_started("turn-3"),
        user_event("u3"),
        RolloutItem::ResponseItem(function_call("spawn-3", "spawn_agent")),
    ];

    let truncated = truncate_rollout_before_last_user_turn_segment(&rollout);
    let expected = rollout[..7].to_vec();

    assert_eq!(truncated, expected);
}

#[test]
fn truncates_rollout_from_start_applies_thread_rollback_markers() {
    let rollout_items = vec![
        RolloutItem::ResponseItem(user_msg("u1")),
        RolloutItem::ResponseItem(assistant_msg("a1")),
        RolloutItem::ResponseItem(user_msg("u2")),
        RolloutItem::ResponseItem(assistant_msg("a2")),
        rolled_back(1),
        RolloutItem::ResponseItem(user_msg("u3")),
        RolloutItem::ResponseItem(assistant_msg("a3")),
        RolloutItem::ResponseItem(user_msg("u4")),
        RolloutItem::ResponseItem(assistant_msg("a4")),
    ];

    // Effective user history after applying rollback(1) is: u1, u3, u4.
    // So n_from_start=2 should cut before u4 (not u3).
    let truncated = truncate_rollout_before_nth_user_message_from_start(&rollout_items, 2);
    let expected = rollout_items[..7].to_vec();
    assert_eq!(truncated, expected);
}

#[test]
fn user_message_positions_apply_rollbacks() {
    let rollout = vec![
        RolloutItem::ResponseItem(user_msg("u1")),
        RolloutItem::ResponseItem(user_msg("u2")),
        RolloutItem::ResponseItem(user_msg("u3")),
        rolled_back(2),
        RolloutItem::ResponseItem(assistant_msg("a")),
        RolloutItem::ResponseItem(user_msg("u4")),
        rolled_back(u32::MAX),
        RolloutItem::ResponseItem(user_msg("u5")),
    ];
    assert_eq!(user_message_positions_in_rollout(&rollout), vec![7]);
    assert_eq!(user_message_positions_in_rollout(&rollout[..6]), vec![0, 5]);
    assert_eq!(user_message_positions_in_rollout(&rollout[..3]), vec![0, 1, 2]);
    assert_eq!(user_message_positions_in_rollout(&[]), Vec::<usize>::new());
}

#[test]
fn nth_out_of_range_is_empty_and_zero_cuts_before_first_user() {
    let rollout = vec![
        RolloutItem::Compacted {
            message: "summary".to_string(),
        },
        RolloutItem::ResponseItem(user_msg("u1")),
        RolloutItem::ResponseItem(assistant_msg("a1")),
    ];
    assert_eq!(
        truncate_rollout_before_nth_user_message_from_start(&rollout, 0),
        rollout[..1].to_vec()
    );
    assert!(truncate_rollout_before_nth_user_message_from_start(&rollout, 1).is_empty());
    assert!(truncate_rollout_before_nth_user_message_from_start(&rollout, usize::MAX - 1).is_empty());
}

#[test]
fn last_user_message_cut_equals_cut_before_last_from_start() {
    let rollout = vec![
        RolloutItem::ResponseItem(user_msg("u1")),
        RolloutItem::ResponseItem(assistant_msg("a1")),
        RolloutItem::ResponseItem(user_msg("u2")),
        rolled_back(1),
        RolloutItem::ResponseItem(user_msg("u3")),
        RolloutItem::ResponseItem(assistant_msg("a3")),
    ];
    let count = user_message_positions_in_rollout(&rollout).len();
    assert_eq!(count, 2);
    assert_eq!(
        truncate_rollout_before_last_user_message(&rollout),
        truncate_rollout_before_nth_user_message_from_start(&rollout, count - 1)
    );
    assert_eq!(
        truncate_rollout_before_last_user_message(&rollout),
        rollout[..4].to_vec()
    );
}

#[test]
fn legacy_rollouts_fall_back_to_last_user_message() {
    let rollout = vec![
        RolloutItem::TurnContext {
            turn_id: Some("t".to_string()),
        },
        RolloutItem::ResponseItem(user_msg("u1")),
        RolloutItem::ResponseItem(assistant_msg("a1")),
        RolloutItem::ResponseItem(user_msg("u2")),
        RolloutItem::ResponseItem(assistant_msg("a2")),
    ];
    assert_eq!(
        truncate_rollout_before_last_user_turn_segment(&rollout),
        truncate_rollout_before_last_user_message(&rollout)
    );
    assert_eq!(
        truncate_rollout_before_last_user_turn_segment(&rollout),
        rollout[..3].to_vec()
    );
}

#[test]
fn segment_without_user_turn_keeps_full_rollout() {
    let rollout = vec![
        turn_started("turn-1"),
        RolloutItem::ResponseItem(assistant_msg("a1")),
        turn_complete("turn-1"),
    ];
    assert_eq!(truncate_rollout_before_last_user_turn_segment(&rollout), rollout);
}

#[test]
fn segment_completion_with_other_turn_id_does_not_close_segment() {
    // turn-2's completion does not match the open turn-1 segment, so turn-1 stays open
    // and the new TurnStarted closes it; the newest user turn is then turn-3.
    let rollout = vec![
        turn_started("turn-1"),
        user_event("u1"),
        turn_complete("turn-2"),
        RolloutItem::ResponseItem(assistant_msg("a1")),
        turn_started("turn-3"),
        user_event("u3"),
    ];
    assert_eq!(
        truncate_rollout_before_last_user_turn_segment(&rollout),
        rollout[..4].to_vec()
    );
}

#[test]
fn segment_aborted_without_turn_id_closes_segment_and_context_sets_turn_id() {
    let rollout = vec![
        RolloutItem::TurnContext {
            turn_id: Some("ctx".to_string()),
        },
        RolloutItem::ResponseItem(user_msg("u0")),
        user_event("u1"),
        RolloutItem::EventMsg(EventMsg::TurnAborted { turn_id: None }),
        RolloutItem::ResponseItem(assistant_msg("a1")),
        RolloutItem::TurnContext { turn_id: None },
        RolloutItem::ResponseItem(user_msg("u2")),
        RolloutItem::EventMsg(EventMsg::TurnAborted {
            turn_id: Some("other".to_string()),
        }),
    ];
    // The first segment (from index 0) is a user turn and is closed by the abort.
    // The second segment starts at index 5; it becomes a user turn through the user
    // message (turn events were seen) and, having no turn id, is closed by the abort.
    assert_eq!(
        truncate_rollout_before_last_user_turn_segment(&rollout),
        rollout[..5].to_vec()
    );
}

#[test]
fn turn_ids_compatibility() {
    assert!(turn_ids_are_compatible(None, Some("a")));
    assert!(turn_ids_are_compatible(Some("a"), None));
    assert!(turn_ids_are_compatible(Some("a"), Some("a")));
    assert!(!turn_ids_are_compatible(Some("a"), Some("b")));
    assert!(turn_ids_are_compatible(None, None));
}

#[test]
fn ignores_session_prefix_messages_when_truncating_rollout_from_start() {
    let mut items = vec![
        developer_msg("<permissions instructions>"),
        session_prefix_msg("<environment_context>cwd</environment_context>"),
    ];
    items.push(user_msg("feature request"));
    items.push(assistant_msg("ack"));
    items.push(user_msg("second question"));
    items.push(assistant_msg("answer"));

    let rollout_items: Vec<RolloutItem> = items
        .iter()
        .cloned()
        .map(RolloutItem::ResponseItem)
        .collect();

    let truncated = truncate_rollout_before_nth_user_message_from_start(&rollout_items, 1);
    let expected: Vec<RolloutItem> = vec![
        RolloutItem::ResponseItem(items[0].clone()),
        RolloutItem::ResponseItem(items[1].clone()),
        RolloutItem::ResponseItem(items[2].clone()),
        RolloutItem::ResponseItem(items[3].clone()),
    ];

    assert_eq!(truncated, expected);
    assert_eq!(user_message_positions_in_rollout(&rollout_items), vec![2, 4]);
}

#[test]
fn session_prefix_messages_do_not_make_a_user_turn() {
    let rollout = vec![
        turn_started("turn-1"),
        RolloutItem::ResponseItem(session_prefix_msg("<environment_context/>")),
        RolloutItem::ResponseItem(assistant_msg("a1")),
        turn_complete("turn-1"),
    ];
    assert_eq!(truncate_rollout_before_last_user_turn_segment(&rollout), rollout);
    assert_eq!(truncate_rollout_before_last_user_message(&rollout), rollout);
}
