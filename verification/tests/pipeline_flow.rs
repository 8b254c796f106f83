use zeroclaw::draft::{draft_clear_sentinel_str, DraftSession, DraftTerminal};
use zeroclaw::history::{
    append_turn, compact_history, conversation_history_key, interruption_scope_key,
    rollback_orphan_user_turn, ConversationTurn, Role,
};
use zeroclaw::pipeline::{
    apply_sending_hook, channel_message_timeout_budget_secs, choose_delivered_response,
    classify_provider_error, compose_history_response, effective_channel_message_timeout_secs,
    enrich_first_turn, provider_failure_notice, reaction_done_emoji, sanitize_channel_response,
    scrub_credentials, settle_llm_result, settle_provider_resolution, should_autosave,
    ProviderErrorKind, ProviderOutcome, ProviderResolution, ResolutionStep, SendingHookDecision,
    SendingHookOutcome, SettledDelivery,
};
use zeroclaw::text::truncate_with_ellipsis;

fn history_of(turns: &[(Role, &str)]) -> Vec<ConversationTurn> {
    turns
        .iter()
        .map(|(role, content)| ConversationTurn {
            role: *role,
            content: content.to_string(),
        })
        .collect()
}

#[test]
fn timeout_budget_scales_with_tool_iterations() {
    assert_eq!(effective_channel_message_timeout_secs(0), 120);
    assert_eq!(effective_channel_message_timeout_secs(45), 45);
    assert_eq!(channel_message_timeout_budget_secs(30, 0), 30);
    assert_eq!(channel_message_timeout_budget_secs(30, 1), 30);
    assert_eq!(channel_message_timeout_budget_secs(30, 4), 120);
    assert_eq!(channel_message_timeout_budget_secs(u64::MAX, 2), u64::MAX);
}

#[test]
fn conversation_keys_isolate_threads_and_scopes() {
    assert_eq!(conversation_history_key("telegram", "u1", None), "telegram:u1");
    assert_eq!(
        conversation_history_key("telegram", "u1", Some("t9")),
        "telegram:u1:t9"
    );
    assert_eq!(interruption_scope_key("telegram", "u1"), "telegram:u1");
}

#[test]
fn autosave_applies_only_to_long_messages() {
    assert!(!should_autosave(true, "short"));
    assert!(should_autosave(true, "a message long enough to keep"));
    assert!(!should_autosave(false, "a message long enough to keep"));
}

#[test]
fn memory_context_enriches_only_the_first_turn() {
    let mut turns = history_of(&[(Role::User, "hello there")]);
    enrich_first_turn(&mut turns, "[context] ", false);
    assert_eq!(turns[0].content, "[context] hello there");

    let mut follow_up = history_of(&[(Role::User, "hello there")]);
    enrich_first_turn(&mut follow_up, "[context] ", true);
    assert_eq!(follow_up[0].content, "hello there");
}

#[test]
fn truncation_marks_the_cut_with_an_ellipsis() {
    assert_eq!(truncate_with_ellipsis("short", 10), "short");
    assert_eq!(truncate_with_ellipsis("hello world", 5), "hello\u{2026}");
}

#[test]
fn sending_hook_rewrites_content_but_never_routing() {
    let outcome = apply_sending_hook(
        "telegram",
        "u1",
        SendingHookDecision::Continue {
            channel: "irc".to_string(),
            recipient: "attacker".to_string(),
            content: "rewritten".to_string(),
        },
    );
    match outcome {
        SendingHookOutcome::Deliver {
            content,
            routing_rewrite_ignored,
        } => {
            assert_eq!(content, "rewritten");
            assert!(routing_rewrite_ignored);
        }
        SendingHookOutcome::Suppressed => panic!("continue must deliver"),
    }

    match apply_sending_hook("telegram", "u1", SendingHookDecision::Cancel) {
        SendingHookOutcome::Suppressed => {}
        _ => panic!("a veto must suppress"),
    }
}

#[test]
fn sanitization_substitutes_a_safe_reply_for_garbled_output() {
    assert_eq!(sanitize_channel_response("plain answer"), "plain answer");
    assert_eq!(
        sanitize_channel_response("useful text <tool_call>{\"x\":1}</tool_call>"),
        "useful text"
    );
    let sanitized = sanitize_channel_response("<tool_call>{\"x\":1}</tool_call>");
    assert_eq!(sanitized, "");
    let delivered = choose_delivered_response(sanitized, "<tool_call>{\"x\":1}</tool_call>");
    assert!(delivered.contains("could not produce a safe reply"));
}

#[test]
fn tool_summary_is_prefixed_except_on_telegram() {
    assert_eq!(compose_history_response("", "reply", "slack"), "reply");
    assert_eq!(
        compose_history_response("[used shell]", "reply", "slack"),
        "[used shell]\nreply"
    );
    assert_eq!(
        compose_history_response("[used shell]", "reply", "telegram"),
        "reply"
    );
}

#[test]
fn provider_failure_notice_names_the_provider() {
    let notice = provider_failure_notice("openrouter", "key rejected");
    assert!(notice.contains("openrouter"));
    assert!(notice.contains("key rejected"));
}

#[test]
fn context_overflow_leaves_history_closed() {
    let mut history = history_of(&[
        (Role::System, "sys"),
        (Role::User, "q1"),
        (Role::Assistant, "a1"),
        (Role::User, "q2"),
    ]);
    let settlement = settle_llm_result(
        &mut history,
        ProviderOutcome::Failed {
            kind: ProviderErrorKind::ContextOverflow,
            message: "context length exceeded".to_string(),
        },
        false,
        "",
        "slack",
        "q2",
        false,
    );
    assert!(!settlement.success);
    assert!(!history.is_empty());
    assert!(history.last().unwrap().role == Role::Assistant);
    match settlement.delivery {
        SettledDelivery::Deliver { text } => assert!(text.contains("Context window exceeded")),
        _ => panic!("overflow must notify the sender"),
    }
}

#[test]
fn compaction_always_closes_the_history() {
    let mut empty: Vec<ConversationTurn> = Vec::new();
    compact_history(&mut empty);
    assert!(!empty.is_empty());
    assert!(empty.last().unwrap().role == Role::Assistant);

    let mut trailing_users = history_of(&[(Role::User, "a"), (Role::User, "b")]);
    compact_history(&mut trailing_users);
    assert!(trailing_users.last().unwrap().role == Role::Assistant);
}

#[test]
fn capability_failure_rolls_back_exactly_the_matching_user_turn() {
    let mut history = history_of(&[
        (Role::User, "earlier"),
        (Role::Assistant, "sure"),
        (Role::User, "look at this image"),
    ]);
    let settlement = settle_llm_result(
        &mut history,
        ProviderOutcome::Failed {
            kind: ProviderErrorKind::CapabilityUnsupported {
                capability: "Vision".to_string(),
            },
            message: "vision unsupported".to_string(),
        },
        false,
        "",
        "slack",
        "look at this image",
        false,
    );
    assert!(!settlement.success);
    assert_eq!(history.len(), 2);
    assert_eq!(history[0].content, "earlier");
    assert_eq!(history[1].content, "sure");
}

#[test]
fn rollback_removes_only_the_most_recent_match() {
    let mut history = history_of(&[
        (Role::User, "same"),
        (Role::Assistant, "r1"),
        (Role::User, "same"),
    ]);
    assert!(rollback_orphan_user_turn(&mut history, "same"));
    assert_eq!(history.len(), 2);
    assert_eq!(history[0].role, Role::User);
    assert_eq!(history[1].role, Role::Assistant);

    let mut unmatched = history_of(&[(Role::Assistant, "r1")]);
    assert!(!rollback_orphan_user_turn(&mut unmatched, "same"));
    assert_eq!(unmatched.len(), 1);
}

#[test]
fn generic_error_closes_the_history_with_a_sentinel() {
    let mut history = history_of(&[(Role::User, "q")]);
    let settlement = settle_llm_result(
        &mut history,
        ProviderOutcome::Failed {
            kind: ProviderErrorKind::Other,
            message: "upstream 500".to_string(),
        },
        false,
        "",
        "slack",
        "q",
        false,
    );
    assert!(!settlement.success);
    assert_eq!(history.len(), 2);
    assert!(history[1].content.contains("Task failed"));
    match settlement.delivery {
        SettledDelivery::Deliver { text } => assert!(text.contains("upstream 500")),
        _ => panic!("errors must be surfaced"),
    }
}

#[test]
fn timeout_closes_the_history_with_its_own_sentinel() {
    let mut history = history_of(&[(Role::User, "q")]);
    let settlement = settle_llm_result(
        &mut history,
        ProviderOutcome::TimedOut,
        false,
        "",
        "slack",
        "q",
        true,
    );
    assert!(!settlement.success);
    assert!(history[1].content.contains("timed out"));
    match settlement.delivery {
        SettledDelivery::Deliver { text } => assert!(text.contains("timed out")),
        _ => panic!("timeouts must be surfaced"),
    }
}

#[test]
fn draft_lifecycle_accumulates_resets_and_ends_once() {
    let mut session = DraftSession::begin();
    session.open_draft();
    session.apply_delta("Hel");
    session.apply_delta("lo");
    assert_eq!(session.accumulated, "Hello");
    session.apply_delta(draft_clear_sentinel_str());
    assert_eq!(session.accumulated, "");
    session.apply_delta("World");
    assert_eq!(session.accumulated, "World");
    session.finalize();
    assert_eq!(session.terminal, Some(DraftTerminal::Finalized));

    let mut cancelled = DraftSession::begin();
    cancelled.open_draft();
    cancelled.cancel();
    assert_eq!(cancelled.terminal, Some(DraftTerminal::Cancelled));

    let mut plain = DraftSession::begin();
    plain.send_fresh();
    assert_eq!(plain.terminal, Some(DraftTerminal::SentFresh));
}

#[test]
fn scenario_single_message_without_draft_support() {
    // Inbound {sender:"u1", content:"hi"} on a channel without draft
    // support: exactly one plain send with the provider's reply, and the
    // acknowledgement reaction swapped to the success reaction.
    let mut history: Vec<ConversationTurn> = Vec::new();
    append_turn(
        &mut history,
        ConversationTurn {
            role: Role::User,
            content: "hi".to_string(),
        },
    );

    let mut session = DraftSession::begin();
    let settlement = settle_llm_result(
        &mut history,
        ProviderOutcome::Completed {
            response: "Hello u1!".to_string(),
        },
        false,
        "",
        "plugin:chat",
        "hi",
        false,
    );
    assert!(settlement.success);
    match settlement.delivery {
        SettledDelivery::Deliver { ref text } => assert_eq!(text, "Hello u1!"),
        _ => panic!("a successful reply must be delivered"),
    }
    session.send_fresh();
    assert_eq!(session.terminal, Some(DraftTerminal::SentFresh));
    assert!(!session.opened);

    assert_eq!(history.len(), 2);
    assert_eq!(history[1].role, Role::Assistant);
    assert_eq!(history[1].content, "Hello u1!");
    assert_eq!(reaction_done_emoji(true), "\u{2705}");
    assert_eq!(reaction_done_emoji(false), "\u{26A0}\u{FE0F}");
}

#[test]
fn scenario_superseded_message_yields_one_completed_exchange() {
    // Two messages from one sender on an interruption-enabled channel:
    // the first call hangs and is cancelled; it must not touch the
    // history. The second proceeds and delivers; the history ends with
    // exactly one completed exchange.
    let mut pool = zeroclaw::dispatch::DispatchPool::new(4);
    let first = pool.submit("telegram:u1".to_string(), true);
    let second = pool.submit("telegram:u1".to_string(), true);
    assert!(pool.try_start(first));

    let mut history: Vec<ConversationTurn> = Vec::new();
    append_turn(
        &mut history,
        ConversationTurn {
            role: Role::User,
            content: "first".to_string(),
        },
    );

    pool.cancel_predecessors(second);
    assert!(pool.is_cancel_requested(first));
    assert!(!pool.try_start(second));

    let len_before = history.len();
    let aborted = settle_llm_result(
        &mut history,
        ProviderOutcome::Cancelled,
        true,
        "",
        "telegram",
        "first",
        true,
    );
    assert!(!aborted.success);
    assert_eq!(history.len(), len_before);
    assert!(matches!(aborted.delivery, SettledDelivery::CancelOpenDraft));

    pool.finish(first);
    pool.signal_completion(first);
    assert!(pool.try_start(second));

    append_turn(
        &mut history,
        ConversationTurn {
            role: Role::User,
            content: "second".to_string(),
        },
    );
    let done = settle_llm_result(
        &mut history,
        ProviderOutcome::Completed {
            response: "answered the second".to_string(),
        },
        false,
        "",
        "telegram",
        "second",
        false,
    );
    assert!(done.success);

    let assistant_turns = history.iter().filter(|t| t.role == Role::Assistant).count();
    assert_eq!(assistant_turns, 1);
    assert_eq!(history.last().unwrap().content, "answered the second");
}

#[test]
fn provider_resolution_success_proceeds() {
    let step = settle_provider_resolution("openrouter", ProviderResolution::Resolved);
    assert!(matches!(step, ResolutionStep::Proceed));
}

#[test]
fn provider_resolution_failure_stops_with_the_notice() {
    let step = settle_provider_resolution(
        "openrouter",
        ProviderResolution::ConstructionFailed {
            safe_error: "missing API key".to_string(),
        },
    );
    match step {
        ResolutionStep::Stop { notice } => assert_eq!(
            notice,
            "⚠️ Failed to initialize provider `openrouter`. Please run `/models` to choose \
             another provider.\nDetails: missing API key"
        ),
        ResolutionStep::Proceed => panic!("a construction failure must stop the message"),
    }
}

#[test]
fn scrubbing_withholds_texts_that_carry_credential_markers() {
    assert_eq!(
        scrub_credentials("401 Unauthorized: Bearer sk-abc123 rejected"),
        "[provider error detail withheld: it may carry credentials]"
    );
    assert_eq!(
        scrub_credentials("request failed: api_key invalid"),
        "[provider error detail withheld: it may carry credentials]"
    );
    assert_eq!(
        scrub_credentials("connection reset by peer"),
        "connection reset by peer"
    );
}

#[test]
fn provider_errors_classify_by_their_text() {
    assert!(matches!(
        classify_provider_error("request was Cancelled by the caller"),
        ProviderErrorKind::Cancelled
    ));
    assert!(matches!(
        classify_provider_error("model canceled the stream"),
        ProviderErrorKind::Cancelled
    ));
    assert!(matches!(
        classify_provider_error("maximum context length exceeded"),
        ProviderErrorKind::ContextOverflow
    ));
    assert!(matches!(
        classify_provider_error("Context Window is full"),
        ProviderErrorKind::ContextOverflow
    ));
    match classify_provider_error("vision input is unsupported on this model") {
        ProviderErrorKind::CapabilityUnsupported { capability } => {
            assert_eq!(capability, "vision");
        }
        other => panic!("expected the vision capability case, got {other:?}"),
    }
    assert!(matches!(
        classify_provider_error("internal server error"),
        ProviderErrorKind::Other
    ));
}
