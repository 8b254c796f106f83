//! The per-message processing state machine: timeout budget, hook
//! application, response sanitisation, and the settlement of every
//! provider outcome — success, cancellation, context-window overflow,
//! capability rollback, generic error and timeout — including what each
//! does to the conversation history and what is delivered back through
//! the channel.

use vstd::prelude::*;

use crate::history::{
    append_turn, compact_history, drop_trailing_user, keep_last, last_matching_user_index,
    rollback_orphan_user_turn, ConversationTurn, Role, COMPACT_KEEP_RECENT_TURNS,
};
use crate::text::{
    contains_seq, first_occurrence, fold_case, lemma_first_occurrence_found,
    lemma_first_occurrence_none, str_find, str_trim, trim_chars, truncate_with_ellipsis,
    truncated_with_ellipsis,
};

verus! {

/// Characters a hook may leave in an outbound message before the content
/// is truncated.
pub const CHANNEL_HOOK_MAX_OUTBOUND_CHARS: usize = 4000;

/// Timeout applied when the configuration does not set one.
pub const DEFAULT_CHANNEL_MESSAGE_TIMEOUT_SECS: u64 = 120;

/// The effective per-message base timeout: the configured value, or the
/// default when none is configured.
pub fn effective_channel_message_timeout_secs(configured: u64) -> (r: u64)
    ensures
        r == if configured == 0 {
            DEFAULT_CHANNEL_MESSAGE_TIMEOUT_SECS as int
        } else {
            configured as int
        },
{
    if configured == 0 {
        DEFAULT_CHANNEL_MESSAGE_TIMEOUT_SECS
    } else {
        configured
    }
}

/// The timeout budget for one message: the base timeout scaled by the
/// permitted tool-call iterations (saturating), so a long tool chain is
/// not starved by a deadline sized for a single round trip.
pub fn channel_message_timeout_budget_secs(base_secs: u64, max_tool_iterations: u64) -> (r: u64)
    ensures
        r == if max_tool_iterations <= 1 {
            base_secs as int
        } else if base_secs * max_tool_iterations <= u64::MAX {
            base_secs * max_tool_iterations
        } else {
            u64::MAX as int
        },
{
    if max_tool_iterations <= 1 {
        base_secs
    } else {
        match base_secs.checked_mul(max_tool_iterations) {
            Some(v) => v,
            None => u64::MAX,
        }
    }
}

/// Whether an inbound message is long enough to auto-persist to memory.
pub fn should_autosave(auto_save_memory: bool, content: &str) -> (r: bool)
    ensures
        r == (auto_save_memory && content@.len() >= crate::AUTOSAVE_MIN_MESSAGE_CHARS),
{
    auto_save_memory && content.unicode_len() >= crate::AUTOSAVE_MIN_MESSAGE_CHARS
}

/// When a conversation has no prior history, prepend the long-term-memory
/// context to the latest user turn. Follow-up turns are left alone.
pub fn enrich_first_turn(
    turns: &mut Vec<ConversationTurn>,
    memory_context: &str,
    had_prior_history: bool,
)
    ensures
        ({
            let h = old(turns)@;
            if !had_prior_history && h.len() > 0 && h.last().role == Role::User
                && memory_context@.len() > 0 {
                final(turns)@ == h.update(
                    h.len() - 1,
                    (ConversationTurn { role: Role::User, content: final(turns)@.last().content }),
                ) && final(turns)@.last().content@ == memory_context@ + h.last().content@
            } else {
                final(turns)@ == h
            }
        }),
{
    if had_prior_history {
        return ;
    }
    if memory_context.unicode_len() == 0 {
        return ;
    }
    let n = turns.len();
    if n == 0 {
        return ;
    }
    let is_user = matches!(turns[n - 1].role, Role::User);
    if !is_user {
        return ;
    }
    let enriched = memory_context.to_owned().concat(turns[n - 1].content.as_str());
    let updated = ConversationTurn { role: Role::User, content: enriched };
    turns.set(n - 1, updated);
}

/// The user-facing notice sent when a provider handle cannot be built.
pub fn provider_failure_notice(provider: &str, safe_err: &str) -> (r: String)
    ensures
        r@ == "⚠️ Failed to initialize provider `"@ + provider@
            + "`. Please run `/models` to choose another provider.\nDetails: "@ + safe_err@,
{
    "⚠️ Failed to initialize provider `".to_owned().concat(provider).concat(
        "`. Please run `/models` to choose another provider.\nDetails: ",
    ).concat(safe_err)
}

/// How resolving or creating the routed provider's handle ended. The
/// handle itself lives outside the library; only the outcome is settled
/// here.
pub enum ProviderResolution {
    /// A handle is ready; the pipeline proceeds.
    Resolved,
    /// Construction failed with this (already scrubbed) detail.
    ConstructionFailed { safe_error: String },
}

/// What the pipeline does about a resolution outcome.
pub enum ResolutionStep {
    /// Carry on to history assembly and the provider call.
    Proceed,
    /// Deliver exactly this notice to the reply target and stop: the
    /// failure is terminal for this message only, nothing is retried,
    /// and — by construction, since no history is touched here — no
    /// turn is recorded for it.
    Stop { notice: String },
}

/// Settle the provider-resolution outcome: success proceeds; a
/// construction failure stops this message's processing with exactly
/// one user-facing notice naming the provider, and nothing else.
pub fn settle_provider_resolution(provider: &str, resolution: ProviderResolution) -> (r:
    ResolutionStep)
    ensures
        resolution is Resolved ==> r is Proceed,
        resolution matches ProviderResolution::ConstructionFailed { safe_error } ==> (r
            matches ResolutionStep::Stop { notice } && notice@
            == "⚠️ Failed to initialize provider `"@ + provider@
            + "`. Please run `/models` to choose another provider.\nDetails: "@ + safe_error@),
{
    match resolution {
        ProviderResolution::Resolved => ResolutionStep::Proceed,
        ProviderResolution::ConstructionFailed { safe_error } => ResolutionStep::Stop {
            notice: provider_failure_notice(provider, safe_error.as_str()),
        },
    }
}

/// Markers whose presence makes an error text unsafe to surface.
pub open spec fn has_credential_marker(s: Seq<char>) -> bool {
    ||| contains_seq(s, "Bearer "@)
    ||| contains_seq(s, "api_key"@)
    ||| contains_seq(s, "api-key"@)
    ||| contains_seq(s, "Authorization"@)
    ||| contains_seq(s, "sk-"@)
    ||| contains_seq(s, "token="@)
}

/// What scrubbing leaves of an error text: the text itself when it
/// carries no credential marker, a fixed replacement otherwise.
pub open spec fn spec_scrubbed(s: Seq<char>) -> Seq<char> {
    if has_credential_marker(s) {
        "[provider error detail withheld: it may carry credentials]"@
    } else {
        s
    }
}

/// Scrub an error text before it is recorded or surfaced: a text that
/// carries a credential marker is replaced whole.
pub fn scrub_credentials(message: &str) -> (r: String)
    ensures
        r@ == spec_scrubbed(message@),
{
    if crate::text::str_contains(message, "Bearer ") || crate::text::str_contains(
        message,
        "api_key",
    ) || crate::text::str_contains(message, "api-key") || crate::text::str_contains(
        message,
        "Authorization",
    ) || crate::text::str_contains(message, "sk-") || crate::text::str_contains(
        message,
        "token=",
    ) {
        "[provider error detail withheld: it may carry credentials]".to_owned()
    } else {
        message.to_owned()
    }
}

/// Classify a provider error text at the boundary: cancellation shapes
/// are cancellations, context-window shapes are overflows, a vision
/// rejection is the rolled-back capability case, anything else is a
/// generic failure. The classification reads the lowercased text.
pub fn classify_provider_error(message: &str) -> (kind: ProviderErrorKind)
    ensures
        ({
            let m = message@.map_values(|c: char| crate::text::lower_char(c));
            if contains_seq(m, "cancelled"@) || contains_seq(m, "canceled"@) {
                kind is Cancelled
            } else if contains_seq(m, "context length"@) || contains_seq(m, "context window"@) {
                kind is ContextOverflow
            } else if contains_seq(m, "vision"@) && contains_seq(m, "unsupported"@) {
                kind matches ProviderErrorKind::CapabilityUnsupported { capability }
                    && capability@ == "vision"@
            } else {
                kind is Other
            }
        }),
{
    let lowered = crate::text::to_ascii_lowercase_str(message);
    let m = lowered.as_str();
    if crate::text::str_contains(m, "cancelled") || crate::text::str_contains(m, "canceled") {
        ProviderErrorKind::Cancelled
    } else if crate::text::str_contains(m, "context length") || crate::text::str_contains(
        m,
        "context window",
    ) {
        ProviderErrorKind::ContextOverflow
    } else if crate::text::str_contains(m, "vision") && crate::text::str_contains(
        m,
        "unsupported",
    ) {
        ProviderErrorKind::CapabilityUnsupported { capability: "vision".to_owned() }
    } else {
        ProviderErrorKind::Other
    }
}

// ---------------------------------------------------------------------------
// Hooks
// ---------------------------------------------------------------------------

/// What an `on_message_received` hook decided.
pub enum ReceivedHookDecision {
    /// Drop the message silently.
    Cancel,
    /// Continue with a (possibly rewritten) message.
    Continue(crate::message::ChannelMessage),
}

/// Apply a received-message hook decision: a veto drops the message, a
/// continue substitutes the hook's version.
pub fn apply_received_hook(decision: ReceivedHookDecision) -> (r: Option<
    crate::message::ChannelMessage,
>)
    ensures
        match decision {
            ReceivedHookDecision::Cancel => r is None,
            ReceivedHookDecision::Continue(m) => r == Some(m),
        },
{
    match decision {
        ReceivedHookDecision::Cancel => None,
        ReceivedHookDecision::Continue(m) => Some(m),
    }
}

/// What an `on_message_sending` hook decided.
pub enum SendingHookDecision {
    /// Suppress delivery.
    Cancel,
    /// Continue with possibly rewritten channel, recipient and content.
    Continue { channel: String, recipient: String, content: String },
}

/// The pipeline's reading of a sending-hook decision.
pub enum SendingHookOutcome {
    Suppressed,
    Deliver { content: String, routing_rewrite_ignored: bool },
}

/// Apply an `on_message_sending` hook decision. A veto suppresses the
/// delivery. Otherwise only the content rewrite is honoured — a changed
/// channel or recipient is ignored, so a hook cannot redirect a message —
/// and over-long content is truncated with an ellipsis.
pub fn apply_sending_hook(
    original_channel: &str,
    original_recipient: &str,
    decision: SendingHookDecision,
) -> (r: SendingHookOutcome)
    ensures
        match decision {
            SendingHookDecision::Cancel => r is Suppressed,
            SendingHookDecision::Continue { channel, recipient, content } => match r {
                SendingHookOutcome::Suppressed => false,
                SendingHookOutcome::Deliver { content: delivered, routing_rewrite_ignored } => {
                    &&& delivered@ == truncated_with_ellipsis(
                        content@,
                        CHANNEL_HOOK_MAX_OUTBOUND_CHARS as nat,
                    )
                    &&& routing_rewrite_ignored == (channel@ != original_channel@ || recipient@
                        != original_recipient@)
                },
            },
        },
{
    match decision {
        SendingHookDecision::Cancel => SendingHookOutcome::Suppressed,
        SendingHookDecision::Continue { channel, recipient, content } => {
            let rewrite = !crate::text::str_eq(channel.as_str(), original_channel)
                || !crate::text::str_eq(recipient.as_str(), original_recipient);
            let capped = truncate_with_ellipsis(content.as_str(), CHANNEL_HOOK_MAX_OUTBOUND_CHARS);
            SendingHookOutcome::Deliver { content: capped, routing_rewrite_ignored: rewrite }
        },
    }
}

// ---------------------------------------------------------------------------
// Response sanitisation
// ---------------------------------------------------------------------------

/// The marker that betrays tool-call leakage in a final response.
pub open spec fn tool_call_marker() -> Seq<char> {
    "<tool_call"@
}

/// What sanitisation leaves of a response: everything before the first
/// tool-call marker, trimmed; or the response itself when no marker
/// leaked into it.
pub open spec fn spec_sanitized(s: Seq<char>) -> Seq<char> {
    let i = first_occurrence(s, tool_call_marker());
    if i >= 0 {
        trim_chars(s.subrange(0, i))
    } else {
        s
    }
}

/// Strip leaked tool-call output from a final response.
pub fn sanitize_channel_response(response: &str) -> (r: String)
    ensures
        r@ == spec_sanitized(response@),
{
    match str_find(response, "<tool_call") {
        Some(i) => {
            proof {
                lemma_first_occurrence_found(response@, tool_call_marker(), i as int);
            }
            let head = response.substring_char(0, i);
            let trimmed = str_trim(head);
            trimmed.to_owned()
        },
        None => {
            proof {
                lemma_first_occurrence_none(response@, tool_call_marker());
            }
            response.to_owned()
        },
    }
}

/// The fixed reply substituted when sanitisation empties an otherwise
/// non-blank response.
pub open spec fn safe_failure_notice() -> Seq<char> {
    "I encountered malformed tool-call output and could not produce a safe reply. Please try again."@
}

/// What is actually delivered for a raw response: its sanitized form,
/// unless sanitisation emptied a response that was not blank to begin
/// with — then a fixed safe-failure message replaces the garbled output.
pub open spec fn spec_delivered_response(response: Seq<char>) -> Seq<char> {
    let sanitized = spec_sanitized(response);
    if sanitized.len() == 0 && trim_chars(response).len() != 0 {
        safe_failure_notice()
    } else {
        sanitized
    }
}

/// Choose what is delivered from the sanitized and the raw response.
pub fn choose_delivered_response(sanitized: String, outbound: &str) -> (r: String)
    requires
        sanitized@ == spec_sanitized(outbound@),
    ensures
        r@ == spec_delivered_response(outbound@),
{
    if sanitized.as_str().unicode_len() == 0 && str_trim(outbound).unicode_len() != 0 {
        ("I encountered malformed tool-call output and could not produce a safe reply. Please try again.").to_owned()
    } else {
        sanitized
    }
}

/// The turn recorded in history for a delivered reply: the condensed
/// tool-use summary is prefixed, except on channels known to reject
/// prefixed content.
pub open spec fn spec_history_response(
    tool_summary: Seq<char>,
    delivered: Seq<char>,
    channel: Seq<char>,
) -> Seq<char> {
    if tool_summary.len() == 0 || channel == "telegram"@ {
        delivered
    } else {
        tool_summary + "\n"@ + delivered
    }
}

pub fn compose_history_response(tool_summary: &str, delivered: &str, channel: &str) -> (r: String)
    ensures
        r@ == spec_history_response(tool_summary@, delivered@, channel@),
{
    if tool_summary.unicode_len() == 0 || crate::text::str_eq(channel, "telegram") {
        delivered.to_owned()
    } else {
        tool_summary.to_owned().concat("\n").concat(delivered)
    }
}

// ---------------------------------------------------------------------------
// Outcome settlement
// ---------------------------------------------------------------------------

/// Why a provider call failed, as classified at the boundary.
#[derive(Clone, Debug, PartialEq, Eq)]
pub enum ProviderErrorKind {
    /// The tool loop observed the cancellation token.
    Cancelled,
    /// The conversation no longer fits the provider's context window.
    ContextOverflow,
    /// The provider rejected a capability the message needed.
    CapabilityUnsupported { capability: String },
    /// Any other provider failure.
    Other,
}

/// How the race of the provider call against cancellation and timeout
/// ended. A success carries the outbound response with the sending hook
/// already applied.
pub enum ProviderOutcome {
    /// The cancellation token fired first.
    Cancelled,
    /// The timeout elapsed first.
    TimedOut,
    /// The call completed with a reply.
    Completed { response: String },
    /// The call completed with an error.
    Failed { kind: ProviderErrorKind, message: String },
}

/// What the settled pipeline asks the channel layer to do.
pub enum SettledDelivery {
    /// Nothing to deliver.
    Nothing,
    /// Cancel the open draft; no reply is delivered.
    CancelOpenDraft,
    /// Deliver this text (draft-finalized if a draft is open, sent fresh
    /// otherwise).
    Deliver { text: String },
}

/// The settled end of one message's pipeline.
pub struct Settlement {
    pub delivery: SettledDelivery,
    /// Whether the final reaction signals success.
    pub success: bool,
}

/// An outcome counts as a cancellation when the token fired first, when
/// the tool loop itself reported cancellation, or when any error arrived
/// while the token stood fired.
pub open spec fn is_cancelled_outcome(outcome: ProviderOutcome, cancel_requested: bool) -> bool {
    match outcome {
        ProviderOutcome::Cancelled => true,
        ProviderOutcome::Failed { kind: ProviderErrorKind::Cancelled, .. } => true,
        ProviderOutcome::Failed { .. } => cancel_requested,
        _ => false,
    }
}

/// A capability failure that rolls back the user turn: the provider
/// rejected vision input.
pub open spec fn is_vision_capability(capability: Seq<char>) -> bool {
    fold_case(capability) == fold_case("vision"@)
}

/// The sentinel turn closing a failed request.
pub open spec fn failed_sentinel() -> Seq<char> {
    "[Task failed — not continuing this request]"@
}

/// The sentinel turn closing a timed-out request.
pub open spec fn timeout_sentinel() -> Seq<char> {
    "[Task timed out — not continuing this request]"@
}

/// The notice delivered on a timeout.
pub open spec fn timeout_notice() -> Seq<char> {
    "⚠️ Request timed out while waiting for the model. Please try again."@
}

pub open spec fn overflow_notice_compacted() -> Seq<char> {
    "⚠️ Context window exceeded for this conversation. I compacted recent history and kept the latest context. Please resend your last message."@
}

pub open spec fn overflow_notice_plain() -> Seq<char> {
    "⚠️ Context window exceeded for this conversation. Please resend your last message."@
}

/// Settle one message's provider outcome against the conversation
/// history and decide what the channel receives.
///
/// - A cancellation leaves the history untouched and only closes an open
///   draft: the superseding task owns the conversation from here.
/// - A success appends the assistant turn and delivers the reply.
/// - A context-window overflow compacts the history — leaving it
///   non-empty and never ending in an orphaned user turn — and asks the
///   sender to resend.
/// - An unsupported-capability failure for vision rolls back the most
///   recent user turn carrying this message's content; any other error
///   closes the history with a failure sentinel; both deliver the error.
/// - A timeout closes the history with a timed-out sentinel and notifies
///   the sender.
pub fn settle_llm_result(
    history: &mut Vec<ConversationTurn>,
    outcome: ProviderOutcome,
    cancel_requested: bool,
    tool_summary: &str,
    channel: &str,
    msg_content: &str,
    has_draft: bool,
) -> (s: Settlement)
    ensures
        is_cancelled_outcome(outcome, cancel_requested) ==> {
            &&& final(history)@ == old(history)@
            &&& s.delivery == if has_draft {
                SettledDelivery::CancelOpenDraft
            } else {
                SettledDelivery::Nothing
            }
            &&& !s.success
        },
        outcome matches ProviderOutcome::Completed { response } ==> {
            &&& s.success
            &&& ({
                let delivered = spec_delivered_response(response@);
                let recorded = spec_history_response(tool_summary@, delivered, channel@);
                &&& s.delivery matches SettledDelivery::Deliver { text } && text@ == delivered
                &&& final(history)@ == old(history)@.push(
                    (ConversationTurn {
                        role: Role::Assistant,
                        content: final(history)@.last().content,
                    }),
                )
                &&& final(history)@.last().content@ == recorded
            })
        },
        (outcome is TimedOut) ==> {
            &&& !s.success
            &&& final(history)@ == old(history)@.push(
                (ConversationTurn {
                    role: Role::Assistant,
                    content: final(history)@.last().content,
                }),
            )
            &&& final(history)@.last().content@ == timeout_sentinel()
            &&& s.delivery matches SettledDelivery::Deliver { text } && text@ == timeout_notice()
        },
        outcome matches ProviderOutcome::Failed {
            kind: ProviderErrorKind::ContextOverflow,
            ..
        } ==> !cancel_requested ==> {
            &&& !s.success
            &&& final(history)@.len() > 0
            &&& final(history)@.last().role == Role::Assistant
            &&& final(history)@ == drop_trailing_user(
                keep_last(old(history)@, COMPACT_KEEP_RECENT_TURNS as nat),
            ).push(
                (ConversationTurn {
                    role: Role::Assistant,
                    content: final(history)@.last().content,
                }),
            )
            &&& s.delivery matches SettledDelivery::Deliver { text } && text@ == (if old(
                history,
            )@.len() != drop_trailing_user(
                keep_last(old(history)@, COMPACT_KEEP_RECENT_TURNS as nat),
            ).len() {
                overflow_notice_compacted()
            } else {
                overflow_notice_plain()
            })
        },
        outcome matches ProviderOutcome::Failed {
            kind: ProviderErrorKind::CapabilityUnsupported { capability },
            message,
        } ==> (!cancel_requested && is_vision_capability(capability@)) ==> {
            &&& !s.success
            &&& ({
                let j = last_matching_user_index(old(history)@, msg_content@);
                if j >= 0 {
                    final(history)@ == old(history)@.remove(j)
                } else {
                    final(history)@ == old(history)@.push(
                        (ConversationTurn {
                            role: Role::Assistant,
                            content: final(history)@.last().content,
                        }),
                    ) && final(history)@.last().content@ == failed_sentinel()
                }
            })
            &&& s.delivery matches SettledDelivery::Deliver { text } && text@ == "⚠️ Error: "@
                + message@
        },
        outcome matches ProviderOutcome::Failed { kind, message } ==> (!cancel_requested && ((kind
            is Other) || ({
            ||| kind matches ProviderErrorKind::CapabilityUnsupported { capability }
                && !is_vision_capability(capability@)
        }))) ==> {
            &&& !s.success
            &&& final(history)@ == old(history)@.push(
                (ConversationTurn {
                    role: Role::Assistant,
                    content: final(history)@.last().content,
                }),
            )
            &&& final(history)@.last().content@ == failed_sentinel()
            &&& s.delivery matches SettledDelivery::Deliver { text } && text@ == "⚠️ Error: "@
                + message@
        },
{
    match outcome {
        ProviderOutcome::Cancelled => {
            Settlement {
                delivery: if has_draft {
                    SettledDelivery::CancelOpenDraft
                } else {
                    SettledDelivery::Nothing
                },
                success: false,
            }
        },
        ProviderOutcome::Completed { response } => {
            let sanitized = sanitize_channel_response(response.as_str());
            let delivered = choose_delivered_response(sanitized, response.as_str());
            let recorded = compose_history_response(tool_summary, delivered.as_str(), channel);
            append_turn(history, ConversationTurn::assistant(recorded.as_str()));
            Settlement { delivery: SettledDelivery::Deliver { text: delivered }, success: true }
        },
        ProviderOutcome::TimedOut => {
            append_turn(
                history,
                ConversationTurn::assistant("[Task timed out — not continuing this request]"),
            );
            Settlement {
                delivery: SettledDelivery::Deliver {
                    text: (
                    "⚠️ Request timed out while waiting for the model. Please try again.").to_owned(),
                },
                success: false,
            }
        },
        ProviderOutcome::Failed { kind, message } => {
            let cancelled = cancel_requested || matches!(kind, ProviderErrorKind::Cancelled);
            if cancelled {
                return Settlement {
                    delivery: if has_draft {
                        SettledDelivery::CancelOpenDraft
                    } else {
                        SettledDelivery::Nothing
                    },
                    success: false,
                };
            }
            match kind {
                ProviderErrorKind::ContextOverflow => {
                    let compacted = compact_history(history);
                    let text = if compacted {
                        (
                        "⚠️ Context window exceeded for this conversation. I compacted recent history and kept the latest context. Please resend your last message.").to_owned()
                    } else {
                        (
                        "⚠️ Context window exceeded for this conversation. Please resend your last message.").to_owned()
                    };
                    Settlement { delivery: SettledDelivery::Deliver { text }, success: false }
                },
                ProviderErrorKind::CapabilityUnsupported { capability } => {
                    let is_vision = crate::text::eq_ignore_ascii_case(
                        capability.as_str(),
                        "vision",
                    );
                    let mut rolled_back = false;
                    if is_vision {
                        rolled_back = rollback_orphan_user_turn(history, msg_content);
                    }
                    if !rolled_back {
                        append_turn(
                            history,
                            ConversationTurn::assistant(
                                "[Task failed — not continuing this request]",
                            ),
                        );
                    }
                    let text = ("⚠️ Error: ").to_owned().concat(message.as_str());
                    Settlement { delivery: SettledDelivery::Deliver { text }, success: false }
                },
                _ => {
                    append_turn(
                        history,
                        ConversationTurn::assistant("[Task failed — not continuing this request]"),
                    );
                    let text = ("⚠️ Error: ").to_owned().concat(message.as_str());
                    Settlement { delivery: SettledDelivery::Deliver { text }, success: false }
                },
            }
        },
    }
}

/// The emoji swapped onto the inbound message when processing ends.
pub fn reaction_done_emoji(success: bool) -> (r: &'static str)
    ensures
        success ==> r@ == "\u{2705}"@,
        !success ==> r@ == "\u{26A0}\u{FE0F}"@,
{
    if success {
        "\u{2705}"
    } else {
        "\u{26A0}\u{FE0F}"
    }
}

} // verus!
