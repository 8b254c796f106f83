//! Per-conversation history model: ordered turn sequences keyed by
//! channel + sender (+ thread), with the recovery operations the message
//! pipeline needs — appending turns, rolling back an orphaned user turn
//! after a capability failure, and compacting after a context-window
//! overflow.

use vstd::prelude::*;

verus! {

/// Who produced a conversation turn.
#[derive(Clone, Copy, Debug, PartialEq, Eq, Structural)]
pub enum Role {
    System,
    User,
    Assistant,
}

/// One entry of a conversation history.
#[derive(Clone, Debug)]
pub struct ConversationTurn {
    pub role: Role,
    pub content: String,
}

impl ConversationTurn {
    pub fn system(content: &str) -> (r: ConversationTurn)
        ensures
            r.role == Role::System,
            r.content@ == content@,
    {
        ConversationTurn { role: Role::System, content: content.to_owned() }
    }

    pub fn user(content: &str) -> (r: ConversationTurn)
        ensures
            r.role == Role::User,
            r.content@ == content@,
    {
        ConversationTurn { role: Role::User, content: content.to_owned() }
    }

    pub fn assistant(content: &str) -> (r: ConversationTurn)
        ensures
            r.role == Role::Assistant,
            r.content@ == content@,
    {
        ConversationTurn { role: Role::Assistant, content: content.to_owned() }
    }
}

/// The conversation key for a message: `channel:sender`, extended with
/// `:thread` when the message belongs to a thread, so that threads are
/// isolated conversations.
pub open spec fn spec_conversation_key(
    channel: Seq<char>,
    sender: Seq<char>,
    thread: Option<Seq<char>>,
) -> Seq<char> {
    let base = channel + ":"@ + sender;
    match thread {
        Some(t) => base + ":"@ + t,
        None => base,
    }
}

/// Derive the conversation-history key from channel, sender and thread.
pub fn conversation_history_key(channel: &str, sender: &str, thread_ts: Option<&str>) -> (r:
    String)
    ensures
        r@ == spec_conversation_key(
            channel@,
            sender@,
            match thread_ts {
                Some(t) => Some(t@),
                None => None,
            },
        ),
{
    let base = channel.to_owned().concat(":").concat(sender);
    match thread_ts {
        Some(t) => base.concat(":").concat(t),
        None => base,
    }
}

/// The interruption scope of a message: the `channel:sender` pair under
/// which at most one task may be in flight when interruption is enabled.
pub fn interruption_scope_key(channel: &str, sender: &str) -> (r: String)
    ensures
        r@ == channel@ + ":"@ + sender@,
{
    channel.to_owned().concat(":").concat(sender)
}

/// Append a turn at the end of a history.
pub fn append_turn(history: &mut Vec<ConversationTurn>, turn: ConversationTurn)
    ensures
        final(history)@ == old(history)@.push(turn),
{
    history.push(turn);
}

/// A user turn whose content is exactly the given text.
pub open spec fn is_matching_user_turn(t: ConversationTurn, content: Seq<char>) -> bool {
    t.role == Role::User && t.content@ == content
}

/// Index of the most recent user turn with the given content, or -1.
pub open spec fn last_matching_user_index(h: Seq<ConversationTurn>, content: Seq<char>) -> int
    decreases h.len(),
{
    if h.len() == 0 {
        -1
    } else if is_matching_user_turn(h.last(), content) {
        h.len() - 1
    } else {
        last_matching_user_index(h.drop_last(), content)
    }
}

proof fn lemma_last_matching_found(h: Seq<ConversationTurn>, content: Seq<char>, j: int)
    requires
        0 <= j < h.len(),
        is_matching_user_turn(h[j], content),
        forall|k: int| j < k < h.len() ==> !is_matching_user_turn(h[k], content),
    ensures
        last_matching_user_index(h, content) == j,
    decreases h.len(),
{
    if j == h.len() - 1 {
    } else {
        assert(!is_matching_user_turn(h.last(), content));
        lemma_last_matching_found(h.drop_last(), content, j);
    }
}

proof fn lemma_last_matching_none(h: Seq<ConversationTurn>, content: Seq<char>)
    requires
        forall|k: int| 0 <= k < h.len() ==> !is_matching_user_turn(h[k], content),
    ensures
        last_matching_user_index(h, content) == -1,
    decreases h.len(),
{
    if h.len() > 0 {
        lemma_last_matching_none(h.drop_last(), content);
    }
}

/// Remove the most recent user turn whose content equals `content`, if
/// any, leaving every other turn untouched. Used when a provider call
/// failed for a capability reason: the user's message was never really
/// consumed, so it must not stay behind as a closed request.
pub fn rollback_orphan_user_turn(history: &mut Vec<ConversationTurn>, content: &str) -> (removed:
    bool)
    ensures
        ({
            let j = last_matching_user_index(old(history)@, content@);
            if j >= 0 {
                removed && final(history)@ == old(history)@.remove(j)
            } else {
                !removed && final(history)@ == old(history)@
            }
        }),
{
    let n = history.len();
    let mut i: usize = n;
    while i > 0
        invariant
            n == history@.len(),
            i <= n,
            history@ == old(history)@,
            forall|k: int| i <= k < n ==> !is_matching_user_turn(history@[k], content@),
        decreases i,
    {
        let idx = i - 1;
        let matches = match history[idx].role {
            Role::User => crate::text::str_eq(history[idx].content.as_str(), content),
            _ => false,
        };
        if matches {
            proof {
                lemma_last_matching_found(history@, content@, idx as int);
            }
            history.remove(idx);
            return true;
        }
        i = idx;
    }
    proof {
        lemma_last_matching_none(history@, content@);
    }
    false
}

/// How many of the most recent turns a context-window compaction keeps.
pub const COMPACT_KEEP_RECENT_TURNS: usize = 8;

/// The sentinel turn that closes a compacted history.
pub open spec fn compaction_notice() -> Seq<char> {
    "[Context compacted — please resend your last message]"@
}

/// The most recent `keep` entries of a sequence.
pub open spec fn keep_last<A>(s: Seq<A>, keep: nat) -> Seq<A> {
    if s.len() <= keep {
        s
    } else {
        s.subrange(s.len() - keep, s.len() as int)
    }
}

/// Drop every trailing user turn.
pub open spec fn drop_trailing_user(s: Seq<ConversationTurn>) -> Seq<ConversationTurn>
    decreases s.len(),
{
    if s.len() > 0 && s.last().role == Role::User {
        drop_trailing_user(s.drop_last())
    } else {
        s
    }
}

proof fn lemma_drop_trailing_user_prefix(s: Seq<ConversationTurn>, j: int)
    requires
        0 <= j <= s.len(),
        forall|k: int| j <= k < s.len() ==> s[k].role == Role::User,
        j > 0 ==> s[j - 1].role != Role::User,
    ensures
        drop_trailing_user(s) == s.subrange(0, j),
    decreases s.len() - j,
{
    if j == s.len() {
        if s.len() == 0 || s.last().role != Role::User {
            assert(s.subrange(0, s.len() as int) == s);
        }
    } else {
        assert(s.last().role == Role::User);
        let t = s.drop_last();
        lemma_drop_trailing_user_prefix(t, j);
        assert(t.subrange(0, j) == s.subrange(0, j));
    }
}

/// Compact a conversation history after a context-window overflow: keep
/// only the most recent turns, drop any trailing user turns (the sender
/// is asked to resend), and close the history with a sentinel assistant
/// turn. The result is never empty and never ends in an orphaned user
/// turn.
pub fn compact_history(history: &mut Vec<ConversationTurn>) -> (dropped: bool)
    ensures
        final(history)@ == drop_trailing_user(
            keep_last(old(history)@, COMPACT_KEEP_RECENT_TURNS as nat),
        ).push((ConversationTurn { role: Role::Assistant, content: final(history)@.last().content })),
        final(history)@.last().role == Role::Assistant,
        final(history)@.last().content@ == compaction_notice(),
        final(history)@.len() > 0,
        dropped == (old(history)@.len() + 1 != final(history)@.len()),
{
    let ghost orig = history@;
    let n = history.len();
    let start = if n > COMPACT_KEEP_RECENT_TURNS {
        n - COMPACT_KEEP_RECENT_TURNS
    } else {
        0
    };
    let mut kept: Vec<ConversationTurn> = Vec::new();
    let mut i: usize = start;
    while i < n
        invariant
            n == history@.len(),
            history@ == orig,
            start <= i <= n,
            kept@ == history@.subrange(start as int, i as int),
        decreases n - i,
    {
        kept.push(history[i].clone_turn());
        i = i + 1;
        assert(history@.subrange(start as int, i as int) == history@.subrange(
            start as int,
            i as int - 1,
        ).push(history@[i as int - 1]));
    }
    proof {
        if n > COMPACT_KEEP_RECENT_TURNS {
            assert(kept@ == keep_last(orig, COMPACT_KEEP_RECENT_TURNS as nat));
        } else {
            assert(orig.subrange(0, n as int) == orig);
            assert(kept@ == keep_last(orig, COMPACT_KEEP_RECENT_TURNS as nat));
        }
    }
    let mut j: usize = kept.len();
    while j > 0 && matches!(kept[j - 1].role, Role::User)
        invariant
            j <= kept@.len(),
            kept@ == keep_last(orig, COMPACT_KEEP_RECENT_TURNS as nat),
            forall|k: int| j <= k < kept@.len() ==> kept@[k].role == Role::User,
        decreases j,
    {
        j = j - 1;
    }
    proof {
        lemma_drop_trailing_user_prefix(kept@, j as int);
    }
    let mut out: Vec<ConversationTurn> = Vec::new();
    let mut t: usize = 0;
    while t < j
        invariant
            t <= j <= kept@.len(),
            kept@ == keep_last(orig, COMPACT_KEEP_RECENT_TURNS as nat),
            out@ == kept@.subrange(0, t as int),
        decreases j - t,
    {
        out.push(kept[t].clone_turn());
        t = t + 1;
        assert(kept@.subrange(0, t as int) == kept@.subrange(0, t as int - 1).push(
            kept@[t as int - 1],
        ));
    }
    let notice = ConversationTurn::assistant(
        "[Context compacted — please resend your last message]",
    );
    out.push(notice);
    let dropped = out.len() - 1 != n;
    *history = out;
    dropped
}

impl ConversationTurn {
    /// A field-for-field copy.
    pub fn clone_turn(&self) -> (r: ConversationTurn)
        ensures
            r == *self,
    {
        ConversationTurn { role: self.role, content: self.content.clone() }
    }
}

/// A history is "cleanly closed" when it is non-empty and does not end in
/// an orphaned user turn.
pub open spec fn cleanly_closed(h: Seq<ConversationTurn>) -> bool {
    h.len() > 0 && h.last().role != Role::User
}

} // verus!
