//! Draft streaming: the progressively-updated placeholder message used to
//! simulate streaming output on channels that can edit messages. One
//! message's delivery is a lifecycle — an optional draft is opened, deltas
//! accumulate into it (a reserved sentinel restarts the rendering), and it
//! ends in exactly one terminal action: the draft is finalized, the draft
//! is cancelled, or (when no draft was opened) the reply is sent fresh.
//! A channel never receives both a draft finalize and a plain send for
//! the same message.

use vstd::prelude::*;

verus! {

/// The reserved delta that discards the accumulated text and restarts
/// rendering, used when the provider restarts its turn.
pub open spec fn draft_clear_sentinel() -> Seq<char> {
    "\u{241B}__draft_clear__"@
}

/// The reserved clear delta as a value.
pub fn draft_clear_sentinel_str() -> (r: &'static str)
    ensures
        r@ == draft_clear_sentinel(),
{
    "\u{241B}__draft_clear__"
}

/// How one message's delivery ended.
#[derive(Clone, Copy, Debug, PartialEq, Eq, Structural)]
pub enum DraftTerminal {
    /// The open draft was finalized with the reply text.
    Finalized,
    /// The open draft was cancelled; nothing was delivered.
    Cancelled,
    /// No draft was open; the reply was sent as a fresh message.
    SentFresh,
}

/// The delivery lifecycle of one message.
pub struct DraftSession {
    /// A draft placeholder was sent and is open on the channel.
    pub opened: bool,
    /// The terminal action, once one happened.
    pub terminal: Option<DraftTerminal>,
    /// Text accumulated from provider deltas.
    pub accumulated: String,
}

impl DraftSession {
    /// The draft-closing terminals belong to an opened draft; a fresh
    /// send belongs to a message without one. This is what makes
    /// "finalize and plain send for the same message" impossible.
    pub open spec fn wf(&self) -> bool {
        match self.terminal {
            Some(DraftTerminal::Finalized) => self.opened,
            Some(DraftTerminal::Cancelled) => self.opened,
            Some(DraftTerminal::SentFresh) => !self.opened,
            None => true,
        }
    }

    /// A message's delivery starts with no draft and nothing delivered.
    pub fn begin() -> (r: DraftSession)
        ensures
            r.wf(),
            !r.opened,
            r.terminal is None,
            r.accumulated@.len() == 0,
    {
        DraftSession { opened: false, terminal: None, accumulated: String::new() }
    }

    /// The channel accepted a draft placeholder (`send_draft`).
    pub fn open_draft(&mut self)
        requires
            old(self).wf(),
            !old(self).opened,
            old(self).terminal is None,
        ensures
            final(self).wf(),
            final(self).opened,
            final(self).terminal is None,
            final(self).accumulated == old(self).accumulated,
    {
        self.opened = true;
    }

    /// Apply one provider delta (`update_draft`): ordinary deltas
    /// accumulate; the clear sentinel resets the accumulation to empty.
    pub fn apply_delta(&mut self, delta: &str)
        requires
            old(self).wf(),
            old(self).terminal is None,
        ensures
            final(self).wf(),
            final(self).opened == old(self).opened,
            final(self).terminal is None,
            final(self).accumulated@ == if delta@ == draft_clear_sentinel() {
                Seq::<char>::empty()
            } else {
                old(self).accumulated@ + delta@
            },
    {
        if crate::text::str_eq(delta, draft_clear_sentinel_str()) {
            self.accumulated = String::new();
        } else {
            let joined = self.accumulated.clone().concat(delta);
            self.accumulated = joined;
        }
    }

    /// Finalize the open draft with the reply text (`finalize_draft`).
    pub fn finalize(&mut self)
        requires
            old(self).wf(),
            old(self).opened,
            old(self).terminal is None,
        ensures
            final(self).wf(),
            final(self).terminal == Some(DraftTerminal::Finalized),
            final(self).opened,
    {
        self.terminal = Some(DraftTerminal::Finalized);
    }

    /// Cancel the open draft (`cancel_draft`), delivering nothing.
    pub fn cancel(&mut self)
        requires
            old(self).wf(),
            old(self).opened,
            old(self).terminal is None,
        ensures
            final(self).wf(),
            final(self).terminal == Some(DraftTerminal::Cancelled),
            final(self).opened,
    {
        self.terminal = Some(DraftTerminal::Cancelled);
    }

    /// Deliver the reply as a fresh message (`send`), allowed only when
    /// no draft was opened.
    pub fn send_fresh(&mut self)
        requires
            old(self).wf(),
            !old(self).opened,
            old(self).terminal is None,
        ensures
            final(self).wf(),
            final(self).terminal == Some(DraftTerminal::SentFresh),
            !final(self).opened,
    {
        self.terminal = Some(DraftTerminal::SentFresh);
    }
}

/// Law: a well-formed delivery lifecycle never pairs a draft finalize
/// with a plain send — a finalized terminal implies a draft was open,
/// and a fresh send implies none ever was.
pub proof fn lemma_draft_terminal_exclusive(s: DraftSession)
    requires
        s.wf(),
    ensures
        s.terminal == Some(DraftTerminal::Finalized) ==> s.opened,
        s.terminal == Some(DraftTerminal::SentFresh) ==> !s.opened,
        !(s.terminal == Some(DraftTerminal::Finalized) && s.terminal == Some(
            DraftTerminal::SentFresh,
        )),
{
}

} // verus!
