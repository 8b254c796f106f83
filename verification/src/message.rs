//! Inbound and outbound message records exchanged with channels.

use vstd::prelude::*;

verus! {

/// A message received from a channel.
#[derive(Clone, Debug)]
pub struct ChannelMessage {
    pub id: String,
    pub sender: String,
    pub reply_target: String,
    pub content: String,
    pub channel: String,
    pub timestamp: u64,
    pub thread_ts: Option<String>,
}

/// A message to deliver through a channel.
#[derive(Clone, Debug)]
pub struct SendMessage {
    pub content: String,
    pub recipient: String,
    pub subject: Option<String>,
    pub thread_ts: Option<String>,
}

impl SendMessage {
    pub fn new(content: String, recipient: &str) -> (r: SendMessage)
        ensures
            r.content@ == content@,
            r.recipient@ == recipient@,
            r.subject is None,
            r.thread_ts is None,
    {
        SendMessage {
            content,
            recipient: recipient.to_owned(),
            subject: None,
            thread_ts: None,
        }
    }

    /// Attach the thread the reply belongs to.
    pub fn in_thread(self, thread_ts: Option<String>) -> (r: SendMessage)
        ensures
            r.content == self.content,
            r.recipient == self.recipient,
            r.subject == self.subject,
            r.thread_ts == thread_ts,
    {
        SendMessage { thread_ts, ..self }
    }
}

} // verus!
