//! The out-of-process plugin protocol, shared by the channel, memory and
//! security subsystems: one JSON request document written to the child's
//! standard input, one JSON response document read from its standard
//! output. The library frames the request bytes and decides what every
//! possible response means; spawning the child is I/O and happens in the
//! embedding layer.

use vstd::prelude::*;

use crate::message::{ChannelMessage, SendMessage};
use crate::plugins::ResolvedPlugin;
use crate::text::{lemma_trim_le_len, push_char, str_trim, trim_chars, u64_to_string};

verus! {

/// Milliseconds between two polls of a plugin channel's `listen`.
pub const DEFAULT_LISTEN_POLL_INTERVAL_MS: u64 = 750;

// ---------------------------------------------------------------------------
// JSON string framing
// ---------------------------------------------------------------------------

/// The lowercase hex digit for a value below 16.
pub open spec fn hex_char(d: u8) -> char {
    if d < 10 {
        (((48 + d) as u8) as char)
    } else {
        (((87 + d) as u8) as char)
    }
}

/// How one character appears inside a JSON string literal.
pub open spec fn json_escape_char(c: char) -> Seq<char> {
    if c == '"' {
        seq!['\\', '"']
    } else if c == '\\' {
        seq!['\\', '\\']
    } else if c == '\n' {
        seq!['\\', 'n']
    } else if c == '\r' {
        seq!['\\', 'r']
    } else if c == '\t' {
        seq!['\\', 't']
    } else if (c as u32) < 32 {
        seq!['\\', 'u', '0', '0', hex_char((c as u32 / 16) as u8), hex_char((c as u32 % 16) as u8)]
    } else {
        seq![c]
    }
}

/// A character sequence escaped for a JSON string literal.
pub open spec fn json_escaped(s: Seq<char>) -> Seq<char>
    decreases s.len(),
{
    if s.len() == 0 {
        Seq::empty()
    } else {
        json_escape_char(s[0]) + json_escaped(s.drop_first())
    }
}

proof fn lemma_json_escaped_push(s: Seq<char>, c: char)
    ensures
        json_escaped(s.push(c)) == json_escaped(s) + json_escape_char(c),
    decreases s.len(),
{
    let u = s.push(c);
    if s.len() == 0 {
        assert(u.len() == 1);
        assert(u[0] == c);
        assert(u.drop_first() =~= Seq::<char>::empty());
        assert(json_escaped(u) == json_escape_char(c) + json_escaped(Seq::<char>::empty()));
        assert(json_escape_char(c) + Seq::<char>::empty() =~= json_escape_char(c));
        assert(json_escaped(s) + json_escape_char(c) =~= json_escape_char(c));
    } else {
        assert(u[0] == s[0]);
        assert(u.drop_first() =~= s.drop_first().push(c));
        lemma_json_escaped_push(s.drop_first(), c);
        assert(json_escaped(s.push(c)) =~= json_escaped(s) + json_escape_char(c));
    }
}

/// A JSON string literal: quotes around the escaped content.
pub open spec fn spec_json_string(s: Seq<char>) -> Seq<char> {
    seq!['"'] + json_escaped(s) + seq!['"']
}

/// A JSON string literal, or `null` for an absent value.
pub open spec fn spec_json_opt_string(s: Option<Seq<char>>) -> Seq<char> {
    match s {
        Some(v) => spec_json_string(v),
        None => "null"@,
    }
}

fn append_json_escaped(out: &mut String, s: &str)
    ensures
        final(out)@ == old(out)@ + json_escaped(s@),
{
    let n = s.unicode_len();
    let mut i: usize = 0;
    proof {
        assert(out@ =~= old(out)@ + json_escaped(s@.subrange(0, 0)));
    }
    while i < n
        invariant
            n == s@.len(),
            i <= n,
            out@ == old(out)@ + json_escaped(s@.subrange(0, i as int)),
        decreases n - i,
    {
        let c = s.get_char(i);
        let v = c as u32;
        if c == '"' {
            push_char(out, '\\');
            push_char(out, '"');
        } else if c == '\\' {
            push_char(out, '\\');
            push_char(out, '\\');
        } else if c == '\n' {
            push_char(out, '\\');
            push_char(out, 'n');
        } else if c == '\r' {
            push_char(out, '\\');
            push_char(out, 'r');
        } else if c == '\t' {
            push_char(out, '\\');
            push_char(out, 't');
        } else if v < 32 {
            push_char(out, '\\');
            push_char(out, 'u');
            push_char(out, '0');
            push_char(out, '0');
            let hi = (v / 16) as u8;
            let lo = (v % 16) as u8;
            let hc = if hi < 10 {
                (48 + hi) as u8
            } else {
                (87 + hi) as u8
            };
            let lc = if lo < 10 {
                (48 + lo) as u8
            } else {
                (87 + lo) as u8
            };
            push_char(out, hc as char);
            push_char(out, lc as char);
        } else {
            push_char(out, c);
        }
        proof {
            lemma_json_escaped_push(s@.subrange(0, i as int), s@[i as int]);
            assert(s@.subrange(0, i as int + 1) =~= s@.subrange(0, i as int).push(s@[i as int]));
            assert(out@ =~= old(out)@ + json_escaped(s@.subrange(0, i as int + 1)));
        }
        i = i + 1;
    }
    proof {
        assert(s@.subrange(0, n as int) == s@);
    }
}

/// Render a string as a JSON string literal.
pub fn json_string(s: &str) -> (r: String)
    ensures
        r@ == spec_json_string(s@),
{
    let mut out = String::new();
    push_char(&mut out, '"');
    append_json_escaped(&mut out, s);
    push_char(&mut out, '"');
    proof {
        assert(out@ =~= spec_json_string(s@));
    }
    out
}

/// Render an optional string as a JSON string literal or `null`.
pub fn json_opt_string(s: Option<&str>) -> (r: String)
    ensures
        r@ == spec_json_opt_string(
            match s {
                Some(v) => Some(v@),
                None => None,
            },
        ),
{
    match s {
        Some(v) => json_string(v),
        None => "null".to_owned(),
    }
}

// ---------------------------------------------------------------------------
// Request documents
// ---------------------------------------------------------------------------

/// The request document for one plugin invocation: the protocol tag, the
/// subsystem, the plugin id, the operation, and the operation's payload.
pub open spec fn spec_plugin_request(
    subsystem: Seq<char>,
    plugin_id: Seq<char>,
    operation: Seq<char>,
    payload_json: Seq<char>,
) -> Seq<char> {
    "{\"protocol\":\"zeroclaw-plugin-v1\",\"subsystem\":"@ + spec_json_string(subsystem)
        + ",\"plugin\":"@ + spec_json_string(plugin_id) + ",\"operation\":"@ + spec_json_string(
        operation,
    ) + ",\"payload\":"@ + payload_json + "}"@
}

/// Frame one plugin request document. The caller writes it, followed by
/// one newline, to the child's standard input.
pub fn build_plugin_request(
    subsystem: &str,
    plugin_id: &str,
    operation: &str,
    payload_json: &str,
) -> (r: String)
    ensures
        r@ == spec_plugin_request(subsystem@, plugin_id@, operation@, payload_json@),
{
    let r = "{\"protocol\":\"zeroclaw-plugin-v1\",\"subsystem\":".to_owned().concat(
        json_string(subsystem).as_str(),
    ).concat(",\"plugin\":").concat(json_string(plugin_id).as_str()).concat(
        ",\"operation\":",
    ).concat(json_string(operation).as_str()).concat(",\"payload\":").concat(payload_json).concat(
        "}",
    );
    proof {
        assert(r@ =~= spec_plugin_request(subsystem@, plugin_id@, operation@, payload_json@));
    }
    r
}

/// The payload of a `send` or `send_draft` operation.
pub open spec fn spec_send_payload(
    content: Seq<char>,
    recipient: Seq<char>,
    subject: Option<Seq<char>>,
    thread_ts: Option<Seq<char>>,
) -> Seq<char> {
    "{\"content\":"@ + spec_json_string(content) + ",\"recipient\":"@ + spec_json_string(recipient)
        + ",\"subject\":"@ + spec_json_opt_string(subject) + ",\"thread_ts\":"@
        + spec_json_opt_string(thread_ts) + "}"@
}

pub fn send_payload_json(message: &SendMessage) -> (r: String)
    ensures
        r@ == spec_send_payload(
            message.content@,
            message.recipient@,
            match message.subject {
                Some(ref s) => Some(s@),
                None => None,
            },
            match message.thread_ts {
                Some(ref t) => Some(t@),
                None => None,
            },
        ),
{
    let subject = match &message.subject {
        Some(s) => json_string(s.as_str()),
        None => "null".to_owned(),
    };
    let thread = match &message.thread_ts {
        Some(t) => json_string(t.as_str()),
        None => "null".to_owned(),
    };
    let r = "{\"content\":".to_owned().concat(json_string(message.content.as_str()).as_str())
        .concat(",\"recipient\":").concat(json_string(message.recipient.as_str()).as_str()).concat(
        ",\"subject\":",
    ).concat(subject.as_str()).concat(",\"thread_ts\":").concat(thread.as_str()).concat("}");
    proof {
        assert(r@ =~= spec_send_payload(
            message.content@,
            message.recipient@,
            match message.subject {
                Some(ref s) => Some(s@),
                None => None,
            },
            match message.thread_ts {
                Some(ref t) => Some(t@),
                None => None,
            },
        ));
    }
    r
}

/// The payload of a typing-indicator operation.
pub fn recipient_payload_json(recipient: &str) -> (r: String)
    ensures
        r@ == "{\"recipient\":"@ + spec_json_string(recipient@) + "}"@,
{
    let r = "{\"recipient\":".to_owned().concat(json_string(recipient).as_str()).concat("}");
    proof {
        assert(r@ =~= "{\"recipient\":"@ + spec_json_string(recipient@) + "}"@);
    }
    r
}

/// The payload of a draft operation.
pub fn draft_payload_json(recipient: &str, message_id: &str, text: &str) -> (r: String)
    ensures
        r@ == "{\"recipient\":"@ + spec_json_string(recipient@) + ",\"message_id\":"@
            + spec_json_string(message_id@) + ",\"text\":"@ + spec_json_string(text@) + "}"@,
{
    let r = "{\"recipient\":".to_owned().concat(json_string(recipient).as_str()).concat(
        ",\"message_id\":",
    ).concat(json_string(message_id).as_str()).concat(",\"text\":").concat(
        json_string(text).as_str(),
    ).concat("}");
    proof {
        assert(r@ =~= "{\"recipient\":"@ + spec_json_string(recipient@) + ",\"message_id\":"@
            + spec_json_string(message_id@) + ",\"text\":"@ + spec_json_string(text@) + "}"@);
    }
    r
}

/// The payload of a reaction operation.
pub fn reaction_payload_json(channel_id: &str, message_id: &str, emoji: &str) -> (r: String)
    ensures
        r@ == "{\"channel_id\":"@ + spec_json_string(channel_id@) + ",\"message_id\":"@
            + spec_json_string(message_id@) + ",\"emoji\":"@ + spec_json_string(emoji@) + "}"@,
{
    let r = "{\"channel_id\":".to_owned().concat(json_string(channel_id).as_str()).concat(
        ",\"message_id\":",
    ).concat(json_string(message_id).as_str()).concat(",\"emoji\":").concat(
        json_string(emoji).as_str(),
    ).concat("}");
    proof {
        assert(r@ =~= "{\"channel_id\":"@ + spec_json_string(channel_id@) + ",\"message_id\":"@
            + spec_json_string(message_id@) + ",\"emoji\":"@ + spec_json_string(emoji@) + "}"@);
    }
    r
}

/// The payload of an operation without parameters.
pub fn empty_payload_json() -> (r: String)
    ensures
        r@ == "{}"@,
{
    "{}".to_owned()
}

// ---------------------------------------------------------------------------
// Response documents
// ---------------------------------------------------------------------------

/// The three fields of a plugin response document.
pub struct PluginResponse {
    pub ok: bool,
    /// The `data` member, re-rendered as JSON, when present and non-null.
    pub data_json: Option<String>,
    pub error: Option<String>,
}

/// What parsing a response document yields: `None` for unparseable text,
/// else the `ok` flag, the re-rendered `data` member, and the `error`
/// member. A function of the text alone.
pub uninterp spec fn spec_parsed_plugin_response(s: Seq<char>) -> Option<
    (bool, Option<Seq<char>>, Option<Seq<char>>),
>;

/// Relies on `serde_json::from_str` and the `Value` accessors: one JSON
/// document in, its `ok`, `data` and `error` members out; a missing `ok`
/// reads as false, a missing or null member as absent.
#[verifier::external_body]
pub fn parse_plugin_response(stdout: &str) -> (r: Option<PluginResponse>)
    ensures
        match r {
            None => spec_parsed_plugin_response(stdout@) is None,
            Some(pr) => spec_parsed_plugin_response(stdout@) == Some(
                (
                    pr.ok,
                    match pr.data_json {
                        Some(ref d) => Some(d@),
                        None => None,
                    },
                    match pr.error {
                        Some(ref e) => Some(e@),
                        None => None,
                    },
                ),
            ),
        },
{
    let v: serde_json::Value = match serde_json::from_str(stdout) {
        Ok(v) => v,
        Err(_) => return None,
    };
    let ok = v.get("ok").and_then(serde_json::Value::as_bool).unwrap_or(false);
    let data = match v.get("data") {
        Some(d) if !d.is_null() => serde_json::to_string(d).ok(),
        _ => None,
    };
    let error = v.get("error").and_then(serde_json::Value::as_str).map(str::to_string);
    Some(PluginResponse { ok, data_json: data, error })
}

/// The detail reported for a failed operation: the plugin's error text,
/// or a fixed fallback when it is absent or blank.
pub open spec fn spec_failure_detail(error: Option<Seq<char>>) -> Seq<char> {
    match error {
        Some(e) => if trim_chars(e).len() > 0 {
            e
        } else {
            "unknown plugin error"@
        },
        None => "unknown plugin error"@,
    }
}

/// Decide what a finished plugin invocation means. `label` names the
/// subsystem in error messages. A non-zero exit, empty standard output,
/// unparseable output, or a document with `ok == false` are each a hard
/// failure; only `ok == true` succeeds, carrying the `data` member.
pub fn interpret_plugin_output(
    label: &str,
    plugin_id: &str,
    operation: &str,
    exit_success: bool,
    exit_code_text: &str,
    stderr_trimmed: &str,
    stdout_trimmed: &str,
) -> (r: Result<Option<String>, String>)
    ensures
        !exit_success ==> (r matches Err(e) && e@ == label@ + " plugin '"@ + plugin_id@
            + "' exited with status "@ + exit_code_text@ + ": "@ + stderr_trimmed@),
        (exit_success && stdout_trimmed@.len() == 0) ==> (r matches Err(e) && e@ == label@
            + " plugin '"@ + plugin_id@ + "' returned an empty response"@),
        (exit_success && stdout_trimmed@.len() > 0 && spec_parsed_plugin_response(stdout_trimmed@)
            is None) ==> (r matches Err(e) && e@ == "decode "@ + label@
            + " plugin response JSON"@),
        (exit_success && stdout_trimmed@.len() > 0) ==> (spec_parsed_plugin_response(
            stdout_trimmed@,
        ) matches Some((ok, data, error)) ==> {
            if ok {
                r matches Result::Ok(d) && (match (d, data) {
                    (Some(ds), Some(dv)) => ds@ == dv,
                    (None, None) => true,
                    _ => false,
                })
            } else {
                r matches Err(e) && e@ == label@ + " plugin '"@ + plugin_id@ + "' failed '"@
                    + operation@ + "': "@ + spec_failure_detail(error)
            }
        }),
{
    if !exit_success {
        let e = label.to_owned().concat(" plugin '").concat(plugin_id).concat(
            "' exited with status ",
        ).concat(exit_code_text).concat(": ").concat(stderr_trimmed);
        proof {
            assert(e@ =~= label@ + " plugin '"@ + plugin_id@ + "' exited with status "@
                + exit_code_text@ + ": "@ + stderr_trimmed@);
        }
        return Err(e);
    }
    if stdout_trimmed.unicode_len() == 0 {
        let e = label.to_owned().concat(" plugin '").concat(plugin_id).concat(
            "' returned an empty response",
        );
        proof {
            assert(e@ =~= label@ + " plugin '"@ + plugin_id@ + "' returned an empty response"@);
        }
        return Err(e);
    }
    match parse_plugin_response(stdout_trimmed) {
        None => {
            let e = "decode ".to_owned().concat(label).concat(" plugin response JSON");
            proof {
                assert(e@ =~= "decode "@ + label@ + " plugin response JSON"@);
            }
            Err(e)
        },
        Some(pr) => {
            if pr.ok {
                Ok(pr.data_json)
            } else {
                let detail = match pr.error {
                    Some(err) => {
                        if str_trim(err.as_str()).unicode_len() > 0 {
                            err
                        } else {
                            "unknown plugin error".to_owned()
                        }
                    },
                    None => "unknown plugin error".to_owned(),
                };
                let e = label.to_owned().concat(" plugin '").concat(plugin_id).concat(
                    "' failed '",
                ).concat(operation).concat("': ").concat(detail.as_str());
                proof {
                    assert(e@ =~= label@ + " plugin '"@ + plugin_id@ + "' failed '"@ + operation@
                        + "': "@ + detail@);
                }
                Err(e)
            }
        },
    }
}

/// The health verdict in a plugin's `health_check` answer: healthy only
/// when the operation succeeded with a `data` member reading `true`.
pub fn plugin_health_verdict(data_json: Option<&str>) -> (r: bool)
    ensures
        r == (match data_json {
            Some(d) => d@ == "true"@,
            None => false,
        }),
{
    match data_json {
        Some(d) => crate::text::str_eq(d, "true"),
        None => false,
    }
}

// ---------------------------------------------------------------------------
// Inbound plugin messages
// ---------------------------------------------------------------------------

/// An inbound message as a channel plugin reports it: every field but the
/// sender and the content may be absent.
pub struct PluginInboundMessage {
    pub id: Option<String>,
    pub sender: String,
    pub reply_target: Option<String>,
    pub content: String,
    pub channel: Option<String>,
    pub timestamp: Option<u64>,
    pub thread_ts: Option<String>,
}

/// Relies on `std::time::SystemTime::now`: seconds since the Unix epoch,
/// 0 when the clock reads earlier than the epoch.
#[verifier::external_body]
pub fn unix_timestamp_now() -> (r: u64) {
    std::time::SystemTime::now().duration_since(std::time::UNIX_EPOCH).map_or(
        0,
        |duration| duration.as_secs(),
    )
}

impl PluginInboundMessage {
    /// Fill the optional fields: the channel defaults to the receiving
    /// plugin channel, the reply target to the sender, the timestamp to
    /// the current time, and a missing or blank id is synthesised from
    /// channel and timestamp — the id of the result is never empty.
    pub fn into_channel_message(self, fallback_channel: &str) -> (r: ChannelMessage)
        ensures
            r.sender@ == self.sender@,
            r.content@ == self.content@,
            r.channel@ == (match self.channel {
                Some(ref c) => c@,
                None => fallback_channel@,
            }),
            r.reply_target@ == (match self.reply_target {
                Some(ref t) => t@,
                None => self.sender@,
            }),
            self.timestamp matches Some(t) ==> r.timestamp == t,
            r.thread_ts == self.thread_ts,
            (match self.id {
                Some(ref v) => trim_chars(v@).len() > 0,
                None => false,
            }) ==> r.id@ == self.id->Some_0@,
            (match self.id {
                Some(ref v) => trim_chars(v@).len() == 0,
                None => true,
            }) ==> r.id@ == r.channel@ + ":"@ + crate::text::spec_u64_digits(r.timestamp as nat),
            r.id@.len() > 0,
    {
        let timestamp = match self.timestamp {
            Some(t) => t,
            None => unix_timestamp_now(),
        };
        let channel = match self.channel {
            Some(c) => c,
            None => fallback_channel.to_owned(),
        };
        let reply_target = match self.reply_target {
            Some(t) => t,
            None => self.sender.clone(),
        };
        let keep_id = match &self.id {
            Some(v) => str_trim(v.as_str()).unicode_len() > 0,
            None => false,
        };
        let id = if keep_id {
            match self.id {
                Some(v) => v,
                None => String::new(),
            }
        } else {
            let built = channel.clone().concat(":").concat(
                u64_to_string(timestamp).as_str(),
            );
            proof {
                assert(built@ =~= channel@ + ":"@ + crate::text::spec_u64_digits(
                    timestamp as nat,
                ));
            }
            built
        };
        proof {
            if keep_id {
                lemma_trim_le_len(self.id->Some_0@);
            }
        }
        ChannelMessage {
            id,
            sender: self.sender,
            reply_target,
            content: self.content,
            channel,
            timestamp,
            thread_ts: self.thread_ts,
        }
    }
}

// ---------------------------------------------------------------------------
// Plugin-backed channel and memory fronts
// ---------------------------------------------------------------------------

/// A channel backed by an out-of-process plugin. The library holds the
/// resolved plugin and frames every request; the embedding layer spawns
/// the process for each operation.
pub struct CommandPluginChannel {
    pub plugin: ResolvedPlugin,
    pub display_name: String,
    pub poll_interval_ms: u64,
}

impl CommandPluginChannel {
    pub fn new(plugin: ResolvedPlugin) -> (r: CommandPluginChannel)
        ensures
            r.display_name@ == "plugin:"@ + plugin.id@,
            r.plugin == plugin,
            r.poll_interval_ms == DEFAULT_LISTEN_POLL_INTERVAL_MS,
    {
        let display_name = "plugin:".to_owned().concat(plugin.id.as_str());
        CommandPluginChannel {
            plugin,
            display_name,
            poll_interval_ms: DEFAULT_LISTEN_POLL_INTERVAL_MS,
        }
    }

    pub fn name(&self) -> (r: &str)
        ensures
            r@ == self.display_name@,
    {
        self.display_name.as_str()
    }

    /// The request document for one channel operation.
    pub fn request_json(&self, operation: &str, payload_json: &str) -> (r: String)
        ensures
            r@ == spec_plugin_request("channel"@, self.plugin.id@, operation@, payload_json@),
    {
        build_plugin_request("channel", self.plugin.id.as_str(), operation, payload_json)
    }
}

/// A memory backend backed by an out-of-process plugin.
pub struct CommandPluginMemory {
    pub plugin: ResolvedPlugin,
    pub display_name: String,
}

impl CommandPluginMemory {
    pub fn new(plugin: ResolvedPlugin) -> (r: CommandPluginMemory)
        ensures
            r.display_name@ == "plugin:"@ + plugin.id@,
            r.plugin == plugin,
    {
        let display_name = "plugin:".to_owned().concat(plugin.id.as_str());
        CommandPluginMemory { plugin, display_name }
    }

    pub fn name(&self) -> (r: &str)
        ensures
            r@ == self.display_name@,
    {
        self.display_name.as_str()
    }

    /// The request document for one memory operation.
    pub fn request_json(&self, operation: &str, payload_json: &str) -> (r: String)
        ensures
            r@ == spec_plugin_request("memory"@, self.plugin.id@, operation@, payload_json@),
    {
        build_plugin_request("memory", self.plugin.id.as_str(), operation, payload_json)
    }
}

/// What a stored memory entry is filed under.
#[derive(Clone, Copy, Debug, PartialEq, Eq, Structural)]
pub enum MemoryCategory {
    Core,
    Conversation,
    Knowledge,
}

impl MemoryCategory {
    pub fn as_str(&self) -> (r: &'static str)
        ensures
            r@ == (match self {
                MemoryCategory::Core => "core"@,
                MemoryCategory::Conversation => "conversation"@,
                MemoryCategory::Knowledge => "knowledge"@,
            }),
    {
        match self {
            MemoryCategory::Core => "core",
            MemoryCategory::Conversation => "conversation",
            MemoryCategory::Knowledge => "knowledge",
        }
    }
}

/// The payload of a memory `store` operation.
pub fn store_payload_json(
    key: &str,
    content: &str,
    category: MemoryCategory,
    session_id: Option<&str>,
) -> (r: String)
    ensures
        r@ == "{\"key\":"@ + spec_json_string(key@) + ",\"content\":"@ + spec_json_string(content@)
            + ",\"category\":"@ + spec_json_string(
            match category {
                MemoryCategory::Core => "core"@,
                MemoryCategory::Conversation => "conversation"@,
                MemoryCategory::Knowledge => "knowledge"@,
            },
        ) + ",\"session_id\":"@ + spec_json_opt_string(
            match session_id {
                Some(s) => Some(s@),
                None => None,
            },
        ) + "}"@,
{
    let r = "{\"key\":".to_owned().concat(json_string(key).as_str()).concat(",\"content\":")
        .concat(json_string(content).as_str()).concat(",\"category\":").concat(
        json_string(category.as_str()).as_str(),
    ).concat(",\"session_id\":").concat(json_opt_string(session_id).as_str()).concat("}");
    proof {
        assert(r@ =~= "{\"key\":"@ + spec_json_string(key@) + ",\"content\":"@ + spec_json_string(
            content@,
        ) + ",\"category\":"@ + spec_json_string(
            match category {
                MemoryCategory::Core => "core"@,
                MemoryCategory::Conversation => "conversation"@,
                MemoryCategory::Knowledge => "knowledge"@,
            },
        ) + ",\"session_id\":"@ + spec_json_opt_string(
            match session_id {
                Some(s) => Some(s@),
                None => None,
            },
        ) + "}"@);
    }
    r
}

} // verus!
