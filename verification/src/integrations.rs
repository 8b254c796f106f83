//! The integration catalogue: categories, statuses, filter parsing and
//! the `integrations` command — list, search, and per-integration info.
//! The command renders its answer as text; printing it is the caller's.

use vstd::prelude::*;

use crate::config::Config;
use crate::text::{
    contains_seq, lower_char, push_char, str_contains, str_eq, str_trim,
    to_ascii_lowercase_str, trim_chars,
};

verus! {

/// Whether an integration is ready, active, or still planned.
#[derive(Clone, Copy, Debug, PartialEq, Eq, Structural)]
pub enum IntegrationStatus {
    /// Fully implemented and ready to use.
    Available,
    /// Configured and active.
    Active,
    /// Planned but not yet implemented.
    ComingSoon,
}

/// What part of the product an integration belongs to.
#[derive(Clone, Copy, Debug, PartialEq, Eq, Structural)]
pub enum IntegrationCategory {
    Chat,
    AiModel,
    Productivity,
    MusicAudio,
    SmartHome,
    ToolsAutomation,
    MediaCreative,
    Social,
    Platform,
}

impl IntegrationCategory {
    /// The human-readable heading of a category.
    pub fn label(self) -> (r: &'static str)
        ensures
            r@ == spec_label(self),
    {
        match self {
            IntegrationCategory::Chat => "Chat Providers",
            IntegrationCategory::AiModel => "AI Models",
            IntegrationCategory::Productivity => "Productivity",
            IntegrationCategory::MusicAudio => "Music & Audio",
            IntegrationCategory::SmartHome => "Smart Home",
            IntegrationCategory::ToolsAutomation => "Tools & Automation",
            IntegrationCategory::MediaCreative => "Media & Creative",
            IntegrationCategory::Social => "Social",
            IntegrationCategory::Platform => "Platforms",
        }
    }

    /// Every category, once, in display order.
    pub fn all() -> (r: &'static [IntegrationCategory])
        ensures
            r@ == seq![
                IntegrationCategory::Chat,
                IntegrationCategory::AiModel,
                IntegrationCategory::Productivity,
                IntegrationCategory::MusicAudio,
                IntegrationCategory::SmartHome,
                IntegrationCategory::ToolsAutomation,
                IntegrationCategory::MediaCreative,
                IntegrationCategory::Social,
                IntegrationCategory::Platform,
            ],
    {
        let r: &'static [IntegrationCategory] = &[
            IntegrationCategory::Chat,
            IntegrationCategory::AiModel,
            IntegrationCategory::Productivity,
            IntegrationCategory::MusicAudio,
            IntegrationCategory::SmartHome,
            IntegrationCategory::ToolsAutomation,
            IntegrationCategory::MediaCreative,
            IntegrationCategory::Social,
            IntegrationCategory::Platform,
        ];
        proof {
            assert(r@ =~= seq![
                IntegrationCategory::Chat,
                IntegrationCategory::AiModel,
                IntegrationCategory::Productivity,
                IntegrationCategory::MusicAudio,
                IntegrationCategory::SmartHome,
                IntegrationCategory::ToolsAutomation,
                IntegrationCategory::MediaCreative,
                IntegrationCategory::Social,
                IntegrationCategory::Platform,
            ]);
        }
        r
    }
}

pub open spec fn spec_label(c: IntegrationCategory) -> Seq<char> {
    match c {
        IntegrationCategory::Chat => "Chat Providers"@,
        IntegrationCategory::AiModel => "AI Models"@,
        IntegrationCategory::Productivity => "Productivity"@,
        IntegrationCategory::MusicAudio => "Music & Audio"@,
        IntegrationCategory::SmartHome => "Smart Home"@,
        IntegrationCategory::ToolsAutomation => "Tools & Automation"@,
        IntegrationCategory::MediaCreative => "Media & Creative"@,
        IntegrationCategory::Social => "Social"@,
        IntegrationCategory::Platform => "Platforms"@,
    }
}

/// One entry of the catalogue, with its status already resolved against
/// the configuration.
#[derive(Clone, Copy, Debug)]
pub struct IntegrationEntry {
    pub name: &'static str,
    pub description: &'static str,
    pub category: IntegrationCategory,
    pub status: IntegrationStatus,
}

/// The names of the catalogue's entries, in order.
pub open spec fn spec_catalogue_names() -> Seq<Seq<char>> {
    seq![
        "Telegram"@,
        "Discord"@,
        "Slack"@,
        "Signal"@,
        "iMessage"@,
        "OpenRouter"@,
        "Ollama"@,
        "GitHub"@,
        "Browser"@,
        "Cron"@,
        "Webhooks"@,
        "Spotify"@,
        "Home Assistant"@,
        "Mastodon"@,
    ]
}

/// The catalogue, with each status resolved against the configuration:
/// one entry per catalogue name, in order.
pub fn all_integrations(config: &Config) -> (r: Vec<IntegrationEntry>)
    ensures
        r@.len() > 0,
        r@.map_values(|e: IntegrationEntry| e.name@) == spec_catalogue_names(),
{
    let telegram = if config.channels_config.telegram.is_some() {
        IntegrationStatus::Active
    } else {
        IntegrationStatus::Available
    };
    let discord = if config.channels_config.discord {
        IntegrationStatus::Active
    } else {
        IntegrationStatus::Available
    };
    let slack = if config.channels_config.slack {
        IntegrationStatus::Active
    } else {
        IntegrationStatus::Available
    };
    let signal = if config.channels_config.signal.is_some() {
        IntegrationStatus::Active
    } else {
        IntegrationStatus::Available
    };
    let mut out: Vec<IntegrationEntry> = Vec::new();
    out.push(
        IntegrationEntry {
            name: "Telegram",
            description: "Chat with the agent through a Telegram bot",
            category: IntegrationCategory::Chat,
            status: telegram,
        },
    );
    out.push(
        IntegrationEntry {
            name: "Discord",
            description: "Run the agent as a Discord bot",
            category: IntegrationCategory::Chat,
            status: discord,
        },
    );
    out.push(
        IntegrationEntry {
            name: "Slack",
            description: "Connect the agent to a Slack workspace",
            category: IntegrationCategory::Chat,
            status: slack,
        },
    );
    out.push(
        IntegrationEntry {
            name: "Signal",
            description: "Bridge the agent to Signal with PIN gating",
            category: IntegrationCategory::Chat,
            status: signal,
        },
    );
    out.push(
        IntegrationEntry {
            name: "iMessage",
            description: "Send and receive iMessages through the desktop bridge",
            category: IntegrationCategory::Chat,
            status: IntegrationStatus::Available,
        },
    );
    out.push(
        IntegrationEntry {
            name: "OpenRouter",
            description: "Access hundreds of models with one API key",
            category: IntegrationCategory::AiModel,
            status: IntegrationStatus::Available,
        },
    );
    out.push(
        IntegrationEntry {
            name: "Ollama",
            description: "Run local models through an Ollama server",
            category: IntegrationCategory::AiModel,
            status: IntegrationStatus::Available,
        },
    );
    out.push(
        IntegrationEntry {
            name: "GitHub",
            description: "Work with repositories, issues and pull requests",
            category: IntegrationCategory::Productivity,
            status: IntegrationStatus::Available,
        },
    );
    out.push(
        IntegrationEntry {
            name: "Browser",
            description: "Open approved pages in a local browser",
            category: IntegrationCategory::ToolsAutomation,
            status: IntegrationStatus::Available,
        },
    );
    out.push(
        IntegrationEntry {
            name: "Cron",
            description: "Schedule recurring and one-shot tasks",
            category: IntegrationCategory::ToolsAutomation,
            status: IntegrationStatus::Available,
        },
    );
    out.push(
        IntegrationEntry {
            name: "Webhooks",
            description: "Trigger the agent over HTTP",
            category: IntegrationCategory::ToolsAutomation,
            status: IntegrationStatus::Available,
        },
    );
    out.push(
        IntegrationEntry {
            name: "Spotify",
            description: "Control playback and playlists",
            category: IntegrationCategory::MusicAudio,
            status: IntegrationStatus::ComingSoon,
        },
    );
    out.push(
        IntegrationEntry {
            name: "Home Assistant",
            description: "Drive smart-home automations",
            category: IntegrationCategory::SmartHome,
            status: IntegrationStatus::ComingSoon,
        },
    );
    out.push(
        IntegrationEntry {
            name: "Mastodon",
            description: "Post and read from the fediverse",
            category: IntegrationCategory::Social,
            status: IntegrationStatus::ComingSoon,
        },
    );
    proof {
        assert(out@.map_values(|e: IntegrationEntry| e.name@) =~= spec_catalogue_names());
    }
    out
}

/// The `integrations` subcommands.
pub enum IntegrationCommands {
    List { category: Option<String>, status: Option<String> },
    Search { query: String },
    Info { name: String },
}

/// The icon and label a status is rendered with.
pub fn status_icon(status: IntegrationStatus) -> (r: (&'static str, &'static str))
    ensures
        status == IntegrationStatus::Active ==> r.1@ == "Active"@,
        status == IntegrationStatus::Available ==> r.1@ == "Available"@,
        status == IntegrationStatus::ComingSoon ==> r.1@ == "Coming Soon"@,
{
    match status {
        IntegrationStatus::Active => ("\u{2705}", "Active"),
        IntegrationStatus::Available => ("\u{26AA}", "Available"),
        IntegrationStatus::ComingSoon => ("\u{1F51C}", "Coming Soon"),
    }
}

/// A filter value reduced to its ASCII letters and digits, lowercased.
pub open spec fn spec_filter_norm(s: Seq<char>) -> Seq<char>
    decreases s.len(),
{
    if s.len() == 0 {
        Seq::empty()
    } else {
        let rest = spec_filter_norm(s.drop_last());
        let c = lower_char(s.last());
        if crate::text::is_alnum_char(c) {
            rest.push(c)
        } else {
            rest
        }
    }
}

/// Normalise a filter value: lowercase it and keep only ASCII letters
/// and digits, so `ai-models`, `AI Models` and `aimodels` agree.
pub fn normalize_filter_value(value: &str) -> (r: String)
    ensures
        r@ == spec_filter_norm(value@),
{
    let n = value.unicode_len();
    let mut out = String::new();
    let mut i: usize = 0;
    while i < n
        invariant
            n == value@.len(),
            i <= n,
            out@ == spec_filter_norm(value@.subrange(0, i as int)),
        decreases n - i,
    {
        let c = value.get_char(i);
        let v = c as u32;
        let lowered: char = if 65 <= v && v <= 90 {
            ((v + 32) as u8) as char
        } else {
            c
        };
        let lv = lowered as u32;
        if (48 <= lv && lv <= 57) || (97 <= lv && lv <= 122) {
            push_char(&mut out, lowered);
        }
        i = i + 1;
        proof {
            let pre = value@.subrange(0, i as int);
            assert(pre.drop_last() =~= value@.subrange(0, i as int - 1));
            assert(pre.last() == value@[i as int - 1]);
        }
    }
    proof {
        assert(value@.subrange(0, n as int) == value@);
    }
    out
}

/// Parse a category filter, accepting the common aliases.
pub fn parse_category_filter(value: &str) -> (r: Result<IntegrationCategory, String>)
    ensures
        ({
            let k = spec_filter_norm(value@);
            match r {
                Ok(c) => c == spec_category_for(k)->Some_0 && spec_category_for(k) is Some,
                Err(e) => spec_category_for(k) is None && e@ == "Unknown category filter: "@
                    + value@
                    + ". Valid options: chat, ai-models, productivity, music-audio, smart-home, tools-automation, media-creative, social, platforms."@,
            }
        }),
{
    let k = normalize_filter_value(value);
    let s = k.as_str();
    if str_eq(s, "chat") || str_eq(s, "chats") || str_eq(s, "chatprovider") || str_eq(
        s,
        "chatproviders",
    ) {
        Ok(IntegrationCategory::Chat)
    } else if str_eq(s, "ai") || str_eq(s, "model") || str_eq(s, "models") || str_eq(s, "aimodel")
        || str_eq(s, "aimodels") {
        Ok(IntegrationCategory::AiModel)
    } else if str_eq(s, "productivity") {
        Ok(IntegrationCategory::Productivity)
    } else if str_eq(s, "music") || str_eq(s, "audio") || str_eq(s, "musicaudio") {
        Ok(IntegrationCategory::MusicAudio)
    } else if str_eq(s, "smarthome") || str_eq(s, "home") {
        Ok(IntegrationCategory::SmartHome)
    } else if str_eq(s, "tools") || str_eq(s, "automation") || str_eq(s, "toolsautomation") {
        Ok(IntegrationCategory::ToolsAutomation)
    } else if str_eq(s, "media") || str_eq(s, "creative") || str_eq(s, "mediacreative") {
        Ok(IntegrationCategory::MediaCreative)
    } else if str_eq(s, "social") {
        Ok(IntegrationCategory::Social)
    } else if str_eq(s, "platform") || str_eq(s, "platforms") {
        Ok(IntegrationCategory::Platform)
    } else {
        let e = "Unknown category filter: ".to_owned().concat(value).concat(
            ". Valid options: chat, ai-models, productivity, music-audio, smart-home, tools-automation, media-creative, social, platforms.",
        );
        proof {
            assert(e@ =~= "Unknown category filter: "@ + value@
                + ". Valid options: chat, ai-models, productivity, music-audio, smart-home, tools-automation, media-creative, social, platforms."@);
        }
        Err(e)
    }
}

/// The category a normalised filter value names, if any.
pub open spec fn spec_category_for(k: Seq<char>) -> Option<IntegrationCategory> {
    if k == "chat"@ || k == "chats"@ || k == "chatprovider"@ || k == "chatproviders"@ {
        Some(IntegrationCategory::Chat)
    } else if k == "ai"@ || k == "model"@ || k == "models"@ || k == "aimodel"@ || k
        == "aimodels"@ {
        Some(IntegrationCategory::AiModel)
    } else if k == "productivity"@ {
        Some(IntegrationCategory::Productivity)
    } else if k == "music"@ || k == "audio"@ || k == "musicaudio"@ {
        Some(IntegrationCategory::MusicAudio)
    } else if k == "smarthome"@ || k == "home"@ {
        Some(IntegrationCategory::SmartHome)
    } else if k == "tools"@ || k == "automation"@ || k == "toolsautomation"@ {
        Some(IntegrationCategory::ToolsAutomation)
    } else if k == "media"@ || k == "creative"@ || k == "mediacreative"@ {
        Some(IntegrationCategory::MediaCreative)
    } else if k == "social"@ {
        Some(IntegrationCategory::Social)
    } else if k == "platform"@ || k == "platforms"@ {
        Some(IntegrationCategory::Platform)
    } else {
        None
    }
}

/// The status a normalised filter value names, if any.
pub open spec fn spec_status_for(k: Seq<char>) -> Option<IntegrationStatus> {
    if k == "active"@ {
        Some(IntegrationStatus::Active)
    } else if k == "available"@ {
        Some(IntegrationStatus::Available)
    } else if k == "comingsoon"@ || k == "planned"@ {
        Some(IntegrationStatus::ComingSoon)
    } else {
        None
    }
}

/// Parse a status filter.
pub fn parse_status_filter(value: &str) -> (r: Result<IntegrationStatus, String>)
    ensures
        ({
            let k = spec_filter_norm(value@);
            match r {
                Ok(c) => spec_status_for(k) == Some(c),
                Err(e) => spec_status_for(k) is None && e@ == "Unknown status filter: "@ + value@
                    + ". Valid options: active, available, coming-soon."@,
            }
        }),
{
    let k = normalize_filter_value(value);
    let s = k.as_str();
    if str_eq(s, "active") {
        Ok(IntegrationStatus::Active)
    } else if str_eq(s, "available") {
        Ok(IntegrationStatus::Available)
    } else if str_eq(s, "comingsoon") || str_eq(s, "planned") {
        Ok(IntegrationStatus::ComingSoon)
    } else {
        let e = "Unknown status filter: ".to_owned().concat(value).concat(
            ". Valid options: active, available, coming-soon.",
        );
        proof {
            assert(e@ =~= "Unknown status filter: "@ + value@
                + ". Valid options: active, available, coming-soon."@);
        }
        Err(e)
    }
}

/// Whether one entry passes the active filters. The search query is
/// already trimmed and lowercased.
pub open spec fn entry_passes(
    e: IntegrationEntry,
    category: Option<IntegrationCategory>,
    status: Option<IntegrationStatus>,
    query: Option<Seq<char>>,
) -> bool {
    &&& (match category {
        Some(c) => e.category == c,
        None => true,
    })
    &&& (match status {
        Some(st) => e.status == st,
        None => true,
    })
    &&& (match query {
        Some(q) => contains_seq(e.name@.map_values(|c: char| lower_char(c)), q) || contains_seq(
            e.description@.map_values(|c: char| lower_char(c)),
            q,
        ),
        None => true,
    })
}

/// The entries passing the filters, in catalogue order.
pub open spec fn spec_filtered(
    entries: Seq<IntegrationEntry>,
    category: Option<IntegrationCategory>,
    status: Option<IntegrationStatus>,
    query: Option<Seq<char>>,
) -> Seq<IntegrationEntry>
    decreases entries.len(),
{
    if entries.len() == 0 {
        Seq::empty()
    } else {
        let rest = spec_filtered(entries.drop_last(), category, status, query);
        if entry_passes(entries.last(), category, status, query) {
            rest.push(entries.last())
        } else {
            rest
        }
    }
}

/// The effective query of a search: trimmed and lowercased; a blank
/// query filters nothing.
pub open spec fn spec_effective_query(q: Option<Seq<char>>) -> Option<Seq<char>> {
    match q {
        Some(s) => if trim_chars(s).len() == 0 {
            None
        } else {
            Some(trim_chars(s).map_values(|c: char| lower_char(c)))
        },
        None => None,
    }
}

/// Apply category, status and keyword filters to the catalogue.
pub fn filtered_integrations(
    entries: &Vec<IntegrationEntry>,
    category_filter: Option<IntegrationCategory>,
    status_filter: Option<IntegrationStatus>,
    search_query: Option<&str>,
) -> (r: Vec<IntegrationEntry>)
    ensures
        r@ == spec_filtered(
            entries@,
            category_filter,
            status_filter,
            spec_effective_query(
                match search_query {
                    Some(q) => Some(q@),
                    None => None,
                },
            ),
        ),
{
    let query: Option<String> = match search_query {
        Some(q) => {
            let t = str_trim(q);
            if t.unicode_len() == 0 {
                None
            } else {
                Some(to_ascii_lowercase_str(t))
            }
        },
        None => None,
    };
    let mut out: Vec<IntegrationEntry> = Vec::new();
    let mut i: usize = 0;
    let ghost gq = spec_effective_query(
        match search_query {
            Some(q) => Some(q@),
            None => None,
        },
    );
    proof {
        match query {
            Some(ref qs) => {
                assert(gq == Some(qs@));
            },
            None => {
                assert(gq is None);
            },
        }
    }
    while i < entries.len()
        invariant
            i <= entries@.len(),
            (match query {
                Some(ref qs) => gq == Some(qs@),
                None => gq is None,
            }),
            out@ == spec_filtered(
                entries@.subrange(0, i as int),
                category_filter,
                status_filter,
                gq,
            ),
        decreases entries@.len() - i,
    {
        let e = entries[i];
        let cat_ok = match category_filter {
            Some(c) => category_eq(e.category, c),
            None => true,
        };
        let st_ok = match status_filter {
            Some(st) => status_eq(e.status, st),
            None => true,
        };
        let q_ok = match &query {
            Some(qs) => {
                let name_l = to_ascii_lowercase_str(e.name);
                let desc_l = to_ascii_lowercase_str(e.description);
                str_contains(name_l.as_str(), qs.as_str()) || str_contains(
                    desc_l.as_str(),
                    qs.as_str(),
                )
            },
            None => true,
        };
        if cat_ok && st_ok && q_ok {
            out.push(e);
        }
        i = i + 1;
        proof {
            let pre = entries@.subrange(0, i as int);
            assert(pre.drop_last() =~= entries@.subrange(0, i as int - 1));
            assert(pre.last() == entries@[i as int - 1]);
        }
    }
    proof {
        assert(entries@.subrange(0, entries@.len() as int) == entries@);
    }
    out
}

fn category_eq(a: IntegrationCategory, b: IntegrationCategory) -> (r: bool)
    ensures
        r == (a == b),
{
    a == b
}

fn status_eq(a: IntegrationStatus, b: IntegrationStatus) -> (r: bool)
    ensures
        r == (a == b),
{
    a == b
}

/// Run one `integrations` command and render its answer. Unknown
/// filters and unknown integration names are errors; an empty search
/// result is not.
pub fn handle_command(command: IntegrationCommands, config: &Config) -> (r: Result<String, String>)
    ensures
        (command matches IntegrationCommands::Search { query } && trim_chars(query@).len() == 0)
            ==> (r matches Err(e) && e@ == "Search query cannot be empty."@),
        (command matches IntegrationCommands::Search { query } && trim_chars(query@).len() > 0)
            ==> r is Ok,
        command matches IntegrationCommands::List { category, status } ==> ({
            &&& (category matches Some(c) && spec_category_for(spec_filter_norm(c@)) is None)
                ==> r is Err
            &&& ((match category {
                Some(c) => spec_category_for(spec_filter_norm(c@)) is Some,
                None => true,
            }) && (status matches Some(st) && spec_status_for(spec_filter_norm(st@)) is None))
                ==> r is Err
            &&& ((match category {
                Some(c) => spec_category_for(spec_filter_norm(c@)) is Some,
                None => true,
            }) && (match status {
                Some(st) => spec_status_for(spec_filter_norm(st@)) is Some,
                None => true,
            })) ==> r is Ok
        }),
        command matches IntegrationCommands::Info { name } ==> (r matches Err(e) ==> e@
            == "Unknown integration: "@ + name@
            + ". Run the onboarding command to configure channels and providers."@),
        command matches IntegrationCommands::Info { name } ==> (r is Ok <==> exists|i: int|
            0 <= i < spec_catalogue_names().len() && (#[trigger] spec_catalogue_names()[i])
                .map_values(|c: char| lower_char(c)) == name@.map_values(|c: char| lower_char(c))),
{
    match command {
        IntegrationCommands::List { category, status } => {
            let category_filter = match category {
                Some(value) => {
                    match parse_category_filter(value.as_str()) {
                        Ok(c) => Some(c),
                        Err(e) => {
                            return Err(e);
                        },
                    }
                },
                None => None,
            };
            let status_filter = match status {
                Some(value) => {
                    match parse_status_filter(value.as_str()) {
                        Ok(st) => Some(st),
                        Err(e) => {
                            return Err(e);
                        },
                    }
                },
                None => None,
            };
            let entries = all_integrations(config);
            let filtered = filtered_integrations(&entries, category_filter, status_filter, None);
            if filtered.len() == 0 {
                return Ok("  No integrations matched the selected filters.\n".to_owned());
            }
            let mut out = String::new();
            let cats = IntegrationCategory::all();
            let mut c: usize = 0;
            while c < cats.len()
                decreases cats@.len() - c,
            {
                let cat = cats[c];
                let mut any = false;
                let mut k: usize = 0;
                while k < filtered.len()
                    decreases filtered@.len() - k,
                {
                    if category_eq(filtered[k].category, cat) {
                        if !any {
                            out.append("  ");
                            out.append(cat.label());
                            out.append("\n");
                            any = true;
                        }
                        let (icon, label) = status_icon(filtered[k].status);
                        out.append("    ");
                        out.append(icon);
                        out.append(" ");
                        out.append(filtered[k].name);
                        out.append(" (");
                        out.append(label);
                        out.append(") \u{2014} ");
                        out.append(filtered[k].description);
                        out.append("\n");
                    }
                    k = k + 1;
                }
                c = c + 1;
            }
            Ok(out)
        },
        IntegrationCommands::Search { query } => {
            if str_trim(query.as_str()).unicode_len() == 0 {
                return Err("Search query cannot be empty.".to_owned());
            }
            let entries = all_integrations(config);
            let hits = filtered_integrations(&entries, None, None, Some(query.as_str()));
            if hits.len() == 0 {
                let mut out = String::new();
                out.append("  No integrations matched \"");
                out.append(query.as_str());
                out.append("\".\n  Try a broader keyword.\n");
                return Ok(out);
            }
            let mut out = String::new();
            out.append("  Search results for \"");
            out.append(query.as_str());
            out.append("\":\n");
            let mut k: usize = 0;
            while k < hits.len()
                decreases hits@.len() - k,
            {
                let (icon, label) = status_icon(hits[k].status);
                out.append("  ");
                out.append(icon);
                out.append(" ");
                out.append(hits[k].name);
                out.append(" [");
                out.append(hits[k].category.label());
                out.append(" \u{2022} ");
                out.append(label);
                out.append("] \u{2014} ");
                out.append(hits[k].description);
                out.append("\n");
                k = k + 1;
            }
            Ok(out)
        },
        IntegrationCommands::Info { name } => {
            let entries = all_integrations(config);
            let name_lower = to_ascii_lowercase_str(name.as_str());
            let mut found: Option<IntegrationEntry> = None;
            let mut k: usize = 0;
            while k < entries.len()
                invariant
                    entries@.map_values(|e: IntegrationEntry| e.name@) == spec_catalogue_names(),
                    k <= entries@.len(),
                    name_lower@ == name@.map_values(|c: char| lower_char(c)),
                    found is Some <==> exists|t: int|
                        0 <= t < k && (#[trigger] entries@[t]).name@.map_values(
                            |c: char| lower_char(c),
                        ) == name@.map_values(|c: char| lower_char(c)),
                decreases entries@.len() - k,
            {
                let candidate = to_ascii_lowercase_str(entries[k].name);
                if str_eq(candidate.as_str(), name_lower.as_str()) && found.is_none() {
                    found = Some(entries[k]);
                }
                k = k + 1;
            }
            proof {
                if found is Some {
                    let t = choose|t: int|
                        0 <= t < entries@.len() && (#[trigger] entries@[t]).name@.map_values(
                            |c: char| lower_char(c),
                        ) == name@.map_values(|c: char| lower_char(c));
                    assert(spec_catalogue_names()[t] == entries@[t].name@);
                } else {
                    assert forall|i: int|
                        0 <= i < spec_catalogue_names().len()
                            implies (#[trigger] spec_catalogue_names()[i]).map_values(
                        |c: char| lower_char(c),
                    ) != name@.map_values(|c: char| lower_char(c)) by {
                        assert(spec_catalogue_names()[i] == entries@[i].name@);
                    }
                }
            }
            match found {
                Some(entry) => {
                    let (icon, label) = status_icon(entry.status);
                    let mut out = String::new();
                    out.append("  ");
                    out.append(icon);
                    out.append(" ");
                    out.append(entry.name);
                    out.append(" \u{2014} ");
                    out.append(entry.description);
                    out.append("\n  Category: ");
                    out.append(entry.category.label());
                    out.append("\n  Status:   ");
                    out.append(label);
                    out.append("\n");
                    Ok(out)
                },
                None => {
                    let e = "Unknown integration: ".to_owned().concat(name.as_str()).concat(
                        ". Run the onboarding command to configure channels and providers.",
                    );
                    proof {
                        assert(e@ =~= "Unknown integration: "@ + name@
                            + ". Run the onboarding command to configure channels and providers."@);
                    }
                    Err(e)
                },
            }
        },
    }
}

} // verus!
