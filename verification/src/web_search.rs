//! The web-search tool: provider selection, round-robin API keys, query
//! gating, result formatting, and the parsing of DuckDuckGo's HTML
//! results. The HTTP requests themselves are I/O and run in the
//! embedding layer.

use vstd::prelude::*;

use crate::security::SecurityPolicy;
use crate::text::{
    contains_seq, first_occurrence, lemma_first_occurrence_bound, lemma_first_occurrence_found,
    lemma_first_occurrence_none, lower_char, push_char, seek_last_char, str_eq, str_find,
    str_trim, to_ascii_lowercase_str, trim_chars, u64_to_string,
};
use crate::url_validation::seek_char;

verus! {

/// The search tool's state.
pub struct WebSearchTool {
    pub security: SecurityPolicy,
    pub provider: String,
    pub api_keys: Vec<String>,
    pub api_url: Option<String>,
    pub max_results: usize,
    pub timeout_secs: u64,
    pub user_agent: String,
    pub key_index: usize,
}

/// The configured API keys: comma-separated values, trimmed, blanks
/// dropped, in order.
pub open spec fn spec_api_keys(s: Seq<char>) -> Seq<Seq<char>>
    decreases s.len(),
{
    let j = seek_char(s, 0, ',');
    let head = trim_chars(s.subrange(0, j));
    let this = if head.len() > 0 {
        seq![head]
    } else {
        Seq::<Seq<char>>::empty()
    };
    if j >= s.len() || j < 0 {
        this
    } else {
        this + spec_api_keys(s.skip(j + 1))
    }
}

fn seek_comma(s: &str, from: usize) -> (r: usize)
    requires
        from <= s@.len(),
    ensures
        r == seek_char(s@, from as int, ','),
        from <= r <= s@.len(),
    {
    let n = s.unicode_len();
    let mut i: usize = from;
    while i < n
        invariant
            n == s@.len(),
            from <= i <= n,
            seek_char(s@, from as int, ',') == seek_char(s@, i as int, ','),
        decreases n - i,
    {
        if s.get_char(i) == ',' {
            return i;
        }
        i = i + 1;
    }
    n
}

/// Split a key list on commas, trim each part and drop the blanks.
fn split_keys(s: &str, out: &mut Vec<String>)
    ensures
        final(out)@.map_values(|x: String| x@) == old(out)@.map_values(|x: String| x@)
            + spec_api_keys(s@),
    decreases s@.len(),
{
    let ghost before = out@.map_values(|x: String| x@);
    let ghost head = trim_chars(s@.subrange(0, seek_char(s@, 0, ',')));
    let ghost this = if head.len() > 0 {
        seq![head]
    } else {
        Seq::<Seq<char>>::empty()
    };
    let n = s.unicode_len();
    let j = seek_comma(s, 0);
    let seg = s.substring_char(0, j);
    let trimmed = str_trim(seg);
    if trimmed.unicode_len() > 0 {
        out.push(trimmed.to_owned());
        proof {
            assert(out@.map_values(|x: String| x@) =~= before.push(head));
            assert(before.push(head) =~= before + this);
        }
    } else {
        proof {
            assert(out@.map_values(|x: String| x@) =~= before + this);
        }
    }
    let ghost mid = out@.map_values(|x: String| x@);
    if j < n {
        let rest = s.substring_char(j + 1, n);
        proof {
            assert(rest@ =~= s@.skip(j as int + 1));
        }
        split_keys(rest, out);
        proof {
            assert(spec_api_keys(s@) == this + spec_api_keys(rest@));
            assert(out@.map_values(|x: String| x@) == mid + spec_api_keys(rest@));
            assert((before + this) + spec_api_keys(rest@) =~= before + (this + spec_api_keys(
                rest@,
            )));
        }
    } else {
        proof {
            assert(spec_api_keys(s@) == this);
        }
    }
}

/// The providers the tool can route a search to.
#[derive(Clone, Copy, Debug, PartialEq, Eq, Structural)]
pub enum SearchProvider {
    DuckDuckGo,
    Brave,
    Firecrawl,
    Tavily,
}

/// The provider a configured name routes to, if any.
pub open spec fn spec_search_provider(p: Seq<char>) -> Option<SearchProvider> {
    if p == "duckduckgo"@ || p == "ddg"@ {
        Some(SearchProvider::DuckDuckGo)
    } else if p == "brave"@ {
        Some(SearchProvider::Brave)
    } else if p == "firecrawl"@ {
        Some(SearchProvider::Firecrawl)
    } else if p == "tavily"@ {
        Some(SearchProvider::Tavily)
    } else {
        None
    }
}

/// The refusal for a keyed provider without a configured key.
pub open spec fn spec_missing_key_notice(p: SearchProvider) -> Seq<char> {
    match p {
        SearchProvider::DuckDuckGo => Seq::empty(),
        SearchProvider::Brave => "Brave API key not configured"@,
        SearchProvider::Firecrawl =>
            "web_search provider 'firecrawl' requires [web_search].api_key in config.toml"@,
        SearchProvider::Tavily =>
            "web_search provider 'tavily' requires [web_search].api_key in config.toml"@,
    }
}

/// A directive carries the tool's own settings and the given query.
pub open spec fn directive_matches(d: SearchDirective, w: WebSearchTool, q: Seq<char>) -> bool {
    &&& d.query@ == q
    &&& d.api_url == w.api_url
    &&& d.max_results == w.max_results
    &&& d.timeout_secs == w.timeout_secs
    &&& d.user_agent == w.user_agent
}

impl WebSearchTool {
    /// Create the tool: the provider name is trimmed and lowercased, the
    /// API keys are split on commas for round-robin use, the result
    /// count is clamped to 1 through 10, and the timeout to at least a
    /// second.
    pub fn new(
        security: SecurityPolicy,
        provider: String,
        api_key: Option<String>,
        api_url: Option<String>,
        max_results: usize,
        timeout_secs: u64,
        user_agent: String,
    ) -> (r: WebSearchTool)
        ensures
            r.provider@ == trim_chars(provider@).map_values(|c: char| lower_char(c)),
            r.api_keys@.map_values(|x: String| x@) == (match api_key {
                Some(ref keys) => spec_api_keys(keys@),
                None => Seq::<Seq<char>>::empty(),
            }),
            r.api_url == api_url,
            r.max_results == if max_results < 1 {
                1int
            } else if max_results > 10 {
                10int
            } else {
                max_results as int
            },
            r.timeout_secs == if timeout_secs < 1 {
                1int
            } else {
                timeout_secs as int
            },
            r.user_agent == user_agent,
            r.key_index == 0,
    {
        let mut api_keys: Vec<String> = Vec::new();
        match &api_key {
            Some(keys) => {
                split_keys(keys.as_str(), &mut api_keys);
                proof {
                    assert(Seq::<Seq<char>>::empty() + spec_api_keys(keys@) =~= spec_api_keys(
                        keys@,
                    ));
                    assert(Seq::<String>::empty().map_values(|x: String| x@)
                        =~= Seq::<Seq<char>>::empty());
                }
            },
            None => {},
        }
        WebSearchTool {
            security,
            provider: to_ascii_lowercase_str(str_trim(provider.as_str())),
            api_keys,
            api_url,
            max_results: if max_results < 1 {
                1
            } else if max_results > 10 {
                10
            } else {
                max_results
            },
            timeout_secs: if timeout_secs < 1 {
                1
            } else {
                timeout_secs
            },
            user_agent,
            key_index: 0,
        }
    }

    pub fn name(&self) -> (r: &'static str)
        ensures
            r@ == "web_search_tool"@,
    {
        "web_search_tool"
    }

    pub fn description(&self) -> (r: &'static str)
        ensures
            r@
                == "Search the web for information. Returns relevant search results with titles, URLs, and descriptions. Use this to find current information, news, or research topics."@,
    {
        "Search the web for information. Returns relevant search results with titles, URLs, and descriptions. Use this to find current information, news, or research topics."
    }

    /// The tool's JSON parameter schema.
    pub fn parameters_schema(&self) -> (r: String) {
        let mut out = String::new();
        out.append("{\"type\":\"object\",\"properties\":{\"query\":{\"type\":\"string\",");
        out.append("\"description\":\"The search query. Be specific for better results.\"}},");
        out.append("\"required\":[\"query\"]}");
        out
    }

    /// The next API key under the round-robin strategy, or nothing when
    /// no key is configured.
    pub fn get_next_api_key(&mut self) -> (r: Option<String>)
        ensures
            old(self).api_keys@.len() == 0 ==> (r is None && *final(self) == *old(self)),
            old(self).api_keys@.len() > 0 ==> {
                &&& r matches Some(k) && k@ == old(self).api_keys@[(
                    old(self).key_index as int % old(self).api_keys@.len() as int
                )]@
                &&& final(self).key_index == (if old(self).key_index == usize::MAX {
                    0int
                } else {
                    old(self).key_index + 1
                })
                &&& final(self).api_keys@ == old(self).api_keys@
                &&& final(self).provider == old(self).provider
                &&& final(self).security == old(self).security
                &&& final(self).api_url == old(self).api_url
                &&& final(self).max_results == old(self).max_results
                &&& final(self).timeout_secs == old(self).timeout_secs
                &&& final(self).user_agent == old(self).user_agent
            },
    {
        if self.api_keys.len() == 0 {
            return None;
        }
        let idx = self.key_index % self.api_keys.len();
        self.key_index = if self.key_index == usize::MAX {
            0
        } else {
            self.key_index + 1
        };
        Some(self.api_keys[idx].clone())
    }

    /// Gate and route one search call: the security policy is consulted
    /// (read-only and a spent rate limit each refuse with their exact
    /// notice), the query must be present and non-blank, the provider
    /// must be known, and a keyed provider draws its round-robin key —
    /// each refusal if and only if its cause, and otherwise a directive
    /// carrying the tool's own settings. The embedding layer performs
    /// the HTTP request the directive describes.
    pub fn prepare_search(&mut self, query: Option<&str>) -> (r: Result<
        SearchDirective,
        SearchRefusal,
    >)
        ensures
            old(self).security.autonomy == crate::security::AutonomyLevel::ReadOnly ==> (r
                matches Err(SearchRefusal::Blocked { message }) && message@
                == "Action blocked: autonomy is read-only"@ && *final(self) == *old(self)),
            (old(self).security.autonomy != crate::security::AutonomyLevel::ReadOnly
                && old(self).security.actions_recorded >= old(self).security.max_actions_per_hour)
                ==> (r matches Err(SearchRefusal::Blocked { message }) && message@
                == "Action blocked: rate limit exceeded"@ && *final(self) == *old(self)),
            crate::security::gate_admits(old(self).security) ==> {
                &&& final(self).provider == old(self).provider
                &&& final(self).api_keys@ == old(self).api_keys@
                &&& final(self).api_url == old(self).api_url
                &&& final(self).max_results == old(self).max_results
                &&& final(self).timeout_secs == old(self).timeout_secs
                &&& final(self).user_agent == old(self).user_agent
                &&& final(self).security == (crate::security::SecurityPolicy {
                    actions_recorded: (old(self).security.actions_recorded + 1) as u32,
                    ..old(self).security
                })
                &&& (match query {
                    None => r matches Err(SearchRefusal::Invalid { message }) && message@
                        == "Missing required parameter: query"@
                        && final(self).key_index == old(self).key_index,
                    Some(q) => if trim_chars(q@).len() == 0 {
                        r matches Err(SearchRefusal::Invalid { message }) && message@
                            == "Search query cannot be empty"@
                            && final(self).key_index == old(self).key_index
                    } else {
                        match spec_search_provider(old(self).provider@) {
                            None => r matches Err(SearchRefusal::Invalid { message }) && message@
                                == "Unknown search provider: '"@ + old(self).provider@
                                + "'. Set [web_search].provider to 'duckduckgo', 'brave', 'firecrawl', or 'tavily' in config.toml"@
                                && final(self).key_index == old(self).key_index,
                            Some(SearchProvider::DuckDuckGo) => r matches Ok(d)
                                && directive_matches(d, *old(self), q@) && d.provider
                                == SearchProvider::DuckDuckGo && d.api_key is None
                                && final(self).key_index == old(self).key_index,
                            Some(prov) => if old(self).api_keys@.len() == 0 {
                                r matches Err(SearchRefusal::Invalid { message }) && message@
                                    == spec_missing_key_notice(prov) && final(self).key_index
                                    == old(self).key_index
                            } else {
                                r matches Ok(d) && directive_matches(d, *old(self), q@)
                                    && d.provider == prov && (d.api_key matches Some(k) && k@
                                    == old(self).api_keys@[(
                                old(self).key_index as int % old(self).api_keys@.len() as int
                                )]@) && final(self).key_index == (if old(self).key_index
                                    == usize::MAX {
                                    0int
                                } else {
                                    old(self).key_index + 1
                                })
                            },
                        }
                    },
                })
            },
    {
        proof {
            reveal_strlit("duckduckgo");
            reveal_strlit("ddg");
            reveal_strlit("brave");
            reveal_strlit("firecrawl");
            reveal_strlit("tavily");
        }
        if !self.security.can_act() {
            return Err(SearchRefusal::Blocked {
                message: "Action blocked: autonomy is read-only".to_owned(),
            });
        }
        if !self.security.record_action() {
            return Err(SearchRefusal::Blocked {
                message: "Action blocked: rate limit exceeded".to_owned(),
            });
        }
        let q = match query {
            Some(q) => q,
            None => {
                return Err(SearchRefusal::Invalid {
                    message: "Missing required parameter: query".to_owned(),
                });
            },
        };
        if str_trim(q).unicode_len() == 0 {
            return Err(SearchRefusal::Invalid {
                message: "Search query cannot be empty".to_owned(),
            });
        }
        let provider = if str_eq(self.provider.as_str(), "duckduckgo") || str_eq(
            self.provider.as_str(),
            "ddg",
        ) {
            SearchProvider::DuckDuckGo
        } else if str_eq(self.provider.as_str(), "brave") {
            SearchProvider::Brave
        } else if str_eq(self.provider.as_str(), "firecrawl") {
            SearchProvider::Firecrawl
        } else if str_eq(self.provider.as_str(), "tavily") {
            SearchProvider::Tavily
        } else {
            let mut msg = "Unknown search provider: '".to_owned();
            msg.append(self.provider.as_str());
            msg.append(
                "'. Set [web_search].provider to 'duckduckgo', 'brave', 'firecrawl', or 'tavily' in config.toml",
            );
            proof {
                assert(msg@ =~= "Unknown search provider: '"@ + old(self).provider@
                    + "'. Set [web_search].provider to 'duckduckgo', 'brave', 'firecrawl', or 'tavily' in config.toml"@);
            }
            return Err(SearchRefusal::Invalid { message: msg });
        };
        let api_key = match provider {
            SearchProvider::DuckDuckGo => None,
            SearchProvider::Brave => {
                match self.get_next_api_key() {
                    Some(k) => Some(k),
                    None => {
                        return Err(SearchRefusal::Invalid {
                            message: "Brave API key not configured".to_owned(),
                        });
                    },
                }
            },
            SearchProvider::Firecrawl => {
                match self.get_next_api_key() {
                    Some(k) => Some(k),
                    None => {
                        return Err(SearchRefusal::Invalid {
                            message:
                                "web_search provider 'firecrawl' requires [web_search].api_key in config.toml".to_owned(),
                        });
                    },
                }
            },
            SearchProvider::Tavily => {
                match self.get_next_api_key() {
                    Some(k) => Some(k),
                    None => {
                        return Err(SearchRefusal::Invalid {
                            message:
                                "web_search provider 'tavily' requires [web_search].api_key in config.toml".to_owned(),
                        });
                    },
                }
            },
        };
        Ok(
            SearchDirective {
                provider,
                query: q.to_owned(),
                api_key,
                api_url: match &self.api_url {
                    Some(u) => Some(u.clone()),
                    None => None,
                },
                max_results: self.max_results,
                timeout_secs: self.timeout_secs,
                user_agent: self.user_agent.clone(),
            },
        )
    }
}

/// One search the embedding layer is asked to perform.
pub struct SearchDirective {
    pub provider: SearchProvider,
    pub query: String,
    pub api_key: Option<String>,
    pub api_url: Option<String>,
    pub max_results: usize,
    pub timeout_secs: u64,
    pub user_agent: String,
}

/// Why a search call was refused before any request went out.
pub enum SearchRefusal {
    /// The security policy refused the action.
    Blocked { message: String },
    /// The arguments or the configuration are unusable.
    Invalid { message: String },
}

// ---------------------------------------------------------------------------
// Result rendering
// ---------------------------------------------------------------------------

/// One rendered result entry: its one-based number, the trimmed title
/// and URL, and the trimmed snippet when it is non-blank.
pub open spec fn spec_result_entry(
    idx1: nat,
    title: Seq<char>,
    url: Seq<char>,
    snippet: Seq<char>,
) -> Seq<char> {
    let base = "\n"@ + crate::text::spec_u64_digits(idx1) + ". "@ + trim_chars(title) + "\n   "@
        + trim_chars(url);
    if trim_chars(snippet).len() > 0 {
        base + "\n   "@ + trim_chars(snippet)
    } else {
        base
    }
}

/// The first `count` result entries, rendered in order.
pub open spec fn spec_result_entries(results: Seq<(String, String, String)>, count: int) -> Seq<
    char,
>
    decreases count,
{
    if count <= 0 {
        Seq::empty()
    } else {
        spec_result_entries(results, count - 1) + spec_result_entry(
            count as nat,
            results[count - 1].0@,
            results[count - 1].1@,
            results[count - 1].2@,
        )
    }
}

/// The whole rendered answer for a provider's results: the no-results
/// notice, or the header followed by up to `max_results` entries.
pub open spec fn spec_format_results(
    label: Seq<char>,
    query: Seq<char>,
    results: Seq<(String, String, String)>,
    max_results: int,
) -> Seq<char> {
    if results.len() == 0 {
        "No results found for: "@ + query
    } else {
        "Search results for: "@ + query + " (via "@ + label + ")"@ + spec_result_entries(
            results,
            if results.len() <= max_results {
                results.len() as int
            } else {
                max_results
            },
        )
    }
}

/// Render extracted results — (title, url, snippet) triples — the way
/// every provider's answer is presented: exactly
/// [`spec_format_results`].
pub fn format_results(
    provider_label: &str,
    query: &str,
    results: &Vec<(String, String, String)>,
    max_results: usize,
) -> (r: String)
    ensures
        r@ == spec_format_results(provider_label@, query@, results@, max_results as int),
{
    if results.len() == 0 {
        let r = "No results found for: ".to_owned().concat(query);
        proof {
            assert(r@ =~= "No results found for: "@ + query@);
        }
        return r;
    }
    let mut out = String::new();
    out.append("Search results for: ");
    out.append(query);
    out.append(" (via ");
    out.append(provider_label);
    out.append(")");
    let ghost header = "Search results for: "@ + query@ + " (via "@ + provider_label@ + ")"@;
    proof {
        assert(out@ =~= header + spec_result_entries(results@, 0));
    }
    let n = results.len();
    let mut i: usize = 0;
    while i < n && i < max_results
        invariant
            n == results@.len(),
            i <= n,
            i <= max_results,
            out@ == header + spec_result_entries(results@, i as int),
        decreases n - i,
    {
        out.append("\n");
        out.append(u64_to_string((i + 1) as u64).as_str());
        out.append(". ");
        out.append(str_trim(results[i].0.as_str()));
        out.append("\n   ");
        out.append(str_trim(results[i].1.as_str()));
        let snippet = str_trim(results[i].2.as_str());
        if snippet.unicode_len() > 0 {
            out.append("\n   ");
            out.append(snippet);
        }
        i = i + 1;
        proof {
            assert(out@ =~= header + spec_result_entries(results@, i as int));
        }
    }
    proof {
        assert(out@ =~= spec_format_results(provider_label@, query@, results@, max_results as int));
    }
    out
}

// ---------------------------------------------------------------------------
// DuckDuckGo HTML extraction
// ---------------------------------------------------------------------------

/// What `str::replace` of complete HTML tags leaves: at a `<` that is
/// followed by at least one non-`>` character and then a `>`, the whole
/// tag is dropped; everything else is kept.
pub open spec fn spec_strip_tags(s: Seq<char>) -> Seq<char>
    decreases s.len(),
{
    if s.len() == 0 {
        Seq::empty()
    } else if s[0] == '<' {
        let j = seek_char(s, 1, '>');
        if 1 < j < s.len() {
            spec_strip_tags(s.skip(j + 1))
        } else {
            seq![s[0]] + spec_strip_tags(s.skip(1))
        }
    } else {
        seq![s[0]] + spec_strip_tags(s.skip(1))
    }
}

/// Remove complete HTML tags from text.
pub fn strip_tags(content: &str) -> (r: String)
    ensures
        r@ == spec_strip_tags(content@),
    decreases content@.len(),
{
    let n = content.unicode_len();
    if n == 0 {
        return String::new();
    }
    let c = content.get_char(0);
    if c == '<' {
        let j = seek_gt(content, 1);
        if j < n && j > 1 {
            let rest = content.substring_char(j + 1, n);
            proof {
                assert(rest@ =~= content@.skip(j as int + 1));
            }
            return strip_tags(rest);
        }
    }
    let rest = content.substring_char(1, n);
    proof {
        assert(rest@ =~= content@.skip(1));
    }
    let mut out = String::new();
    push_char(&mut out, c);
    out.append(strip_tags(rest).as_str());
    proof {
        assert(out@ =~= seq![content@[0]] + spec_strip_tags(content@.skip(1)));
    }
    out
}

fn seek_gt(s: &str, from: usize) -> (r: usize)
    requires
        from <= s@.len(),
    ensures
        r == seek_char(s@, from as int, '>'),
        from <= r <= s@.len(),
    {
    let n = s.unicode_len();
    let mut i: usize = from;
    while i < n
        invariant
            n == s@.len(),
            from <= i <= n,
            seek_char(s@, from as int, '>') == seek_char(s@, i as int, '>'),
        decreases n - i,
    {
        if s.get_char(i) == '>' {
            return i;
        }
        i = i + 1;
    }
    n
}

#[verifier::external_type_specification]
#[verifier::external_body]
pub struct ExJsonValue(serde_json::Value);

/// Relies on `serde_json::Value::get` and `Value::as_str`: each result
/// object yields its title, link and snippet under the given members,
/// with `"No title"` or an empty string where one is absent or not a
/// string.
#[verifier::external_body]
pub fn extract_result_triples(
    results: &Vec<serde_json::Value>,
    title_key: &str,
    url_key: &str,
    snippet_key: &str,
) -> (r: Vec<(String, String, String)>)
    ensures
        r@.len() == results@.len(),
{
    results.iter().map(
        |v| (
            v.get(title_key).and_then(|t| t.as_str()).unwrap_or("No title").to_string(),
            v.get(url_key).and_then(|u| u.as_str()).unwrap_or("").to_string(),
            v.get(snippet_key).and_then(|s| s.as_str()).unwrap_or("").to_string(),
        ),
    ).collect()
}

/// What decoding a percent-encoded text yields, when it is valid UTF-8
/// afterwards: what `urlencoding::decode` computes, as a function of the
/// text alone.
pub uninterp spec fn percent_decoded(s: Seq<char>) -> Option<Seq<char>>;

/// Relies on `urlencoding::decode`: percent-decodes the text; decoding
/// fails only when the decoded bytes are not UTF-8.
#[verifier::external_body]
pub fn url_decode(s: &str) -> (r: Option<String>)
    ensures
        match r {
            Some(d) => percent_decoded(s@) == Some(d@),
            None => percent_decoded(s@) is None,
        },
{
    match urlencoding::decode(s) {
        Ok(decoded) => Some(decoded.into_owned()),
        Err(_) => None,
    }
}

/// What recovering a DuckDuckGo redirect yields: the percent-decoded
/// `uddg` parameter when one is present and decodes, else the link
/// unchanged.
pub open spec fn spec_decoded_ddg_url(raw: Seq<char>) -> Seq<char> {
    let i = first_occurrence(raw, "uddg="@);
    if i >= 0 {
        let after = raw.skip(i + 5);
        let enc = after.subrange(0, seek_char(after, 0, '&'));
        match percent_decoded(enc) {
            Some(d) => d,
            None => raw,
        }
    } else {
        raw
    }
}

/// Recover the destination URL from a DuckDuckGo redirect link.
pub fn decode_ddg_redirect_url(raw_url: &str) -> (r: String)
    ensures
        r@ == spec_decoded_ddg_url(raw_url@),
{
    match str_find(raw_url, "uddg=") {
        Some(i) => {
            proof {
                crate::text::lemma_first_occurrence_found(raw_url@, "uddg="@, i as int);
                reveal_strlit("uddg=");
            }
            let n = raw_url.unicode_len();
            let after = raw_url.substring_char(i + 5, n);
            proof {
                assert(after@ =~= raw_url@.skip(i as int + 5));
            }
            let amp = seek_amp(after, 0);
            let enc = after.substring_char(0, amp);
            match url_decode(enc) {
                Some(decoded) => decoded,
                None => raw_url.to_owned(),
            }
        },
        None => {
            proof {
                crate::text::lemma_first_occurrence_none(raw_url@, "uddg="@);
            }
            raw_url.to_owned()
        },
    }
}

fn seek_amp(s: &str, from: usize) -> (r: usize)
    requires
        from <= s@.len(),
    ensures
        r == seek_char(s@, from as int, '&'),
        from <= r <= s@.len(),
    {
    let n = s.unicode_len();
    let mut i: usize = from;
    while i < n
        invariant
            n == s@.len(),
            from <= i <= n,
            seek_char(s@, from as int, '&') == seek_char(s@, i as int, '&'),
        decreases n - i,
    {
        if s.get_char(i) == '&' {
            return i;
        }
        i = i + 1;
    }
    n
}

/// One rendered DuckDuckGo entry: its number, the anchor text with tags
/// stripped and trimmed, the redirect-decoded trimmed URL, and — when a
/// snippet anchor is paired with it — the snippet's stripped, trimmed
/// text if non-blank.
pub open spec fn spec_ddg_entry(
    idx1: nat,
    link: (Seq<char>, Seq<char>),
    snippet: Option<(Seq<char>, Seq<char>)>,
) -> Seq<char> {
    let base = "\n"@ + crate::text::spec_u64_digits(idx1) + ". "@ + trim_chars(
        spec_strip_tags(link.1),
    ) + "\n   "@ + trim_chars(spec_decoded_ddg_url(link.0));
    match snippet {
        Some(sn) => {
            let text = trim_chars(spec_strip_tags(sn.1));
            if text.len() > 0 {
                base + "\n   "@ + text
            } else {
                base
            }
        },
        None => base,
    }
}

/// The first `count` DuckDuckGo entries, rendered in order, snippets
/// paired by position.
pub open spec fn spec_ddg_entries(
    links: Seq<(Seq<char>, Seq<char>)>,
    snippets: Seq<(Seq<char>, Seq<char>)>,
    count: int,
) -> Seq<char>
    decreases count,
{
    if count <= 0 {
        Seq::empty()
    } else {
        spec_ddg_entries(links, snippets, count - 1) + spec_ddg_entry(
            count as nat,
            links[count - 1],
            if count - 1 < snippets.len() {
                Some(snippets[count - 1])
            } else {
                None
            },
        )
    }
}

/// The whole rendered DuckDuckGo answer: the no-results notice when the
/// page holds no `result__a` anchor, else the header followed by up to
/// `max_results` entries over [`spec_anchor_hits`].
pub open spec fn spec_ddg_results(html: Seq<char>, query: Seq<char>, max_results: int) -> Seq<
    char,
> {
    let links = spec_anchor_hits(html, "result__a"@);
    if links.len() == 0 {
        "No results found for: "@ + query
    } else {
        let snippets = spec_anchor_hits(html, "result__snippet"@);
        "Search results for: "@ + query + " (via DuckDuckGo)"@ + spec_ddg_entries(
            links,
            snippets,
            if links.len() <= max_results {
                links.len() as int
            } else {
                max_results
            },
        )
    }
}

/// Extract DuckDuckGo result anchors from an HTML page and render them:
/// exactly [`spec_ddg_results`].
#[verifier::rlimit(100)]
#[verifier::spinoff_prover]
pub fn parse_duckduckgo_results(html: &str, query: &str, max_results: usize) -> (r: String)
    ensures
        r@ == spec_ddg_results(html@, query@, max_results as int),
        !contains_seq(html@, "result__a"@) ==> r@ == "No results found for: "@ + query@,
{
    proof {
        reveal_strlit("result__a");
        reveal_strlit("result__snippet");
        if !contains_seq(html@, "result__a"@) {
            lemma_first_occurrence_none(html@, "result__a"@);
        }
    }
    let links = extract_anchor_hits(html, "result__a");
    let snippets = extract_anchor_hits(html, "result__snippet");
    let ghost glinks = spec_anchor_hits(html@, "result__a"@);
    let ghost gsnippets = spec_anchor_hits(html@, "result__snippet"@);
    proof {
        assert(links@.len() == glinks.len());
        assert(snippets@.len() == gsnippets.len());
    }
    if links.len() == 0 {
        let r = "No results found for: ".to_owned().concat(query);
        proof {
            assert(r@ =~= "No results found for: "@ + query@);
        }
        return r;
    }
    let mut out = String::new();
    out.append("Search results for: ");
    out.append(query);
    out.append(" (via DuckDuckGo)");
    let ghost header = "Search results for: "@ + query@ + " (via DuckDuckGo)"@;
    proof {
        assert(out@ =~= header + spec_ddg_entries(glinks, gsnippets, 0));
    }
    let n = links.len();
    let mut i: usize = 0;
    while i < n && i < max_results
        invariant
            n == links@.len(),
            i <= n,
            i <= max_results,
            glinks == spec_anchor_hits(html@, "result__a"@),
            gsnippets == spec_anchor_hits(html@, "result__snippet"@),
            pair_views(links@) == glinks,
            pair_views(snippets@) == gsnippets,
            out@ == header + spec_ddg_entries(glinks, gsnippets, i as int),
        decreases n - i,
    {
        proof {
            assert(glinks[i as int] == (links@[i as int].0@, links@[i as int].1@));
        }
        out.append("\n");
        out.append(u64_to_string((i + 1) as u64).as_str());
        out.append(". ");
        out.append(str_trim(strip_tags(links[i].1.as_str()).as_str()));
        out.append("\n   ");
        out.append(str_trim(decode_ddg_redirect_url(links[i].0.as_str()).as_str()));
        if i < snippets.len() {
            proof {
                assert(gsnippets[i as int] == (snippets@[i as int].0@, snippets@[i as int].1@));
            }
            let snippet_text = strip_tags(snippets[i].1.as_str());
            let snippet = str_trim(snippet_text.as_str());
            if snippet.unicode_len() > 0 {
                out.append("\n   ");
                out.append(snippet);
            }
        }
        i = i + 1;
        proof {
            assert(out@ =~= header + spec_ddg_entries(glinks, gsnippets, i as int));
        }
    }
    proof {
        assert(out@ =~= spec_ddg_results(html@, query@, max_results as int));
    }
    out
}

/// The views of a vector of (href, text) pairs.
pub open spec fn pair_views(v: Seq<(String, String)>) -> Seq<(Seq<char>, Seq<char>)> {
    v.map_values(|p: (String, String)| (p.0@, p.1@))
}

/// The anchors a page yields for a class marker, in order: at each
/// occurrence of the marker, the enclosing tag runs from the last `<`
/// before it to the first `>` after it and contributes its `href`
/// value; the anchor text runs from that `>` to the closing `</a>`;
/// scanning resumes past the close. A malformed remainder (no enclosing
/// `<`, no closing `>` or no `</a>`) contributes nothing further.
pub open spec fn spec_anchor_hits(html: Seq<char>, marker: Seq<char>) -> Seq<
    (Seq<char>, Seq<char>),
>
    decreases html.len(),
{
    let i = first_occurrence(html, marker);
    if marker.len() == 0 || i < 0 || i + marker.len() > html.len() {
        Seq::empty()
    } else {
        let head = html.subrange(0, i);
        let ls = seek_last_char(head, '<');
        let after_marker = html.skip(i + marker.len());
        let te = seek_char(after_marker, 0, '>');
        if ls < 0 || te < 0 || te >= after_marker.len() {
            Seq::empty()
        } else {
            let tag = html.subrange(ls, i + marker.len() + te);
            let rest = after_marker.skip(te + 1);
            let ce = first_occurrence(rest, "</a>"@);
            if ce < 0 || ce + 4 > rest.len() {
                Seq::empty()
            } else {
                seq![(spec_href_of(tag), rest.subrange(0, ce))] + spec_anchor_hits(
                    rest.skip(ce + 4),
                    marker,
                )
            }
        }
    }
}

/// Anchors of an HTML page whose class attribute names `class_marker`:
/// exactly [`spec_anchor_hits`] of the page.
fn extract_anchor_hits(html: &str, class_marker: &str) -> (r: Vec<(String, String)>)
    requires
        class_marker@.len() > 0,
    ensures
        pair_views(r@) == spec_anchor_hits(html@, class_marker@),
        !contains_seq(html@, class_marker@) ==> r@.len() == 0,
{
    let mut out: Vec<(String, String)> = Vec::new();
    collect_anchor_hits(html, class_marker, &mut out);
    proof {
        assert(pair_views(Seq::<(String, String)>::empty()) =~= Seq::<
            (Seq<char>, Seq<char>),
        >::empty());
        assert(Seq::<(Seq<char>, Seq<char>)>::empty() + spec_anchor_hits(html@, class_marker@)
            =~= spec_anchor_hits(html@, class_marker@));
        if !contains_seq(html@, class_marker@) {
            lemma_first_occurrence_none(html@, class_marker@);
            assert(pair_views(out@).len() == 0);
        }
    }
    out
}

/// Append the page's anchors for the marker, mirroring
/// [`spec_anchor_hits`] step for step.
fn collect_anchor_hits(html: &str, class_marker: &str, out: &mut Vec<(String, String)>)
    requires
        class_marker@.len() > 0,
    ensures
        pair_views(final(out)@) == pair_views(old(out)@) + spec_anchor_hits(
            html@,
            class_marker@,
        ),
    decreases html@.len(),
{
    let n = html.unicode_len();
    let at = match str_find(html, class_marker) {
        Some(j) => j,
        None => {
            proof {
                lemma_first_occurrence_none(html@, class_marker@);
                assert(pair_views(out@) =~= pair_views(out@) + spec_anchor_hits(
                    html@,
                    class_marker@,
                ));
            }
            return ;
        },
    };
    proof {
        lemma_first_occurrence_found(html@, class_marker@, at as int);
    }
    let mlen = class_marker.unicode_len();
    let head = html.substring_char(0, at);
    proof {
        assert(head@ =~= html@.subrange(0, at as int));
    }
    let tag_start = match crate::text::rfind_char(head, '<') {
        Some(t) => t,
        None => {
            proof {
                assert(pair_views(out@) =~= pair_views(out@) + spec_anchor_hits(
                    html@,
                    class_marker@,
                ));
            }
            return ;
        },
    };
    let after_marker = html.substring_char(at + mlen, n);
    proof {
        assert(after_marker@ =~= html@.skip(at as int + mlen as int));
    }
    let te = seek_gt(after_marker, 0);
    if te >= after_marker.unicode_len() {
        proof {
            assert(pair_views(out@) =~= pair_views(out@) + spec_anchor_hits(
                html@,
                class_marker@,
            ));
        }
        return ;
    }
    let tag_text = html.substring_char(tag_start, at + mlen + te);
    proof {
        assert(tag_text@ =~= html@.subrange(tag_start as int, at as int + mlen as int + te as int));
    }
    let href = extract_href(tag_text);
    let rest = after_marker.substring_char(te + 1, after_marker.unicode_len());
    proof {
        assert(rest@ =~= after_marker@.skip(te as int + 1));
    }
    let ce = match str_find(rest, "</a>") {
        Some(e) => e,
        None => {
            proof {
                lemma_first_occurrence_none(rest@, "</a>"@);
                assert(pair_views(out@) =~= pair_views(out@) + spec_anchor_hits(
                    html@,
                    class_marker@,
                ));
            }
            return ;
        },
    };
    proof {
        reveal_strlit("</a>");
        lemma_first_occurrence_found(rest@, "</a>"@, ce as int);
        lemma_first_occurrence_bound(rest@, "</a>"@);
    }
    let anchor_text = rest.substring_char(0, ce).to_owned();
    let ghost mid = out@;
    out.push((href, anchor_text));
    proof {
        assert(pair_views(out@) =~= pair_views(mid).push((spec_href_of(tag_text@), rest@.subrange(
            0,
            ce as int,
        ))));
    }
    let next = rest.substring_char(ce + 4, rest.unicode_len());
    proof {
        assert(next@ =~= rest@.skip(ce as int + 4));
        assert(next@.len() < html@.len());
    }
    collect_anchor_hits(next, class_marker, out);
    proof {
        assert(spec_anchor_hits(html@, class_marker@) =~= seq![
            (spec_href_of(tag_text@), rest@.subrange(0, ce as int)),
        ] + spec_anchor_hits(next@, class_marker@));
        assert(pair_views(out@) =~= pair_views(old(out)@) + spec_anchor_hits(
            html@,
            class_marker@,
        ));
    }
}

/// What the `href="..."` attribute of a tag's text holds, or empty when
/// the tag has none.
pub open spec fn spec_href_of(tag: Seq<char>) -> Seq<char> {
    let h = first_occurrence(tag, "href=\""@);
    if h >= 0 {
        let after = tag.skip(h + 6);
        after.subrange(0, seek_char(after, 0, '"'))
    } else {
        Seq::empty()
    }
}

/// The value of the `href="..."` attribute of a tag's text, or empty.
fn extract_href(tag_text: &str) -> (r: String)
    ensures
        r@ == spec_href_of(tag_text@),
{
    match crate::text::str_find(tag_text, "href=\"") {
        Some(h) => {
            let n = tag_text.unicode_len();
            proof {
                reveal_strlit("href=\"");
                lemma_first_occurrence_found(tag_text@, "href=\""@, h as int);
            }
            let after = tag_text.substring_char(h + 6, n);
            proof {
                assert(after@ =~= tag_text@.skip(h as int + 6));
            }
            let q = seek_quote(after, 0);
            after.substring_char(0, q).to_owned()
        },
        None => {
            proof {
                lemma_first_occurrence_none(tag_text@, "href=\""@);
            }
            String::new()
        },
    }
}

fn seek_quote(s: &str, from: usize) -> (r: usize)
    requires
        from <= s@.len(),
    ensures
        r == seek_char(s@, from as int, '"'),
        from <= r <= s@.len(),
    {
    let n = s.unicode_len();
    let mut i: usize = from;
    while i < n
        invariant
            n == s@.len(),
            from <= i <= n,
            seek_char(s@, from as int, '"') == seek_char(s@, i as int, '"'),
        decreases n - i,
    {
        if s.get_char(i) == '"' {
            return i;
        }
        i = i + 1;
    }
    n
}

} // verus!
