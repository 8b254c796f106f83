//! URL validation for tools that open or fetch web resources: scheme
//! enforcement, userinfo and whitespace rejection, local/private-host
//! rejection, and an allowlist/blocklist of domains with wildcard
//! patterns. The verdict is specified as one closed-form function of the
//! URL and the policy.

use vstd::prelude::*;

use crate::text::{
    is_ws_char, lower_char, str_starts_with, str_trim, to_ascii_lowercase_str, trim_chars,
};

verus! {

/// Which schemes a policy accepts.
#[derive(Clone, Copy, Debug, PartialEq, Eq, Structural)]
pub enum UrlSchemePolicy {
    HttpsOnly,
    HttpOrHttps,
}

/// The domain policy a URL is validated against.
pub struct DomainPolicy<'a> {
    pub allowed_domains: &'a Vec<String>,
    pub blocked_domains: &'a Vec<String>,
    pub allowed_field_name: &'a str,
    pub blocked_field_name: Option<&'a str>,
    pub empty_allowed_message: &'a str,
    pub scheme_policy: UrlSchemePolicy,
    pub ipv6_error_context: &'a str,
}

pub open spec fn spec_has_prefix(s: Seq<char>, p: Seq<char>) -> bool {
    p.len() <= s.len() && s.subrange(0, p.len() as int) == p
}

pub open spec fn spec_has_suffix(s: Seq<char>, p: Seq<char>) -> bool {
    p.len() <= s.len() && s.subrange(s.len() - p.len(), s.len() as int) == p
}

/// Whether a character ends the authority part of a URL.
pub open spec fn is_authority_stop(c: char) -> bool {
    c == '/' || c == '?' || c == '#'
}

/// First index at or after `i` whose character ends the authority, or
/// the length when none does.
pub open spec fn seek_stop(s: Seq<char>, i: int) -> int
    decreases s.len() - i,
{
    if i < 0 || i >= s.len() {
        s.len() as int
    } else if is_authority_stop(s[i]) {
        i
    } else {
        seek_stop(s, i + 1)
    }
}

/// First index at or after `i` holding exactly `c`, or the length.
pub open spec fn seek_char(s: Seq<char>, i: int, c: char) -> int
    decreases s.len() - i,
{
    if i < 0 || i >= s.len() {
        s.len() as int
    } else if s[i] == c {
        i
    } else {
        seek_char(s, i + 1, c)
    }
}

/// One allowlist or blocklist pattern against a lowercased host: `*`
/// matches every host; `*.base` and a plain `base` both match the base
/// domain itself and any of its subdomains.
pub open spec fn domain_matches(pattern: Seq<char>, host: Seq<char>) -> bool {
    if pattern == "*"@ {
        true
    } else {
        let base = if spec_has_prefix(pattern, "*."@) {
            pattern.skip(2)
        } else {
            pattern
        };
        host == base || spec_has_suffix(host, "."@ + base)
    }
}

pub open spec fn any_domain_matches(patterns: Seq<String>, host: Seq<char>) -> bool {
    exists|i: int| 0 <= i < patterns.len() && domain_matches(#[trigger] patterns[i]@, host)
}

/// A host that resolves to the local machine or a private network:
/// localhost names, `.local` names, and the loopback, RFC 1918 and
/// link-local IPv4 prefixes.
pub open spec fn is_private_host(h: Seq<char>) -> bool {
    ||| h == "localhost"@
    ||| spec_has_suffix(h, ".localhost"@)
    ||| spec_has_suffix(h, ".local"@)
    ||| h == "0.0.0.0"@
    ||| spec_has_prefix(h, "127."@)
    ||| spec_has_prefix(h, "10."@)
    ||| spec_has_prefix(h, "192.168."@)
    ||| spec_has_prefix(h, "169.254."@)
    ||| is_private_172(h)
}

pub open spec fn is_private_172(h: Seq<char>) -> bool {
    ||| spec_has_prefix(h, "172.16."@)
    ||| spec_has_prefix(h, "172.17."@)
    ||| spec_has_prefix(h, "172.18."@)
    ||| spec_has_prefix(h, "172.19."@)
    ||| spec_has_prefix(h, "172.20."@)
    ||| spec_has_prefix(h, "172.21."@)
    ||| spec_has_prefix(h, "172.22."@)
    ||| spec_has_prefix(h, "172.23."@)
    ||| spec_has_prefix(h, "172.24."@)
    ||| spec_has_prefix(h, "172.25."@)
    ||| spec_has_prefix(h, "172.26."@)
    ||| spec_has_prefix(h, "172.27."@)
    ||| spec_has_prefix(h, "172.28."@)
    ||| spec_has_prefix(h, "172.29."@)
    ||| spec_has_prefix(h, "172.30."@)
    ||| spec_has_prefix(h, "172.31."@)
}

/// The scheme prefix length of a trimmed URL under a policy, or -1 when
/// the scheme is not accepted.
pub open spec fn spec_scheme_len(u: Seq<char>, policy: UrlSchemePolicy) -> int {
    if spec_has_prefix(u, "https://"@) {
        8
    } else if policy == UrlSchemePolicy::HttpOrHttps && spec_has_prefix(u, "http://"@) {
        7
    } else {
        -1
    }
}

/// The verdict of validating one URL.
#[derive(Clone, Copy, Debug, PartialEq, Eq, Structural)]
pub enum UrlVerdictKind {
    Accepted,
    EmptyAllowlist,
    HasWhitespace,
    BadScheme,
    HasUserinfo,
    Ipv6Host,
    PrivateHost,
    BlockedDomain,
    NotAllowlisted,
}

/// The authority of a trimmed URL, after a scheme of `n` characters.
pub open spec fn spec_authority(u: Seq<char>, n: int) -> Seq<char> {
    u.skip(n).subrange(0, seek_stop(u.skip(n), 0))
}

/// The lowercased host of an authority: everything before a port.
pub open spec fn spec_host(authority: Seq<char>) -> Seq<char> {
    authority.subrange(0, seek_char(authority, 0, ':')).map_values(|c: char| lower_char(c))
}

/// The validation verdict, as a function of the URL and the policy: the
/// checks run in a fixed order — configured allowlist, no whitespace,
/// accepted scheme, no userinfo, no IPv6 literal, no local or private
/// host, not blocklisted, allowlisted.
pub open spec fn spec_url_verdict(
    raw: Seq<char>,
    allowed: Seq<String>,
    blocked: Seq<String>,
    policy: UrlSchemePolicy,
) -> UrlVerdictKind {
    let u = trim_chars(raw);
    if allowed.len() == 0 {
        UrlVerdictKind::EmptyAllowlist
    } else if exists|i: int| 0 <= i < u.len() && is_ws_char(#[trigger] u[i]) {
        UrlVerdictKind::HasWhitespace
    } else if spec_scheme_len(u, policy) < 0 {
        UrlVerdictKind::BadScheme
    } else {
        let authority = spec_authority(u, spec_scheme_len(u, policy));
        if exists|i: int| 0 <= i < authority.len() && #[trigger] authority[i] == '@' {
            UrlVerdictKind::HasUserinfo
        } else if authority.len() > 0 && authority[0] == '[' {
            UrlVerdictKind::Ipv6Host
        } else {
            let host = spec_host(authority);
            if is_private_host(host) {
                UrlVerdictKind::PrivateHost
            } else if any_domain_matches(blocked, host) {
                UrlVerdictKind::BlockedDomain
            } else if any_domain_matches(allowed, host) {
                UrlVerdictKind::Accepted
            } else {
                UrlVerdictKind::NotAllowlisted
            }
        }
    }
}

// ---------------------------------------------------------------------------
// Executable helpers
// ---------------------------------------------------------------------------

fn seek_stop_exec(s: &str, from: usize) -> (r: usize)
    requires
        from <= s@.len(),
    ensures
        r == seek_stop(s@, from as int),
        from <= r <= s@.len(),
    {
    let n = s.unicode_len();
    let mut i: usize = from;
    while i < n
        invariant
            n == s@.len(),
            from <= i <= n,
            seek_stop(s@, from as int) == seek_stop(s@, i as int),
        decreases n - i,
    {
        let c = s.get_char(i);
        if c == '/' || c == '?' || c == '#' {
            return i;
        }
        i = i + 1;
    }
    n
}

fn seek_char_exec(s: &str, from: usize, c: char) -> (r: usize)
    requires
        from <= s@.len(),
    ensures
        r == seek_char(s@, from as int, c),
        from <= r <= s@.len(),
    {
    let n = s.unicode_len();
    let mut i: usize = from;
    while i < n
        invariant
            n == s@.len(),
            from <= i <= n,
            seek_char(s@, from as int, c) == seek_char(s@, i as int, c),
        decreases n - i,
    {
        if s.get_char(i) == c {
            return i;
        }
        i = i + 1;
    }
    n
}

fn has_ws(s: &str) -> (r: bool)
    ensures
        r == exists|i: int| 0 <= i < s@.len() && is_ws_char(#[trigger] s@[i]),
{
    let n = s.unicode_len();
    let mut i: usize = 0;
    while i < n
        invariant
            n == s@.len(),
            i <= n,
            forall|k: int| 0 <= k < i ==> !is_ws_char(#[trigger] s@[k]),
        decreases n - i,
    {
        if crate::text::char_is_ws(s.get_char(i)) {
            return true;
        }
        i = i + 1;
    }
    false
}

fn has_char(s: &str, c: char) -> (r: bool)
    ensures
        r == exists|i: int| 0 <= i < s@.len() && #[trigger] s@[i] == c,
{
    let n = s.unicode_len();
    let mut i: usize = 0;
    while i < n
        invariant
            n == s@.len(),
            i <= n,
            forall|k: int| 0 <= k < i ==> #[trigger] s@[k] != c,
        decreases n - i,
    {
        if s.get_char(i) == c {
            return true;
        }
        i = i + 1;
    }
    false
}

fn str_ends_with(s: &str, suffix: &str) -> (r: bool)
    ensures
        r == spec_has_suffix(s@, suffix@),
{
    let n = s.unicode_len();
    let m = suffix.unicode_len();
    if m > n {
        return false;
    }
    let tail = s.substring_char(n - m, n);
    crate::text::str_eq(tail, suffix)
}

fn starts(s: &str, prefix: &str) -> (r: bool)
    ensures
        r == spec_has_prefix(s@, prefix@),
{
    str_starts_with(s, prefix)
}

/// Whether a lowercased host names the local machine or a private
/// network.
pub fn host_is_private(host: &str) -> (r: bool)
    ensures
        r == is_private_host(host@),
{
    crate::text::str_eq(host, "localhost") || str_ends_with(host, ".localhost") || str_ends_with(
        host,
        ".local",
    ) || crate::text::str_eq(host, "0.0.0.0") || starts(host, "127.") || starts(host, "10.")
        || starts(host, "192.168.") || starts(host, "169.254.") || starts(host, "172.16.")
        || starts(host, "172.17.") || starts(host, "172.18.") || starts(host, "172.19.") || starts(
        host,
        "172.20.",
    ) || starts(host, "172.21.") || starts(host, "172.22.") || starts(host, "172.23.") || starts(
        host,
        "172.24.",
    ) || starts(host, "172.25.") || starts(host, "172.26.") || starts(host, "172.27.") || starts(
        host,
        "172.28.",
    ) || starts(host, "172.29.") || starts(host, "172.30.") || starts(host, "172.31.")
}

/// Whether one pattern matches a lowercased host.
pub fn pattern_matches_host(pattern: &str, host: &str) -> (r: bool)
    ensures
        r == domain_matches(pattern@, host@),
{
    if crate::text::str_eq(pattern, "*") {
        return true;
    }
    let m = pattern.unicode_len();
    proof {
        reveal_strlit("*.");
    }
    let base = if starts(pattern, "*.") {
        pattern.substring_char(2, m)
    } else {
        pattern
    };
    proof {
        if spec_has_prefix(pattern@, "*."@) {
            assert(base@ =~= pattern@.skip(2));
        }
    }
    if crate::text::str_eq(host, base) {
        return true;
    }
    let dotted = ".".to_owned().concat(base);
    proof {
        assert(dotted@ =~= "."@ + base@);
    }
    str_ends_with(host, dotted.as_str())
}

fn any_matches(patterns: &Vec<String>, host: &str) -> (r: bool)
    ensures
        r == any_domain_matches(patterns@, host@),
{
    let mut i: usize = 0;
    while i < patterns.len()
        invariant
            i <= patterns@.len(),
            forall|k: int| 0 <= k < i ==> !domain_matches(#[trigger] patterns@[k]@, host@),
        decreases patterns@.len() - i,
    {
        if pattern_matches_host(patterns[i].as_str(), host) {
            return true;
        }
        i = i + 1;
    }
    false
}

/// Normalise a domain pattern: trim, lowercase, strip a scheme prefix
/// and anything from the first path separator on; an empty result is
/// rejected.
pub open spec fn spec_normalize_domain(s: Seq<char>) -> Option<Seq<char>> {
    let t = trim_chars(s).map_values(|c: char| lower_char(c));
    let u = if spec_has_prefix(t, "https://"@) {
        t.skip(8)
    } else if spec_has_prefix(t, "http://"@) {
        t.skip(7)
    } else {
        t
    };
    let h = u.subrange(0, seek_stop(u, 0));
    if h.len() == 0 {
        None
    } else {
        Some(h)
    }
}

/// Normalise one configured domain.
pub fn normalize_domain(value: &str) -> (r: Option<String>)
    ensures
        match r {
            Some(h) => spec_normalize_domain(value@) == Some(h@),
            None => spec_normalize_domain(value@) is None,
        },
{
    let lowered = to_ascii_lowercase_str(str_trim(value));
    let l = lowered.as_str().unicode_len();
    proof {
        reveal_strlit("https://");
        reveal_strlit("http://");
    }
    let start: usize = if starts(lowered.as_str(), "https://") {
        8
    } else if starts(lowered.as_str(), "http://") {
        7
    } else {
        0
    };
    let rest = lowered.as_str().substring_char(start, l);
    proof {
        if start == 8 {
            assert(rest@ =~= lowered@.skip(8));
        } else if start == 7 {
            assert(rest@ =~= lowered@.skip(7));
        } else {
            assert(rest@ =~= lowered@);
        }
    }
    let end = seek_stop_exec(rest, 0);
    if end == 0 {
        return None;
    }
    let host = rest.substring_char(0, end);
    Some(host.to_owned())
}

/// Some configured value normalises to this domain.
pub open spec fn normalizes_to(domains: Seq<String>, h: Seq<char>) -> bool {
    exists|i: int|
        0 <= i < domains.len() && spec_normalize_domain((#[trigger] domains[i])@) == Some(h)
}

/// Some entry of the vector views as this domain.
pub open spec fn holds_domain(r: Seq<String>, h: Seq<char>) -> bool {
    exists|k: int| 0 <= k < r.len() && (#[trigger] r[k])@ == h
}

/// Normalise a configured allowlist, dropping blanks and duplicates
/// while keeping the first occurrence's position.
pub fn normalize_allowed_domains(domains: Vec<String>) -> (r: Vec<String>)
    ensures
        forall|a: int, b: int|
            0 <= a < b < r@.len() ==> #[trigger] r@[a]@ != #[trigger] r@[b]@,
        forall|k: int| 0 <= k < r@.len() ==> normalizes_to(domains@, #[trigger] r@[k]@),
        forall|i: int|
            0 <= i < domains@.len() ==> (match spec_normalize_domain(#[trigger] domains@[i]@) {
                Some(h) => holds_domain(r@, h),
                None => true,
            }),
{
    let mut out: Vec<String> = Vec::new();
    let mut i: usize = 0;
    while i < domains.len()
        invariant
            i <= domains@.len(),
            forall|a: int, b: int|
                0 <= a < b < out@.len() ==> #[trigger] out@[a]@ != #[trigger] out@[b]@,
            forall|k: int| 0 <= k < out@.len() ==> normalizes_to(domains@, #[trigger] out@[k]@),
            forall|t: int|
                0 <= t < i ==> (match spec_normalize_domain(#[trigger] domains@[t]@) {
                    Some(h) => holds_domain(out@, h),
                    None => true,
                }),
        decreases domains@.len() - i,
    {
        match normalize_domain(domains[i].as_str()) {
            Some(h) => {
                let ghost hv = h@;
                let mut seen = false;
                let mut k: usize = 0;
                while k < out.len()
                    invariant
                        k <= out@.len(),
                        hv == h@,
                        seen <==> exists|t: int| 0 <= t < k && #[trigger] out@[t]@ == hv,
                    decreases out@.len() - k,
                {
                    if crate::text::str_eq(out[k].as_str(), h.as_str()) {
                        seen = true;
                    }
                    k = k + 1;
                }
                let ghost before = out@;
                if !seen {
                    out.push(h);
                }
                proof {
                    assert(forall|t: int| 0 <= t < before.len() ==> out@[t] == before[t]);
                    if !seen {
                        assert(out@[out@.len() - 1]@ == hv);
                    }
                    assert(holds_domain(out@, hv));
                    assert forall|t: int|
                        0 <= t < before.len() && holds_domain(before, #[trigger] before[t]@)
                            implies holds_domain(out@, before[t]@) by {
                        let w = choose|w: int| 0 <= w < before.len() && (#[trigger] before[w])@
                            == before[t]@;
                        assert(out@[w]@ == before[t]@);
                    }
                }
            },
            None => {},
        }
        i = i + 1;
    }
    out
}

/// Validate a URL against a domain policy. The trimmed URL is returned
/// on acceptance; each rejection names its reason. The verdict equals
/// [`spec_url_verdict`] on the same inputs.
pub fn validate_url(raw_url: &str, policy: &DomainPolicy<'_>) -> (r: Result<String, String>)
    ensures
        ({
            let verdict = spec_url_verdict(
                raw_url@,
                policy.allowed_domains@,
                policy.blocked_domains@,
                policy.scheme_policy,
            );
            match r {
                Ok(u) => verdict == UrlVerdictKind::Accepted && u@ == trim_chars(raw_url@),
                Err(e) => {
                    &&& verdict != UrlVerdictKind::Accepted
                    &&& (verdict == UrlVerdictKind::EmptyAllowlist ==> e@
                        == policy.empty_allowed_message@)
                    &&& (verdict == UrlVerdictKind::HasWhitespace ==> e@
                        == "URL must not contain whitespace"@)
                    &&& (verdict == UrlVerdictKind::BadScheme ==> e@
                        == "URL must start with https://"@)
                    &&& (verdict == UrlVerdictKind::HasUserinfo ==> e@
                        == "URL must not contain userinfo (user@host)"@)
                    &&& (verdict == UrlVerdictKind::Ipv6Host ==> e@ == "IPv6 hosts are not supported for "@
                        + policy.ipv6_error_context@)
                    &&& (verdict == UrlVerdictKind::PrivateHost ==> e@
                        == "URL host is a local/private address and is not allowed"@)
                    &&& (verdict == UrlVerdictKind::BlockedDomain ==> e@ == "URL host is in "@
                        + (match policy.blocked_field_name {
                        Some(f) => f@,
                        None => "the blocklist"@,
                    }))
                    &&& (verdict == UrlVerdictKind::NotAllowlisted ==> e@
                        == "URL host is not in "@ + policy.allowed_field_name@)
                },
            }
        }),
{
    if policy.allowed_domains.len() == 0 {
        return Err(policy.empty_allowed_message.to_owned());
    }
    let trimmed = str_trim(raw_url);
    if has_ws(trimmed) {
        return Err("URL must not contain whitespace".to_owned());
    }
    proof {
        reveal_strlit("https://");
        reveal_strlit("http://");
    }
    let scheme_len: usize = if starts(trimmed, "https://") {
        8
    } else if matches!(policy.scheme_policy, UrlSchemePolicy::HttpOrHttps) && starts(
        trimmed,
        "http://",
    ) {
        7
    } else {
        return Err("URL must start with https://".to_owned());
    };
    let n = trimmed.unicode_len();
    let rest = trimmed.substring_char(scheme_len, n);
    proof {
        assert(rest@ =~= trimmed@.skip(scheme_len as int));
    }
    let end = seek_stop_exec(rest, 0);
    let authority = rest.substring_char(0, end);
    proof {
        assert(authority@ =~= spec_authority(trimmed@, scheme_len as int));
    }
    if has_char(authority, '@') {
        return Err("URL must not contain userinfo (user@host)".to_owned());
    }
    if authority.unicode_len() > 0 && authority.get_char(0) == '[' {
        let e = "IPv6 hosts are not supported for ".to_owned().concat(policy.ipv6_error_context);
        proof {
            assert(e@ =~= "IPv6 hosts are not supported for "@ + policy.ipv6_error_context@);
        }
        return Err(e);
    }
    let colon = seek_char_exec(authority, 0, ':');
    let host_raw = authority.substring_char(0, colon);
    let host = to_ascii_lowercase_str(host_raw);
    proof {
        assert(host@ =~= spec_host(authority@));
    }
    if host_is_private(host.as_str()) {
        return Err("URL host is a local/private address and is not allowed".to_owned());
    }
    if any_matches(policy.blocked_domains, host.as_str()) {
        let field = match policy.blocked_field_name {
            Some(f) => f,
            None => "the blocklist",
        };
        let e = "URL host is in ".to_owned().concat(field);
        proof {
            assert(e@ =~= "URL host is in "@ + (match policy.blocked_field_name {
                Some(f) => f@,
                None => "the blocklist"@,
            }));
        }
        return Err(e);
    }
    if any_matches(policy.allowed_domains, host.as_str()) {
        return Ok(trimmed.to_owned());
    }
    let e = "URL host is not in ".to_owned().concat(policy.allowed_field_name);
    proof {
        assert(e@ =~= "URL host is not in "@ + policy.allowed_field_name@);
    }
    Err(e)
}

} // verus!
