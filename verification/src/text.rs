//! Character- and byte-level text helpers shared across the library:
//! ASCII classification, trimming, lowercasing, substring search and
//! ellipsis truncation, each with an exact specification.

use vstd::prelude::*;

verus! {

// ---------------------------------------------------------------------------
// Character-level helpers
// ---------------------------------------------------------------------------

pub open spec fn is_ws_char(c: char) -> bool {
    c == ' ' || c == '\t' || c == '\n' || c == '\r'
}

pub open spec fn trim_start_chars(s: Seq<char>) -> Seq<char>
    decreases s.len(),
{
    if s.len() > 0 && is_ws_char(s[0]) {
        trim_start_chars(s.drop_first())
    } else {
        s
    }
}

pub open spec fn trim_end_chars(s: Seq<char>) -> Seq<char>
    decreases s.len(),
{
    if s.len() > 0 && is_ws_char(s.last()) {
        trim_end_chars(s.drop_last())
    } else {
        s
    }
}

/// What `str::trim` leaves of a string, for ASCII whitespace.
pub open spec fn trim_chars(s: Seq<char>) -> Seq<char> {
    trim_end_chars(trim_start_chars(s))
}

proof fn lemma_trim_start_prefix(s: Seq<char>, i: int)
    requires
        0 <= i <= s.len(),
        forall|k: int| 0 <= k < i ==> is_ws_char(s[k]),
        i < s.len() ==> !is_ws_char(s[i]),
    ensures
        trim_start_chars(s) == s.subrange(i, s.len() as int),
    decreases i,
{
    if i == 0 {
        if s.len() == 0 || !is_ws_char(s[0]) {
            assert(s.subrange(0, s.len() as int) == s);
        } else {
            assert(!is_ws_char(s[0]));
        }
    } else {
        assert(is_ws_char(s[0]));
        let t = s.drop_first();
        lemma_trim_start_prefix(t, i - 1);
        assert(t.subrange(i - 1, t.len() as int) == s.subrange(i, s.len() as int));
    }
}

proof fn lemma_trim_end_suffix(s: Seq<char>, j: int)
    requires
        0 <= j <= s.len(),
        forall|k: int| j <= k < s.len() ==> is_ws_char(s[k]),
        j > 0 ==> !is_ws_char(s[j - 1]),
    ensures
        trim_end_chars(s) == s.subrange(0, j),
    decreases s.len() - j,
{
    if j == s.len() {
        if s.len() == 0 || !is_ws_char(s.last()) {
            assert(s.subrange(0, s.len() as int) == s);
        }
    } else {
        assert(is_ws_char(s.last()));
        let t = s.drop_last();
        lemma_trim_end_suffix(t, j);
        assert(t.subrange(0, j) == s.subrange(0, j));
    }
}

pub fn char_is_ws(c: char) -> (r: bool)
    ensures
        r == is_ws_char(c),
{
    c == ' ' || c == '\t' || c == '\n' || c == '\r'
}

/// `str::trim` restricted to ASCII whitespace.
pub fn str_trim(s: &str) -> (r: &str)
    ensures
        r@ == trim_chars(s@),
{
    let n = s.unicode_len();
    let mut i: usize = 0;
    while i < n && char_is_ws(s.get_char(i))
        invariant
            n == s@.len(),
            i <= n,
            forall|k: int| 0 <= k < i ==> is_ws_char(s@[k]),
        decreases n - i,
    {
        i = i + 1;
    }
    proof {
        lemma_trim_start_prefix(s@, i as int);
    }
    let mut j: usize = n;
    while j > i && char_is_ws(s.get_char(j - 1))
        invariant
            n == s@.len(),
            i <= j <= n,
            forall|k: int| j <= k < n ==> is_ws_char(s@[k]),
        decreases j,
    {
        j = j - 1;
    }
    proof {
        let t = s@.subrange(i as int, n as int);
        assert(forall|k: int| (j - i) <= k < t.len() ==> is_ws_char(t[k]));
        lemma_trim_end_suffix(t, j - i);
        assert(t.subrange(0, j - i) == s@.subrange(i as int, j as int));
    }
    s.substring_char(i, j)
}

/// True when `needle` occurs as a contiguous run of characters in `hay`.
pub open spec fn contains_seq(hay: Seq<char>, needle: Seq<char>) -> bool {
    exists|i: int|
        0 <= i && i + needle.len() <= hay.len() && #[trigger] hay.subrange(i, i + needle.len())
            == needle
}

fn match_at(hay: &str, needle: &str, i: usize) -> (r: bool)
    requires
        i + needle@.len() <= hay@.len(),
        hay@.len() <= usize::MAX,
    ensures
        r == (hay@.subrange(i as int, i as int + needle@.len() as int) == needle@),
{
    let m = needle.unicode_len();
    let mut k: usize = 0;
    while k < m
        invariant
            m == needle@.len(),
            i + m <= hay@.len(),
            hay@.len() <= usize::MAX,
            k <= m,
            forall|t: int| 0 <= t < k ==> hay@[i + t] == needle@[t],
        decreases m - k,
    {
        if hay.get_char(i + k) != needle.get_char(k) {
            assert(hay@.subrange(i as int, i as int + m as int)[k as int] != needle@[k as int]);
            return false;
        }
        k = k + 1;
    }
    assert(hay@.subrange(i as int, i as int + m as int) =~= needle@);
    true
}

/// `str::contains`, stated over character sequences.
pub fn str_contains(hay: &str, needle: &str) -> (r: bool)
    ensures
        r == contains_seq(hay@, needle@),
{
    let n = hay.unicode_len();
    let m = needle.unicode_len();
    if m > n {
        return false;
    }
    if m == 0 {
        proof {
            assert(hay@.subrange(0, 0 + needle@.len() as int) =~= needle@);
        }
        return true;
    }
    let mut i: usize = 0;
    while i <= n - m
        invariant
            n == hay@.len(),
            m == needle@.len(),
            0 < m <= n,
            i <= n - m + 1,
            forall|k: int|
                0 <= k < i ==> #[trigger] hay@.subrange(k, k + needle@.len() as int) != needle@,
        decreases n - m + 1 - i,
    {
        if match_at(hay, needle, i) {
            return true;
        }
        i = i + 1;
    }
    false
}

/// `str::find` for a literal pattern: index of the first occurrence of
/// `needle` in `hay`, in characters.
pub fn str_find(hay: &str, needle: &str) -> (r: Option<usize>)
    ensures
        match r {
            Some(i) => {
                &&& i + needle@.len() <= hay@.len()
                &&& hay@.subrange(i as int, i as int + needle@.len() as int) == needle@
                &&& forall|k: int|
                    0 <= k < i ==> #[trigger] hay@.subrange(k, k + needle@.len() as int)
                        != needle@
            },
            None => !contains_seq(hay@, needle@),
        },
{
    let n = hay.unicode_len();
    let m = needle.unicode_len();
    if m > n {
        return None;
    }
    if m == 0 {
        proof {
            assert(hay@.subrange(0, 0 + needle@.len() as int) =~= needle@);
        }
        return Some(0);
    }
    let mut i: usize = 0;
    while i <= n - m
        invariant
            n == hay@.len(),
            m == needle@.len(),
            0 < m <= n,
            i <= n - m + 1,
            forall|k: int|
                0 <= k < i ==> #[trigger] hay@.subrange(k, k + needle@.len() as int) != needle@,
        decreases n - m + 1 - i,
    {
        if match_at(hay, needle, i) {
            return Some(i);
        }
        i = i + 1;
    }
    None
}

/// Index of the first occurrence of `needle` in `s`, or -1.
pub open spec fn first_occurrence(s: Seq<char>, needle: Seq<char>) -> int
    decreases s.len(),
{
    if s.len() < needle.len() {
        -1
    } else if s.subrange(0, needle.len() as int) == needle {
        0
    } else if s.len() == 0 {
        -1
    } else {
        let t = first_occurrence(s.drop_first(), needle);
        if t < 0 {
            -1
        } else {
            t + 1
        }
    }
}

pub proof fn lemma_first_occurrence_found(s: Seq<char>, needle: Seq<char>, i: int)
    requires
        0 <= i,
        i + needle.len() <= s.len(),
        s.subrange(i, i + needle.len() as int) == needle,
        forall|k: int| 0 <= k < i ==> #[trigger] s.subrange(k, k + needle.len() as int) != needle,
    ensures
        first_occurrence(s, needle) == i,
    decreases i,
{
    if i == 0 {
    } else {
        assert(s.subrange(0, 0 + needle.len() as int) != needle);
        let t = s.drop_first();
        assert(t.subrange(i - 1, i - 1 + needle.len() as int) =~= s.subrange(
            i,
            i + needle.len() as int,
        ));
        assert forall|k: int|
            0 <= k < i - 1 implies #[trigger] t.subrange(k, k + needle.len() as int)
            != needle by {
            assert(t.subrange(k, k + needle.len() as int) =~= s.subrange(
                k + 1,
                k + 1 + needle.len() as int,
            ));
        }
        lemma_first_occurrence_found(t, needle, i - 1);
    }
}

/// A found occurrence fits inside the string.
pub proof fn lemma_first_occurrence_bound(s: Seq<char>, needle: Seq<char>)
    requires
        first_occurrence(s, needle) >= 0,
    ensures
        first_occurrence(s, needle) + needle.len() <= s.len(),
    decreases s.len(),
{
    if s.len() < needle.len() {
    } else if s.subrange(0, needle.len() as int) == needle {
    } else if s.len() == 0 {
    } else {
        if first_occurrence(s.drop_first(), needle) >= 0 {
            lemma_first_occurrence_bound(s.drop_first(), needle);
        }
    }
}

pub proof fn lemma_first_occurrence_none(s: Seq<char>, needle: Seq<char>)
    requires
        !contains_seq(s, needle),
    ensures
        first_occurrence(s, needle) == -1,
    decreases s.len(),
{
    if needle.len() == 0 {
        assert(s.subrange(0, 0 + needle.len() as int) =~= needle);
        assert(contains_seq(s, needle));
    } else if s.len() < needle.len() {
    } else {
        assert(s.subrange(0, 0 + needle.len() as int) != needle);
        let t = s.drop_first();
        assert forall|k: int|
            0 <= k && k + needle.len() <= t.len() implies #[trigger] t.subrange(
            k,
            k + needle.len() as int,
        ) != needle by {
            assert(t.subrange(k, k + needle.len() as int) =~= s.subrange(
                k + 1,
                k + 1 + needle.len() as int,
            ));
        }
        lemma_first_occurrence_none(t, needle);
    }
}

/// ASCII case folding of one character, as a scalar value.
pub open spec fn lower_code(c: char) -> u32 {
    if 65 <= c as u32 && c as u32 <= 90 {
        (c as u32 + 32) as u32
    } else {
        c as u32
    }
}

/// ASCII case folding of a character sequence.
pub open spec fn fold_case(s: Seq<char>) -> Seq<u32> {
    s.map_values(|c: char| lower_code(c))
}

/// `str::eq_ignore_ascii_case`: equality after ASCII case folding.
pub fn eq_ignore_ascii_case(a: &str, b: &str) -> (r: bool)
    ensures
        r == (fold_case(a@) == fold_case(b@)),
{
    let n = a.unicode_len();
    let m = b.unicode_len();
    if n != m {
        proof {
            assert(fold_case(a@).len() != fold_case(b@).len());
        }
        return false;
    }
    let mut i: usize = 0;
    while i < n
        invariant
            n == a@.len(),
            n == b@.len(),
            i <= n,
            forall|k: int| 0 <= k < i ==> #[trigger] lower_code(a@[k]) == lower_code(b@[k]),
        decreases n - i,
    {
        let x = a.get_char(i) as u32;
        let y = b.get_char(i) as u32;
        let lx = if 65 <= x && x <= 90 {
            x + 32
        } else {
            x
        };
        let ly = if 65 <= y && y <= 90 {
            y + 32
        } else {
            y
        };
        if lx != ly {
            assert(fold_case(a@)[i as int] != fold_case(b@)[i as int]);
            return false;
        }
        i = i + 1;
    }
    proof {
        assert(fold_case(a@) =~= fold_case(b@));
    }
    true
}

/// `str::starts_with`, stated over character sequences.
pub fn str_starts_with(s: &str, prefix: &str) -> (r: bool)
    ensures
        r == (prefix@.len() <= s@.len() && s@.subrange(0, prefix@.len() as int) == prefix@),
{
    let n = s.unicode_len();
    let m = prefix.unicode_len();
    if m > n {
        return false;
    }
    match_at(s, prefix, 0)
}

/// Two strings are equal as character sequences.
pub fn str_eq(a: &str, b: &str) -> (r: bool)
    ensures
        r == (a@ == b@),
{
    let n = a.unicode_len();
    let m = b.unicode_len();
    if n != m {
        return false;
    }
    let r = match_at(a, b, 0);
    proof {
        assert(a@.subrange(0, b@.len() as int) =~= a@);
    }
    r
}

/// What ellipsis truncation keeps: the string itself when it has at most
/// `max` characters, else its first `max` characters followed by `…`.
pub open spec fn truncated_with_ellipsis(s: Seq<char>, max: nat) -> Seq<char> {
    if s.len() <= max {
        s
    } else {
        s.subrange(0, max as int).push('\u{2026}')
    }
}

/// Cap a string at `max` characters, marking an actual cut with `…`.
pub fn truncate_with_ellipsis(s: &str, max: usize) -> (r: String)
    ensures
        r@ == truncated_with_ellipsis(s@, max as nat),
{
    let n = s.unicode_len();
    if n <= max {
        s.to_owned()
    } else {
        let head = s.substring_char(0, max);
        let r = head.to_owned().concat("\u{2026}");
        proof {
            reveal_strlit("\u{2026}");
            assert(r@ =~= s@.subrange(0, max as int).push('\u{2026}'));
        }
        r
    }
}

/// Lexicographic order on character sequences, by scalar value.
pub open spec fn spec_str_le(a: Seq<char>, b: Seq<char>) -> bool
    decreases a.len(),
{
    if a.len() == 0 {
        true
    } else if b.len() == 0 {
        false
    } else if (a[0] as u32) < (b[0] as u32) {
        true
    } else if (a[0] as u32) > (b[0] as u32) {
        false
    } else {
        spec_str_le(a.drop_first(), b.drop_first())
    }
}

/// The order is total.
pub proof fn lemma_str_le_total(a: Seq<char>, b: Seq<char>)
    ensures
        spec_str_le(a, b) || spec_str_le(b, a),
    decreases a.len(),
{
    if a.len() > 0 && b.len() > 0 && a[0] as u32 == b[0] as u32 {
        lemma_str_le_total(a.drop_first(), b.drop_first());
    }
}

/// The order is transitive.
pub proof fn lemma_str_le_trans(a: Seq<char>, b: Seq<char>, c: Seq<char>)
    requires
        spec_str_le(a, b),
        spec_str_le(b, c),
    ensures
        spec_str_le(a, c),
    decreases a.len(),
{
    if a.len() > 0 {
        assert(b.len() > 0);
        assert(c.len() > 0);
        if (a[0] as u32) == (b[0] as u32) && (b[0] as u32) == (c[0] as u32) {
            lemma_str_le_trans(a.drop_first(), b.drop_first(), c.drop_first());
        }
    }
}

proof fn lemma_str_le_skip(a: Seq<char>, b: Seq<char>, i: int)
    requires
        0 <= i <= a.len(),
        i <= b.len(),
        forall|k: int| 0 <= k < i ==> a[k] == b[k],
    ensures
        spec_str_le(a, b) == spec_str_le(a.skip(i), b.skip(i)),
    decreases i,
{
    if i == 0 {
        assert(a.skip(0) =~= a);
        assert(b.skip(0) =~= b);
    } else {
        assert(a[0] == b[0]);
        assert(a.drop_first().skip(i - 1) =~= a.skip(i));
        assert(b.drop_first().skip(i - 1) =~= b.skip(i));
        assert forall|k: int| 0 <= k < i - 1 implies a.drop_first()[k] == b.drop_first()[k] by {
            assert(a[k + 1] == b[k + 1]);
        }
        lemma_str_le_skip(a.drop_first(), b.drop_first(), i - 1);
    }
}

/// Compare two strings in the lexicographic order.
pub fn str_le(a: &str, b: &str) -> (r: bool)
    ensures
        r == spec_str_le(a@, b@),
{
    let n = a.unicode_len();
    let m = b.unicode_len();
    let mut i: usize = 0;
    loop
        invariant
            n == a@.len(),
            m == b@.len(),
            i <= n,
            i <= m,
            forall|k: int| 0 <= k < i ==> a@[k] == b@[k],
        decreases n - i,
    {
        proof {
            lemma_str_le_skip(a@, b@, i as int);
        }
        if i == n {
            return true;
        }
        if i == m {
            return false;
        }
        let x = a.get_char(i) as u32;
        let y = b.get_char(i) as u32;
        proof {
            assert(a@.skip(i as int)[0] == a@[i as int]);
            assert(b@.skip(i as int)[0] == b@[i as int]);
        }
        if x < y {
            return true;
        }
        if x > y {
            return false;
        }
        i = i + 1;
    }
}

/// Index of the last occurrence of a character, or -1.
pub open spec fn seek_last_char(s: Seq<char>, c: char) -> int
    decreases s.len(),
{
    if s.len() == 0 {
        -1
    } else if s.last() == c {
        s.len() - 1
    } else {
        seek_last_char(s.drop_last(), c)
    }
}

proof fn lemma_seek_last_found(s: Seq<char>, c: char, j: int)
    requires
        0 <= j < s.len(),
        s[j] == c,
        forall|k: int| j < k < s.len() ==> s[k] != c,
    ensures
        seek_last_char(s, c) == j,
    decreases s.len(),
{
    if j < s.len() - 1 {
        lemma_seek_last_found(s.drop_last(), c, j);
    }
}

proof fn lemma_seek_last_none(s: Seq<char>, c: char)
    requires
        forall|k: int| 0 <= k < s.len() ==> s[k] != c,
    ensures
        seek_last_char(s, c) == -1,
    decreases s.len(),
{
    if s.len() > 0 {
        lemma_seek_last_none(s.drop_last(), c);
    }
}

/// `str::rfind` for a character pattern, in characters.
pub fn rfind_char(s: &str, c: char) -> (r: Option<usize>)
    ensures
        match r {
            Some(j) => seek_last_char(s@, c) == j && j < s@.len(),
            None => seek_last_char(s@, c) == -1,
        },
{
    let n = s.unicode_len();
    let mut i: usize = n;
    while i > 0
        invariant
            n == s@.len(),
            i <= n,
            forall|k: int| i <= k < n ==> s@[k] != c,
        decreases i,
    {
        let idx = i - 1;
        if s.get_char(idx) == c {
            proof {
                lemma_seek_last_found(s@, c, idx as int);
            }
            return Some(idx);
        }
        i = idx;
    }
    proof {
        lemma_seek_last_none(s@, c);
    }
    None
}

/// Trimming never lengthens a string.
pub proof fn lemma_trim_le_len(s: Seq<char>)
    ensures
        trim_chars(s).len() <= s.len(),
{
    lemma_trim_start_le_len(s);
    lemma_trim_end_le_len(trim_start_chars(s));
}

proof fn lemma_trim_start_le_len(s: Seq<char>)
    ensures
        trim_start_chars(s).len() <= s.len(),
    decreases s.len(),
{
    if s.len() > 0 && is_ws_char(s[0]) {
        lemma_trim_start_le_len(s.drop_first());
    }
}

proof fn lemma_trim_end_le_len(s: Seq<char>)
    ensures
        trim_end_chars(s).len() <= s.len(),
    decreases s.len(),
{
    if s.len() > 0 && is_ws_char(s.last()) {
        lemma_trim_end_le_len(s.drop_last());
    }
}

/// An ASCII digit.
pub open spec fn is_digit_char(c: char) -> bool {
    48 <= c as u32 && c as u32 <= 57
}

/// An ASCII letter or digit.
pub open spec fn is_alnum_char(c: char) -> bool {
    (48 <= c as u32 && c as u32 <= 57) || (65 <= c as u32 && c as u32 <= 90) || (97 <= c as u32
        && c as u32 <= 122)
}

/// ASCII lowercasing of one character.
pub open spec fn lower_char(c: char) -> char {
    if 65 <= c as u32 && c as u32 <= 90 {
        (((c as u32 + 32) as u8) as char)
    } else {
        c
    }
}

/// `str::to_ascii_lowercase`, stated over character sequences.
pub fn to_ascii_lowercase_str(s: &str) -> (r: String)
    ensures
        r@ == s@.map_values(|c: char| lower_char(c)),
{
    let n = s.unicode_len();
    let mut out = String::new();
    let mut i: usize = 0;
    while i < n
        invariant
            n == s@.len(),
            i <= n,
            out@ == s@.subrange(0, i as int).map_values(|c: char| lower_char(c)),
        decreases n - i,
    {
        let c = s.get_char(i);
        let v = c as u32;
        if 65 <= v && v <= 90 {
            let b = (v + 32) as u8;
            push_char(&mut out, b as char);
        } else {
            push_char(&mut out, c);
        }
        i = i + 1;
        proof {
            assert(s@.subrange(0, i as int).map_values(|c: char| lower_char(c)) =~= s@.subrange(
                0,
                i as int - 1,
            ).map_values(|c: char| lower_char(c)).push(lower_char(s@[i as int - 1])));
        }
    }
    proof {
        assert(s@.subrange(0, n as int) == s@);
    }
    out
}

/// The decimal digits of a number, most significant first.
pub open spec fn spec_u64_digits(n: nat) -> Seq<char>
    decreases n,
{
    if n < 10 {
        seq![(((48 + n) as u8) as char)]
    } else {
        spec_u64_digits(n / 10).push((((48 + n % 10) as u8) as char))
    }
}

/// Format a number in decimal.
pub fn u64_to_string(n: u64) -> (r: String)
    ensures
        r@ == spec_u64_digits(n as nat),
        r@.len() > 0,
{
    let mut out = String::new();
    append_u64_digits(&mut out, n);
    proof {
        lemma_u64_digits_len(n as nat);
        assert(out@ =~= spec_u64_digits(n as nat));
    }
    out
}

proof fn lemma_u64_digits_len(n: nat)
    ensures
        spec_u64_digits(n).len() > 0,
    decreases n,
{
    if n >= 10 {
        lemma_u64_digits_len(n / 10);
    }
}

fn append_u64_digits(out: &mut String, n: u64)
    ensures
        final(out)@ == old(out)@ + spec_u64_digits(n as nat),
    decreases n,
{
    if n < 10 {
        let d = (48 + n) as u8;
        push_char(out, d as char);
        proof {
            assert(old(out)@ + spec_u64_digits(n as nat) =~= old(out)@.push(
                (((48 + n as nat) as u8) as char),
            ));
        }
    } else {
        append_u64_digits(out, n / 10);
        let d = (48 + n % 10) as u8;
        push_char(out, d as char);
        proof {
            assert(old(out)@ + spec_u64_digits(n as nat) =~= (old(out)@ + spec_u64_digits(
                n as nat / 10,
            )).push((((48 + n as nat % 10) as u8) as char)));
        }
    }
}

/// Relies on `String::push`: appends exactly one character.
#[verifier::external_body]
pub fn push_char(s: &mut String, c: char)
    ensures
        final(s)@ == old(s)@.push(c),
{
    s.push(c);
}

} // verus!
