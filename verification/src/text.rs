//! Small string vocabulary shared by the decision modules: comparisons,
//! prefixes, trimming, ASCII case folding, integer parsing and rendering
//! and concatenation, all proved here; only std's Unicode case mapping and
//! `String::push` stand behind trusted wrappers.

use vstd::prelude::*;
use vstd::string::StrSliceExecFns;

verus! {

/// `p` is a prefix of `s`.
pub open spec fn is_prefix(p: Seq<char>, s: Seq<char>) -> bool {
    p.len() <= s.len() && s.subrange(0, p.len() as int) == p
}

/// `p` is a suffix of `s`.
pub open spec fn is_suffix(p: Seq<char>, s: Seq<char>) -> bool {
    p.len() <= s.len() && s.subrange(s.len() - p.len(), s.len() as int) == p
}

/// `p` occurs somewhere inside `s`.
pub open spec fn has_infix(s: Seq<char>, p: Seq<char>) -> bool {
    exists|i: int| 0 <= i && i + p.len() <= s.len() && #[trigger] s.subrange(i, i + p.len()) == p
}


/// ASCII lowercase of one character: `A`..`Z` map to `a`..`z`, every
/// other character is unchanged.
pub open spec fn ascii_lower_char(c: char) -> char {
    if 'A' <= c && c <= 'Z' {
        ((c as int) + 32) as char
    } else {
        c
    }
}

pub open spec fn ascii_lower(s: Seq<char>) -> Seq<char> {
    s.map_values(|c: char| ascii_lower_char(c))
}

/// ASCII uppercase of one character: `a`..`z` map to `A`..`Z`, every
/// other character is unchanged.
pub open spec fn ascii_upper_char(c: char) -> char {
    if 'a' <= c && c <= 'z' {
        ((c as int) - 32) as char
    } else {
        c
    }
}

pub open spec fn ascii_upper(s: Seq<char>) -> Seq<char> {
    s.map_values(|c: char| ascii_upper_char(c))
}

/// Every character is ASCII.
pub open spec fn is_ascii_text(s: Seq<char>) -> bool {
    forall|i: int| 0 <= i < s.len() ==> (#[trigger] s[i] as int) < 128
}

/// ASCII letters and digits.
pub open spec fn is_ascii_alnum(c: char) -> bool {
    ('0' <= c && c <= '9') || ('a' <= c && c <= 'z') || ('A' <= c && c <= 'Z')
}

/// Two strings that match ignoring ASCII case.
pub open spec fn eq_ascii_ci(a: Seq<char>, b: Seq<char>) -> bool {
    ascii_lower(a) == ascii_lower(b)
}

/// A character with the Unicode `White_Space` property.
pub open spec fn is_white_space(c: char) -> bool {
    ('\u{9}' <= c && c <= '\u{d}') || c == ' ' || c == '\u{85}' || c == '\u{a0}'
        || c == '\u{1680}' || ('\u{2000}' <= c && c <= '\u{200a}') || c == '\u{2028}'
        || c == '\u{2029}' || c == '\u{202f}' || c == '\u{205f}' || c == '\u{3000}'
}

/// `s` without its leading white space.
pub open spec fn trimmed_start(s: Seq<char>) -> Seq<char>
    decreases s.len(),
{
    if s.len() > 0 && is_white_space(s[0]) {
        trimmed_start(s.drop_first())
    } else {
        s
    }
}

/// `s` without its trailing white space.
pub open spec fn trimmed_end(s: Seq<char>) -> Seq<char>
    decreases s.len(),
{
    if s.len() > 0 && is_white_space(s.last()) {
        trimmed_end(s.drop_last())
    } else {
        s
    }
}

/// `s` with white space removed at both ends.
pub open spec fn trimmed(s: Seq<char>) -> Seq<char> {
    trimmed_end(trimmed_start(s))
}

/// What `str::to_uppercase` returns (full Unicode case mapping).
pub uninterp spec fn uppercased(s: Seq<char>) -> Seq<char>;

/// What `str::to_lowercase` returns (full Unicode case mapping).
pub uninterp spec fn lowercased(s: Seq<char>) -> Seq<char>;

/// A non-empty run of ASCII digits.
pub open spec fn all_digits(s: Seq<char>) -> bool {
    s.len() > 0 && forall|i: int| 0 <= i < s.len() ==> '0' <= #[trigger] s[i] && s[i] <= '9'
}

/// The number that a run of ASCII digits spells, most significant first.
pub open spec fn digits_value(s: Seq<char>) -> int
    decreases s.len(),
{
    if s.len() == 0 {
        0
    } else {
        digits_value(s.drop_last()) * 10 + ((s.last() as int) - ('0' as int))
    }
}

/// An integer in decimal: an optional `+` or `-` sign, then digits only;
/// `None` for anything else.
pub open spec fn signed_decimal(s: Seq<char>) -> Option<int> {
    if s.len() > 0 && s[0] == '-' && all_digits(s.drop_first()) {
        Some(-digits_value(s.drop_first()))
    } else if s.len() > 0 && s[0] == '+' && all_digits(s.drop_first()) {
        Some(digits_value(s.drop_first()))
    } else if all_digits(s) {
        Some(digits_value(s))
    } else {
        None
    }
}

/// What `str::parse::<i64>` returns: the decimal value when it is in
/// range, `None` for an error.
pub open spec fn parsed_i64(s: Seq<char>) -> Option<i64> {
    match signed_decimal(s) {
        Some(v) => if i64::MIN <= v <= i64::MAX { Some(v as i64) } else { None },
        None => None,
    }
}

/// What `str::parse::<u64>` returns: as for `i64`, but only a `+` sign is
/// accepted.
pub open spec fn parsed_u64(s: Seq<char>) -> Option<u64> {
    let d = if s.len() > 0 && s[0] == '+' { s.drop_first() } else { s };
    if all_digits(d) && digits_value(d) <= u64::MAX {
        Some(digits_value(d) as u64)
    } else {
        None
    }
}

fn white_space(c: char) -> (res: bool)
    ensures
        res == is_white_space(c),
{
    ('\u{9}' <= c && c <= '\u{d}') || c == ' ' || c == '\u{85}' || c == '\u{a0}'
        || c == '\u{1680}' || ('\u{2000}' <= c && c <= '\u{200a}') || c == '\u{2028}'
        || c == '\u{2029}' || c == '\u{202f}' || c == '\u{205f}' || c == '\u{3000}'
}

proof fn lemma_trimmed_start_skip(s: Seq<char>, i: int)
    requires
        0 <= i <= s.len(),
        forall|j: int| 0 <= j < i ==> is_white_space(#[trigger] s[j]),
    ensures
        trimmed_start(s) == trimmed_start(s.subrange(i, s.len() as int)),
    decreases i,
{
    if i > 0 {
        assert(s.drop_first().subrange(i - 1, s.drop_first().len() as int) =~= s.subrange(
            i,
            s.len() as int,
        ));
        lemma_trimmed_start_skip(s.drop_first(), i - 1);
    } else {
        assert(s.subrange(0, s.len() as int) =~= s);
    }
}

proof fn lemma_trimmed_end_skip(s: Seq<char>, k: int)
    requires
        0 <= k <= s.len(),
        forall|j: int| k <= j < s.len() ==> is_white_space(#[trigger] s[j]),
    ensures
        trimmed_end(s) == trimmed_end(s.subrange(0, k)),
    decreases s.len() - k,
{
    if k < s.len() {
        assert(s.drop_last().subrange(0, k) =~= s.subrange(0, k));
        lemma_trimmed_end_skip(s.drop_last(), k);
    } else {
        assert(s.subrange(0, s.len() as int) =~= s);
    }
}

/// `s` with white space (the Unicode `White_Space` property, which
/// `str::trim` documents) removed at both ends.
pub(crate) fn trim(s: &str) -> (res: &str)
    ensures
        res@ == trimmed(s@),
{
    let n = s.unicode_len();
    let mut i: usize = 0;
    while i < n && white_space(s.get_char(i))
        invariant
            n == s@.len(),
            i <= n,
            forall|j: int| 0 <= j < i ==> is_white_space(#[trigger] s@[j]),
        decreases n - i,
    {
        i = i + 1;
    }
    let mut k: usize = n;
    while k > i && white_space(s.get_char(k - 1))
        invariant
            n == s@.len(),
            i <= k <= n,
            forall|j: int| k <= j < n ==> is_white_space(#[trigger] s@[j]),
        decreases k - i,
    {
        k = k - 1;
    }
    proof {
        lemma_trimmed_start_skip(s@, i as int);
        let rest = s@.subrange(i as int, n as int);
        assert(i == n || !is_white_space(rest[0]));
        assert(trimmed_start(rest) == rest);
        lemma_trimmed_end_skip(rest, k - i);
        assert(rest.subrange(0, k - i) =~= s@.subrange(i as int, k as int));
        let mid = s@.subrange(i as int, k as int);
        assert(k == i || !is_white_space(mid.last()));
        assert(trimmed_end(mid) == mid);
    }
    s.substring_char(i, k)
}

/// `str::to_uppercase`: the result is named by `uppercased`; on ASCII
/// text (the empty string included) the Unicode mapping is the ASCII one.
#[verifier::external_body]
pub(crate) fn to_uppercase(s: &str) -> (res: String)
    ensures
        res@ == uppercased(s@),
        is_ascii_text(s@) ==> res@ == ascii_upper(s@),
{
    s.to_uppercase()
}

/// `str::to_lowercase`: the result is named by `lowercased`; on ASCII
/// text (the empty string included) the Unicode mapping is the ASCII one.
#[verifier::external_body]
pub(crate) fn to_lowercase(s: &str) -> (res: String)
    ensures
        res@ == lowercased(s@),
        is_ascii_text(s@) ==> res@ == ascii_lower(s@),
{
    s.to_lowercase()
}

/// Digit values at or above this bound are out of range for both `i64`
/// and `u64`: 2^64.
pub open spec fn digit_cap() -> int {
    0x1_0000_0000_0000_0000
}

pub open spec fn capped(v: int) -> int {
    if v >= digit_cap() { digit_cap() } else { v }
}

proof fn lemma_digits_nonneg(s: Seq<char>)
    requires
        forall|i: int| 0 <= i < s.len() ==> '0' <= #[trigger] s[i] && s[i] <= '9',
    ensures
        digits_value(s) >= 0,
    decreases s.len(),
{
    if s.len() > 0 {
        lemma_digits_nonneg(s.drop_last());
    }
}

/// The digits of `t[from..]`, their value capped at 2^64; `None` unless
/// they form a non-empty run of ASCII digits.
fn digits_capped(t: &str, from: usize) -> (res: Option<i128>)
    requires
        from <= t@.len(),
    ensures
        match res {
            Some(v) => all_digits(t@.subrange(from as int, t@.len() as int)) && v == capped(
                digits_value(t@.subrange(from as int, t@.len() as int)),
            ) && 0 <= digits_value(t@.subrange(from as int, t@.len() as int)),
            None => !all_digits(t@.subrange(from as int, t@.len() as int)),
        },
{
    let n = t.unicode_len();
    if from == n {
        return None;
    }
    let cap: i128 = 0x1_0000_0000_0000_0000;
    let mut acc: i128 = 0;
    let mut i: usize = from;
    while i < n
        invariant
            n == t@.len(),
            from <= i <= n,
            cap == digit_cap(),
            forall|j: int| from <= j < i ==> '0' <= #[trigger] t@[j] && t@[j] <= '9',
            acc == capped(digits_value(t@.subrange(from as int, i as int))),
        decreases n - i,
    {
        let c = t.get_char(i);
        if !('0' <= c && c <= '9') {
            assert(t@.subrange(from as int, n as int)[i - from] == c);
            return None;
        }
        let ghost prev = t@.subrange(from as int, i as int);
        let ghost next = t@.subrange(from as int, i + 1);
        proof {
            assert(next.drop_last() =~= prev);
            assert(next.last() == c);
            assert forall|j: int| 0 <= j < prev.len() implies '0' <= #[trigger] prev[j] && prev[j]
                <= '9' by {
                assert(prev[j] == t@[from + j]);
            }
            lemma_digits_nonneg(prev);
        }
        let d: i128 = (c as u32 - 48) as i128;
        if acc >= cap {
            acc = cap;
        } else {
            let x = acc * 10 + d;
            acc = if x >= cap { cap } else { x };
        }
        i = i + 1;
    }
    proof {
        let all = t@.subrange(from as int, n as int);
        assert forall|j: int| 0 <= j < all.len() implies '0' <= #[trigger] all[j] && all[j]
            <= '9' by {
            assert(all[j] == t@[from + j]);
        }
        lemma_digits_nonneg(all);
    }
    Some(acc)
}

/// `str::parse::<i64>` as documented: an optional `+` or `-` sign
/// followed by digits only, in range; `None` for anything else.
pub(crate) fn parse_i64(s: &str) -> (res: Option<i64>)
    ensures
        res == parsed_i64(s@),
{
    let n = s.unicode_len();
    if n == 0 {
        return None;
    }
    let c = s.get_char(0);
    assert(s@.drop_first() =~= s@.subrange(1, n as int));
    assert(s@.subrange(0, n as int) =~= s@);
    if c == '-' {
        assert(!all_digits(s@));
        match digits_capped(s, 1) {
            Some(v) => if v <= 0x8000_0000_0000_0000 {
                Some((0 - v) as i64)
            } else {
                None
            },
            None => None,
        }
    } else if c == '+' {
        assert(!all_digits(s@));
        match digits_capped(s, 1) {
            Some(v) => if v <= 0x7FFF_FFFF_FFFF_FFFF {
                Some(v as i64)
            } else {
                None
            },
            None => None,
        }
    } else {
        match digits_capped(s, 0) {
            Some(v) => if v <= 0x7FFF_FFFF_FFFF_FFFF {
                Some(v as i64)
            } else {
                None
            },
            None => None,
        }
    }
}

/// What `str::parse::<i32>` returns: the decimal value when it is in
/// range, `None` for an error.
pub open spec fn parsed_i32(s: Seq<char>) -> Option<i32> {
    match signed_decimal(s) {
        Some(v) => if i32::MIN <= v <= i32::MAX { Some(v as i32) } else { None },
        None => None,
    }
}

/// `str::parse::<i32>` as documented: an optional sign followed by digits
/// only, in range; `None` for anything else.
pub(crate) fn parse_i32(s: &str) -> (res: Option<i32>)
    ensures
        res == parsed_i32(s@),
{
    match parse_i64(s) {
        Some(v) => if -0x8000_0000 <= v && v <= 0x7FFF_FFFF {
            Some(v as i32)
        } else {
            None
        },
        None => None,
    }
}

/// `str::parse::<u64>` as documented: an optional `+` followed by digits
/// only, in range; `None` for anything else.
pub(crate) fn parse_u64(s: &str) -> (res: Option<u64>)
    ensures
        res == parsed_u64(s@),
{
    let n = s.unicode_len();
    if n == 0 {
        return None;
    }
    assert(s@.drop_first() =~= s@.subrange(1, n as int));
    assert(s@.subrange(0, n as int) =~= s@);
    let from: usize = if s.get_char(0) == '+' { 1 } else { 0 };
    match digits_capped(s, from) {
        Some(v) => if v <= 0xFFFF_FFFF_FFFF_FFFF {
            Some(v as u64)
        } else {
            None
        },
        None => None,
    }
}

/// `String::push`: appends one character.
#[verifier::external_body]
pub(crate) fn push_char(s: &mut String, c: char)
    ensures
        final(s)@ == old(s)@.push(c),
{
    s.push(c)
}

/// Appends the decimal digits of `n` to `out`.
fn push_digits(out: &mut String, n: u64)
    ensures
        final(out)@ == old(out)@ + nat_digits(n as nat),
    decreases n,
{
    if n >= 10 {
        push_digits(out, n / 10);
    }
    let d: u8 = (n % 10) as u8;
    push_char(out, (d + 48u8) as char);
    assert(nat_digits(n as nat) == if n < 10 { seq![(('0' as int) + n) as char] } else {
        nat_digits((n / 10) as nat).push((('0' as int) + (n % 10)) as char)
    });
}

/// The decimal digits of `n`.
pub(crate) fn u64_to_string(n: u64) -> (res: String)
    ensures
        res@ == nat_digits(n as nat),
{
    let mut out = String::new();
    push_digits(&mut out, n);
    out
}

/// The decimal rendering of `n`, as `i64::to_string` writes it.
pub(crate) fn int_to_string(n: i64) -> (res: String)
    ensures
        res@ == decimal_digits(n as int),
{
    let mut out = String::new();
    if n < 0 {
        push_char(&mut out, '-');
        let m: u64 = (0i128 - (n as i128)) as u64;
        push_digits(&mut out, m);
    } else {
        push_digits(&mut out, n as u64);
    }
    out
}

/// Decimal digits of a non-negative number, most significant first.
pub open spec fn nat_digits(n: nat) -> Seq<char>
    decreases n,
{
    if n < 10 {
        seq![(('0' as int) + n) as char]
    } else {
        nat_digits(n / 10).push((('0' as int) + (n % 10)) as char)
    }
}

/// Decimal rendering of an integer: a leading `-` for negative numbers.
pub open spec fn decimal_digits(n: int) -> Seq<char> {
    if n < 0 {
        seq!['-'].add(nat_digits((-n) as nat))
    } else {
        nat_digits(n as nat)
    }
}


/// The characters `t[from..to]` as a string.
pub(crate) fn chars_between(t: &str, from: usize, to: usize) -> (res: String)
    requires
        from <= to <= t@.len(),
    ensures
        res@ == t@.subrange(from as int, to as int),
{
    let mut out = String::new();
    let mut i = from;
    while i < to
        invariant
            from <= i <= to,
            to <= t@.len(),
            out@ == t@.subrange(from as int, i as int),
        decreases to - i,
    {
        let c = t.get_char(i);
        push_char(&mut out, c);
        assert(t@.subrange(from as int, i + 1) == t@.subrange(from as int, i as int).push(c));
        i = i + 1;
    }
    out
}

/// `s` with every `from` character replaced by `to`.
pub fn replace_char(s: &str, from: char, to: char) -> (res: String)
    ensures
        res@ == s@.map_values(|c: char| if c == from { to } else { c }),
{
    let n = s.unicode_len();
    let mut out = String::new();
    let mut i: usize = 0;
    while i < n
        invariant
            n == s@.len(),
            i <= n,
            out@ == s@.take(i as int).map_values(|c: char| if c == from { to } else { c }),
        decreases n - i,
    {
        let c = s.get_char(i);
        push_char(&mut out, if c == from { to } else { c });
        assert(s@.take(i + 1).map_values(|c: char| if c == from { to } else { c }) =~= s@.take(i as int).map_values(
            |c: char| if c == from { to } else { c },
        ).push(if c == from { to } else { c }));
        i = i + 1;
    }
    assert(s@.take(n as int) =~= s@);
    out
}

/// The ASCII letters and digits of `s`, in order.
pub open spec fn ascii_alnum_only(s: Seq<char>) -> Seq<char> {
    s.filter(|c: char| is_ascii_alnum(c))
}

/// Keeps only the ASCII letters and digits of `s`.
pub fn keep_ascii_alnum(s: &str) -> (res: String)
    ensures
        res@ == ascii_alnum_only(s@),
{
    let n = s.unicode_len();
    let mut out = String::new();
    let mut i: usize = 0;
    while i < n
        invariant
            n == s@.len(),
            i <= n,
            out@ == ascii_alnum_only(s@.take(i as int)),
        decreases n - i,
    {
        let c = s.get_char(i);
        let ghost prev = s@.take(i as int);
        assert(s@.take(i + 1).drop_last() == prev);
        assert(s@.take(i + 1).last() == c);
        proof {
            reveal_with_fuel(Seq::<_>::filter, 1);
        }
        if ('0' <= c && c <= '9') || ('a' <= c && c <= 'z') || ('A' <= c && c <= 'Z') {
            push_char(&mut out, c);
        }
        i = i + 1;
    }
    assert(s@.take(n as int) == s@);
    out
}


/// `p` occurs in `t` at character position `pos`.
pub open spec fn occurs_at(t: Seq<char>, pos: int, p: Seq<char>) -> bool {
    0 <= pos && pos + p.len() <= t.len() && t.subrange(pos, pos + p.len()) == p
}

pub(crate) fn matches_at(t: &str, pos: usize, p: &str) -> (res: bool)
    ensures
        res == occurs_at(t@, pos as int, p@),
{
    let n = t.unicode_len();
    let m = p.unicode_len();
    if pos > n || m > n - pos {
        return false;
    }
    let mut k: usize = 0;
    while k < m
        invariant
            n == t@.len(),
            m == p@.len(),
            pos + m <= n,
            k <= m,
            forall|j: int| 0 <= j < k ==> t@[pos + j] == #[trigger] p@[j],
        decreases m - k,
    {
        if t.get_char(pos + k) != p.get_char(k) {
            assert(t@.subrange(pos as int, pos + m)[k as int] != p@[k as int]);
            return false;
        }
        k = k + 1;
    }
    assert(t@.subrange(pos as int, pos + m) =~= p@);
    true
}

/// Whether the two strings hold the same characters.
pub(crate) fn str_eq(a: &str, b: &str) -> (res: bool)
    ensures
        res == (a@ == b@),
{
    if a.unicode_len() != b.unicode_len() {
        return false;
    }
    assert(a@.subrange(0, a@.len() as int) =~= a@);
    matches_at(a, 0, b)
}

/// Whether `s` begins with `p`.
pub(crate) fn starts_with(s: &str, p: &str) -> (res: bool)
    ensures
        res == is_prefix(p@, s@),
{
    matches_at(s, 0, p)
}

/// Whether `s` ends with `p`.
pub(crate) fn ends_with(s: &str, p: &str) -> (res: bool)
    ensures
        res == is_suffix(p@, s@),
{
    let n = s.unicode_len();
    let m = p.unicode_len();
    if m > n {
        return false;
    }
    matches_at(s, n - m, p)
}

/// Whether `p` occurs somewhere in `s`.
pub(crate) fn contains(s: &str, p: &str) -> (res: bool)
    ensures
        res == has_infix(s@, p@),
{
    let n = s.unicode_len();
    let m = p.unicode_len();
    if m > n {
        return false;
    }
    let mut i: usize = 0;
    while i < n - m
        invariant
            n == s@.len(),
            m == p@.len(),
            m <= n,
            i <= n - m,
            forall|j: int| 0 <= j < i ==> !occurs_at(s@, j, p@),
        decreases n - m - i,
    {
        if matches_at(s, i, p) {
            return true;
        }
        i = i + 1;
    }
    if matches_at(s, n - m, p) {
        return true;
    }
    assert forall|j: int| 0 <= j && j + p@.len() <= s@.len() implies #[trigger] s@.subrange(
        j,
        j + p@.len(),
    ) != p@ by {
        assert(!occurs_at(s@, j, p@));
    }
    false
}

/// `s` without the suffix `p`, `None` when `s` does not end with it.
pub(crate) fn strip_suffix<'a>(s: &'a str, p: &str) -> (res: Option<&'a str>)
    ensures
        match res {
            Some(r) => is_suffix(p@, s@) && r@ == s@.subrange(0, s@.len() - p@.len()),
            None => !is_suffix(p@, s@),
        },
{
    if ends_with(s, p) {
        let n = s.unicode_len();
        let m = p.unicode_len();
        Some(s.substring_char(0, n - m))
    } else {
        None
    }
}

/// `a` followed by `b`.
pub(crate) fn concat(a: String, b: &str) -> (res: String)
    ensures
        res@ == a@ + b@,
{
    let mut out = a;
    let ghost start = out@;
    let n = b.unicode_len();
    let mut i: usize = 0;
    while i < n
        invariant
            n == b@.len(),
            i <= n,
            out@ == start + b@.take(i as int),
        decreases n - i,
    {
        let c = b.get_char(i);
        push_char(&mut out, c);
        assert(b@.take(i + 1) =~= b@.take(i as int).push(c));
        i = i + 1;
    }
    assert(b@.take(n as int) =~= b@);
    out
}

fn lower_ascii_char(c: char) -> (res: char)
    ensures
        res == ascii_lower_char(c),
{
    if 'A' <= c && c <= 'Z' {
        ((c as u8) + 32) as char
    } else {
        c
    }
}

/// `s` with the ASCII letters lowered, every other character kept.
pub(crate) fn to_ascii_lowercase(s: &str) -> (res: String)
    ensures
        res@ == ascii_lower(s@),
{
    let n = s.unicode_len();
    let mut out = String::new();
    let mut i: usize = 0;
    while i < n
        invariant
            n == s@.len(),
            i <= n,
            out@ == ascii_lower(s@.take(i as int)),
        decreases n - i,
    {
        let c = s.get_char(i);
        push_char(&mut out, lower_ascii_char(c));
        assert(ascii_lower(s@.take(i + 1)) =~= ascii_lower(s@.take(i as int)).push(
            ascii_lower_char(c),
        ));
        i = i + 1;
    }
    assert(s@.take(n as int) =~= s@);
    out
}

/// Whether the two strings are equal once ASCII letters are lowered.
pub(crate) fn eq_ignore_ascii_case(a: &str, b: &str) -> (res: bool)
    ensures
        res == eq_ascii_ci(a@, b@),
{
    let n = a.unicode_len();
    if n != b.unicode_len() {
        assert(ascii_lower(a@).len() != ascii_lower(b@).len());
        return false;
    }
    let mut k: usize = 0;
    while k < n
        invariant
            n == a@.len(),
            n == b@.len(),
            k <= n,
            forall|j: int| 0 <= j < k ==> ascii_lower_char(a@[j]) == ascii_lower_char(b@[j]),
        decreases n - k,
    {
        if lower_ascii_char(a.get_char(k)) != lower_ascii_char(b.get_char(k)) {
            assert(ascii_lower(a@)[k as int] != ascii_lower(b@)[k as int]);
            return false;
        }
        k = k + 1;
    }
    assert(ascii_lower(a@) =~= ascii_lower(b@));
    true
}

proof fn lemma_trimmed_start_shape(s: Seq<char>)
    ensures
        trimmed_start(s).len() <= s.len(),
        trimmed_start(s) == s.subrange(s.len() - trimmed_start(s).len(), s.len() as int),
        trimmed_start(s).len() > 0 ==> !is_white_space(trimmed_start(s)[0]),
    decreases s.len(),
{
    if s.len() > 0 && is_white_space(s[0]) {
        let t = s.drop_first();
        lemma_trimmed_start_shape(t);
        let l = trimmed_start(t).len();
        assert(t.subrange(t.len() - l, t.len() as int) =~= s.subrange(s.len() - l, s.len() as int));
    } else {
        assert(s.subrange(0, s.len() as int) =~= s);
    }
}

proof fn lemma_trimmed_end_shape(s: Seq<char>)
    ensures
        trimmed_end(s).len() <= s.len(),
        trimmed_end(s) == s.subrange(0, trimmed_end(s).len() as int),
        trimmed_end(s).len() > 0 ==> !is_white_space(trimmed_end(s).last()),
    decreases s.len(),
{
    if s.len() > 0 && is_white_space(s.last()) {
        let t = s.drop_last();
        lemma_trimmed_end_shape(t);
        let l = trimmed_end(t).len();
        assert(t.subrange(0, l as int) =~= s.subrange(0, l as int));
    } else {
        assert(s.subrange(0, s.len() as int) =~= s);
    }
}

/// A trimmed string is part of the original, and neither starts nor ends
/// with white space.
pub proof fn lemma_trimmed_shape(s: Seq<char>)
    ensures
        is_ascii_text(s) ==> is_ascii_text(trimmed(s)),
        trimmed(s).len() > 0 ==> !is_white_space(trimmed(s)[0]) && !is_white_space(
            trimmed(s).last(),
        ),
{
    lemma_trimmed_start_shape(s);
    let x = trimmed_start(s);
    lemma_trimmed_end_shape(x);
    let t = trimmed(s);
    let off = s.len() - x.len();
    assert forall|i: int| 0 <= i < t.len() implies #[trigger] t[i] == s[off + i] by {
        assert(t[i] == x[i]);
        assert(x[i] == s[off + i]);
    }
    if is_ascii_text(s) {
        assert forall|i: int| 0 <= i < t.len() implies (#[trigger] t[i] as int) < 128 by {
            assert(t[i] == s[off + i]);
        }
    }
    if t.len() > 0 {
        assert(t[0] == x[0]);
    }
}

/// Trimming leaves a string alone when it neither starts nor ends with
/// white space.
pub proof fn lemma_trimmed_fixed(t: Seq<char>)
    requires
        t.len() > 0 ==> !is_white_space(t[0]) && !is_white_space(t.last()),
    ensures
        trimmed(t) == t,
{
    assert(trimmed_start(t) == t);
    assert(trimmed_end(t) == t);
}

} // verus!
