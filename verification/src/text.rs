//! Character-level text predicates and builders shared by every artifact.
//!
//! Strings are reasoned about through their views as `Seq<char>`. Every
//! executable helper here states its result over the spec functions below.

use vstd::prelude::*;

verus! {

/// Unicode `White_Space` code points, the set `char::is_whitespace` uses.
pub open spec fn is_ws(c: char) -> bool {
    let u = c as u32;
    (0x9 <= u && u <= 0xd) || u == 0x20 || u == 0x85 || u == 0xa0 || u == 0x1680
        || (0x2000 <= u && u <= 0x200a) || u == 0x2028 || u == 0x2029 || u == 0x202f
        || u == 0x205f || u == 0x3000
}

/// A text is blank when trimming leaves nothing: every character is whitespace.
pub open spec fn blank(s: Seq<char>) -> bool {
    forall|i: int| 0 <= i < s.len() ==> is_ws(#[trigger] s[i])
}

/// Number of leading whitespace characters.
pub open spec fn lead_ws(s: Seq<char>) -> nat
    decreases s.len(),
{
    if s.len() > 0 && is_ws(s[0]) {
        1 + lead_ws(s.drop_first())
    } else {
        0
    }
}

/// Number of trailing whitespace characters.
pub open spec fn trail_ws(s: Seq<char>) -> nat
    decreases s.len(),
{
    if s.len() > 0 && is_ws(s.last()) {
        1 + trail_ws(s.drop_last())
    } else {
        0
    }
}

/// `str::trim`: the text without leading and trailing whitespace.
pub open spec fn trim(s: Seq<char>) -> Seq<char> {
    let t = s.skip(lead_ws(s) as int);
    t.take(t.len() - trail_ws(t))
}

pub open spec fn is_hex(c: char) -> bool {
    ('0' <= c && c <= '9') || ('a' <= c && c <= 'f') || ('A' <= c && c <= 'F')
}

pub open spec fn is_lower_hex(c: char) -> bool {
    ('0' <= c && c <= '9') || ('a' <= c && c <= 'f')
}

pub open spec fn all_hex(s: Seq<char>) -> bool {
    forall|i: int| 0 <= i < s.len() ==> is_hex(#[trigger] s[i])
}

pub open spec fn all_lower_hex(s: Seq<char>) -> bool {
    forall|i: int| 0 <= i < s.len() ==> is_lower_hex(#[trigger] s[i])
}

pub open spec fn sha256_prefix() -> Seq<char> {
    seq!['s', 'h', 'a', '2', '5', '6', ':']
}

/// `sha256:` followed by exactly 64 hexadecimal digits of either case.
pub open spec fn is_sha256_digest(s: Seq<char>) -> bool {
    s.len() == 71 && s.take(7) == sha256_prefix() && all_hex(s.skip(7))
}

/// `sha256:` followed by exactly 64 lowercase hexadecimal digits.
pub open spec fn is_lower_sha256_digest(s: Seq<char>) -> bool {
    s.len() == 71 && s.take(7) == sha256_prefix() && all_lower_hex(s.skip(7))
}

/// A commit or tree object id: 40 or 64 hexadecimal digits of either case.
pub open spec fn is_git_sha(s: Seq<char>) -> bool {
    (s.len() == 40 || s.len() == 64) && all_hex(s)
}

/// A commit or tree object id of 40 or 64 lowercase hexadecimal digits.
pub open spec fn is_lower_git_sha(s: Seq<char>) -> bool {
    (s.len() == 40 || s.len() == 64) && all_lower_hex(s)
}

pub open spec fn ascii_lower(c: char) -> char {
    if 'A' <= c && c <= 'Z' {
        ((c as u32) + 32) as char
    } else {
        c
    }
}

/// `str::eq_ignore_ascii_case`.
pub open spec fn eq_ignore_ascii_case(a: Seq<char>, b: Seq<char>) -> bool {
    a.len() == b.len() && forall|i: int| 0 <= i < a.len() ==> ascii_lower(#[trigger] a[i])
        == ascii_lower(b[i])
}

pub open spec fn starts_with(s: Seq<char>, p: Seq<char>) -> bool {
    p.len() <= s.len() && s.take(p.len() as int) == p
}

pub open spec fn ends_with(s: Seq<char>, p: Seq<char>) -> bool {
    p.len() <= s.len() && s.skip(s.len() - p.len()) == p
}

pub open spec fn occurs_at(s: Seq<char>, p: Seq<char>, i: int) -> bool {
    0 <= i && i + p.len() <= s.len() && s.subrange(i, i + p.len()) == p
}

/// `str::contains` for a text needle.
pub open spec fn contains(s: Seq<char>, p: Seq<char>) -> bool {
    exists|i: int| occurs_at(s, p, i)
}

pub open spec fn has_char(s: Seq<char>, c: char) -> bool {
    exists|i: int| 0 <= i < s.len() && s[i] == c
}

pub open spec fn digit_char(d: nat) -> char {
    ((d % 10) + 48) as char
}

/// Decimal rendering of a natural number, as `Display` writes it.
pub open spec fn decimal(n: nat) -> Seq<char>
    decreases n,
{
    if n < 10 {
        seq![digit_char(n)]
    } else {
        decimal(n / 10).push(digit_char(n % 10))
    }
}

/// Strict lexicographic order on character sequences. For valid text this
/// is the byte order `String`'s `Ord` uses, since UTF-8 preserves code point
/// order.
pub open spec fn seq_lt(a: Seq<char>, b: Seq<char>) -> bool
    decreases a.len(),
{
    if a.len() == 0 {
        b.len() > 0
    } else if b.len() == 0 {
        false
    } else if a[0] != b[0] {
        (a[0] as u32) < (b[0] as u32)
    } else {
        seq_lt(a.drop_first(), b.drop_first())
    }
}

/// `seq_lt` never holds both ways.
pub proof fn lemma_seq_lt_asymmetric(a: Seq<char>, b: Seq<char>)
    ensures
        !(seq_lt(a, b) && seq_lt(b, a)),
    decreases a.len(),
{
    if a.len() > 0 && b.len() > 0 && a[0] == b[0] {
        lemma_seq_lt_asymmetric(a.drop_first(), b.drop_first());
    }
}

/// `seq_lt` is transitive.
pub proof fn lemma_seq_lt_transitive(a: Seq<char>, b: Seq<char>, c: Seq<char>)
    requires
        seq_lt(a, b),
        seq_lt(b, c),
    ensures
        seq_lt(a, c),
    decreases a.len(),
{
    if a.len() > 0 && b.len() > 0 && c.len() > 0 && a[0] == b[0] && b[0] == c[0] {
        lemma_seq_lt_transitive(a.drop_first(), b.drop_first(), c.drop_first());
    }
}

pub fn char_is_ws(c: char) -> (r: bool)
    ensures
        r == is_ws(c),
{
    let u = c as u32;
    (0x9 <= u && u <= 0xd) || u == 0x20 || u == 0x85 || u == 0xa0 || u == 0x1680 || (0x2000 <= u
        && u <= 0x200a) || u == 0x2028 || u == 0x2029 || u == 0x202f || u == 0x205f || u == 0x3000
}

pub fn char_is_hex(c: char) -> (r: bool)
    ensures
        r == is_hex(c),
{
    ('0' <= c && c <= '9') || ('a' <= c && c <= 'f') || ('A' <= c && c <= 'F')
}

pub fn char_is_lower_hex(c: char) -> (r: bool)
    ensures
        r == is_lower_hex(c),
{
    ('0' <= c && c <= '9') || ('a' <= c && c <= 'f')
}

/// The characters of a text, in order.
pub fn chars_of(s: &str) -> (res: Vec<char>)
    ensures
        res@ == s@,
{
    let mut out: Vec<char> = Vec::new();
    for c in it: s.chars()
        invariant
            out@ == it.seq().take(it.index()),
    {
        out.push(c);
    }
    out
}

/// `s.trim().is_empty()`.
pub fn is_blank(s: &str) -> (r: bool)
    ensures
        r == blank(s@),
{
    let cs = chars_of(s);
    let mut i: usize = 0;
    while i < cs.len()
        invariant
            i <= cs.len(),
            cs@ == s@,
            forall|j: int| 0 <= j < i ==> is_ws(#[trigger] cs@[j]),
        decreases cs.len() - i,
    {
        if !char_is_ws(cs[i]) {
            return false;
        }
        i = i + 1;
    }
    true
}

pub proof fn lemma_lead_ws_bound(s: Seq<char>)
    ensures
        lead_ws(s) <= s.len(),
        forall|j: int| 0 <= j < lead_ws(s) ==> is_ws(#[trigger] s[j]),
        lead_ws(s) < s.len() ==> !is_ws(s[lead_ws(s) as int]),
    decreases s.len(),
{
    if s.len() > 0 && is_ws(s[0]) {
        lemma_lead_ws_bound(s.drop_first());
        assert forall|j: int| 0 <= j < lead_ws(s) implies is_ws(#[trigger] s[j]) by {
            if j > 0 {
                assert(s[j] == s.drop_first()[j - 1]);
            }
        }
    }
}

pub proof fn lemma_trail_ws_bound(s: Seq<char>)
    ensures
        trail_ws(s) <= s.len(),
        forall|j: int| s.len() - trail_ws(s) <= j < s.len() ==> is_ws(#[trigger] s[j]),
        trail_ws(s) < s.len() ==> !is_ws(s[s.len() - trail_ws(s) - 1]),
    decreases s.len(),
{
    if s.len() > 0 && is_ws(s.last()) {
        lemma_trail_ws_bound(s.drop_last());
        assert forall|j: int| s.len() - trail_ws(s) <= j < s.len() implies is_ws(#[trigger] s[j]) by {
            if j < s.len() - 1 {
                assert(s[j] == s.drop_last()[j]);
            }
        }
    }
}

/// Characterises `lead_ws` as the first non-whitespace position.
pub proof fn lemma_lead_ws_is(s: Seq<char>, k: nat)
    requires
        k <= s.len(),
        forall|j: int| 0 <= j < k ==> is_ws(#[trigger] s[j]),
        k < s.len() ==> !is_ws(s[k as int]),
    ensures
        lead_ws(s) == k,
    decreases s.len(),
{
    if k > 0 {
        assert(is_ws(s[0]));
        let t = s.drop_first();
        assert forall|j: int| 0 <= j < (k - 1) as nat implies is_ws(#[trigger] t[j]) by {
            assert(t[j] == s[j + 1]);
        }
        if (k - 1) < t.len() {
            assert(t[(k - 1) as int] == s[k as int]);
        }
        lemma_lead_ws_is(t, (k - 1) as nat);
    }
}

/// Characterises `trail_ws` as the distance to the last non-whitespace position.
pub proof fn lemma_trail_ws_is(s: Seq<char>, k: nat)
    requires
        k <= s.len(),
        forall|j: int| s.len() - k <= j < s.len() ==> is_ws(#[trigger] s[j]),
        k < s.len() ==> !is_ws(s[s.len() - k - 1]),
    ensures
        trail_ws(s) == k,
    decreases s.len(),
{
    if k > 0 {
        assert(is_ws(s[s.len() - 1]));
        let t = s.drop_last();
        assert forall|j: int| t.len() - (k - 1) <= j < t.len() implies is_ws(#[trigger] t[j]) by {
            assert(t[j] == s[j]);
        }
        if (k - 1) < t.len() {
            assert(t[t.len() - (k - 1) - 1] == s[s.len() - k - 1]);
        }
        lemma_trail_ws_is(t, (k - 1) as nat);
    }
}

pub proof fn lemma_trim_empty_iff_blank(s: Seq<char>)
    ensures
        (trim(s).len() == 0) == blank(s),
{
    lemma_lead_ws_bound(s);
    let t = s.skip(lead_ws(s) as int);
    lemma_trail_ws_bound(t);
    if blank(s) {
        assert forall|j: int| 0 <= j < s.len() implies is_ws(#[trigger] s[j]) by {}
        if lead_ws(s) < s.len() {
            assert(is_ws(s[lead_ws(s) as int]));
        }
    } else {
        let j = choose|j: int| 0 <= j < s.len() && !is_ws(#[trigger] s[j]);
        assert(lead_ws(s) <= j);
        assert(t.len() > 0);
        assert(!is_ws(t[0]));
        if trail_ws(t) == t.len() {
            assert(is_ws(t[0]));
        }
    }
}

/// `s.trim().to_string()`.
pub fn trim_string(s: &str) -> (r: String)
    ensures
        r@ == trim(s@),
{
    let cs = chars_of(s);
    let n = cs.len();
    let mut start: usize = 0;
    while start < n && char_is_ws(cs[start])
        invariant
            start <= n,
            n == cs@.len(),
            cs@ == s@,
            forall|j: int| 0 <= j < start ==> is_ws(#[trigger] cs@[j]),
        decreases n - start,
    {
        start = start + 1;
    }
    proof {
        lemma_lead_ws_is(s@, start as nat);
    }
    let mut end: usize = n;
    while end > start && char_is_ws(cs[end - 1])
        invariant
            start <= end <= n,
            n == cs@.len(),
            cs@ == s@,
            forall|j: int| end <= j < n ==> is_ws(#[trigger] cs@[j]),
        decreases end,
    {
        end = end - 1;
    }
    proof {
        let t = s@.skip(start as int);
        assert forall|j: int| t.len() - (n - end) <= j < t.len() implies is_ws(#[trigger] t[j]) by {
            assert(t[j] == s@[j + start]);
        }
        if (n - end) < t.len() {
            assert(t[t.len() - (n - end) - 1] == s@[end - 1]);
        }
        lemma_trail_ws_is(t, (n - end) as nat);
        assert(trim(s@) =~= s@.subrange(start as int, end as int));
    }
    s.substring_char(start, end).to_string()
}

pub fn is_sha256_digest_str(s: &str) -> (r: bool)
    ensures
        r == is_sha256_digest(s@),
{
    let cs = chars_of(s);
    if cs.len() != 71 {
        return false;
    }
    let prefix = !(cs[0] != 's' || cs[1] != 'h' || cs[2] != 'a' || cs[3] != '2' || cs[4] != '5'
        || cs[5] != '6' || cs[6] != ':');
    if !prefix {
        assert(s@.take(7) != sha256_prefix()) by {
            let k: int = if cs@[0] != 's' { 0 } else if cs@[1] != 'h' { 1 } else if cs@[2] != 'a' { 2 }
                else if cs@[3] != '2' { 3 } else if cs@[4] != '5' { 4 } else if cs@[5] != '6' { 5 } else { 6 };
            assert(s@.take(7)[k] != sha256_prefix()[k]);
        }
        return false;
    }
    assert(s@.take(7) =~= sha256_prefix());
    let mut i: usize = 7;
    while i < 71
        invariant
            7 <= i <= 71,
            cs@ == s@,
            cs@.len() == 71,
            forall|j: int| 7 <= j < i ==> is_hex(#[trigger] cs@[j]),
        decreases 71 - i,
    {
        if !char_is_hex(cs[i]) {
            assert(s@.skip(7)[i - 7] == cs@[i as int]);
            return false;
        }
        i = i + 1;
    }
    assert(all_hex(s@.skip(7))) by {
        assert forall|j: int| 0 <= j < s@.skip(7).len() implies is_hex(#[trigger] s@.skip(7)[j]) by {
            assert(s@.skip(7)[j] == cs@[j + 7]);
        }
    }
    true
}

pub fn is_lower_sha256_digest_str(s: &str) -> (r: bool)
    ensures
        r == is_lower_sha256_digest(s@),
{
    let cs = chars_of(s);
    if cs.len() != 71 {
        return false;
    }
    let prefix = !(cs[0] != 's' || cs[1] != 'h' || cs[2] != 'a' || cs[3] != '2' || cs[4] != '5'
        || cs[5] != '6' || cs[6] != ':');
    if !prefix {
        assert(s@.take(7) != sha256_prefix()) by {
            let k: int = if cs@[0] != 's' { 0 } else if cs@[1] != 'h' { 1 } else if cs@[2] != 'a' { 2 }
                else if cs@[3] != '2' { 3 } else if cs@[4] != '5' { 4 } else if cs@[5] != '6' { 5 } else { 6 };
            assert(s@.take(7)[k] != sha256_prefix()[k]);
        }
        return false;
    }
    assert(s@.take(7) =~= sha256_prefix());
    let mut i: usize = 7;
    while i < 71
        invariant
            7 <= i <= 71,
            cs@ == s@,
            cs@.len() == 71,
            forall|j: int| 7 <= j < i ==> is_lower_hex(#[trigger] cs@[j]),
        decreases 71 - i,
    {
        if !char_is_lower_hex(cs[i]) {
            assert(s@.skip(7)[i - 7] == cs@[i as int]);
            return false;
        }
        i = i + 1;
    }
    assert(all_lower_hex(s@.skip(7))) by {
        assert forall|j: int| 0 <= j < s@.skip(7).len() implies is_lower_hex(
            #[trigger] s@.skip(7)[j],
        ) by {
            assert(s@.skip(7)[j] == cs@[j + 7]);
        }
    }
    true
}

/// Every character is a hexadecimal digit of either case.
pub fn all_hex_str(s: &str) -> (r: bool)
    ensures
        r == all_hex(s@),
{
    let cs = chars_of(s);
    let mut i: usize = 0;
    while i < cs.len()
        invariant
            i <= cs.len(),
            cs@ == s@,
            forall|j: int| 0 <= j < i ==> is_hex(#[trigger] cs@[j]),
        decreases cs.len() - i,
    {
        if !char_is_hex(cs[i]) {
            return false;
        }
        i = i + 1;
    }
    true
}

/// Every character is a lowercase hexadecimal digit.
pub fn all_lower_hex_str(s: &str) -> (r: bool)
    ensures
        r == all_lower_hex(s@),
{
    let cs = chars_of(s);
    let mut i: usize = 0;
    while i < cs.len()
        invariant
            i <= cs.len(),
            cs@ == s@,
            forall|j: int| 0 <= j < i ==> is_lower_hex(#[trigger] cs@[j]),
        decreases cs.len() - i,
    {
        if !char_is_lower_hex(cs[i]) {
            return false;
        }
        i = i + 1;
    }
    true
}

pub fn is_git_sha_str(s: &str) -> (r: bool)
    ensures
        r == is_git_sha(s@),
{
    let n = s.unicode_len();
    (n == 40 || n == 64) && all_hex_str(s)
}

pub fn is_lower_git_sha_str(s: &str) -> (r: bool)
    ensures
        r == is_lower_git_sha(s@),
{
    let n = s.unicode_len();
    (n == 40 || n == 64) && all_lower_hex_str(s)
}

pub fn char_ascii_lower(c: char) -> (r: char)
    ensures
        r == ascii_lower(c),
{
    if 'A' <= c && c <= 'Z' {
        let u = c as u32 + 32;
        assert(0x61 <= u <= 0x7a);
        proof {
            // lowercase ASCII letters are valid scalar values
        }
        char_from_ascii(u)
    } else {
        c
    }
}

/// An ASCII code point as a `char`.
pub fn char_from_ascii(u: u32) -> (r: char)
    requires
        u < 128,
    ensures
        r == u as char,
{
    let b = u as u8;
    b as char
}

pub fn str_eq_ignore_ascii_case(a: &str, b: &str) -> (r: bool)
    ensures
        r == eq_ignore_ascii_case(a@, b@),
{
    let x = chars_of(a);
    let y = chars_of(b);
    if x.len() != y.len() {
        return false;
    }
    let mut i: usize = 0;
    while i < x.len()
        invariant
            i <= x.len(),
            x.len() == y.len(),
            x@ == a@,
            y@ == b@,
            forall|j: int| 0 <= j < i ==> ascii_lower(#[trigger] x@[j]) == ascii_lower(y@[j]),
        decreases x.len() - i,
    {
        if char_ascii_lower(x[i]) != char_ascii_lower(y[i]) {
            return false;
        }
        i = i + 1;
    }
    true
}

pub fn str_eq(a: &str, b: &str) -> (r: bool)
    ensures
        r == (a@ == b@),
{
    let x = chars_of(a);
    let y = chars_of(b);
    if x.len() != y.len() {
        return false;
    }
    let mut i: usize = 0;
    while i < x.len()
        invariant
            i <= x.len(),
            x.len() == y.len(),
            x@ == a@,
            y@ == b@,
            forall|j: int| 0 <= j < i ==> #[trigger] x@[j] == y@[j],
        decreases x.len() - i,
    {
        if x[i] != y[i] {
            return false;
        }
        i = i + 1;
    }
    assert(x@ =~= y@);
    true
}

pub fn starts_with_str(s: &str, p: &str) -> (r: bool)
    ensures
        r == starts_with(s@, p@),
{
    let x = chars_of(s);
    let y = chars_of(p);
    if y.len() > x.len() {
        return false;
    }
    let mut i: usize = 0;
    while i < y.len()
        invariant
            i <= y.len() <= x.len(),
            x@ == s@,
            y@ == p@,
            forall|j: int| 0 <= j < i ==> #[trigger] x@[j] == y@[j],
        decreases y.len() - i,
    {
        if x[i] != y[i] {
            assert(s@.take(p@.len() as int)[i as int] != p@[i as int]);
            return false;
        }
        i = i + 1;
    }
    assert(s@.take(p@.len() as int) =~= p@);
    true
}

pub fn ends_with_str(s: &str, p: &str) -> (r: bool)
    ensures
        r == ends_with(s@, p@),
{
    let x = chars_of(s);
    let y = chars_of(p);
    if y.len() > x.len() {
        return false;
    }
    let off = x.len() - y.len();
    let mut i: usize = 0;
    while i < y.len()
        invariant
            i <= y.len() <= x.len(),
            off == x.len() - y.len(),
            x@ == s@,
            y@ == p@,
            forall|j: int| 0 <= j < i ==> #[trigger] x@[j + off] == y@[j],
        decreases y.len() - i,
    {
        if x[off + i] != y[i] {
            assert(s@.skip(off as int)[i as int] != p@[i as int]);
            return false;
        }
        i = i + 1;
    }
    assert(s@.skip(off as int) =~= p@) by {
        assert forall|j: int| 0 <= j < p@.len() implies s@.skip(off as int)[j] == p@[j] by {
            assert(x@[j + off] == y@[j]);
        }
    }
    true
}

/// Whether `p` occurs in `x` at position `i`.
fn occurs_at_vec(x: &Vec<char>, y: &Vec<char>, i: usize) -> (r: bool)
    requires
        i + y@.len() <= x@.len(),
    ensures
        r == occurs_at(x@, y@, i as int),
{
    let mut k: usize = 0;
    while k < y.len()
        invariant
            k <= y.len(),
            i + y.len() <= x.len(),
            i + y@.len() <= x@.len(),
            forall|j: int| 0 <= j < k ==> #[trigger] x@[i + j] == y@[j],
        decreases y.len() - k,
    {
        if x[i + k] != y[k] {
            assert(x@.subrange(i as int, i + y@.len())[k as int] != y@[k as int]);
            return false;
        }
        k = k + 1;
    }
    assert(x@.subrange(i as int, i + y@.len()) =~= y@) by {
        assert forall|j: int| 0 <= j < y@.len() implies x@.subrange(i as int, i + y@.len())[j]
            == y@[j] by {
            assert(x@[i + j] == y@[j]);
        }
    }
    true
}

pub fn contains_str(s: &str, p: &str) -> (r: bool)
    ensures
        r == contains(s@, p@),
{
    let x = chars_of(s);
    let y = chars_of(p);
    if y.len() > x.len() {
        assert forall|i: int| !occurs_at(s@, p@, i) by {}
        return false;
    }
    let last = x.len() - y.len();
    let mut i: usize = 0;
    while i <= last
        invariant
            last == x@.len() - y@.len(),
            x@ == s@,
            y@ == p@,
            forall|j: int| 0 <= j < i ==> !occurs_at(s@, p@, j),
        decreases last + 1 - i,
    {
        if occurs_at_vec(&x, &y, i) {
            return true;
        }
        if i == last {
            assert forall|j: int| !occurs_at(s@, p@, j) by {}
            return false;
        }
        i = i + 1;
    }
    assert forall|j: int| !occurs_at(s@, p@, j) by {}
    false
}

pub fn has_char_str(s: &str, c: char) -> (r: bool)
    ensures
        r == has_char(s@, c),
{
    let x = chars_of(s);
    let mut i: usize = 0;
    while i < x.len()
        invariant
            i <= x.len(),
            x@ == s@,
            forall|j: int| 0 <= j < i ==> x@[j] != c,
        decreases x.len() - i,
    {
        if x[i] == c {
            return true;
        }
        i = i + 1;
    }
    false
}

pub proof fn lemma_decimal_nonempty(n: nat)
    ensures
        decimal(n).len() >= 1,
    decreases n,
{
    if n >= 10 {
        lemma_decimal_nonempty(n / 10);
    }
}

/// Decimal digits of `n`, as `Display` renders an unsigned integer.
pub fn decimal_string(n: u64) -> (r: String)
    ensures
        r@ == decimal(n as nat),
    decreases n,
{
    let d = n % 10;
    let c = char_from_ascii((d + 48) as u32);
    if n < 10 {
        let mut s = String::new();
        push_char(&mut s, c);
        assert(s@ =~= decimal(n as nat));
        s
    } else {
        let mut s = decimal_string(n / 10);
        push_char(&mut s, c);
        s
    }
}

/// What `format!("{:?}", s)` writes for a text: the quoted, escaped
/// `Debug` form of `str`.
pub uninterp spec fn debug_str(s: Seq<char>) -> Seq<char>;

/// Calls `format!("{:?}", s)`. Trusted: the result is the `Debug` rendering
/// of exactly `s`, named `debug_str`; nothing else is claimed of it.
#[verifier::external_body]
pub(crate) fn debug_string(s: &str) -> (r: String)
    ensures
        r@ == debug_str(s@),
{
    format!("{:?}", s)
}

/// Appends one character (`String::push`).
#[verifier::external_body]
pub(crate) fn push_char(s: &mut String, c: char)
    ensures
        final(s)@ == old(s)@.push(c),
{
    s.push(c);
}

/// Builds a text from its characters.
pub fn string_from_chars(cs: &Vec<char>) -> (r: String)
    ensures
        r@ == cs@,
{
    let mut s = String::new();
    let mut i: usize = 0;
    while i < cs.len()
        invariant
            i <= cs.len(),
            s@ == cs@.take(i as int),
        decreases cs.len() - i,
    {
        push_char(&mut s, cs[i]);
        i = i + 1;
        assert(s@ =~= cs@.take(i as int));
    }
    assert(cs@.take(cs@.len() as int) =~= cs@);
    s
}

/// Appends a text (`String::push_str`).
pub fn push_str(s: &mut String, t: &str)
    ensures
        final(s)@ == old(s)@ + t@,
{
    s.append(t);
}

/// Concatenation is associative; used to regroup findings appended one by one.
pub broadcast proof fn lemma_concat_assoc<A>(a: Seq<A>, b: Seq<A>, c: Seq<A>)
    ensures
        #[trigger] ((a + b) + c) == a + (b + c),
{
    assert((a + b) + c =~= a + (b + c));
}

/// Items joined by a separator.
pub open spec fn join_sep(items: Seq<Seq<char>>, sep: Seq<char>) -> Seq<char>
    decreases items.len(),
{
    if items.len() == 0 {
        Seq::empty()
    } else if items.len() == 1 {
        items[0]
    } else {
        join_sep(items.drop_last(), sep) + sep + items.last()
    }
}

/// Whether some item contains the needle.
pub open spec fn any_contains(items: Seq<Seq<char>>, needle: Seq<char>) -> bool {
    exists|i: int| 0 <= i < items.len() && contains(#[trigger] items[i], needle)
}

pub open spec fn views(v: Seq<String>) -> Seq<Seq<char>> {
    v.map_values(|s: String| s@)
}

pub fn any_contains_str(items: &Vec<String>, needle: &str) -> (r: bool)
    ensures
        r == any_contains(views(items@), needle@),
{
    let mut i: usize = 0;
    while i < items.len()
        invariant
            i <= items.len(),
            forall|j: int| 0 <= j < i ==> !contains(#[trigger] views(items@)[j], needle@),
        decreases items.len() - i,
    {
        if contains_str(items[i].as_str(), needle) {
            assert(views(items@)[i as int] == items@[i as int]@);
            return true;
        }
        i = i + 1;
    }
    false
}

/// One message when `cond` holds, none otherwise.
#[verifier::opaque]
pub open spec fn note(cond: bool, msg: Seq<char>) -> Seq<Seq<char>> {
    if cond {
        Seq::empty().push(msg)
    } else {
        Seq::empty()
    }
}

/// Appends `msg` to `notes` when `cond` holds.
pub fn note_if(notes: &mut Vec<String>, cond: bool, msg: String)
    ensures
        views(final(notes)@) == views(old(notes)@) + note(cond, msg@),
{
    reveal(note);
    let ghost before = notes@;
    if cond {
        notes.push(msg);
        assert(views(notes@) =~= views(before) + note(cond, msg@));
    } else {
        assert(views(notes@) =~= views(before) + note(cond, msg@));
    }
}

/// `format!("{a}{b}")`.
pub fn cat(a: &str, b: &str) -> (r: String)
    ensures
        r@ == a@ + b@,
{
    let mut s = a.to_string();
    push_str(&mut s, b);
    s
}

/// `format!("{a}{b}{c}")`.
pub fn cat3(a: &str, b: &str, c: &str) -> (r: String)
    ensures
        r@ == a@ + b@ + c@,
{
    let mut s = a.to_string();
    push_str(&mut s, b);
    push_str(&mut s, c);
    s
}

/// Strict lexicographic comparison of two texts.
pub fn str_lt(a: &str, b: &str) -> (r: bool)
    ensures
        r == seq_lt(a@, b@),
{
    let x = chars_of(a);
    let y = chars_of(b);
    let mut i: usize = 0;
    assert(a@.skip(0) =~= a@);
    assert(b@.skip(0) =~= b@);
    while i < x.len() && i < y.len() && x[i] == y[i]
        invariant
            i <= x.len(),
            i <= y.len(),
            x@ == a@,
            y@ == b@,
            seq_lt(a@, b@) == seq_lt(a@.skip(i as int), b@.skip(i as int)),
        decreases x.len() - i,
    {
        proof {
            let sa = a@.skip(i as int);
            let sb = b@.skip(i as int);
            assert(sa.drop_first() =~= a@.skip(i + 1));
            assert(sb.drop_first() =~= b@.skip(i + 1));
        }
        i = i + 1;
    }
    let sa = Ghost(a@.skip(i as int));
    let sb = Ghost(b@.skip(i as int));
    if i == x.len() {
        assert(sa@.len() == 0);
        i < y.len()
    } else if i == y.len() {
        false
    } else {
        assert(sa@[0] == x@[i as int]);
        assert(sb@[0] == y@[i as int]);
        (x[i] as u32) < (y[i] as u32)
    }
}

/// `items.join(sep)`.
pub fn join_strings(items: &Vec<String>, sep: &str) -> (r: String)
    ensures
        r@ == join_sep(views(items@), sep@),
{
    let mut out = String::new();
    let mut i: usize = 0;
    while i < items.len()
        invariant
            i <= items.len(),
            out@ == join_sep(views(items@).take(i as int), sep@),
        decreases items.len() - i,
    {
        proof {
            let t = views(items@).take(i + 1);
            assert(t.drop_last() =~= views(items@).take(i as int));
            assert(t.last() == items@[i as int]@);
            if i == 0 {
                assert(t =~= seq![items@[0]@]);
            }
        }
        if i > 0 {
            push_str(&mut out, sep);
        }
        push_str(&mut out, items[i].as_str());
        i = i + 1;
    }
    assert(views(items@).take(items@.len() as int) =~= views(items@));
    out
}

/// The `Debug` rendering of a list of strings, as `format!("{:?}", ..)` gives
/// it: each string's `Debug` form, joined by `", "`, in square brackets.
pub open spec fn debug_str_list(items: Seq<Seq<char>>) -> Seq<char> {
    seq!['['] + join_sep(items.map_values(|v: Seq<char>| debug_str(v)), ", "@) + seq![']']
}

/// The `Debug` rendering of a list of strings.
pub fn debug_string_list(items: &Vec<String>) -> (r: String)
    ensures
        r@ == debug_str_list(views(items@)),
{
    let mut parts: Vec<String> = Vec::new();
    let mut i: usize = 0;
    while i < items.len()
        invariant
            i <= items.len(),
            views(parts@) == views(items@).take(i as int).map_values(|v: Seq<char>| debug_str(v)),
        decreases items.len() - i,
    {
        let ghost before = views(parts@);
        let d = debug_string(items[i].as_str());
        parts.push(d);
        assert(views(parts@) =~= before.push(d@));
        assert(views(items@).take(i + 1).map_values(|v: Seq<char>| debug_str(v)) =~= views(
            items@,
        ).take(i as int).map_values(|v: Seq<char>| debug_str(v)).push(debug_str(items@[i as int]@)));
        i = i + 1;
    }
    assert(views(items@).take(items@.len() as int) =~= views(items@));
    let body = join_strings(&parts, ", ");
    let mut out = String::new();
    push_char(&mut out, '[');
    push_str(&mut out, body.as_str());
    push_char(&mut out, ']');
    proof {
        reveal_strlit(", ");
    }
    assert(out@ =~= debug_str_list(views(items@)));
    out
}

/// The text before the first `c` (all of `s` when `c` does not occur).
pub open spec fn before_char(s: Seq<char>, c: char) -> Seq<char>
    decreases s.len(),
{
    if s.len() == 0 {
        Seq::empty()
    } else if s[0] == c {
        Seq::empty()
    } else {
        seq![s[0]] + before_char(s.drop_first(), c)
    }
}

/// `s.split(c).next()`: the text before the first `c`.
pub fn before_char_str(s: &str, c: char) -> (r: String)
    ensures
        r@ == before_char(s@, c),
{
    let x = chars_of(s);
    let mut k: usize = 0;
    assert(x@.take(0) + x@.skip(0) =~= x@);
    assert(x@.take(0) =~= Seq::<char>::empty());
    assert(x@.skip(0) =~= x@);
    while k < x.len() && x[k] != c
        invariant
            k <= x.len(),
            x@ == s@,
            before_char(s@, c) == x@.take(k as int) + before_char(x@.skip(k as int), c),
        decreases x.len() - k,
    {
        proof {
            let t = x@.skip(k as int);
            assert(t[0] == x@[k as int]);
            assert(t.drop_first() =~= x@.skip(k + 1));
            assert(x@.take(k + 1) =~= x@.take(k as int) + seq![x@[k as int]]);
        }
        k = k + 1;
    }
    let mut out: Vec<char> = Vec::new();
    let mut j: usize = 0;
    while j < k
        invariant
            j <= k <= x.len(),
            out@ == x@.take(j as int),
        decreases k - j,
    {
        out.push(x[j]);
        assert(out@ =~= x@.take(j + 1));
        j = j + 1;
    }
    assert(k < x.len() ==> x@.skip(k as int)[0] == c);
    assert(k == x.len() ==> x@.skip(k as int) =~= Seq::<char>::empty());
    assert(x@.take(k as int) + Seq::<char>::empty() =~= x@.take(k as int));
    string_from_chars(&out)
}

/// `format!("{b}")` for a boolean.
pub open spec fn bool_text(b: bool) -> Seq<char> {
    if b {
        "true"@
    } else {
        "false"@
    }
}

pub fn bool_str(b: bool) -> (r: &'static str)
    ensures
        r@ == bool_text(b),
{
    if b {
        "true"
    } else {
        "false"
    }
}

/// A character that must never appear in an identifier or path carried into
/// a shell or log line: NUL, newline, carriage return, `;`, `|`, backtick, `$`.
pub open spec fn forbidden_char(c: char) -> bool {
    c == '\0' || c == '\n' || c == '\r' || c == ';' || c == '|' || c == '`' || c == '$'
}

pub open spec fn has_forbidden(s: Seq<char>) -> bool {
    exists|i: int| 0 <= i < s.len() && forbidden_char(#[trigger] s[i])
}

pub fn has_forbidden_tokens(text: &str) -> (r: bool)
    ensures
        r == has_forbidden(text@),
{
    let x = chars_of(text);
    let mut k: usize = 0;
    while k < x.len()
        invariant
            k <= x.len(),
            x@ == text@,
            forall|j: int| 0 <= j < k ==> !forbidden_char(#[trigger] x@[j]),
        decreases x.len() - k,
    {
        let c = x[k];
        if c == '\0' || c == '\n' || c == '\r' || c == ';' || c == '|' || c == '`' || c == '$' {
            assert(forbidden_char(x@[k as int]));
            return true;
        }
        k = k + 1;
    }
    false
}

} // verus!
