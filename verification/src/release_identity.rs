//! Typed release identity: a semantic version, its `v`-prefixed tag, and the
//! GitHub prerelease posture that the version's pre-release part implies.

use vstd::prelude::*;
use crate::text::chars_of;

verus! {

pub open spec fn is_digit(c: char) -> bool {
    '0' <= c && c <= '9'
}

pub open spec fn is_pre_char(c: char) -> bool {
    ('0' <= c && c <= '9') || ('a' <= c && c <= 'z') || ('A' <= c && c <= 'Z') || c == '.' || c
        == '-'
}

/// Index of the first `c` in `s`, or `s.len()` when absent.
pub open spec fn first_index(s: Seq<char>, c: char) -> nat
    decreases s.len(),
{
    if s.len() == 0 {
        0
    } else if s[0] == c {
        0
    } else {
        1 + first_index(s.drop_first(), c)
    }
}

pub open spec fn count_char(s: Seq<char>, c: char) -> nat
    decreases s.len(),
{
    if s.len() == 0 {
        0
    } else {
        count_char(s.drop_last(), c) + if s.last() == c {
            1nat
        } else {
            0nat
        }
    }
}

/// `MAJOR.MINOR.PATCH`: three non-empty runs of decimal digits.
pub open spec fn semver_core(core: Seq<char>) -> bool {
    &&& core.len() > 0
    &&& core[0] != '.'
    &&& core.last() != '.'
    &&& forall|i: int| 0 <= i < core.len() ==> is_digit(#[trigger] core[i]) || core[i] == '.'
    &&& forall|i: int|
        0 <= i < core.len() - 1 && #[trigger] core[i] == '.' ==> core[i + 1] != '.'
    &&& count_char(core, '.') == 2
}

/// The pre-release part of a version, if it has one.
pub open spec fn pre_release(v: Seq<char>) -> Option<Seq<char>> {
    let d = first_index(v, '-');
    if d < v.len() {
        Some(v.skip(d as int + 1))
    } else {
        None
    }
}

/// A semantic version `MAJOR.MINOR.PATCH[-PRE]` with a non-empty
/// pre-release made of ASCII alphanumerics, `.` and `-`.
pub open spec fn valid_version(v: Seq<char>) -> bool {
    &&& semver_core(v.take(first_index(v, '-') as int))
    &&& match pre_release(v) {
        Some(p) => p.len() > 0 && forall|i: int| 0 <= i < p.len() ==> is_pre_char(#[trigger] p[i]),
        None => true,
    }
}

/// A release identity is well formed when the version is valid, the tag is
/// exactly `v` + version, and the prerelease flag is set exactly for
/// versions with a pre-release part.
pub open spec fn valid_identity(version: Seq<char>, tag: Seq<char>, prerelease: bool) -> bool {
    &&& valid_version(version)
    &&& tag == seq!['v'] + version
    &&& prerelease == (pre_release(version) is Some)
}

#[derive(Debug, Clone, PartialEq, Eq)]
pub struct ReleaseIdentityV1 {
    pub version: String,
    pub tag: String,
    pub github_prerelease: bool,
}

#[derive(Debug, Clone, Copy, PartialEq, Eq, Structural)]
pub enum ReleaseIdentityErrorV1 {
    Malformed,
}

proof fn lemma_first_index_bound(s: Seq<char>, c: char)
    ensures
        first_index(s, c) <= s.len(),
        first_index(s, c) < s.len() ==> s[first_index(s, c) as int] == c,
        forall|i: int| 0 <= i < first_index(s, c) ==> s[i] != c,
    decreases s.len(),
{
    if s.len() > 0 && s[0] != c {
        lemma_first_index_bound(s.drop_first(), c);
        assert forall|i: int| 0 <= i < first_index(s, c) implies s[i] != c by {
            if i > 0 {
                assert(s[i] == s.drop_first()[i - 1]);
            }
        }
    }
}

proof fn lemma_first_index_is(s: Seq<char>, c: char, k: nat)
    requires
        k <= s.len(),
        k < s.len() ==> s[k as int] == c,
        forall|i: int| 0 <= i < k ==> s[i] != c,
    ensures
        first_index(s, c) == k,
    decreases s.len(),
{
    if s.len() > 0 && k > 0 {
        assert(s[0] != c);
        let t = s.drop_first();
        if (k - 1) < t.len() {
            assert(t[(k - 1) as int] == s[k as int]);
        }
        assert forall|i: int| 0 <= i < (k - 1) as nat implies t[i] != c by {
            assert(t[i] == s[i + 1]);
        }
        lemma_first_index_is(t, c, (k - 1) as nat);
    }
}

fn semver_core_check(cs: &Vec<char>, end: usize) -> (r: bool)
    requires
        end <= cs@.len(),
    ensures
        r == semver_core(cs@.take(end as int)),
{
    let ghost core = cs@.take(end as int);
    if end == 0 {
        return false;
    }
    if cs[0] == '.' || cs[end - 1] == '.' {
        return false;
    }
    let mut dots: usize = 0;
    let mut i: usize = 0;
    while i < end
        invariant
            i <= end <= cs@.len(),
            core == cs@.take(end as int),
            dots == count_char(core.take(i as int), '.'),
            dots <= i,
            forall|j: int| 0 <= j < i ==> is_digit(#[trigger] core[j]) || core[j] == '.',
            forall|j: int| 0 <= j < i && j < core.len() - 1 && #[trigger] core[j] == '.' ==> core[j
                + 1] != '.',
        decreases end - i,
    {
        let c = cs[i];
        if !(('0' <= c && c <= '9') || c == '.') {
            assert(core[i as int] == c);
            return false;
        }
        if c == '.' && i + 1 < end && cs[i + 1] == '.' {
            assert(core[i as int] == '.' && core[i + 1] == '.');
            return false;
        }
        proof {
            let t = core.take(i + 1);
            assert(t.drop_last() =~= core.take(i as int));
        }
        if c == '.' {
            dots = dots + 1;
        }
        i = i + 1;
    }
    assert(core.take(end as int) =~= core);
    dots == 2
}

impl ReleaseIdentityV1 {
    pub open spec fn spec_ok(self, version: Seq<char>, tag: Seq<char>, prerelease: bool) -> bool {
        &&& self.version@ == version
        &&& self.tag@ == tag
        &&& self.github_prerelease == prerelease
    }

    /// Parses a release identity; `Ok` exactly when `valid_identity` holds.
    pub fn parse(version: &str, tag: &str, github_prerelease: bool) -> (r: Result<
        ReleaseIdentityV1,
        ReleaseIdentityErrorV1,
    >)
        ensures
            r is Ok <==> valid_identity(version@, tag@, github_prerelease),
            r matches Ok(id) ==> id.spec_ok(version@, tag@, github_prerelease),
    {
        let cs = chars_of(version);
        let n = cs.len();
        let mut d: usize = 0;
        while d < n && cs[d] != '-'
            invariant
                d <= n,
                n == cs@.len(),
                cs@ == version@,
                forall|i: int| 0 <= i < d ==> cs@[i] != '-',
            decreases n - d,
        {
            d = d + 1;
        }
        proof {
            lemma_first_index_is(version@, '-', d as nat);
        }
        if !semver_core_check(&cs, d) {
            return Err(ReleaseIdentityErrorV1::Malformed);
        }
        let has_pre = d < n;
        if has_pre {
            if d + 1 == n {
                assert(version@.skip(d + 1).len() == 0);
                return Err(ReleaseIdentityErrorV1::Malformed);
            }
            let mut i: usize = d + 1;
            while i < n
                invariant
                    d + 1 <= i <= n,
                    d < n,
                    first_index(version@, '-') == d,
                    n == cs@.len(),
                    cs@ == version@,
                    forall|j: int| d + 1 <= j < i ==> is_pre_char(#[trigger] cs@[j]),
                decreases n - i,
            {
                let c = cs[i];
                if !(('0' <= c && c <= '9') || ('a' <= c && c <= 'z') || ('A' <= c && c <= 'Z') || c
                    == '.' || c == '-') {
                    assert(version@.skip(d + 1)[i - d - 1] == cs@[i as int]);
                    return Err(ReleaseIdentityErrorV1::Malformed);
                }
                i = i + 1;
            }
            assert forall|j: int| 0 <= j < version@.skip(d + 1).len() implies is_pre_char(
                #[trigger] version@.skip(d + 1)[j],
            ) by {
                assert(version@.skip(d + 1)[j] == cs@[j + d + 1]);
            }
        }
        let tcs = chars_of(tag);
        if tcs.len() == 0 || tcs.len() - 1 != n || tcs[0] != 'v' {
            assert(tag@ != seq!['v'] + version@) by {
                if tcs@.len() == n + 1 {
                    assert((seq!['v'] + version@)[0] == 'v');
                }
            }
            return Err(ReleaseIdentityErrorV1::Malformed);
        }
        let mut k: usize = 0;
        while k < n
            invariant
                k <= n,
                n == cs@.len(),
                tcs@.len() == n + 1,
                cs@ == version@,
                tcs@ == tag@,
                forall|j: int| 0 <= j < k ==> #[trigger] tcs@[j + 1] == cs@[j],
            decreases n - k,
        {
            if tcs[k + 1] != cs[k] {
                assert((seq!['v'] + version@)[k + 1] == cs@[k as int]);
                return Err(ReleaseIdentityErrorV1::Malformed);
            }
            k = k + 1;
        }
        assert(tag@ =~= seq!['v'] + version@) by {
            assert forall|j: int| 0 <= j < tag@.len() implies tag@[j] == (seq!['v']
                + version@)[j] by {
                if j > 0 {
                    assert(tcs@[(j - 1) + 1] == cs@[j - 1]);
                }
            }
        }
        if github_prerelease != has_pre {
            return Err(ReleaseIdentityErrorV1::Malformed);
        }
        Ok(
            ReleaseIdentityV1 {
                version: version.to_string(),
                tag: tag.to_string(),
                github_prerelease,
            },
        )
    }
}

} // verus!
