//! Column selection for the `list` human-format output: the canonical
//! column vocabulary, its header names, and the `--columns` parser.

use vstd::prelude::*;
use crate::text::{eq_ignore_ascii_case, join_sep, join_strings, push_char, str_eq_ignore_ascii_case, trim, trim_string, views};

verus! {

/// One TSV column in the `list` human-format output. The variant order is
/// the canonical column order.
#[derive(Debug, Clone, Copy, PartialEq, Eq, Structural)]
pub enum ListColumn {
    Id,
    Status,
    Matches,
    Kind,
    Family,
    Owner,
    Classification,
    Scope,
    SourcePackage,
    EvidenceCount,
    BrokenEvidenceReferences,
    WeakEvidenceReferences,
    SelectorPrecision,
    BroadScope,
    ReviewAfter,
    Expires,
    Reason,
}

/// Filters accepted by `list`.
#[derive(Debug, Clone, Copy, Default)]
pub struct ListFilters<'a> {
    pub kind: Option<&'a str>,
    pub family: Option<&'a str>,
    pub owner: Option<&'a str>,
    pub classification: Option<&'a str>,
    pub path: Option<&'a str>,
    pub source_package: Option<&'a str>,
    pub allow_id: Option<&'a str>,
    pub status: Option<&'a str>,
    pub expired: bool,
    pub review_due: bool,
    pub stale: bool,
    pub location_drift: bool,
    pub baseline_debt: bool,
    pub broad_scope: bool,
    pub missing_evidence: bool,
    pub broken_evidence: bool,
    pub weak_evidence: bool,
}

/// One listed allow row.
#[derive(Debug, Clone, Copy)]
pub struct ListRow<'a> {
    pub id: &'a str,
    pub status: &'a str,
    pub matches: usize,
    pub kind: &'a str,
    pub family: Option<&'a str>,
    pub owner: &'a str,
    pub classification: &'a str,
    pub scope: &'a str,
    pub source_package: Option<&'a str>,
    pub evidence_count: usize,
    pub broken_evidence_references: usize,
    pub weak_evidence_references: usize,
    pub selector_precision: u32,
    pub broad_scope: bool,
    pub review_after: Option<&'a str>,
    pub expires: Option<&'a str>,
    pub reason: &'a str,
}

/// The column at position `k` of the canonical order.
pub open spec fn column_at(k: int) -> ListColumn {
    if k == 0 {
        ListColumn::Id
    } else if k == 1 {
        ListColumn::Status
    } else if k == 2 {
        ListColumn::Matches
    } else if k == 3 {
        ListColumn::Kind
    } else if k == 4 {
        ListColumn::Family
    } else if k == 5 {
        ListColumn::Owner
    } else if k == 6 {
        ListColumn::Classification
    } else if k == 7 {
        ListColumn::Scope
    } else if k == 8 {
        ListColumn::SourcePackage
    } else if k == 9 {
        ListColumn::EvidenceCount
    } else if k == 10 {
        ListColumn::BrokenEvidenceReferences
    } else if k == 11 {
        ListColumn::WeakEvidenceReferences
    } else if k == 12 {
        ListColumn::SelectorPrecision
    } else if k == 13 {
        ListColumn::BroadScope
    } else if k == 14 {
        ListColumn::ReviewAfter
    } else if k == 15 {
        ListColumn::Expires
    } else {
        ListColumn::Reason
    }
}

/// Every column in canonical order.
pub open spec fn all_columns() -> Seq<ListColumn> {
    Seq::new(17, |k: int| column_at(k))
}

/// The concise default projection.
pub open spec fn default_columns() -> Seq<ListColumn> {
    seq![
        ListColumn::Id,
        ListColumn::Status,
        ListColumn::Kind,
        ListColumn::Scope,
        ListColumn::Owner,
        ListColumn::Reason,
    ]
}

impl ListColumn {
    pub open spec fn header_spec(self) -> Seq<char> {
        match self {
            ListColumn::Id => "id"@,
            ListColumn::Status => "status"@,
            ListColumn::Matches => "matches"@,
            ListColumn::Kind => "kind"@,
            ListColumn::Family => "family"@,
            ListColumn::Owner => "owner"@,
            ListColumn::Classification => "classification"@,
            ListColumn::Scope => "scope"@,
            ListColumn::SourcePackage => "source_package"@,
            ListColumn::EvidenceCount => "evidence_count"@,
            ListColumn::BrokenEvidenceReferences => "broken_evidence_references"@,
            ListColumn::WeakEvidenceReferences => "weak_evidence_references"@,
            ListColumn::SelectorPrecision => "selector_precision"@,
            ListColumn::BroadScope => "broad_scope"@,
            ListColumn::ReviewAfter => "review_after"@,
            ListColumn::Expires => "expires"@,
            ListColumn::Reason => "reason"@,
        }
    }

    /// The TSV header name of this column.
    pub fn header(self) -> (r: &'static str)
        ensures
            r@ == self.header_spec(),
    {
        match self {
            ListColumn::Id => "id",
            ListColumn::Status => "status",
            ListColumn::Matches => "matches",
            ListColumn::Kind => "kind",
            ListColumn::Family => "family",
            ListColumn::Owner => "owner",
            ListColumn::Classification => "classification",
            ListColumn::Scope => "scope",
            ListColumn::SourcePackage => "source_package",
            ListColumn::EvidenceCount => "evidence_count",
            ListColumn::BrokenEvidenceReferences => "broken_evidence_references",
            ListColumn::WeakEvidenceReferences => "weak_evidence_references",
            ListColumn::SelectorPrecision => "selector_precision",
            ListColumn::BroadScope => "broad_scope",
            ListColumn::ReviewAfter => "review_after",
            ListColumn::Expires => "expires",
            ListColumn::Reason => "reason",
        }
    }

    fn at(k: usize) -> (r: ListColumn)
        requires
            k < 17,
        ensures
            r == column_at(k as int),
    {
        if k == 0 {
            ListColumn::Id
        } else if k == 1 {
            ListColumn::Status
        } else if k == 2 {
            ListColumn::Matches
        } else if k == 3 {
            ListColumn::Kind
        } else if k == 4 {
            ListColumn::Family
        } else if k == 5 {
            ListColumn::Owner
        } else if k == 6 {
            ListColumn::Classification
        } else if k == 7 {
            ListColumn::Scope
        } else if k == 8 {
            ListColumn::SourcePackage
        } else if k == 9 {
            ListColumn::EvidenceCount
        } else if k == 10 {
            ListColumn::BrokenEvidenceReferences
        } else if k == 11 {
            ListColumn::WeakEvidenceReferences
        } else if k == 12 {
            ListColumn::SelectorPrecision
        } else if k == 13 {
            ListColumn::BroadScope
        } else if k == 14 {
            ListColumn::ReviewAfter
        } else if k == 15 {
            ListColumn::Expires
        } else {
            ListColumn::Reason
        }
    }

    /// All columns in canonical order (`--columns all`).
    pub fn all() -> (r: Vec<ListColumn>)
        ensures
            r@ == all_columns(),
    {
        let mut v: Vec<ListColumn> = Vec::new();
        let mut k: usize = 0;
        while k < 17
            invariant
                k <= 17,
                v@ == all_columns().take(k as int),
            decreases 17 - k,
        {
            v.push(ListColumn::at(k));
            assert(v@ =~= all_columns().take(k + 1));
            k = k + 1;
        }
        assert(all_columns().take(17) =~= all_columns());
        v
    }

    /// The concise default projection for everyday policy review.
    pub fn defaults() -> (r: Vec<ListColumn>)
        ensures
            r@ == default_columns(),
    {
        let mut v: Vec<ListColumn> = Vec::new();
        v.push(ListColumn::Id);
        v.push(ListColumn::Status);
        v.push(ListColumn::Kind);
        v.push(ListColumn::Scope);
        v.push(ListColumn::Owner);
        v.push(ListColumn::Reason);
        assert(v@ =~= default_columns());
        v
    }
}

// ---------------------------------------------------------------------------
// `--columns` parsing.
// ---------------------------------------------------------------------------

/// The pieces of `s` split at every comma, as `str::split(',')` yields them:
/// the completed pieces and the piece in progress after the first `n`
/// characters.
pub open spec fn split_fold(s: Seq<char>, n: nat) -> (Seq<Seq<char>>, Seq<char>)
    decreases n,
{
    if n == 0 {
        (Seq::empty(), Seq::empty())
    } else {
        let (done, cur) = split_fold(s, (n - 1) as nat);
        if s[n - 1] == ',' {
            (done.push(cur), Seq::empty())
        } else {
            (done, cur.push(s[n - 1]))
        }
    }
}

pub open spec fn comma_pieces(s: Seq<char>) -> Seq<Seq<char>> {
    split_fold(s, s.len()).0.push(split_fold(s, s.len()).1)
}

/// The position of the first column whose header matches `name` without
/// regard to ASCII case, among the first `n`.
pub open spec fn header_match(name: Seq<char>, n: nat) -> Option<int>
    decreases n,
{
    if n == 0 {
        None
    } else {
        match header_match(name, (n - 1) as nat) {
            Some(k) => Some(k),
            None => if eq_ignore_ascii_case(column_at(n - 1).header_spec(), name) {
                Some(n - 1)
            } else {
                None
            },
        }
    }
}

pub open spec fn from_header_spec(name: Seq<char>) -> Option<ListColumn> {
    match header_match(name, 17) {
        Some(k) => Some(column_at(k)),
        None => None,
    }
}

/// Every header, in canonical order, joined by `", "`.
pub open spec fn valid_names() -> Seq<char> {
    join_sep(all_columns().map_values(|c: ListColumn| c.header_spec()), ", "@)
}

/// The columns the pieces select after `seen`, or the first refusal.
pub open spec fn parse_pieces(ps: Seq<Seq<char>>, seen: Seq<ListColumn>) -> Result<Seq<ListColumn>, Seq<char>>
    decreases ps.len(),
{
    if ps.len() == 0 {
        if seen.len() == 0 {
            Err("no columns selected; valid columns: "@ + valid_names())
        } else {
            Ok(seen)
        }
    } else {
        let name = trim(ps[0]);
        if name.len() == 0 {
            Err("empty column name in --columns; valid columns: "@ + valid_names())
        } else {
            match from_header_spec(name) {
                None => Err("unknown --columns name `"@ + name + "`; valid columns: "@ + valid_names()),
                Some(c) => if seen.contains(c) {
                    Err("duplicate --columns name `"@ + name + "`; valid columns: "@ + valid_names())
                } else {
                    parse_pieces(ps.drop_first(), seen.push(c))
                },
            }
        }
    }
}

pub open spec fn parse_csv_spec(input: Seq<char>) -> Result<Seq<ListColumn>, Seq<char>> {
    if eq_ignore_ascii_case(trim(input), "all"@) {
        Ok(all_columns())
    } else {
        parse_pieces(comma_pieces(input), Seq::empty())
    }
}

fn split_commas(s: &str) -> (r: Vec<String>)
    ensures
        views(r@) == comma_pieces(s@),
{
    let cs = crate::text::chars_of(s);
    let mut done: Vec<String> = Vec::new();
    let mut cur = String::new();
    let mut i: usize = 0;
    while i < cs.len()
        invariant
            i <= cs.len(),
            cs@ == s@,
            views(done@) == split_fold(s@, i as nat).0,
            cur@ == split_fold(s@, i as nat).1,
        decreases cs.len() - i,
    {
        if cs[i] == ',' {
            let ghost before = views(done@);
            let piece = cur;
            done.push(piece);
            assert(views(done@) =~= before.push(piece@));
            cur = String::new();
        } else {
            push_char(&mut cur, cs[i]);
        }
        i = i + 1;
    }
    let ghost before = views(done@);
    done.push(cur);
    assert(views(done@) =~= before.push(split_fold(s@, s@.len()).1));
    done
}

impl ListColumn {
    fn from_header(name: &str) -> (r: Option<ListColumn>)
        ensures
            r == from_header_spec(name@),
    {
        let mut k: usize = 0;
        while k < 17
            invariant
                k <= 17,
                header_match(name@, k as nat) is None,
            decreases 17 - k,
        {
            let c = ListColumn::at(k);
            if str_eq_ignore_ascii_case(c.header(), name) {
                proof {
                    lemma_header_match_stable(name@, (k + 1) as nat, 17);
                }
                return Some(c);
            }
            k = k + 1;
        }
        None
    }

    fn valid_names_joined() -> (r: String)
        ensures
            r@ == valid_names(),
    {
        let ghost hs = all_columns().map_values(|c: ListColumn| c.header_spec());
        let mut names: Vec<String> = Vec::new();
        let mut k: usize = 0;
        while k < 17
            invariant
                k <= 17,
                hs == all_columns().map_values(|c: ListColumn| c.header_spec()),
                views(names@) == hs.take(k as int),
            decreases 17 - k,
        {
            let ghost before = views(names@);
            let c = ListColumn::at(k);
            let h = c.header().to_string();
            assert(h@ == c.header_spec());
            names.push(h);
            assert(all_columns()[k as int] == c);
            assert(hs[k as int] == c.header_spec());
            assert(views(names@) =~= before.push(h@));
            assert(hs.take(k + 1) =~= hs.take(k as int).push(hs[k as int]));
            k = k + 1;
        }
        assert(hs.take(17) =~= hs);
        join_strings(&names, ", ")
    }

    fn refusal(head: &str) -> (r: String)
        ensures
            r@ == head@ + valid_names(),
    {
        let names = ListColumn::valid_names_joined();
        let mut m = head.to_string();
        crate::text::push_str(&mut m, names.as_str());
        m
    }

    fn named_refusal(head: &str, name: &str) -> (r: String)
        ensures
            r@ == head@ + name@ + "`; valid columns: "@ + valid_names(),
    {
        let names = ListColumn::valid_names_joined();
        let mut m = head.to_string();
        crate::text::push_str(&mut m, name);
        crate::text::push_str(&mut m, "`; valid columns: ");
        crate::text::push_str(&mut m, names.as_str());
        m
    }

    /// Parses a comma-separated column selection into ordered columns.
    /// Names are trimmed and matched without regard to ASCII case; `all`
    /// selects every column. Empty, unknown, or repeated names are refused
    /// with a message listing the valid names.
    pub fn parse_csv(input: &str) -> (r: Result<Vec<ListColumn>, String>)
        ensures
            match parse_csv_spec(input@) {
                Ok(cols) => r is Ok && r->Ok_0@ == cols,
                Err(m) => r is Err && r->Err_0@ == m,
            },
    {
        let trimmed = trim_string(input);
        if str_eq_ignore_ascii_case(trimmed.as_str(), "all") {
            proof {
                reveal_strlit("all");
            }
            return Ok(ListColumn::all());
        }
        proof {
            reveal_strlit("all");
        }
        let pieces = split_commas(input);
        let mut seen: Vec<ListColumn> = Vec::new();
        let mut i: usize = 0;
        assert(views(pieces@).skip(0) =~= views(pieces@));
        while i < pieces.len()
            invariant
                i <= pieces@.len(),
                views(pieces@) == comma_pieces(input@),
                !eq_ignore_ascii_case(trim(input@), "all"@),
                parse_pieces(comma_pieces(input@), Seq::empty()) == parse_pieces(
                    views(pieces@).skip(i as int),
                    seen@,
                ),
            decreases pieces@.len() - i,
        {
            let ghost rest = views(pieces@).skip(i as int);
            assert(rest[0] == pieces@[i as int]@);
            assert(rest.drop_first() =~= views(pieces@).skip(i + 1));
            let name = trim_string(pieces[i].as_str());
            assert(name@ == trim(rest[0]));
            if name.as_str().is_empty() {
                return Err(ListColumn::refusal("empty column name in --columns; valid columns: "));
            }
            let column = match ListColumn::from_header(name.as_str()) {
                None => {
                    return Err(ListColumn::named_refusal("unknown --columns name `", name.as_str()));
                },
                Some(c) => c,
            };
            if contains_column(&seen, column) {
                return Err(ListColumn::named_refusal("duplicate --columns name `", name.as_str()));
            }
            assert(!seen@.contains(column));
            seen.push(column);
            i = i + 1;
        }
        if seen.len() == 0 {
            return Err(ListColumn::refusal("no columns selected; valid columns: "));
        }
        Ok(seen)
    }
}

fn contains_column(seen: &Vec<ListColumn>, column: ListColumn) -> (r: bool)
    ensures
        r == seen@.contains(column),
{
    let mut j: usize = 0;
    while j < seen.len()
        invariant
            j <= seen@.len(),
            forall|x: int| 0 <= x < j ==> seen@[x] != column,
        decreases seen@.len() - j,
    {
        if seen[j] == column {
            assert(seen@[j as int] == column);
            return true;
        }
        j = j + 1;
    }
    false
}

proof fn lemma_header_match_stable(name: Seq<char>, m: nat, n: nat)
    requires
        m <= n,
        header_match(name, m) is Some,
    ensures
        header_match(name, n) == header_match(name, m),
    decreases n - m,
{
    if m < n {
        lemma_header_match_stable(name, m, (n - 1) as nat);
    }
}

proof fn lemma_parse_pieces_distinct(ps: Seq<Seq<char>>, seen: Seq<ListColumn>)
    requires
        seen.no_duplicates(),
    ensures
        parse_pieces(ps, seen) matches Ok(cols) ==> cols.no_duplicates() && cols.len() > 0,
    decreases ps.len(),
{
    if ps.len() > 0 {
        let name = trim(ps[0]);
        if name.len() > 0 {
            if let Some(c) = from_header_spec(name) {
                if !seen.contains(c) {
                    let next = seen.push(c);
                    assert forall|a: int, b: int| 0 <= a < next.len() && 0 <= b < next.len() && a != b implies next[a]
                        != next[b] by {
                        if b == seen.len() as int {
                            assert(seen[a] == next[a]);
                        } else if a == seen.len() as int {
                            assert(seen[b] == next[b]);
                        }
                    }
                    lemma_parse_pieces_distinct(ps.drop_first(), next);
                }
            }
        }
    }
}

proof fn lemma_all_columns_distinct()
    ensures
        all_columns().no_duplicates(),
{
    assert forall|a: int, b: int| 0 <= a < 17 && 0 <= b < 17 && a != b implies column_at(a) != column_at(b) by {
    }
}

/// A parsed `--columns` selection is never empty and never names a column
/// twice, whether it lists names or asks for `all`.
pub proof fn lemma_selection_is_nonempty_and_distinct(input: Seq<char>)
    ensures
        parse_csv_spec(input) matches Ok(cols) ==> cols.len() > 0 && cols.no_duplicates(),
{
    lemma_all_columns_distinct();
    lemma_parse_pieces_distinct(comma_pieces(input), Seq::empty());
}

} // verus!
