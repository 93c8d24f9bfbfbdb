//! The shared finding model: severity ranks, findings, and the per-run report.

use vstd::prelude::*;

verus! {

/// Ordinal urgency rank of a finding; `High` is the most severe and sorts
/// first in a report.
#[derive(Clone, Copy, Debug, PartialEq, Eq, Structural)]
pub enum Severity {
    High,
    Medium,
    Low,
}

/// Explicit integer severity table: `High` = 0, `Medium` = 1, `Low` = 2.
/// Report ordering and pass/fail thresholds go by this rank, never by any
/// implicit declaration-order comparison.
pub open spec fn spec_rank(s: Severity) -> int {
    match s {
        Severity::High => 0,
        Severity::Medium => 1,
        Severity::Low => 2,
    }
}

impl Severity {
    /// Integer rank of this severity; lower means more severe.
    pub fn rank(&self) -> (r: u8)
        ensures
            r as int == spec_rank(*self),
    {
        match self {
            Severity::High => 0,
            Severity::Medium => 1,
            Severity::Low => 2,
        }
    }

    /// Human-readable name of the severity level.
    pub fn display_name(&self) -> (r: String)
        ensures
            self is High ==> r@ == "High"@,
            self is Medium ==> r@ == "Medium"@,
            self is Low ==> r@ == "Low"@,
    {
        match self {
            Severity::High => "High".to_owned(),
            Severity::Medium => "Medium".to_owned(),
            Severity::Low => "Low".to_owned(),
        }
    }
}

/// Mathematical image of a [`Finding`]: the same record with its strings as
/// character sequences.
#[verifier::ext_equal]
pub ghost struct FindingModel {
    pub severity: Severity,
    pub check: Seq<char>,
    pub message: Seq<char>,
    pub file: Seq<char>,
    pub line: int,
}

/// One detector hit: immutable once constructed. `check` is a stable symbolic
/// key independent of the human-readable `message`; `line` is a best-effort
/// 1-based position in the originating file.
pub struct Finding {
    pub severity: Severity,
    pub check: String,
    pub message: String,
    pub file: String,
    pub line: usize,
}

impl View for Finding {
    type V = FindingModel;

    open spec fn view(&self) -> FindingModel {
        FindingModel {
            severity: self.severity,
            check: self.check@,
            message: self.message@,
            file: self.file@,
            line: self.line as int,
        }
    }
}

/// The views of a sequence of findings, element by element.
pub open spec fn finding_views(s: Seq<Finding>) -> Seq<FindingModel> {
    s.map_values(|f: Finding| f@)
}

impl Finding {
    /// An exact copy of this finding.
    pub fn duplicate(&self) -> (r: Finding)
        ensures
            r == *self,
    {
        Finding {
            severity: self.severity,
            check: self.check.clone(),
            message: self.message.clone(),
            file: self.file.clone(),
            line: self.line,
        }
    }
}

/// The findings of `s` whose severity rank is `r`, in their original order.
pub open spec fn keep_rank(s: Seq<FindingModel>, r: int) -> Seq<FindingModel>
    decreases s.len(),
{
    if s.len() == 0 {
        Seq::empty()
    } else if spec_rank(s.last().severity) == r {
        keep_rank(s.drop_last(), r).push(s.last())
    } else {
        keep_rank(s.drop_last(), r)
    }
}

/// Stable sort by severity rank: all `High` findings in discovery order, then
/// all `Medium`, then all `Low`.
pub open spec fn sort_by_severity(s: Seq<FindingModel>) -> Seq<FindingModel> {
    keep_rank(s, 0) + keep_rank(s, 1) + keep_rank(s, 2)
}

/// Every finding kept by `keep_rank` has exactly the requested rank.
proof fn lemma_keep_rank_all(s: Seq<FindingModel>, r: int)
    ensures
        forall|i: int| 0 <= i < keep_rank(s, r).len() ==> spec_rank(#[trigger] keep_rank(s, r)[i].severity) == r,
    decreases s.len(),
{
    if s.len() > 0 {
        lemma_keep_rank_all(s.drop_last(), r);
    }
}

/// `keep_rank` keeps only findings of the input, so a bound that holds of
/// every input line holds of every kept line.
proof fn lemma_keep_rank_lines(s: Seq<FindingModel>, r: int)
    requires
        forall|i: int| 0 <= i < s.len() ==> (#[trigger] s[i]).line >= 1,
    ensures
        forall|k: int| 0 <= k < keep_rank(s, r).len() ==> (#[trigger] keep_rank(s, r)[k]).line >= 1,
    decreases s.len(),
{
    if s.len() > 0 {
        assert(s.last() == s[s.len() - 1]);
        assert(forall|i: int| 0 <= i < s.drop_last().len() ==> (#[trigger] s.drop_last()[i]).line
            >= 1);
        lemma_keep_rank_lines(s.drop_last(), r);
    }
}

/// The severity sort keeps only findings of its input, so 1-based lines stay
/// 1-based.
pub proof fn lemma_sort_preserves_lines(s: Seq<FindingModel>)
    requires
        forall|i: int| 0 <= i < s.len() ==> (#[trigger] s[i]).line >= 1,
    ensures
        forall|k: int| 0 <= k < sort_by_severity(s).len() ==> (
        #[trigger] sort_by_severity(s)[k]).line >= 1,
{
    lemma_keep_rank_lines(s, 0);
    lemma_keep_rank_lines(s, 1);
    lemma_keep_rank_lines(s, 2);
}

/// Sorting by severity yields a sequence whose ranks never decrease,
/// whatever the input order was.
pub proof fn lemma_sorted_severity_monotone(s: Seq<FindingModel>)
    ensures
        forall|i: int, j: int|
            0 <= i <= j < sort_by_severity(s).len() ==> spec_rank(
                #[trigger] sort_by_severity(s)[i].severity,
            ) <= spec_rank(#[trigger] sort_by_severity(s)[j].severity),
{
    lemma_keep_rank_all(s, 0);
    lemma_keep_rank_all(s, 1);
    lemma_keep_rank_all(s, 2);
}

/// One pass of the severity sort: the findings of `all` whose rank is `r`,
/// appended to `out` in their original order.
fn push_rank(out: &mut Vec<Finding>, all: &Vec<Finding>, r: u8)
    ensures
        finding_views(final(out)@) == finding_views(old(out)@) + keep_rank(finding_views(all@), r as int),
{
    let ghost base = finding_views(out@);
    let mut i: usize = 0;
    proof {
        assert(finding_views(all@.subrange(0, 0)) =~= Seq::<FindingModel>::empty());
        assert(finding_views(out@) =~= base + keep_rank(finding_views(all@.subrange(0, 0)), r as int));
    }
    while i < all.len()
        invariant
            i <= all@.len(),
            finding_views(out@) == base + keep_rank(finding_views(all@.subrange(0, i as int)), r as int),
        decreases all@.len() - i,
    {
        let ghost pre = finding_views(all@.subrange(0, i as int));
        let ghost post = finding_views(all@.subrange(0, i as int + 1));
        let ghost out_old = out@;
        proof {
            assert(all@.subrange(0, i as int + 1).drop_last() =~= all@.subrange(0, i as int));
            assert(post.drop_last() =~= pre);
            assert(post.last() == all@[i as int]@);
        }
        let f = &all[i];
        if f.severity.rank() == r {
            let dup = f.duplicate();
            out.push(dup);
            proof {
                assert(spec_rank(post.last().severity) == r as int);
                assert(keep_rank(post, r as int) =~= keep_rank(pre, r as int).push(
                    all@[i as int]@,
                ));
                assert(finding_views(out@) =~= finding_views(out_old).push(all@[i as int]@));
                assert(finding_views(out@) =~= base + keep_rank(post, r as int));
                assert(finding_views(out@) == base + keep_rank(post, r as int));
            }
        } else {
            proof {
                assert(spec_rank(post.last().severity) != r as int);
                assert(keep_rank(post, r as int) == keep_rank(pre, r as int));
                assert(finding_views(out@) == base + keep_rank(post, r as int));
            }
        }
        i += 1;
    }
    proof {
        assert(all@.subrange(0, all@.len() as int) =~= all@);
    }
}

/// Stable sort of findings by severity rank ascending (most severe first):
/// ties keep their discovery order.
pub fn sort_findings(all: Vec<Finding>) -> (sorted: Vec<Finding>)
    ensures
        finding_views(sorted@) == sort_by_severity(finding_views(all@)),
{
    let mut sorted: Vec<Finding> = Vec::new();
    proof {
        assert(finding_views(sorted@) =~= Seq::<FindingModel>::empty());
    }
    push_rank(&mut sorted, &all, 0);
    push_rank(&mut sorted, &all, 1);
    push_rank(&mut sorted, &all, 2);
    proof {
        assert(finding_views(sorted@) =~= sort_by_severity(finding_views(all@)));
    }
    sorted
}

/// One analysis run: every finding, severity-sorted, and the number of files
/// the orchestrator attempted (including files later skipped for read or
/// parse failure).
pub struct AnalysisReport {
    pub findings: Vec<Finding>,
    pub files_scanned: usize,
}

impl AnalysisReport {
    /// Whether the report holds at least one `High` finding.
    pub fn has_high(&self) -> (r: bool)
        ensures
            r == exists|i: int|
                0 <= i < self.findings@.len() && (#[trigger] self.findings@[i]).severity is High,
    {
        let mut i: usize = 0;
        while i < self.findings.len()
            invariant
                i <= self.findings@.len(),
                forall|j: int| 0 <= j < i ==> !((#[trigger] self.findings@[j]).severity is High),
            decreases self.findings@.len() - i,
        {
            if self.findings[i].severity == Severity::High {
                return true;
            }
            i += 1;
        }
        false
    }

    /// Whether the report holds at least one `High` or `Medium` finding.
    pub fn has_medium_or_above(&self) -> (r: bool)
        ensures
            r == exists|i: int|
                0 <= i < self.findings@.len() && ((#[trigger] self.findings@[i]).severity is High
                    || self.findings@[i].severity is Medium),
    {
        let mut i: usize = 0;
        while i < self.findings.len()
            invariant
                i <= self.findings@.len(),
                forall|j: int|
                    0 <= j < i ==> !((#[trigger] self.findings@[j]).severity is High)
                        && !(self.findings@[j].severity is Medium),
            decreases self.findings@.len() - i,
        {
            if self.findings[i].severity == Severity::High
                || self.findings[i].severity == Severity::Medium {
                return true;
            }
            i += 1;
        }
        false
    }
}

/// The exit policy: whether a run fails under the given severity threshold.
/// `medium` fails on a `High` or `Medium` finding, `low` on any finding at
/// all, `none` never; every other threshold, `high` included, fails on a
/// `High` finding.
pub open spec fn spec_should_fail(fail_on: Seq<char>, findings: Seq<Finding>) -> bool {
    if fail_on == "medium"@ {
        exists|i: int|
            0 <= i < findings.len() && ((#[trigger] findings[i]).severity is High
                || findings[i].severity is Medium)
    } else if fail_on == "low"@ {
        findings.len() > 0
    } else if fail_on == "none"@ {
        false
    } else {
        exists|i: int| 0 <= i < findings.len() && (#[trigger] findings[i]).severity is High
    }
}

/// Whether the run fails under the configured severity threshold.
pub fn should_fail(fail_on: &String, report: &AnalysisReport) -> (r: bool)
    ensures
        r == spec_should_fail(fail_on@, report.findings@),
{
    if crate::text::string_eq(fail_on, "medium") {
        report.has_medium_or_above()
    } else if crate::text::string_eq(fail_on, "low") {
        report.findings.len() > 0
    } else if crate::text::string_eq(fail_on, "none") {
        false
    } else {
        report.has_high()
    }
}

} // verus!
