//! The orchestrator: runs the three detectors over every parsed file, merges
//! their findings, and severity-sorts the combined sequence into one report.

use vstd::prelude::*;
use crate::accounts::{check_account_validation, lemma_account_findings_lines,
    spec_account_findings};
use crate::cpi::{check_cpi_safety, lemma_cpi_findings_lines, spec_cpi_findings};
use crate::model::{SourceFile, SourceModel, file_views, spec_wf_entry, spec_wf_files,
    spec_wf_source};
use crate::pda::{check_pda_usage, lemma_pda_findings_lines, spec_pda_findings};
use crate::report::{AnalysisReport, Finding, FindingModel, finding_views,
    lemma_sort_preserves_lines, lemma_sorted_severity_monotone, sort_by_severity, sort_findings,
    spec_rank};
use crate::text::spec_lines;

verus! {

/// The findings one parsed file yields, in discovery order: the
/// account-constraint detector's, then the cross-program-invocation
/// detector's, then the program-derived-address detector's.
pub open spec fn spec_file_findings(f: SourceModel) -> Seq<FindingModel> {
    spec_account_findings(f.structs, spec_lines(f.text), f.path) + spec_cpi_findings(
        f.calls,
        f.text,
        spec_lines(f.text),
        f.path,
    ) + spec_pda_findings(f.calls, f.text, spec_lines(f.text), f.path)
}

/// The unsorted findings of a run, file by file in input order; a file that
/// could not be read or parsed contributes nothing.
pub open spec fn spec_all_findings(files: Seq<Option<SourceModel>>) -> Seq<FindingModel>
    decreases files.len(),
{
    if files.len() == 0 {
        Seq::empty()
    } else {
        spec_all_findings(files.drop_last()) + match files.last() {
            Option::Some(m) => spec_file_findings(m),
            Option::None => Seq::empty(),
        }
    }
}

/// Every finding of a well-formed file model carries a 1-based line.
proof fn lemma_file_findings_lines(f: SourceModel)
    requires
        spec_wf_source(f),
    ensures
        forall|k: int| 0 <= k < spec_file_findings(f).len() ==> (
        #[trigger] spec_file_findings(f)[k]).line >= 1,
{
    lemma_account_findings_lines(f.structs, spec_lines(f.text), f.path);
    lemma_cpi_findings_lines(f.calls, f.text, spec_lines(f.text), f.path);
    lemma_pda_findings_lines(f.calls, f.text, spec_lines(f.text), f.path);
}

/// Every finding of a run over well-formed file models carries a 1-based
/// line: `line` is a best-effort 1-based position whenever the model's
/// recorded positions are.
pub proof fn lemma_all_findings_lines(files: Seq<Option<SourceModel>>)
    requires
        spec_wf_files(files),
    ensures
        forall|k: int| 0 <= k < spec_all_findings(files).len() ==> (
        #[trigger] spec_all_findings(files)[k]).line >= 1,
    decreases files.len(),
{
    if files.len() > 0 {
        assert(forall|i: int| 0 <= i < files.drop_last().len() ==> spec_wf_entry(
            #[trigger] files.drop_last()[i],
        ));
        lemma_all_findings_lines(files.drop_last());
        assert(spec_wf_entry(files[files.len() - 1]));
        match files.last() {
            Option::Some(m) => {
                lemma_file_findings_lines(m);
            },
            Option::None => {},
        }
    }
}

/// Orchestrator: runs all three detectors over every file that was read and
/// parsed, skips the rest, and returns one report whose findings are
/// severity-sorted (stable: ties keep discovery order) and whose
/// `files_scanned` counts every file handed in, parsed or not.
pub fn analyze(files: &Vec<Option<SourceFile>>) -> (report: AnalysisReport)
    ensures
        report.files_scanned == files@.len(),
        finding_views(report.findings@) == sort_by_severity(spec_all_findings(file_views(files@))),
        spec_wf_files(file_views(files@)) ==> forall|k: int|
            0 <= k < report.findings@.len() ==> (#[trigger] report.findings@[k]).line >= 1,
        forall|i: int, j: int|
            0 <= i <= j < report.findings@.len() ==> spec_rank(
                (#[trigger] report.findings@[i]).severity,
            ) <= spec_rank((#[trigger] report.findings@[j]).severity),
{
    let mut findings: Vec<Finding> = Vec::new();
    let mut i: usize = 0;
    proof {
        assert(file_views(files@).subrange(0, 0) =~= Seq::<Option<SourceModel>>::empty());
        assert(finding_views(findings@) =~= spec_all_findings(file_views(files@).subrange(0, 0)));
    }
    while i < files.len()
        invariant
            i <= files@.len(),
            finding_views(findings@) == spec_all_findings(file_views(files@).subrange(0, i as int)),
        decreases files@.len() - i,
    {
        let ghost pre = file_views(files@).subrange(0, i as int);
        let ghost post = file_views(files@).subrange(0, i as int + 1);
        let ghost base = finding_views(findings@);
        proof {
            assert(post.drop_last() =~= pre);
            assert(post.last() == file_views(files@)[i as int]);
        }
        match &files[i] {
            Option::Some(file) => {
                let ghost fm = file@;
                let mut a = check_account_validation(&file.structs, &file.path, &file.text);
                let mut c = check_cpi_safety(&file.calls, &file.path, &file.text);
                let mut p = check_pda_usage(&file.calls, &file.path, &file.text);
                let ghost av = finding_views(a@);
                let ghost cv = finding_views(c@);
                let ghost pv = finding_views(p@);
                findings.append(&mut a);
                findings.append(&mut c);
                findings.append(&mut p);
                proof {
                    assert(finding_views(findings@) =~= base + av + cv + pv);
                    assert(post.last() == Option::Some(fm));
                    assert(av + cv + pv =~= spec_file_findings(fm));
                    assert(finding_views(findings@) =~= spec_all_findings(post));
                }
            },
            Option::None => {
                proof {
                    assert(post.last() is None);
                    assert(finding_views(findings@) =~= spec_all_findings(post));
                }
            },
        }
        i += 1;
    }
    proof {
        assert(file_views(files@).subrange(0, files@.len() as int) =~= file_views(files@));
    }
    let sorted = sort_findings(findings);
    proof {
        if spec_wf_files(file_views(files@)) {
            lemma_all_findings_lines(file_views(files@));
            lemma_sort_preserves_lines(spec_all_findings(file_views(files@)));
            let s = sort_by_severity(spec_all_findings(file_views(files@)));
            assert forall|k: int| 0 <= k < sorted@.len() implies (#[trigger] sorted@[k]).line
                >= 1 by {
                assert(finding_views(sorted@)[k] == s[k]);
                assert(s[k].line == sorted@[k].line as int);
            }
        }
        lemma_sorted_severity_monotone(spec_all_findings(file_views(files@)));
        let s = sort_by_severity(spec_all_findings(file_views(files@)));
        assert forall|i: int, j: int| 0 <= i <= j < sorted@.len() implies spec_rank(
            (#[trigger] sorted@[i]).severity,
        ) <= spec_rank((#[trigger] sorted@[j]).severity) by {
            assert(finding_views(sorted@)[i] == s[i]);
            assert(finding_views(sorted@)[j] == s[j]);
            assert(s[i].severity == sorted@[i].severity);
            assert(s[j].severity == sorted@[j].severity);
        }
    }
    AnalysisReport { findings: sorted, files_scanned: files.len() }
}

} // verus!
