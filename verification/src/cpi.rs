//! Cross-program-invocation detector: inspects `invoke_signed` and `invoke`
//! call sites for missing bump and signer evidence in the nearby source text.

use vstd::prelude::*;
use crate::model::{CallModel, CallSite, call_views, string_views};
use crate::report::{Finding, FindingModel, Severity, finding_views};
use crate::text::{cap_sub, contains_pattern, fn_window, line_views, min_int, spec_fn_window,
    spec_lines, spec_window, split_lines, str_chars, string_eq, text_contains, window};

verus! {

/// Character span of the enclosing-function window searched for bump
/// evidence around an `invoke_signed` call.
pub const INVOKE_SIGNED_FN_SPAN: usize = 2000;

/// Lines searched on each side of an `invoke_signed` call when its enclosing
/// function cannot be located by name.
pub const INVOKE_SIGNED_FALLBACK_LINES: usize = 15;

/// Lines searched before an `invoke` call for signer evidence.
pub const INVOKE_LOOKBACK_LINES: usize = 20;

/// Lines searched after an `invoke` call for signer evidence.
pub const INVOKE_LOOKAHEAD_LINES: usize = 5;

/// The call's target name is exactly `invoke_signed`.
pub open spec fn spec_is_invoke_signed(c: CallModel) -> bool {
    c.path.len() > 0 && c.path.last() == "invoke_signed"@
}

/// Whether the call's target name is exactly `invoke_signed`.
pub fn is_invoke_signed(c: &CallSite) -> (r: bool)
    ensures
        r == spec_is_invoke_signed(c@),
{
    if c.path.len() == 0 {
        false
    } else {
        let r = string_eq(&c.path[c.path.len() - 1], "invoke_signed");
        proof {
            assert(string_views(c.path@).last() == c.path@.last()@);
        }
        r
    }
}

/// The call's target name is exactly `invoke`.
pub open spec fn spec_is_invoke(c: CallModel) -> bool {
    c.path.len() > 0 && c.path.last() == "invoke"@
}

/// Whether the call's target name is exactly `invoke`.
pub fn is_invoke(c: &CallSite) -> (r: bool)
    ensures
        r == spec_is_invoke(c@),
{
    if c.path.len() == 0 {
        false
    } else {
        let r = string_eq(&c.path[c.path.len() - 1], "invoke");
        proof {
            assert(string_views(c.path@).last() == c.path@.last()@);
        }
        r
    }
}

/// The name of the function declaration the call sits in; empty when the
/// call stands outside any tracked declaration.
pub open spec fn spec_enclosing_or_empty(c: CallModel) -> Seq<char> {
    match c.enclosing_fn {
        Option::Some(n) => n,
        Option::None => Seq::empty(),
    }
}

/// The raw-text window of the enclosing function, as searched around an
/// `invoke_signed` call.
pub open spec fn spec_invoke_signed_window(text: Seq<char>, fn_name: Seq<char>) -> Option<
    Seq<char>,
> {
    spec_fn_window(text, fn_name, INVOKE_SIGNED_FN_SPAN as int)
}

/// The raw-text window of the enclosing function, as searched around an
/// `invoke_signed` call.
pub fn fn_source_text(text: &Vec<char>, fn_name: &String) -> (r: Option<Vec<char>>)
    ensures
        match r {
            Option::Some(w) => spec_invoke_signed_window(text@, fn_name@) == Option::Some(w@),
            Option::None => spec_invoke_signed_window(text@, fn_name@) is None,
        },
{
    fn_window(text, fn_name, INVOKE_SIGNED_FN_SPAN)
}

/// The window holds "bump" together with some sign that the bump is derived
/// or validated.
pub open spec fn spec_bump_evidence_window(w: Seq<char>) -> bool {
    text_contains(w, "bump"@) && (text_contains(w, "find_program_address"@) || text_contains(
        w,
        ".bump"@,
    ) || text_contains(w, "bump ="@) || text_contains(w, "bump="@))
}

/// Bump evidence near an `invoke_signed` call: the enclosing function's
/// window when the function can be located by name, else any "bump" mention
/// within [`INVOKE_SIGNED_FALLBACK_LINES`] lines of the call.
pub open spec fn spec_has_bump_evidence(
    text: Seq<char>,
    lines: Seq<Seq<char>>,
    fn_name: Seq<char>,
    line: int,
) -> bool {
    match spec_invoke_signed_window(text, fn_name) {
        Option::Some(w) => spec_bump_evidence_window(w),
        Option::None => exists|i: int|
            cap_sub(line, INVOKE_SIGNED_FALLBACK_LINES as int) <= i < min_int(
                line + INVOKE_SIGNED_FALLBACK_LINES as int,
                lines.len() as int,
            ) && text_contains(#[trigger] lines[i], "bump"@),
    }
}

/// Whether bump evidence stands near an `invoke_signed` call at the 1-based
/// `line` of a function named `fn_name`.
pub fn has_bump_evidence(
    text: &Vec<char>,
    lines: &Vec<Vec<char>>,
    fn_name: &String,
    line: usize,
) -> (r: bool)
    ensures
        r == spec_has_bump_evidence(text@, line_views(lines@), fn_name@, line as int),
{
    match fn_source_text(text, fn_name) {
        Option::Some(w) => {
            let p_bump = str_chars("bump");
            let p_find = str_chars("find_program_address");
            let p_dot = str_chars(".bump");
            let p_eq_sp = str_chars("bump =");
            let p_eq = str_chars("bump=");
            contains_pattern(&w, &p_bump) && (contains_pattern(&w, &p_find) || contains_pattern(
                &w,
                &p_dot,
            ) || contains_pattern(&w, &p_eq_sp) || contains_pattern(&w, &p_eq))
        },
        Option::None => {
            let p_bump = str_chars("bump");
            let n = lines.len();
            let start = if line >= INVOKE_SIGNED_FALLBACK_LINES {
                line - INVOKE_SIGNED_FALLBACK_LINES
            } else {
                0
            };
            let end = if line >= n {
                n
            } else if n - line <= INVOKE_SIGNED_FALLBACK_LINES {
                n
            } else {
                line + INVOKE_SIGNED_FALLBACK_LINES
            };
            let ghost lo = cap_sub(line as int, INVOKE_SIGNED_FALLBACK_LINES as int);
            let ghost hi = min_int(line as int + INVOKE_SIGNED_FALLBACK_LINES as int, lines@.len() as int);
            proof {
                assert(start as int == lo);
                assert(end as int == hi);
            }
            let mut i = start;
            if start >= end {
                proof {
                    assert(lo >= hi);
                }
                return false;
            }
            while i < end
                invariant
                    start <= i <= end,
                    end <= lines@.len(),
                    start as int == cap_sub(line as int, INVOKE_SIGNED_FALLBACK_LINES as int),
                    end as int == min_int(
                        line as int + INVOKE_SIGNED_FALLBACK_LINES as int,
                        lines@.len() as int,
                    ),
                    p_bump@ == "bump"@,
                    spec_invoke_signed_window(text@, fn_name@) is None,
                    forall|k: int|
                        lo <= k < i ==> !text_contains(#[trigger] line_views(lines@)[k], "bump"@),
                decreases end - i,
            {
                if contains_pattern(&lines[i], &p_bump) {
                    assert(text_contains(line_views(lines@)[i as int], "bump"@));
                    return true;
                }
                i += 1;
            }
            false
        },
    }
}

/// Message of an `invoke-signed-no-bump` finding.
pub open spec fn spec_invoke_signed_message() -> Seq<char> {
    "`invoke_signed` call without bump validation. Seeds without a verified bump can allow PDA collision attacks. Ensure the bump is derived from `find_program_address` or stored/validated on-chain."@
}

/// The signer-evidence window around an `invoke` call holds a validation
/// pattern.
pub open spec fn spec_signer_evidence_window(w: Seq<char>) -> bool {
    ||| text_contains(w, "is_signer"@)
    ||| text_contains(w, "Signer<"@)
    ||| text_contains(w, ".key()"@)
    ||| text_contains(w, ".key =="@)
    ||| text_contains(w, "has_one"@)
    ||| text_contains(w, "constraint"@)
}

/// Signer evidence near an `invoke` call: the joined window of
/// [`INVOKE_LOOKBACK_LINES`] lines before through [`INVOKE_LOOKAHEAD_LINES`]
/// lines after the 1-based call line.
pub open spec fn spec_has_signer_evidence(lines: Seq<Seq<char>>, line: int) -> bool {
    spec_signer_evidence_window(
        spec_window(lines, line, INVOKE_LOOKBACK_LINES as int, INVOKE_LOOKAHEAD_LINES as int),
    )
}

/// Whether signer evidence stands near an `invoke` call at the 1-based
/// `line`.
pub fn has_signer_evidence(lines: &Vec<Vec<char>>, line: usize) -> (r: bool)
    ensures
        r == spec_has_signer_evidence(line_views(lines@), line as int),
{
    let w = window(lines, line, INVOKE_LOOKBACK_LINES, INVOKE_LOOKAHEAD_LINES);
    let p1 = str_chars("is_signer");
    let p2 = str_chars("Signer<");
    let p3 = str_chars(".key()");
    let p4 = str_chars(".key ==");
    let p5 = str_chars("has_one");
    let p6 = str_chars("constraint");
    contains_pattern(&w, &p1) || contains_pattern(&w, &p2) || contains_pattern(&w, &p3)
        || contains_pattern(&w, &p4) || contains_pattern(&w, &p5) || contains_pattern(&w, &p6)
}

/// Message of a `cpi-missing-signer-check` finding.
pub open spec fn spec_invoke_message() -> Seq<char> {
    "CPI `invoke` call without apparent signer validation in surrounding context. Ensure accounts passed to CPI are properly validated."@
}

/// The findings one call site yields: a `High` `invoke-signed-no-bump` for
/// an `invoke_signed` call with no bump evidence, a `Medium`
/// `cpi-missing-signer-check` for an `invoke` call with no signer evidence.
pub open spec fn spec_call_cpi_findings(
    c: CallModel,
    text: Seq<char>,
    lines: Seq<Seq<char>>,
    path: Seq<char>,
) -> Seq<FindingModel> {
    if spec_is_invoke_signed(c) {
        if !spec_has_bump_evidence(text, lines, spec_enclosing_or_empty(c), c.line) {
            seq![
                FindingModel {
                    severity: Severity::High,
                    check: "invoke-signed-no-bump"@,
                    message: spec_invoke_signed_message(),
                    file: path,
                    line: c.line,
                },
            ]
        } else {
            Seq::empty()
        }
    } else if spec_is_invoke(c) {
        if !spec_has_signer_evidence(lines, c.line) {
            seq![
                FindingModel {
                    severity: Severity::Medium,
                    check: "cpi-missing-signer-check"@,
                    message: spec_invoke_message(),
                    file: path,
                    line: c.line,
                },
            ]
        } else {
            Seq::empty()
        }
    } else {
        Seq::empty()
    }
}

/// The cross-program-invocation findings of a whole file, call by call in
/// traversal order.
pub open spec fn spec_cpi_findings(
    calls: Seq<CallModel>,
    text: Seq<char>,
    lines: Seq<Seq<char>>,
    path: Seq<char>,
) -> Seq<FindingModel>
    decreases calls.len(),
{
    if calls.len() == 0 {
        Seq::empty()
    } else {
        spec_cpi_findings(calls.drop_last(), text, lines, path) + spec_call_cpi_findings(
            calls.last(),
            text,
            lines,
            path,
        )
    }
}

/// Cross-program-invocation detector: inspects every recorded call site of
/// the file and reports `invoke_signed` calls with no bump evidence and
/// `invoke` calls with no signer evidence nearby.
pub fn check_cpi_safety(calls: &Vec<CallSite>, path: &String, text: &Vec<char>) -> (findings: Vec<
    Finding,
>)
    ensures
        finding_views(findings@) == spec_cpi_findings(
            call_views(calls@),
            text@,
            spec_lines(text@),
            path@,
        ),
{
    let lines = split_lines(text);
    let ghost lsv = spec_lines(text@);
    let mut findings: Vec<Finding> = Vec::new();
    let mut i: usize = 0;
    proof {
        assert(call_views(calls@).subrange(0, 0) =~= Seq::<CallModel>::empty());
        assert(finding_views(findings@) =~= spec_cpi_findings(
            call_views(calls@).subrange(0, 0),
            text@,
            lsv,
            path@,
        ));
    }
    while i < calls.len()
        invariant
            i <= calls@.len(),
            line_views(lines@) == lsv,
            lsv == spec_lines(text@),
            finding_views(findings@) == spec_cpi_findings(
                call_views(calls@).subrange(0, i as int),
                text@,
                lsv,
                path@,
            ),
        decreases calls@.len() - i,
    {
        let ghost pre = call_views(calls@).subrange(0, i as int);
        let ghost post = call_views(calls@).subrange(0, i as int + 1);
        let ghost base = finding_views(findings@);
        proof {
            assert(post.drop_last() =~= pre);
            assert(post.last() == calls@[i as int]@);
        }
        let c = &calls[i];
        let ghost cv = calls@[i as int]@;
        if is_invoke_signed(c) {
            let empty_name: String = String::new();
            let fn_name: &String = match &c.enclosing_fn {
                Option::Some(n) => n,
                Option::None => &empty_name,
            };
            proof {
                assert(fn_name@ == spec_enclosing_or_empty(cv));
            }
            if !has_bump_evidence(text, &lines, fn_name, c.line) {
                findings.push(
                    Finding {
                        severity: Severity::High,
                        check: "invoke-signed-no-bump".to_owned(),
                        message:
                            "`invoke_signed` call without bump validation. Seeds without a verified bump can allow PDA collision attacks. Ensure the bump is derived from `find_program_address` or stored/validated on-chain.".to_owned(),
                        file: path.clone(),
                        line: c.line,
                    },
                );
            }
        } else if is_invoke(c) {
            if !has_signer_evidence(&lines, c.line) {
                findings.push(
                    Finding {
                        severity: Severity::Medium,
                        check: "cpi-missing-signer-check".to_owned(),
                        message:
                            "CPI `invoke` call without apparent signer validation in surrounding context. Ensure accounts passed to CPI are properly validated.".to_owned(),
                        file: path.clone(),
                        line: c.line,
                    },
                );
            }
        }
        proof {
            assert(finding_views(findings@) =~= base + spec_call_cpi_findings(
                cv,
                text@,
                lsv,
                path@,
            ));
            assert(finding_views(findings@) =~= base + spec_call_cpi_findings(
                post.last(),
                text@,
                lsv,
                path@,
            ));
            assert(finding_views(findings@) =~= spec_cpi_findings(post, text@, lsv, path@));
        }
        i += 1;
    }
    proof {
        assert(call_views(calls@).subrange(0, calls@.len() as int) =~= call_views(calls@));
    }
    findings
}

/// An `invoke_signed` call whose enclosing function resolves to window `w`:
/// when `w` holds both "bump" and "find_program_address" the call yields no
/// finding; when `w` lacks "bump", or lacks every derivation pattern, the
/// call yields exactly one `High` `invoke-signed-no-bump` finding at the
/// call's line.
pub proof fn lemma_invoke_signed_bump_evidence(
    c: CallModel,
    text: Seq<char>,
    lines: Seq<Seq<char>>,
    path: Seq<char>,
    w: Seq<char>,
)
    requires
        spec_is_invoke_signed(c),
        spec_invoke_signed_window(text, spec_enclosing_or_empty(c)) == Option::Some(w),
    ensures
        text_contains(w, "bump"@) && text_contains(w, "find_program_address"@)
            ==> spec_call_cpi_findings(c, text, lines, path) == Seq::<FindingModel>::empty(),
        !spec_bump_evidence_window(w) ==> spec_call_cpi_findings(c, text, lines, path) == seq![
            FindingModel {
                severity: Severity::High,
                check: "invoke-signed-no-bump"@,
                message: spec_invoke_signed_message(),
                file: path,
                line: c.line,
            },
        ],
{
    assert(spec_has_bump_evidence(text, lines, spec_enclosing_or_empty(c), c.line)
        == spec_bump_evidence_window(w));
}

/// Every cross-program-invocation finding of calls whose lines are 1-based
/// carries a 1-based line itself.
pub proof fn lemma_cpi_findings_lines(
    calls: Seq<CallModel>,
    text: Seq<char>,
    lines: Seq<Seq<char>>,
    path: Seq<char>,
)
    requires
        forall|i: int| 0 <= i < calls.len() ==> (#[trigger] calls[i]).line >= 1,
    ensures
        forall|k: int| 0 <= k < spec_cpi_findings(calls, text, lines, path).len() ==> (
        #[trigger] spec_cpi_findings(calls, text, lines, path)[k]).line >= 1,
    decreases calls.len(),
{
    if calls.len() > 0 {
        lemma_cpi_findings_lines(calls.drop_last(), text, lines, path);
        let c = calls.last();
        assert(c.line >= 1);
        assert(forall|k: int| 0 <= k < spec_call_cpi_findings(c, text, lines, path).len() ==> (
        #[trigger] spec_call_cpi_findings(c, text, lines, path)[k]).line == c.line);
    }
}

} // verus!
