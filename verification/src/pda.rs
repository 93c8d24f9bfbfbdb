//! Program-derived-address detector: inspects address-derivation call sites
//! for missing program-id verification and collision-prone variant usage.

use vstd::prelude::*;
use vstd::string::StringExecFns;
use crate::model::{CallModel, CallSite, call_views, string_views};
use crate::report::{Finding, FindingModel, Severity, finding_views};
use crate::text::{cap_sub, contains_pattern, fn_window, line_views, min_int, spec_fn_window,
    spec_lines, spec_window, split_lines, str_chars, text_contains, window};

verus! {

/// Character span of the enclosing-function window searched for program-id
/// evidence around a derivation call.
pub const PDA_FN_SPAN: usize = 3000;

/// Lines searched on each side of a derivation call when its enclosing
/// function cannot be located by name.
pub const PDA_FALLBACK_LINES: usize = 10;

/// Lines searched before a derivation call for seed-validation evidence.
pub const SEED_CONTEXT_LOOKBACK: usize = 15;

/// Lines searched after a derivation call for seed-validation evidence.
pub const SEED_CONTEXT_LOOKAHEAD: usize = 5;

/// The call's path segments joined with `::`.
pub open spec fn spec_join_path(segs: Seq<Seq<char>>) -> Seq<char>
    decreases segs.len(),
{
    if segs.len() == 0 {
        Seq::empty()
    } else if segs.len() == 1 {
        segs[0]
    } else {
        spec_join_path(segs.drop_last()) + "::"@ + segs.last()
    }
}

/// The call path's segments joined with `::`.
pub fn join_path(segs: &Vec<String>) -> (j: Vec<char>)
    ensures
        j@ == spec_join_path(string_views(segs@)),
{
    let sep = str_chars("::");
    let mut j: Vec<char> = Vec::new();
    let ghost sv = string_views(segs@);
    let mut i: usize = 0;
    proof {
        assert(sv.subrange(0, 0) =~= Seq::<Seq<char>>::empty());
        assert(j@ =~= spec_join_path(sv.subrange(0, 0)));
    }
    while i < segs.len()
        invariant
            i <= segs@.len(),
            sv == string_views(segs@),
            sep@ == "::"@,
            j@ == spec_join_path(sv.subrange(0, i as int)),
        decreases segs@.len() - i,
    {
        proof {
            let pre = sv.subrange(0, i as int);
            let post = sv.subrange(0, i as int + 1);
            assert(post.drop_last() =~= pre);
            assert(post.last() == sv[i as int]);
        }
        if i > 0 {
            let ghost before = j@;
            let mut k: usize = 0;
            while k < sep.len()
                invariant
                    k <= sep@.len(),
                    sep@ == "::"@,
                    j@ == before + sep@.subrange(0, k as int),
                decreases sep@.len() - k,
            {
                let c = sep[k];
                j.push(c);
                proof {
                    assert(j@ =~= before + sep@.subrange(0, k as int + 1));
                }
                k += 1;
            }
            proof {
                assert(sep@.subrange(0, sep@.len() as int) =~= sep@);
            }
        }
        let seg = str_chars(segs[i].as_str());
        let ghost mid = j@;
        let mut k: usize = 0;
        while k < seg.len()
            invariant
                k <= seg@.len(),
                seg@ == string_views(segs@)[i as int],
                i < segs@.len(),
                j@ == mid + seg@.subrange(0, k as int),
            decreases seg@.len() - k,
        {
            let c = seg[k];
            j.push(c);
            proof {
                assert(j@ =~= mid + seg@.subrange(0, k as int + 1));
            }
            k += 1;
        }
        proof {
            assert(seg@.subrange(0, seg@.len() as int) =~= seg@);
            assert(j@ =~= spec_join_path(sv.subrange(0, i as int + 1)));
        }
        i += 1;
    }
    proof {
        assert(sv.subrange(0, sv.len() as int) =~= sv);
    }
    j
}

/// The call is a free derivation call whose joined path names
/// `find_program_address`.
pub open spec fn spec_is_find_program_address(c: CallModel) -> bool {
    !c.is_method && text_contains(spec_join_path(c.path), "find_program_address"@)
}

/// Whether the call's joined path names `find_program_address`.
pub fn is_find_program_address(c: &CallSite) -> (r: bool)
    ensures
        r == spec_is_find_program_address(c@),
{
    if c.is_method {
        false
    } else {
        let joined = join_path(&c.path);
        let pat = str_chars("find_program_address");
        contains_pattern(&joined, &pat)
    }
}

/// The call is a free derivation call whose joined path names
/// `create_program_address`.
pub open spec fn spec_is_create_program_address(c: CallModel) -> bool {
    !c.is_method && text_contains(spec_join_path(c.path), "create_program_address"@)
}

/// Whether the call's joined path names `create_program_address`.
pub fn is_create_program_address(c: &CallSite) -> (r: bool)
    ensures
        r == spec_is_create_program_address(c@),
{
    if c.is_method {
        false
    } else {
        let joined = join_path(&c.path);
        let pat = str_chars("create_program_address");
        contains_pattern(&joined, &pat)
    }
}

/// The raw-text window of the derivation call's enclosing function; `None`
/// when the call stands outside any tracked declaration or the declaration
/// cannot be located by name.
pub open spec fn spec_fn_body_window(text: Seq<char>, enclosing_fn: Option<Seq<char>>) -> Option<
    Seq<char>,
> {
    match enclosing_fn {
        Option::None => Option::None,
        Option::Some(n) => spec_fn_window(text, n, PDA_FN_SPAN as int),
    }
}

/// The raw-text window of the derivation call's enclosing function.
pub fn get_fn_body_source(text: &Vec<char>, enclosing_fn: &Option<String>) -> (r: Option<
    Vec<char>,
>)
    ensures
        match r {
            Option::Some(w) => spec_fn_body_window(
                text@,
                match *enclosing_fn {
                    Option::Some(ref n) => Option::Some(n@),
                    Option::None => Option::None,
                },
            ) == Option::Some(w@),
            Option::None => spec_fn_body_window(
                text@,
                match *enclosing_fn {
                    Option::Some(ref n) => Option::Some(n@),
                    Option::None => Option::None,
                },
            ) is None,
        },
{
    match enclosing_fn {
        Option::Some(n) => fn_window(text, n, PDA_FN_SPAN),
        Option::None => Option::None,
    }
}

/// The window holds a program-id verification pattern.
pub open spec fn spec_program_id_window(w: Seq<char>) -> bool {
    ||| text_contains(w, "program_id"@)
    ||| text_contains(w, "program.key()"@)
    ||| text_contains(w, "crate::ID"@)
    ||| text_contains(w, "crate::id()"@)
    ||| text_contains(w, "ID.key()"@)
}

/// Program-id evidence near a derivation call: the enclosing function's
/// window when it resolves, else any of the same five evidence strings
/// within [`PDA_FALLBACK_LINES`] lines of the 1-based call line.
pub open spec fn spec_program_id_verified(
    text: Seq<char>,
    lines: Seq<Seq<char>>,
    enclosing_fn: Option<Seq<char>>,
    line: int,
) -> bool {
    match spec_fn_body_window(text, enclosing_fn) {
        Option::Some(w) => spec_program_id_window(w),
        Option::None => exists|i: int|
            cap_sub(line, PDA_FALLBACK_LINES as int) <= i < min_int(
                line + PDA_FALLBACK_LINES as int,
                lines.len() as int,
            ) && #[trigger] spec_program_id_window(lines[i]),
    }
}

/// Whether program-id evidence stands near a derivation call at the 1-based
/// `line` of the function named by `enclosing_fn`.
pub fn check_program_id_verification(
    text: &Vec<char>,
    lines: &Vec<Vec<char>>,
    enclosing_fn: &Option<String>,
    line: usize,
) -> (r: bool)
    ensures
        r == spec_program_id_verified(
            text@,
            line_views(lines@),
            match *enclosing_fn {
                Option::Some(ref n) => Option::Some(n@),
                Option::None => Option::None,
            },
            line as int,
        ),
{
    match get_fn_body_source(text, enclosing_fn) {
        Option::Some(w) => {
            let p1 = str_chars("program_id");
            let p2 = str_chars("program.key()");
            let p3 = str_chars("crate::ID");
            let p4 = str_chars("crate::id()");
            let p5 = str_chars("ID.key()");
            contains_pattern(&w, &p1) || contains_pattern(&w, &p2) || contains_pattern(&w, &p3)
                || contains_pattern(&w, &p4) || contains_pattern(&w, &p5)
        },
        Option::None => {
            let p1 = str_chars("program_id");
            let p2 = str_chars("program.key()");
            let p3 = str_chars("crate::ID");
            let p4 = str_chars("crate::id()");
            let p5 = str_chars("ID.key()");
            let n = lines.len();
            let start = if line >= PDA_FALLBACK_LINES {
                line - PDA_FALLBACK_LINES
            } else {
                0
            };
            let end = if line >= n {
                n
            } else if n - line <= PDA_FALLBACK_LINES {
                n
            } else {
                line + PDA_FALLBACK_LINES
            };
            let ghost lo = cap_sub(line as int, PDA_FALLBACK_LINES as int);
            let ghost hi = min_int(line as int + PDA_FALLBACK_LINES as int, lines@.len() as int);
            proof {
                assert(start as int == lo);
                assert(end as int == hi);
            }
            if start >= end {
                proof {
                    assert(lo >= hi);
                }
                return false;
            }
            let mut i = start;
            while i < end
                invariant
                    start <= i <= end,
                    end <= lines@.len(),
                    start as int == cap_sub(line as int, PDA_FALLBACK_LINES as int),
                    end as int == min_int(
                        line as int + PDA_FALLBACK_LINES as int,
                        lines@.len() as int,
                    ),
                    p1@ == "program_id"@,
                    p2@ == "program.key()"@,
                    p3@ == "crate::ID"@,
                    p4@ == "crate::id()"@,
                    p5@ == "ID.key()"@,
                    spec_fn_body_window(
                        text@,
                        match *enclosing_fn {
                            Option::Some(ref n) => Option::Some(n@),
                            Option::None => Option::None,
                        },
                    ) is None,
                    forall|k: int|
                        lo <= k < i ==> !spec_program_id_window(#[trigger] line_views(lines@)[k]),
                decreases end - i,
            {
                if contains_pattern(&lines[i], &p1) || contains_pattern(&lines[i], &p2)
                    || contains_pattern(&lines[i], &p3) || contains_pattern(&lines[i], &p4)
                    || contains_pattern(&lines[i], &p5) {
                    assert(spec_program_id_window(line_views(lines@)[i as int]));
                    return true;
                }
                i += 1;
            }
            false
        },
    }
}

/// The seed-safety verdict the detector computes for a derivation call at
/// the 1-based `line` but deliberately never turns into a finding: the
/// call's own line draws seed material from external input (`.key()`,
/// `.key.as_ref()`, or a numeric-to-bytes conversion) and no
/// assertion or constraint evidence stands in the surrounding window.
pub open spec fn spec_seed_risk(lines: Seq<Seq<char>>, line: int) -> bool {
    let idx = cap_sub(line, 1);
    if idx < lines.len() {
        let call_line = lines[idx];
        let has_user_key = text_contains(call_line, ".key()"@) || text_contains(
            call_line,
            ".key.as_ref()"@,
        );
        let has_to_bytes = text_contains(call_line, ".to_le_bytes()"@) || text_contains(
            call_line,
            ".to_be_bytes()"@,
        ) || text_contains(call_line, "as_bytes()"@);
        let context = spec_window(
            lines,
            line,
            SEED_CONTEXT_LOOKBACK as int,
            SEED_CONTEXT_LOOKAHEAD as int,
        );
        let has_validation = text_contains(context, "require!"@) || text_contains(
            context,
            "assert!"@,
        ) || text_contains(context, "constraint"@) || text_contains(context, "has_one"@);
        (has_user_key || has_to_bytes) && !has_validation
    } else {
        false
    }
}

/// The seed-safety verdict for a derivation call at the 1-based `line`.
/// This is an inert hook: the detector computes the verdict and exposes it
/// here, but emits no finding from it.
pub fn check_pda_seed_safety(lines: &Vec<Vec<char>>, line: usize) -> (risky: bool)
    ensures
        risky == spec_seed_risk(line_views(lines@), line as int),
{
    let idx = if line >= 1 {
        line - 1
    } else {
        0
    };
    if idx >= lines.len() {
        return false;
    }
    let call_line = &lines[idx];
    let k1 = str_chars(".key()");
    let k2 = str_chars(".key.as_ref()");
    let b1 = str_chars(".to_le_bytes()");
    let b2 = str_chars(".to_be_bytes()");
    let b3 = str_chars("as_bytes()");
    let has_user_key = contains_pattern(call_line, &k1) || contains_pattern(call_line, &k2);
    let has_to_bytes = contains_pattern(call_line, &b1) || contains_pattern(call_line, &b2)
        || contains_pattern(call_line, &b3);
    let context = window(lines, line, SEED_CONTEXT_LOOKBACK, SEED_CONTEXT_LOOKAHEAD);
    let v1 = str_chars("require!");
    let v2 = str_chars("assert!");
    let v3 = str_chars("constraint");
    let v4 = str_chars("has_one");
    let has_validation = contains_pattern(&context, &v1) || contains_pattern(&context, &v2)
        || contains_pattern(&context, &v3) || contains_pattern(&context, &v4);
    (has_user_key || has_to_bytes) && !has_validation
}

/// Message of a `pda-program-id` finding, naming the derivation variant that
/// was called.
pub open spec fn spec_pda_program_id_message(variant: Seq<char>) -> Seq<char> {
    "`"@ + variant
        + "` called without verifying against the expected program ID. An attacker could pass a different program's PDA. Ensure you derive against `crate::ID` or validate the program account."@
}

fn pda_program_id_message(variant: &str) -> (m: String)
    ensures
        m@ == spec_pda_program_id_message(variant@),
{
    let mut m: String = "`".to_owned();
    m.append(variant);
    m.append(
        "` called without verifying against the expected program ID. An attacker could pass a different program's PDA. Ensure you derive against `crate::ID` or validate the program account.",
    );
    proof {
        assert(m@ =~= spec_pda_program_id_message(variant@));
    }
    m
}

/// Message of a `pda-create-unverified` finding.
pub open spec fn spec_pda_create_message() -> Seq<char> {
    "`create_program_address` is used instead of `find_program_address`. Prefer `find_program_address` which returns the bump, preventing PDA collision issues."@
}

/// The name of the derivation variant a call uses, as rendered in the
/// `pda-program-id` message.
pub open spec fn spec_variant_name(c: CallModel) -> Seq<char> {
    if spec_is_find_program_address(c) {
        "find_program_address"@
    } else {
        "create_program_address"@
    }
}

/// The findings one call site yields: a `High` `pda-program-id` for a
/// derivation call with no program-id evidence, and additionally a `Medium`
/// `pda-create-unverified` when the collision-prone variant was used and
/// that same program-id condition failed.
pub open spec fn spec_call_pda_findings(
    c: CallModel,
    text: Seq<char>,
    lines: Seq<Seq<char>>,
    path: Seq<char>,
) -> Seq<FindingModel> {
    let is_find = spec_is_find_program_address(c);
    let is_create = spec_is_create_program_address(c);
    if is_find || is_create {
        let verified = spec_program_id_verified(text, lines, c.enclosing_fn, c.line);
        (if !verified {
            seq![
                FindingModel {
                    severity: Severity::High,
                    check: "pda-program-id"@,
                    message: spec_pda_program_id_message(spec_variant_name(c)),
                    file: path,
                    line: c.line,
                },
            ]
        } else {
            Seq::empty()
        }) + (if is_create && !verified {
            seq![
                FindingModel {
                    severity: Severity::Medium,
                    check: "pda-create-unverified"@,
                    message: spec_pda_create_message(),
                    file: path,
                    line: c.line,
                },
            ]
        } else {
            Seq::empty()
        })
    } else {
        Seq::empty()
    }
}

/// The program-derived-address findings of a whole file, call by call in
/// traversal order.
pub open spec fn spec_pda_findings(
    calls: Seq<CallModel>,
    text: Seq<char>,
    lines: Seq<Seq<char>>,
    path: Seq<char>,
) -> Seq<FindingModel>
    decreases calls.len(),
{
    if calls.len() == 0 {
        Seq::empty()
    } else {
        spec_pda_findings(calls.drop_last(), text, lines, path) + spec_call_pda_findings(
            calls.last(),
            text,
            lines,
            path,
        )
    }
}

/// Program-derived-address detector: inspects every recorded derivation call
/// of the file and reports missing program-id verification and
/// collision-prone variant usage.
pub fn check_pda_usage(calls: &Vec<CallSite>, path: &String, text: &Vec<char>) -> (findings: Vec<
    Finding,
>)
    ensures
        finding_views(findings@) == spec_pda_findings(
            call_views(calls@),
            text@,
            spec_lines(text@),
            path@,
        ),
{
    let lines = split_lines(text);
    let ghost lsv = spec_lines(text@);
    let mut findings: Vec<Finding> = Vec::new();
    let mut i: usize = 0;
    proof {
        assert(call_views(calls@).subrange(0, 0) =~= Seq::<CallModel>::empty());
        assert(finding_views(findings@) =~= spec_pda_findings(
            call_views(calls@).subrange(0, 0),
            text@,
            lsv,
            path@,
        ));
    }
    while i < calls.len()
        invariant
            i <= calls@.len(),
            line_views(lines@) == lsv,
            lsv == spec_lines(text@),
            finding_views(findings@) == spec_pda_findings(
                call_views(calls@).subrange(0, i as int),
                text@,
                lsv,
                path@,
            ),
        decreases calls@.len() - i,
    {
        let ghost pre = call_views(calls@).subrange(0, i as int);
        let ghost post = call_views(calls@).subrange(0, i as int + 1);
        let ghost base = finding_views(findings@);
        proof {
            assert(post.drop_last() =~= pre);
            assert(post.last() == calls@[i as int]@);
        }
        let c = &calls[i];
        let ghost cv = calls@[i as int]@;
        let is_find = is_find_program_address(c);
        let is_create = is_create_program_address(c);
        if is_find || is_create {
            let verified = check_program_id_verification(text, &lines, &c.enclosing_fn, c.line);
            if !verified {
                let variant = if is_find {
                    "find_program_address"
                } else {
                    "create_program_address"
                };
                proof {
                    assert(variant@ == spec_variant_name(cv));
                }
                let msg = pda_program_id_message(variant);
                findings.push(
                    Finding {
                        severity: Severity::High,
                        check: "pda-program-id".to_owned(),
                        message: msg,
                        file: path.clone(),
                        line: c.line,
                    },
                );
            }
            if is_create && !verified {
                findings.push(
                    Finding {
                        severity: Severity::Medium,
                        check: "pda-create-unverified".to_owned(),
                        message:
                            "`create_program_address` is used instead of `find_program_address`. Prefer `find_program_address` which returns the bump, preventing PDA collision issues.".to_owned(),
                        file: path.clone(),
                        line: c.line,
                    },
                );
            }
            let _seed_risk: bool = check_pda_seed_safety(&lines, c.line);
        }
        proof {
            assert(finding_views(findings@) =~= base + spec_call_pda_findings(
                cv,
                text@,
                lsv,
                path@,
            ));
            assert(finding_views(findings@) =~= spec_pda_findings(post, text@, lsv, path@));
        }
        i += 1;
    }
    proof {
        assert(call_views(calls@).subrange(0, calls@.len() as int) =~= call_views(calls@));
    }
    findings
}

/// A `find_program_address` call (not also naming the collision-prone
/// variant) with no program-id evidence in its window yields exactly one
/// `High` `pda-program-id` finding at the call's line, naming
/// `find_program_address` in its message.
pub proof fn lemma_unverified_find_one_finding(
    c: CallModel,
    text: Seq<char>,
    lines: Seq<Seq<char>>,
    path: Seq<char>,
)
    requires
        spec_is_find_program_address(c),
        !spec_is_create_program_address(c),
        !spec_program_id_verified(text, lines, c.enclosing_fn, c.line),
    ensures
        spec_call_pda_findings(c, text, lines, path) == seq![
            FindingModel {
                severity: Severity::High,
                check: "pda-program-id"@,
                message: spec_pda_program_id_message("find_program_address"@),
                file: path,
                line: c.line,
            },
        ],
{
    assert(spec_variant_name(c) == "find_program_address"@);
    assert(spec_call_pda_findings(c, text, lines, path) =~= seq![
        FindingModel {
            severity: Severity::High,
            check: "pda-program-id"@,
            message: spec_pda_program_id_message("find_program_address"@),
            file: path,
            line: c.line,
        },
    ]);
}

/// Every program-derived-address finding of calls whose lines are 1-based
/// carries a 1-based line itself.
pub proof fn lemma_pda_findings_lines(
    calls: Seq<CallModel>,
    text: Seq<char>,
    lines: Seq<Seq<char>>,
    path: Seq<char>,
)
    requires
        forall|i: int| 0 <= i < calls.len() ==> (#[trigger] calls[i]).line >= 1,
    ensures
        forall|k: int| 0 <= k < spec_pda_findings(calls, text, lines, path).len() ==> (
        #[trigger] spec_pda_findings(calls, text, lines, path)[k]).line >= 1,
    decreases calls.len(),
{
    if calls.len() > 0 {
        lemma_pda_findings_lines(calls.drop_last(), text, lines, path);
        let c = calls.last();
        assert(c.line >= 1);
        assert(forall|k: int| 0 <= k < spec_call_pda_findings(c, text, lines, path).len() ==> (
        #[trigger] spec_call_pda_findings(c, text, lines, path)[k]).line == c.line);
    }
}

} // verus!
