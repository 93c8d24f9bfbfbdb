//! Account-constraint detector: inspects account-context struct declarations
//! for unchecked raw handles and missing validation attributes.

use vstd::prelude::*;
use vstd::string::StringExecFns;
use crate::model::{AttrDecl, AttrModel, FieldModel, StructDecl, StructModel, attr_views,
    field_views, struct_views, string_views, spec_wf_struct};
use crate::report::{Finding, FindingModel, Severity, finding_views};
use crate::text::{cap_sub, contains_pattern, line_views, spec_lines, split_lines, str_chars,
    string_eq, text_contains};

verus! {

broadcast use vstd::string::group_string_axioms;

/// How many source lines immediately preceding the field's declaration line
/// are searched for a safety comment. The declaration line itself is not
/// part of the window.
pub const CHECK_COMMENT_WINDOW: usize = 3;

/// The attribute is a `derive` marker that lists `Accounts`.
pub open spec fn spec_attr_is_accounts_derive(a: AttrModel) -> bool {
    a.name == "derive"@ && exists|j: int| 0 <= j < a.idents.len() && a.idents[j] == "Accounts"@
}

/// The declaration carries the framework's account-context derive marker.
pub open spec fn spec_has_derive_accounts(attrs: Seq<AttrModel>) -> bool {
    exists|i: int| 0 <= i < attrs.len() && spec_attr_is_accounts_derive(attrs[i])
}

/// Whether the declaration carries `#[derive(Accounts)]`.
pub fn has_derive_accounts(attrs: &Vec<AttrDecl>) -> (r: bool)
    ensures
        r == spec_has_derive_accounts(attr_views(attrs@)),
{
    let mut i: usize = 0;
    while i < attrs.len()
        invariant
            i <= attrs@.len(),
            forall|k: int| 0 <= k < i ==> !spec_attr_is_accounts_derive(attr_views(attrs@)[k]),
        decreases attrs@.len() - i,
    {
        let a = &attrs[i];
        if string_eq(&a.name, "derive") {
            let mut j: usize = 0;
            while j < a.idents.len()
                invariant
                    j <= a.idents@.len(),
                    i < attrs@.len(),
                    *a == attrs@[i as int],
                    a.name@ == "derive"@,
                    forall|k: int| 0 <= k < j ==> string_views(a.idents@)[k] != "Accounts"@,
                decreases a.idents@.len() - j,
            {
                if string_eq(&a.idents[j], "Accounts") {
                    assert(attr_views(attrs@)[i as int].idents[j as int] == "Accounts"@);
                    assert(spec_attr_is_accounts_derive(attr_views(attrs@)[i as int]));
                    return true;
                }
                j += 1;
            }
            assert(!spec_attr_is_accounts_derive(attr_views(attrs@)[i as int]));
        } else {
            assert(!spec_attr_is_accounts_derive(attr_views(attrs@)[i as int]));
        }
        i += 1;
    }
    false
}

/// The attribute binds a validation constraint with actual content: it is
/// named `account`, `has_one` or `constraint` and carries arguments.
pub open spec fn spec_constraint_attr(a: AttrModel) -> bool {
    (a.name == "account"@ || a.name == "has_one"@ || a.name == "constraint"@) && a.has_args
}

/// The field carries a constraint-bearing attribute with actual content.
pub open spec fn spec_field_has_constraint(attrs: Seq<AttrModel>) -> bool {
    exists|i: int| 0 <= i < attrs.len() && spec_constraint_attr(attrs[i])
}

/// Whether the field carries a constraint-bearing attribute with arguments.
pub fn field_has_constraint(attrs: &Vec<AttrDecl>) -> (r: bool)
    ensures
        r == spec_field_has_constraint(attr_views(attrs@)),
{
    let mut i: usize = 0;
    while i < attrs.len()
        invariant
            i <= attrs@.len(),
            forall|k: int| 0 <= k < i ==> !spec_constraint_attr(attr_views(attrs@)[k]),
        decreases attrs@.len() - i,
    {
        let a = &attrs[i];
        if (string_eq(&a.name, "account") || string_eq(&a.name, "has_one") || string_eq(
            &a.name,
            "constraint",
        )) && a.has_args {
            assert(spec_constraint_attr(attr_views(attrs@)[i as int]));
            return true;
        }
        i += 1;
    }
    false
}

/// The field carries some `account` attribute, bare or not.
pub open spec fn spec_has_account_attr(attrs: Seq<AttrModel>) -> bool {
    exists|i: int| 0 <= i < attrs.len() && attrs[i].name == "account"@
}

/// Whether the field carries any `#[account]` attribute at all.
pub fn has_account_attr(attrs: &Vec<AttrDecl>) -> (r: bool)
    ensures
        r == spec_has_account_attr(attr_views(attrs@)),
{
    let mut i: usize = 0;
    while i < attrs.len()
        invariant
            i <= attrs@.len(),
            forall|k: int| 0 <= k < i ==> attr_views(attrs@)[k].name != "account"@,
        decreases attrs@.len() - i,
    {
        if string_eq(&attrs[i].name, "account") {
            assert(attr_views(attrs@)[i as int].name == "account"@);
            return true;
        }
        i += 1;
    }
    false
}

/// The type's trailing identifier names the raw, unchecked account handle.
pub open spec fn spec_is_raw_account_info(type_ident: Seq<char>) -> bool {
    type_ident == "AccountInfo"@ || type_ident == "UncheckedAccount"@
}

/// Whether the type names the raw account handle.
pub fn is_raw_account_info(type_ident: &String) -> (r: bool)
    ensures
        r == spec_is_raw_account_info(type_ident@),
{
    string_eq(type_ident, "AccountInfo") || string_eq(type_ident, "UncheckedAccount")
}

/// The type's trailing identifier names the signer capability.
pub open spec fn spec_is_signer_type(type_ident: Seq<char>) -> bool {
    type_ident == "Signer"@
}

/// Whether the type names the signer capability.
pub fn is_signer_type(type_ident: &String) -> (r: bool)
    ensures
        r == spec_is_signer_type(type_ident@),
{
    string_eq(type_ident, "Signer")
}

/// The type's trailing identifier names a program reference.
pub open spec fn spec_is_program_type(type_ident: Seq<char>) -> bool {
    type_ident == "Program"@ || type_ident == "SystemProgram"@
}

/// Whether the type names a program reference.
pub fn is_program_type(type_ident: &String) -> (r: bool)
    ensures
        r == spec_is_program_type(type_ident@),
{
    string_eq(type_ident, "Program") || string_eq(type_ident, "SystemProgram")
}

/// The line holds a safety-comment marker. The heuristic is purely textual:
/// any line holding the marker text counts, whatever comment form carries it.
pub open spec fn spec_line_has_check_marker(l: Seq<char>) -> bool {
    ||| text_contains(l, "CHECK:"@)
    ||| text_contains(l, "SAFETY:"@)
}

/// A safety comment stands within the [`CHECK_COMMENT_WINDOW`] source lines
/// immediately preceding the field's 1-based `line`; the field's own line
/// does not count.
pub open spec fn spec_has_check_comment(lines: Seq<Seq<char>>, line: int) -> bool {
    line > 0 && exists|i: int|
        cap_sub(line - 1, CHECK_COMMENT_WINDOW as int) <= i < line - 1 && 0 <= i < lines.len()
            && spec_line_has_check_marker(#[trigger] lines[i])
}

/// Whether a safety comment stands within the window of lines immediately
/// preceding the field's 1-based `line`.
pub fn has_check_comment(lines: &Vec<Vec<char>>, line: usize) -> (r: bool)
    ensures
        r == spec_has_check_comment(line_views(lines@), line as int),
{
    if line == 0 {
        return false;
    }
    let p1 = str_chars("CHECK:");
    let p2 = str_chars("SAFETY:");
    let own = line - 1;
    let start = if own >= CHECK_COMMENT_WINDOW {
        own - CHECK_COMMENT_WINDOW
    } else {
        0
    };
    let mut i = start;
    while i < own && i < lines.len()
        invariant
            start <= i,
            own == line - 1,
            line >= 1,
            start == cap_sub(line as int - 1, CHECK_COMMENT_WINDOW as int),
            p1@ == "CHECK:"@,
            p2@ == "SAFETY:"@,
            forall|k: int|
                start <= k < i ==> !spec_line_has_check_marker(#[trigger] line_views(lines@)[k]),
        decreases own - i,
    {
        let l = &lines[i];
        if contains_pattern(l, &p1) || contains_pattern(l, &p2) {
            assert(spec_line_has_check_marker(line_views(lines@)[i as int]));
            return true;
        }
        i += 1;
    }
    assert(forall|k: int|
        cap_sub(line as int - 1, CHECK_COMMENT_WINDOW as int) <= k < line - 1 && 0 <= k
            < lines@.len() ==> !spec_line_has_check_marker(#[trigger] line_views(lines@)[k]));
    false
}

/// Message of an `unchecked-account` finding for field `field` of struct
/// `strukt`.
pub open spec fn spec_unchecked_message(field: Seq<char>, strukt: Seq<char>) -> Seq<char> {
    "Raw `AccountInfo` field `"@ + field + "` in `"@ + strukt
        + "` without `/// CHECK:` comment. Use `Account<'info, T>` for type-safe deserialization, or add a `/// CHECK:` comment explaining why this is safe."@
}

fn unchecked_message(field: &String, strukt: &String) -> (m: String)
    ensures
        m@ == spec_unchecked_message(field@, strukt@),
{
    let mut m: String = "Raw `AccountInfo` field `".to_owned();
    m.append(field.as_str());
    m.append("` in `");
    m.append(strukt.as_str());
    m.append(
        "` without `/// CHECK:` comment. Use `Account<'info, T>` for type-safe deserialization, or add a `/// CHECK:` comment explaining why this is safe.",
    );
    proof {
        assert(m@ =~= spec_unchecked_message(field@, strukt@));
    }
    m
}

/// Message of a `missing-constraint` finding for field `field` of struct
/// `strukt`.
pub open spec fn spec_missing_constraint_message(field: Seq<char>, strukt: Seq<char>) -> Seq<char> {
    "Field `"@ + field + "` in `"@ + strukt
        + "` has `#[account]` without constraints. Consider adding `has_one`, `constraint`, `seeds`, or `address` to validate this account."@
}

fn missing_constraint_message(field: &String, strukt: &String) -> (m: String)
    ensures
        m@ == spec_missing_constraint_message(field@, strukt@),
{
    let mut m: String = "Field `".to_owned();
    m.append(field.as_str());
    m.append("` in `");
    m.append(strukt.as_str());
    m.append(
        "` has `#[account]` without constraints. Consider adding `has_one`, `constraint`, `seeds`, or `address` to validate this account.",
    );
    proof {
        assert(m@ =~= spec_missing_constraint_message(field@, strukt@));
    }
    m
}

/// The findings one field of a marked struct yields: a `High`
/// `unchecked-account` for a raw handle with no nearby safety comment; a
/// `Medium` `missing-constraint` for a bare `#[account]` marker with no
/// constraint content. A field with no `account` attribute at all yields
/// nothing: the bare marker escalates, total absence does not.
pub open spec fn spec_field_finding(
    s: StructModel,
    f: FieldModel,
    lines: Seq<Seq<char>>,
    path: Seq<char>,
) -> Seq<FindingModel> {
    if spec_is_raw_account_info(f.type_ident) {
        if !spec_has_check_comment(lines, f.line) {
            seq![
                FindingModel {
                    severity: Severity::High,
                    check: "unchecked-account"@,
                    message: spec_unchecked_message(f.name, s.name),
                    file: path,
                    line: f.line,
                },
            ]
        } else {
            Seq::empty()
        }
    } else if spec_is_signer_type(f.type_ident) || spec_is_program_type(f.type_ident) {
        Seq::empty()
    } else if !spec_field_has_constraint(f.attrs) && spec_has_account_attr(f.attrs) {
        seq![
            FindingModel {
                severity: Severity::Medium,
                check: "missing-constraint"@,
                message: spec_missing_constraint_message(f.name, s.name),
                file: path,
                line: f.line,
            },
        ]
    } else {
        Seq::empty()
    }
}

/// The findings of the first `fields` of struct `s`, in declaration order.
pub open spec fn spec_fields_findings(
    s: StructModel,
    fields: Seq<FieldModel>,
    lines: Seq<Seq<char>>,
    path: Seq<char>,
) -> Seq<FindingModel>
    decreases fields.len(),
{
    if fields.len() == 0 {
        Seq::empty()
    } else {
        spec_fields_findings(s, fields.drop_last(), lines, path) + spec_field_finding(
            s,
            fields.last(),
            lines,
            path,
        )
    }
}

/// The findings one struct declaration yields: nothing at all unless it
/// carries the account-context marker.
pub open spec fn spec_struct_findings(
    s: StructModel,
    lines: Seq<Seq<char>>,
    path: Seq<char>,
) -> Seq<FindingModel> {
    if spec_has_derive_accounts(s.attrs) {
        spec_fields_findings(s, s.fields, lines, path)
    } else {
        Seq::empty()
    }
}

/// The account-constraint findings of a whole file, struct by struct.
pub open spec fn spec_account_findings(
    structs: Seq<StructModel>,
    lines: Seq<Seq<char>>,
    path: Seq<char>,
) -> Seq<FindingModel>
    decreases structs.len(),
{
    if structs.len() == 0 {
        Seq::empty()
    } else {
        spec_account_findings(structs.drop_last(), lines, path) + spec_struct_findings(
            structs.last(),
            lines,
            path,
        )
    }
}

/// Account-constraint detector: inspects every struct declaration of the
/// file and reports unchecked raw handles and bare constraint markers.
pub fn check_account_validation(structs: &Vec<StructDecl>, path: &String, text: &Vec<char>) -> (
    findings: Vec<Finding>)
    ensures
        finding_views(findings@) == spec_account_findings(
            struct_views(structs@),
            spec_lines(text@),
            path@,
        ),
{
    let lines = split_lines(text);
    let ghost lsv = spec_lines(text@);
    let mut findings: Vec<Finding> = Vec::new();
    let mut i: usize = 0;
    proof {
        assert(struct_views(structs@).subrange(0, 0) =~= Seq::<StructModel>::empty());
        assert(finding_views(findings@) =~= spec_account_findings(
            struct_views(structs@).subrange(0, 0),
            lsv,
            path@,
        ));
    }
    while i < structs.len()
        invariant
            i <= structs@.len(),
            line_views(lines@) == lsv,
            lsv == spec_lines(text@),
            finding_views(findings@) == spec_account_findings(
                struct_views(structs@).subrange(0, i as int),
                lsv,
                path@,
            ),
        decreases structs@.len() - i,
    {
        let ghost pre = struct_views(structs@).subrange(0, i as int);
        let ghost post = struct_views(structs@).subrange(0, i as int + 1);
        let ghost base = finding_views(findings@);
        proof {
            assert(post.drop_last() =~= pre);
            assert(post.last() == structs@[i as int]@);
        }
        let s = &structs[i];
        let ghost sv = structs@[i as int]@;
        if has_derive_accounts(&s.attrs) {
            let mut j: usize = 0;
            proof {
                assert(field_views(s.fields@).subrange(0, 0) =~= Seq::<FieldModel>::empty());
                assert(finding_views(findings@) =~= base + spec_fields_findings(
                    sv,
                    field_views(s.fields@).subrange(0, 0),
                    lsv,
                    path@,
                ));
            }
            while j < s.fields.len()
                invariant
                    j <= s.fields@.len(),
                    line_views(lines@) == lsv,
                    lsv == spec_lines(text@),
                    sv == structs@[i as int]@,
                    i < structs@.len(),
                    *s == structs@[i as int],
                    finding_views(findings@) == base + spec_fields_findings(
                        sv,
                        field_views(s.fields@).subrange(0, j as int),
                        lsv,
                        path@,
                    ),
                decreases s.fields@.len() - j,
            {
                let ghost fpre = field_views(s.fields@).subrange(0, j as int);
                let ghost fpost = field_views(s.fields@).subrange(0, j as int + 1);
                let ghost fbase = finding_views(findings@);
                proof {
                    assert(fpost.drop_last() =~= fpre);
                    assert(fpost.last() == s.fields@[j as int]@);
                }
                let f = &s.fields[j];
                let ghost fv = s.fields@[j as int]@;
                if is_raw_account_info(&f.type_ident) {
                    if !has_check_comment(&lines, f.line) {
                        let msg = unchecked_message(&f.name, &s.name);
                        findings.push(
                            Finding {
                                severity: Severity::High,
                                check: "unchecked-account".to_owned(),
                                message: msg,
                                file: path.clone(),
                                line: f.line,
                            },
                        );
                        proof {
                            assert(finding_views(findings@) =~= fbase + spec_field_finding(
                                sv,
                                fv,
                                lsv,
                                path@,
                            ));
                        }
                    }
                } else if is_signer_type(&f.type_ident) || is_program_type(&f.type_ident) {
                } else if !field_has_constraint(&f.attrs) && has_account_attr(&f.attrs) {
                    let msg = missing_constraint_message(&f.name, &s.name);
                    findings.push(
                        Finding {
                            severity: Severity::Medium,
                            check: "missing-constraint".to_owned(),
                            message: msg,
                            file: path.clone(),
                            line: f.line,
                        },
                    );
                    proof {
                        assert(finding_views(findings@) =~= fbase + spec_field_finding(
                            sv,
                            fv,
                            lsv,
                            path@,
                        ));
                    }
                }
                proof {
                    assert(finding_views(findings@) =~= fbase + spec_field_finding(
                        sv,
                        fv,
                        lsv,
                        path@,
                    ));
                    assert(finding_views(findings@) =~= base + spec_fields_findings(
                        sv,
                        fpost,
                        lsv,
                        path@,
                    ));
                }
                j += 1;
            }
            proof {
                assert(field_views(s.fields@).subrange(0, s.fields@.len() as int) =~= field_views(
                    s.fields@,
                ));
                assert(sv.fields =~= field_views(s.fields@));
                assert(finding_views(findings@) =~= base + spec_struct_findings(sv, lsv, path@));
                assert(finding_views(findings@) =~= spec_account_findings(post, lsv, path@));
            }
        } else {
            proof {
                assert(spec_struct_findings(sv, lsv, path@) =~= Seq::<FindingModel>::empty());
                assert(finding_views(findings@) =~= spec_account_findings(post, lsv, path@));
            }
        }
        i += 1;
    }
    proof {
        assert(struct_views(structs@).subrange(0, structs@.len() as int) =~= struct_views(
            structs@,
        ));
    }
    findings
}

/// A file none of whose struct declarations carries the account-context
/// marker yields no account-constraint findings at all.
pub proof fn lemma_no_marker_no_account_findings(
    structs: Seq<StructModel>,
    lines: Seq<Seq<char>>,
    path: Seq<char>,
)
    requires
        forall|i: int| 0 <= i < structs.len() ==> !spec_has_derive_accounts(
            #[trigger] structs[i].attrs,
        ),
    ensures
        spec_account_findings(structs, lines, path) == Seq::<FindingModel>::empty(),
    decreases structs.len(),
{
    if structs.len() > 0 {
        lemma_no_marker_no_account_findings(structs.drop_last(), lines, path);
        assert(structs.last() == structs[structs.len() - 1]);
        assert(spec_struct_findings(structs.last(), lines, path) =~= Seq::<FindingModel>::empty());
        assert(spec_account_findings(structs, lines, path) =~= Seq::<FindingModel>::empty());
    }
}

/// A raw-handle field preceded within three lines by a safety comment never
/// yields an `unchecked-account` finding.
pub proof fn lemma_check_comment_suppresses(
    s: StructModel,
    f: FieldModel,
    lines: Seq<Seq<char>>,
    path: Seq<char>,
    d: int,
)
    requires
        1 <= d <= 3,
        0 <= f.line - 1 - d < lines.len(),
        spec_line_has_check_marker(lines[f.line - 1 - d]),
    ensures
        forall|k: int| 0 <= k < spec_field_finding(s, f, lines, path).len() ==> (
        #[trigger] spec_field_finding(s, f, lines, path)[k]).check != "unchecked-account"@,
{
    let w = f.line - 1 - d;
    assert(cap_sub(f.line - 1, CHECK_COMMENT_WINDOW as int) <= w < f.line - 1);
    assert(spec_line_has_check_marker(lines[w]));
    assert(spec_has_check_comment(lines, f.line));
    if spec_is_raw_account_info(f.type_ident) {
        assert(spec_field_finding(s, f, lines, path).len() == 0);
    } else {
        assert(forall|k: int| 0 <= k < spec_field_finding(s, f, lines, path).len() ==> (
        #[trigger] spec_field_finding(s, f, lines, path)[k]).check == "missing-constraint"@);
        reveal_strlit("missing-constraint");
        reveal_strlit("unchecked-account");
        assert("missing-constraint"@.len() == 18);
        assert("unchecked-account"@.len() == 17);
        assert("missing-constraint"@ != "unchecked-account"@);
    }
}

/// A field typed as the signer capability or as a program reference yields no
/// finding at all, whatever attributes it carries.
pub proof fn lemma_signer_program_exempt(
    s: StructModel,
    f: FieldModel,
    lines: Seq<Seq<char>>,
    path: Seq<char>,
)
    requires
        spec_is_signer_type(f.type_ident) || spec_is_program_type(f.type_ident),
    ensures
        spec_field_finding(s, f, lines, path) == Seq::<FindingModel>::empty(),
{
    reveal_strlit("Signer");
    reveal_strlit("Program");
    reveal_strlit("SystemProgram");
    reveal_strlit("AccountInfo");
    reveal_strlit("UncheckedAccount");
    assert("Signer"@.len() == 6);
    assert("Program"@.len() == 7);
    assert("SystemProgram"@.len() == 13);
    assert("AccountInfo"@.len() == 11);
    assert("UncheckedAccount"@.len() == 16);
    assert(!spec_is_raw_account_info(f.type_ident));
}

/// Every finding of a sequence of fields whose lines are 1-based carries a
/// 1-based line itself.
proof fn lemma_fields_findings_lines(
    s: StructModel,
    fields: Seq<FieldModel>,
    lines: Seq<Seq<char>>,
    path: Seq<char>,
)
    requires
        forall|i: int| 0 <= i < fields.len() ==> (#[trigger] fields[i]).line >= 1,
    ensures
        forall|k: int| 0 <= k < spec_fields_findings(s, fields, lines, path).len() ==> (
        #[trigger] spec_fields_findings(s, fields, lines, path)[k]).line >= 1,
    decreases fields.len(),
{
    if fields.len() > 0 {
        lemma_fields_findings_lines(s, fields.drop_last(), lines, path);
        let f = fields.last();
        assert(f.line >= 1);
        assert(forall|k: int| 0 <= k < spec_field_finding(s, f, lines, path).len() ==> (
        #[trigger] spec_field_finding(s, f, lines, path)[k]).line == f.line);
    }
}

/// Every account finding of a well-formed struct model carries a 1-based
/// line.
pub proof fn lemma_account_findings_lines(
    structs: Seq<StructModel>,
    lines: Seq<Seq<char>>,
    path: Seq<char>,
)
    requires
        forall|i: int| 0 <= i < structs.len() ==> spec_wf_struct(#[trigger] structs[i]),
    ensures
        forall|k: int| 0 <= k < spec_account_findings(structs, lines, path).len() ==> (
        #[trigger] spec_account_findings(structs, lines, path)[k]).line >= 1,
    decreases structs.len(),
{
    if structs.len() > 0 {
        lemma_account_findings_lines(structs.drop_last(), lines, path);
        let s = structs.last();
        assert(spec_wf_struct(s));
        if spec_has_derive_accounts(s.attrs) {
            lemma_fields_findings_lines(s, s.fields, lines, path);
        }
    }
}

} // verus!
