//! Scenario tests for the three detectors, driven through the public model.

use anchor_audit::accounts::check_account_validation;
use anchor_audit::cpi::check_cpi_safety;
use anchor_audit::model::{AttrDecl, CallSite, FieldDecl, SourceFile, StructDecl};
use anchor_audit::pda::{check_pda_seed_safety, check_pda_usage};
use anchor_audit::analyze::analyze;
use anchor_audit::report::Severity;
use anchor_audit::text::split_lines;

fn chars(s: &str) -> Vec<char> {
    s.chars().collect()
}

fn attr(name: &str, idents: &[&str], has_args: bool) -> AttrDecl {
    AttrDecl {
        name: name.to_string(),
        idents: idents.iter().map(|s| s.to_string()).collect(),
        has_args,
    }
}

fn field(name: &str, line: usize, type_ident: &str, attrs: Vec<AttrDecl>) -> FieldDecl {
    FieldDecl { name: name.to_string(), line, type_ident: type_ident.to_string(), attrs }
}

fn accounts_struct(name: &str, fields: Vec<FieldDecl>) -> StructDecl {
    StructDecl {
        name: name.to_string(),
        attrs: vec![attr("derive", &["Accounts"], true)],
        fields,
    }
}

fn call(path: &[&str], is_method: bool, line: usize, enclosing: Option<&str>) -> CallSite {
    CallSite {
        path: path.iter().map(|s| s.to_string()).collect(),
        is_method,
        line,
        enclosing_fn: enclosing.map(|s| s.to_string()),
    }
}

#[test]
fn raw_account_info_field_flagged() {
    let text = chars(
        "#[derive(Accounts)]\npub struct Withdraw<'info> {\n    pub vault: AccountInfo<'info>,\n}\n",
    );
    let structs = vec![accounts_struct(
        "Withdraw",
        vec![field("vault", 3, "AccountInfo", vec![])],
    )];
    let findings = check_account_validation(&structs, &"programs/src/lib.rs".to_string(), &text);
    assert_eq!(findings.len(), 1);
    assert_eq!(findings[0].severity, Severity::High);
    assert_eq!(findings[0].check, "unchecked-account");
    assert_eq!(findings[0].line, 3);
    assert_eq!(findings[0].file, "programs/src/lib.rs");
    assert!(findings[0].message.contains("`vault`"));
    assert!(findings[0].message.contains("`Withdraw`"));
}

#[test]
fn no_marker_no_account_findings() {
    let text = chars("pub struct Plain {\n    pub vault: AccountInfo<'info>,\n}\n");
    let structs = vec![StructDecl {
        name: "Plain".to_string(),
        attrs: vec![],
        fields: vec![field("vault", 2, "AccountInfo", vec![])],
    }];
    let findings = check_account_validation(&structs, &"lib.rs".to_string(), &text);
    assert!(findings.is_empty());
}

#[test]
fn check_comment_suppresses_raw_handle() {
    let text = chars(
        "#[derive(Accounts)]\npub struct Withdraw<'info> {\n    /// CHECK: validated by the caller\n    pub vault: AccountInfo<'info>,\n}\n",
    );
    let structs = vec![accounts_struct(
        "Withdraw",
        vec![field("vault", 4, "AccountInfo", vec![])],
    )];
    let findings = check_account_validation(&structs, &"lib.rs".to_string(), &text);
    assert!(findings.is_empty());
}

#[test]
fn safety_comment_suppresses_unchecked_account() {
    let text = chars(
        "#[derive(Accounts)]\npub struct W {\n    /// SAFETY: owner checked in handler\n    pub target: UncheckedAccount<'info>,\n}\n",
    );
    let structs = vec![accounts_struct(
        "W",
        vec![field("target", 4, "UncheckedAccount", vec![])],
    )];
    let findings = check_account_validation(&structs, &"lib.rs".to_string(), &text);
    assert!(findings.is_empty());
}

#[test]
fn comment_too_far_above_does_not_suppress() {
    let text = chars(
        "#[derive(Accounts)]\npub struct W {\n    /// CHECK: far away\n    pub a: u64,\n    pub b: u64,\n    pub c: u64,\n    pub vault: AccountInfo<'info>,\n}\n",
    );
    let structs = vec![accounts_struct(
        "W",
        vec![field("vault", 7, "AccountInfo", vec![])],
    )];
    let findings = check_account_validation(&structs, &"lib.rs".to_string(), &text);
    assert_eq!(findings.len(), 1);
    assert_eq!(findings[0].check, "unchecked-account");
}

#[test]
fn signer_and_program_fields_never_flagged() {
    let text = chars("#[derive(Accounts)]\npub struct Ctx {\n}\n");
    let structs = vec![accounts_struct(
        "Ctx",
        vec![
            field("authority", 3, "Signer", vec![attr("account", &[], false)]),
            field("system_program", 4, "Program", vec![]),
            field("native", 5, "SystemProgram", vec![attr("account", &[], false)]),
        ],
    )];
    let findings = check_account_validation(&structs, &"lib.rs".to_string(), &text);
    assert!(findings.is_empty());
}

#[test]
fn bare_account_attribute_flagged_medium() {
    let text = chars("#[derive(Accounts)]\npub struct Ctx {\n    #[account]\n    pub data: Account<'info, Data>,\n}\n");
    let structs = vec![accounts_struct(
        "Ctx",
        vec![field("data", 4, "Account", vec![attr("account", &[], false)])],
    )];
    let findings = check_account_validation(&structs, &"lib.rs".to_string(), &text);
    assert_eq!(findings.len(), 1);
    assert_eq!(findings[0].severity, Severity::Medium);
    assert_eq!(findings[0].check, "missing-constraint");
    assert_eq!(findings[0].line, 4);
    assert!(findings[0].message.contains("`data`"));
}

#[test]
fn constraint_content_not_flagged() {
    let text = chars("#[derive(Accounts)]\npub struct Ctx {\n}\n");
    let structs = vec![accounts_struct(
        "Ctx",
        vec![field("data", 3, "Account", vec![attr("account", &[], true)])],
    )];
    let findings = check_account_validation(&structs, &"lib.rs".to_string(), &text);
    assert!(findings.is_empty());
}

#[test]
fn absent_attribute_not_flagged() {
    let text = chars("#[derive(Accounts)]\npub struct Ctx {\n}\n");
    let structs = vec![accounts_struct(
        "Ctx",
        vec![field("data", 3, "Account", vec![])],
    )];
    let findings = check_account_validation(&structs, &"lib.rs".to_string(), &text);
    assert!(findings.is_empty());
}

#[test]
fn invoke_signed_without_bump_flagged() {
    let text = chars("fn do_transfer() {\n    invoke_signed(&ix, &accs, seeds);\n}\n");
    let calls = vec![call(&["invoke_signed"], false, 2, Some("do_transfer"))];
    let findings = check_cpi_safety(&calls, &"lib.rs".to_string(), &text);
    assert_eq!(findings.len(), 1);
    assert_eq!(findings[0].severity, Severity::High);
    assert_eq!(findings[0].check, "invoke-signed-no-bump");
    assert_eq!(findings[0].line, 2);
}

#[test]
fn invoke_signed_with_bump_and_derivation_clean() {
    let text = chars(
        "fn do_transfer() {\n    let (pda, bump) = Pubkey::find_program_address(&[b\"v\"], &pid);\n    invoke_signed(&ix, &accs, seeds);\n}\n",
    );
    let calls = vec![call(&["invoke_signed"], false, 3, Some("do_transfer"))];
    let findings = check_cpi_safety(&calls, &"lib.rs".to_string(), &text);
    assert!(findings.is_empty());
}

#[test]
fn invoke_signed_bump_without_derivation_flagged() {
    let text = chars("fn do_transfer() {\n    // bumpy seeds ahead\n    invoke_signed(&ix, &accs, seeds);\n}\n");
    let calls = vec![call(&["invoke_signed"], false, 3, Some("do_transfer"))];
    let findings = check_cpi_safety(&calls, &"lib.rs".to_string(), &text);
    assert_eq!(findings.len(), 1);
    assert_eq!(findings[0].check, "invoke-signed-no-bump");
    assert_eq!(findings[0].line, 3);
}

#[test]
fn invoke_signed_derivation_without_bump_flagged() {
    let text = chars(
        "fn do_transfer() {\n    let pda = derive(find_program_address);\n    invoke_signed(&ix, &accs, seeds);\n}\n",
    );
    let calls = vec![call(&["invoke_signed"], false, 3, Some("do_transfer"))];
    let findings = check_cpi_safety(&calls, &"lib.rs".to_string(), &text);
    assert_eq!(findings.len(), 1);
    assert_eq!(findings[0].check, "invoke-signed-no-bump");
}

#[test]
fn invoke_signed_method_call_detected() {
    let text = chars("fn go() {\n    client.invoke_signed(&ix);\n}\n");
    let calls = vec![call(&["invoke_signed"], true, 2, Some("go"))];
    let findings = check_cpi_safety(&calls, &"lib.rs".to_string(), &text);
    assert_eq!(findings.len(), 1);
    assert_eq!(findings[0].check, "invoke-signed-no-bump");
}

#[test]
fn invoke_signed_fallback_window_without_fn_text() {
    let text = chars("first line\nsecond line\nthird line\n");
    let calls = vec![call(&["invoke_signed"], false, 2, None)];
    let findings = check_cpi_safety(&calls, &"lib.rs".to_string(), &text);
    assert_eq!(findings.len(), 1);
    assert_eq!(findings[0].check, "invoke-signed-no-bump");

    let text_with_bump = chars("first line\nbump nearby\nthird line\n");
    let findings = check_cpi_safety(&calls, &"lib.rs".to_string(), &text_with_bump);
    assert!(findings.is_empty());
}

#[test]
fn invoke_without_signer_evidence_flagged() {
    let text = chars("fn go() {\n    invoke(&ix, &accs)?;\n}\n");
    let calls = vec![call(&["invoke"], false, 2, Some("go"))];
    let findings = check_cpi_safety(&calls, &"lib.rs".to_string(), &text);
    assert_eq!(findings.len(), 1);
    assert_eq!(findings[0].severity, Severity::Medium);
    assert_eq!(findings[0].check, "cpi-missing-signer-check");
    assert_eq!(findings[0].line, 2);
}

#[test]
fn invoke_with_signer_evidence_clean() {
    let text = chars("fn go() {\n    require!(payer.is_signer);\n    invoke(&ix, &accs)?;\n}\n");
    let calls = vec![call(&["invoke"], false, 3, Some("go"))];
    let findings = check_cpi_safety(&calls, &"lib.rs".to_string(), &text);
    assert!(findings.is_empty());
}

#[test]
fn unrelated_call_yields_nothing() {
    let text = chars("fn go() {\n    transfer(&ix);\n}\n");
    let calls = vec![call(&["transfer"], false, 2, Some("go"))];
    let findings = check_cpi_safety(&calls, &"lib.rs".to_string(), &text);
    assert!(findings.is_empty());
    let findings = check_pda_usage(&calls, &"lib.rs".to_string(), &text);
    assert!(findings.is_empty());
}

#[test]
fn find_program_address_without_program_id_flagged() {
    let text = chars(
        "fn derive_it(ctx: Context) {\n    let (pda, bump) = Pubkey::find_program_address(&[b\"config\"], ctx.accounts.other.key);\n}\n",
    );
    let calls = vec![call(&["Pubkey", "find_program_address"], false, 2, Some("derive_it"))];
    let findings = check_pda_usage(&calls, &"lib.rs".to_string(), &text);
    assert_eq!(findings.len(), 1);
    assert_eq!(findings[0].severity, Severity::High);
    assert_eq!(findings[0].check, "pda-program-id");
    assert_eq!(findings[0].line, 2);
    assert!(findings[0].message.starts_with("`find_program_address`"));
}

#[test]
fn find_program_address_with_program_id_clean() {
    let text = chars(
        "fn derive_it(ctx: Context) {\n    let (pda, bump) = Pubkey::find_program_address(&[b\"config\"], program_id);\n}\n",
    );
    let calls = vec![call(&["Pubkey", "find_program_address"], false, 2, Some("derive_it"))];
    let findings = check_pda_usage(&calls, &"lib.rs".to_string(), &text);
    assert!(findings.is_empty());
}

#[test]
fn create_program_address_unverified_gets_both_findings() {
    let text = chars(
        "fn derive_it(ctx: Context) {\n    let pda = Pubkey::create_program_address(&seeds, other).unwrap();\n}\n",
    );
    let calls = vec![call(&["Pubkey", "create_program_address"], false, 2, Some("derive_it"))];
    let findings = check_pda_usage(&calls, &"lib.rs".to_string(), &text);
    assert_eq!(findings.len(), 2);
    assert_eq!(findings[0].severity, Severity::High);
    assert_eq!(findings[0].check, "pda-program-id");
    assert!(findings[0].message.starts_with("`create_program_address`"));
    assert_eq!(findings[1].severity, Severity::Medium);
    assert_eq!(findings[1].check, "pda-create-unverified");
    assert_eq!(findings[1].line, 2);
}

#[test]
fn create_program_address_verified_yields_nothing() {
    let text = chars(
        "fn derive_it(ctx: Context) {\n    let pda = Pubkey::create_program_address(&seeds, crate::ID.key()).unwrap();\n    assert_eq(owner, program_id);\n}\n",
    );
    let calls = vec![call(&["Pubkey", "create_program_address"], false, 2, Some("derive_it"))];
    let findings = check_pda_usage(&calls, &"lib.rs".to_string(), &text);
    assert!(findings.is_empty());
}

#[test]
fn pda_method_calls_ignored() {
    let text = chars("fn go() {\n    helper.find_program_address(&seeds);\n}\n");
    let calls = vec![call(&["find_program_address"], true, 2, Some("go"))];
    let findings = check_pda_usage(&calls, &"lib.rs".to_string(), &text);
    assert!(findings.is_empty());
}

#[test]
fn seed_safety_verdict_computed_but_inert() {
    let risky_text = chars(
        "fn derive_it(ctx: Context) {\n    let (pda, bump) = Pubkey::find_program_address(&[user.key().as_ref()], program_id);\n}\n",
    );
    let lines = split_lines(&risky_text);
    assert!(check_pda_seed_safety(&lines, 2));

    let safe_text = chars(
        "fn derive_it(ctx: Context) {\n    require!(user.owner == expected);\n    let (pda, bump) = Pubkey::find_program_address(&[user.key().as_ref()], program_id);\n}\n",
    );
    let lines = split_lines(&safe_text);
    assert!(!check_pda_seed_safety(&lines, 3));

    let calls = vec![call(&["Pubkey", "find_program_address"], false, 2, Some("derive_it"))];
    let findings = check_pda_usage(&calls, &"lib.rs".to_string(), &risky_text);
    assert!(findings.is_empty());
}

#[test]
fn seed_safety_numeric_conversion_detected() {
    let text = chars("fn go() {\n    derive(&amount.to_le_bytes());\n}\n");
    let lines = split_lines(&text);
    assert!(check_pda_seed_safety(&lines, 2));
    assert!(!check_pda_seed_safety(&lines, 1));
}

fn mk_file(path: &str, text: &str, structs: Vec<StructDecl>, calls: Vec<CallSite>) -> SourceFile {
    SourceFile { path: path.to_string(), text: chars(text), structs, calls }
}

#[test]
fn analyze_counts_and_sorts() {
    // First file yields a Medium finding, second a High one: the report must
    // still put the High finding first.
    let f1 = mk_file(
        "a.rs",
        "#[derive(Accounts)]\npub struct Ctx {\n    #[account]\n    pub data: Account<'info, D>,\n}\n",
        vec![accounts_struct(
            "Ctx",
            vec![field("data", 4, "Account", vec![attr("account", &[], false)])],
        )],
        vec![],
    );
    let f2 = mk_file(
        "b.rs",
        "fn go() {\n    invoke_signed(&ix, &accs, seeds);\n}\n",
        vec![],
        vec![call(&["invoke_signed"], false, 2, Some("go"))],
    );
    let files = vec![None, Some(f1), None, Some(f2)];
    let report = analyze(&files);
    assert_eq!(report.files_scanned, 4);
    assert_eq!(report.findings.len(), 2);
    assert_eq!(report.findings[0].severity, Severity::High);
    assert_eq!(report.findings[0].file, "b.rs");
    assert_eq!(report.findings[1].severity, Severity::Medium);
    assert_eq!(report.findings[1].file, "a.rs");
    assert!(report.has_high());
    assert!(report.has_medium_or_above());
}

#[test]
fn analyze_stable_for_equal_ranks() {
    let f1 = mk_file(
        "first.rs",
        "#[derive(Accounts)]\npub struct A {\n    pub v: AccountInfo<'info>,\n}\n",
        vec![accounts_struct("A", vec![field("v", 3, "AccountInfo", vec![])])],
        vec![],
    );
    let f2 = mk_file(
        "second.rs",
        "#[derive(Accounts)]\npub struct B {\n    pub w: AccountInfo<'info>,\n}\n",
        vec![accounts_struct("B", vec![field("w", 3, "AccountInfo", vec![])])],
        vec![],
    );
    let report = analyze(&vec![Some(f1), Some(f2)]);
    assert_eq!(report.files_scanned, 2);
    assert_eq!(report.findings.len(), 2);
    assert_eq!(report.findings[0].file, "first.rs");
    assert_eq!(report.findings[1].file, "second.rs");
}

#[test]
fn analyze_empty_input() {
    let report = analyze(&vec![]);
    assert_eq!(report.files_scanned, 0);
    assert!(report.findings.is_empty());
    assert!(!report.has_high());
    assert!(!report.has_medium_or_above());
}

#[test]
fn unchecked_account_message_exact() {
    let text = chars("#[derive(Accounts)]\npub struct V {\n    pub vault: AccountInfo<'info>,\n}\n");
    let structs = vec![accounts_struct(
        "V",
        vec![field("vault", 3, "AccountInfo", vec![])],
    )];
    let findings = check_account_validation(&structs, &"lib.rs".to_string(), &text);
    assert_eq!(findings.len(), 1);
    assert_eq!(
        findings[0].message,
        "Raw `AccountInfo` field `vault` in `V` without `/// CHECK:` comment. \
         Use `Account<'info, T>` for type-safe deserialization, or add a \
         `/// CHECK:` comment explaining why this is safe."
    );
}

#[test]
fn pda_message_names_the_variant_exactly() {
    let text = chars("fn d() {\n    Pubkey::find_program_address(&seeds, other);\n}\n");
    let calls = vec![call(&["Pubkey", "find_program_address"], false, 2, Some("d"))];
    let findings = check_pda_usage(&calls, &"lib.rs".to_string(), &text);
    assert_eq!(findings.len(), 1);
    assert_eq!(
        findings[0].message,
        "`find_program_address` called without verifying against the expected program ID. \
         An attacker could pass a different program's PDA. Ensure you \
         derive against `crate::ID` or validate the program account."
    );
}

#[test]
fn one_file_multiple_detectors_sorted() {
    // One file yields a Medium account finding and a High CPI finding; the
    // report puts the High one first even though the account detector ran
    // first.
    let f = mk_file(
        "mix.rs",
        "#[derive(Accounts)]\npub struct Ctx {\n    #[account]\n    pub data: Account<'info, D>,\n}\nfn go() {\n    invoke_signed(&ix, &accs, seeds);\n}\n",
        vec![accounts_struct(
            "Ctx",
            vec![field("data", 4, "Account", vec![attr("account", &[], false)])],
        )],
        vec![call(&["invoke_signed"], false, 7, Some("go"))],
    );
    let report = analyze(&vec![Some(f)]);
    assert_eq!(report.files_scanned, 1);
    assert_eq!(report.findings.len(), 2);
    assert_eq!(report.findings[0].check, "invoke-signed-no-bump");
    assert_eq!(report.findings[0].line, 7);
    assert_eq!(report.findings[1].check, "missing-constraint");
    assert_eq!(report.findings[1].line, 4);
}

#[test]
fn nested_declaration_clears_the_slot() {
    // The current-function slot is cleared, not restored, when a nested
    // declaration exits: a call recorded with no enclosing function falls
    // back to the line window even though the text holds no function at all.
    let text = chars("line one\nline two\ninvoke_signed here\n");
    let calls = vec![call(&["invoke_signed"], false, 3, None)];
    let findings = check_cpi_safety(&calls, &"lib.rs".to_string(), &text);
    assert_eq!(findings.len(), 1);
    assert_eq!(findings[0].line, 3);
}

#[test]
fn plain_safety_comment_suppresses() {
    let text = chars(
        "#[derive(Accounts)]\npub struct W {\n    // SAFETY: owner checked below\n    pub vault: AccountInfo<'info>,\n}\n",
    );
    let structs = vec![accounts_struct(
        "W",
        vec![field("vault", 4, "AccountInfo", vec![])],
    )];
    let findings = check_account_validation(&structs, &"lib.rs".to_string(), &text);
    assert!(findings.is_empty());
}

#[test]
fn comment_on_own_line_does_not_suppress() {
    let text = chars(
        "#[derive(Accounts)]\npub struct W {\n    pub vault: AccountInfo<'info>, // CHECK: inline\n}\n",
    );
    let structs = vec![accounts_struct(
        "W",
        vec![field("vault", 3, "AccountInfo", vec![])],
    )];
    let findings = check_account_validation(&structs, &"lib.rs".to_string(), &text);
    assert_eq!(findings.len(), 1);
    assert_eq!(findings[0].check, "unchecked-account");
    assert_eq!(findings[0].line, 3);
}

#[test]
fn pda_fallback_accepts_all_evidence_forms() {
    // No tracked function and no "fn " text: the per-line fallback window
    // must clear the call on any of the five evidence strings.
    let text = chars("derivation happens here\nlet expected = crate::id();\n");
    let calls = vec![call(&["find_program_address"], false, 1, None)];
    let findings = check_pda_usage(&calls, &"lib.rs".to_string(), &text);
    assert!(findings.is_empty());

    let bare = chars("derivation happens here\nnothing else\n");
    let findings = check_pda_usage(&calls, &"lib.rs".to_string(), &bare);
    assert_eq!(findings.len(), 1);
    assert_eq!(findings[0].check, "pda-program-id");
}
