//! Tests for the finding model, the severity order, the exit policy, and the
//! shared text machinery.

use anchor_audit::accounts::has_check_comment;
use anchor_audit::cpi::fn_source_text;
use anchor_audit::pda::{check_program_id_verification, get_fn_body_source};
use anchor_audit::report::{AnalysisReport, Finding, Severity, should_fail, sort_findings};
use anchor_audit::text::{contains_pattern, find_first, split_lines, str_chars, string_eq, window};

fn chars(s: &str) -> Vec<char> {
    s.chars().collect()
}

fn finding(severity: Severity, check: &str, line: usize) -> Finding {
    Finding {
        severity,
        check: check.to_string(),
        message: "m".to_string(),
        file: "f.rs".to_string(),
        line,
    }
}

#[test]
fn severity_rank_table() {
    assert_eq!(Severity::High.rank(), 0);
    assert_eq!(Severity::Medium.rank(), 1);
    assert_eq!(Severity::Low.rank(), 2);
    assert_eq!(Severity::High.display_name(), "High");
    assert_eq!(Severity::Medium.display_name(), "Medium");
    assert_eq!(Severity::Low.display_name(), "Low");
}

#[test]
fn sort_is_stable_by_rank() {
    let input = vec![
        finding(Severity::Low, "l1", 1),
        finding(Severity::High, "h1", 2),
        finding(Severity::Medium, "m1", 3),
        finding(Severity::High, "h2", 4),
        finding(Severity::Medium, "m2", 5),
    ];
    let sorted = sort_findings(input);
    let order: Vec<&str> = sorted.iter().map(|f| f.check.as_str()).collect();
    assert_eq!(order, vec!["h1", "h2", "m1", "m2", "l1"]);
}

#[test]
fn report_queries() {
    let none = AnalysisReport { findings: vec![], files_scanned: 1 };
    assert!(!none.has_high());
    assert!(!none.has_medium_or_above());

    let low_only = AnalysisReport { findings: vec![finding(Severity::Low, "l", 1)], files_scanned: 1 };
    assert!(!low_only.has_high());
    assert!(!low_only.has_medium_or_above());

    let medium = AnalysisReport { findings: vec![finding(Severity::Medium, "m", 1)], files_scanned: 1 };
    assert!(!medium.has_high());
    assert!(medium.has_medium_or_above());

    let high = AnalysisReport {
        findings: vec![finding(Severity::Low, "l", 1), finding(Severity::High, "h", 2)],
        files_scanned: 1,
    };
    assert!(high.has_high());
    assert!(high.has_medium_or_above());
}

#[test]
fn exit_policy_thresholds() {
    let medium_report =
        AnalysisReport { findings: vec![finding(Severity::Medium, "m", 1)], files_scanned: 1 };
    let low_report =
        AnalysisReport { findings: vec![finding(Severity::Low, "l", 1)], files_scanned: 1 };
    let high_report =
        AnalysisReport { findings: vec![finding(Severity::High, "h", 1)], files_scanned: 1 };

    assert!(!should_fail(&"high".to_string(), &medium_report));
    assert!(should_fail(&"high".to_string(), &high_report));
    assert!(should_fail(&"medium".to_string(), &medium_report));
    assert!(!should_fail(&"medium".to_string(), &low_report));
    assert!(should_fail(&"low".to_string(), &low_report));
    assert!(!should_fail(&"none".to_string(), &high_report));
    // An unrecognized threshold falls back to the `high` behaviour.
    assert!(should_fail(&"whatever".to_string(), &high_report));
    assert!(!should_fail(&"whatever".to_string(), &medium_report));
}

#[test]
fn finding_duplicate_copies_every_field() {
    let f = finding(Severity::High, "c", 7);
    let d = f.duplicate();
    assert_eq!(d.severity, Severity::High);
    assert_eq!(d.check, f.check);
    assert_eq!(d.message, f.message);
    assert_eq!(d.file, f.file);
    assert_eq!(d.line, 7);
}

#[test]
fn substring_search() {
    let text = chars("let (pda, bump) = find_program_address(&seeds);");
    assert!(contains_pattern(&text, &str_chars("bump")));
    assert!(contains_pattern(&text, &str_chars("find_program_address")));
    assert!(!contains_pattern(&text, &str_chars("program_id")));
    assert!(contains_pattern(&text, &chars("")));
    assert_eq!(find_first(&text, &str_chars("pda")), Some(5));
    assert_eq!(find_first(&text, &str_chars("absent")), None);
}

#[test]
fn line_splitting() {
    let lines = split_lines(&chars("a\nbb\n\nccc"));
    let as_strings: Vec<String> = lines.iter().map(|l| l.iter().collect()).collect();
    assert_eq!(as_strings, vec!["a", "bb", "", "ccc"]);

    let trailing = split_lines(&chars("x\n"));
    assert_eq!(trailing.len(), 2);
    assert_eq!(trailing[1], Vec::<char>::new());
}

#[test]
fn window_joins_nearby_lines() {
    let lines = split_lines(&chars("one\ntwo\nthree\nfour"));
    let w: String = window(&lines, 2, 1, 1).iter().collect();
    assert_eq!(w, "two\nthree");
    let whole: String = window(&lines, 1, 10, 10).iter().collect();
    assert_eq!(whole, "one\ntwo\nthree\nfour");
    let empty: String = window(&lines, 9, 1, 1).iter().collect();
    assert_eq!(empty, "");
}

#[test]
fn string_eq_compares_content() {
    assert!(string_eq(&"abc".to_string(), "abc"));
    assert!(!string_eq(&"abc".to_string(), "abd"));
    assert!(!string_eq(&"abc".to_string(), "ab"));
}

#[test]
fn check_comment_window_covers_three_preceding_lines() {
    // A marker on the field's own line does not count.
    let lines = split_lines(&chars("a\nb\npub vault: AccountInfo, // CHECK: fine"));
    assert!(!has_check_comment(&lines, 3));
    // A marker three lines above counts; four lines above does not.
    let lines = split_lines(&chars("// CHECK: early\nb\nc\nd\npub vault: AccountInfo,"));
    assert!(!has_check_comment(&lines, 5));
    assert!(has_check_comment(&lines, 4));
    assert!(!has_check_comment(&lines, 0));
    // Any comment form holding the marker text counts.
    let lines = split_lines(&chars("// SAFETY: handled\npub vault: AccountInfo,"));
    assert!(has_check_comment(&lines, 2));
}

#[test]
fn fn_source_text_window() {
    let text = chars("mod m;\nfn alpha() {\n    one();\n}\nfn beta() {}\n");
    let w = fn_source_text(&text, &"beta".to_string()).expect("beta is in the text");
    let s: String = w.iter().collect();
    assert!(s.starts_with("fn beta"));
    assert!(fn_source_text(&text, &"gamma".to_string()).is_none());
    // An empty name falls back to the first function declaration at all.
    let w = fn_source_text(&text, &"".to_string()).expect("some declaration matches");
    let s: String = w.iter().collect();
    assert!(s.starts_with("fn alpha"));
}

#[test]
fn fn_body_window_needs_a_tracked_function() {
    let text = chars("fn alpha() {\n    derive();\n}\n");
    assert!(get_fn_body_source(&text, &None).is_none());
    assert!(get_fn_body_source(&text, &Some("alpha".to_string())).is_some());
    assert!(get_fn_body_source(&text, &Some("beta".to_string())).is_none());
}

#[test]
fn program_id_verification_fallback() {
    // No tracked function: evidence is searched around the call line only.
    let text = chars("a\nb\nderive_here\nlet expected = program_id;\n");
    let lines = split_lines(&text);
    assert!(check_program_id_verification(&text, &lines, &None, 3));
    // The fallback accepts every evidence form, not just program_id.
    let text = chars("a\nderive_here\nlet expected = crate::ID;\n");
    let lines = split_lines(&text);
    assert!(check_program_id_verification(&text, &lines, &None, 2));
    let far = chars("let expected = program_id;\na\nb\nc\nd\ne\nf\ng\nh\ni\nj\nk\nl\nm\nderive_here\n");
    let far_lines = split_lines(&far);
    assert!(!check_program_id_verification(&far, &far_lines, &None, 15));
}
