use hardening_engine::action::{interactive_input_line, ArgResolver, BashCommand};
use hardening_engine::entities::{entity_enumeration, entity_list, is_reserved};
use hardening_engine::errors::{classify_outcome, EngineError};
use hardening_engine::planner::{
    append_tokens, cpu_branch, exact_patch_plan, flag_patch_plan, missing_tokens, CpuBranch,
    PatchPlan,
};
use hardening_engine::probe::{command_output, first_matching_line, matching_line, LinePredicate};
use hardening_engine::textscan::{contains_str, split_lines, starts_with, str_eq};

fn strings(xs: &[&str]) -> Vec<String> {
    xs.iter().map(|x| x.to_string()).collect()
}

#[test]
fn starts_with_basic() {
    assert!(starts_with("flags:-fm,ad", "flags:"));
    assert!(starts_with("abc", ""));
    assert!(starts_with("abc", "abc"));
    assert!(!starts_with("abc", "abcd"));
    assert!(!starts_with("abc", "b"));
}

#[test]
fn contains_basic() {
    assert!(contains_str("machdep Apple M2 Pro", "Apple"));
    assert!(contains_str("abc", ""));
    assert!(contains_str("abc", "c"));
    assert!(!contains_str("abc", "d"));
    assert!(!contains_str("ab", "abc"));
}

#[test]
fn str_eq_basic() {
    assert!(str_eq("Shared", "Shared"));
    assert!(!str_eq("Shared", "shared"));
    assert!(!str_eq("Shared", "Share"));
}

#[test]
fn split_lines_basic() {
    assert_eq!(split_lines("a\nb"), strings(&["a", "b"]));
    assert_eq!(split_lines("a\nb\n"), strings(&["a", "b"]));
    assert_eq!(split_lines(""), strings(&[]));
    assert_eq!(split_lines("\n"), strings(&[""]));
    assert_eq!(split_lines("a\n\nb"), strings(&["a", "", "b"]));
    assert_eq!(split_lines("one line"), strings(&["one line"]));
}

#[test]
fn entity_list_excludes_reserved_and_keeps_order() {
    let names = strings(&["alice", "bob", "Shared", ".localized"]);
    assert_eq!(entity_list(&names), strings(&["alice", "bob"]));
    let mixed = strings(&["Shared", "carol", ".localized", "alice"]);
    assert_eq!(entity_list(&mixed), strings(&["carol", "alice"]));
}

#[test]
fn entity_list_keeps_duplicates() {
    let names = strings(&["alice", "alice", "Shared"]);
    assert_eq!(entity_list(&names), strings(&["alice", "alice"]));
}

#[test]
fn is_reserved_exactly_two_names() {
    assert!(is_reserved("Shared"));
    assert!(is_reserved(".localized"));
    assert!(!is_reserved("alice"));
    assert!(!is_reserved("shared"));
}

#[test]
fn entity_enumeration_unreadable_directory_is_io_error() {
    match entity_enumeration(None) {
        Err(EngineError::IoError) => {}
        other => panic!("expected IoError, got {:?}", discriminant_name(&other)),
    }
}

#[test]
fn entity_enumeration_filters_listing() {
    let r = entity_enumeration(Some(strings(&["alice", "Shared"])));
    assert_eq!(r.unwrap(), strings(&["alice"]));
}

fn discriminant_name(r: &Result<Vec<String>, EngineError>) -> String {
    match r {
        Ok(_) => "Ok".to_string(),
        Err(e) => e.label(),
    }
}

#[test]
fn matching_line_no_match_is_none_not_error() {
    let pred = LinePredicate::StartsWith("flags:".to_string());
    let content = "dir:/var/audit\nminfree:5\n".to_string();
    match matching_line(Some(content), &pred) {
        Ok(None) => {}
        _ => panic!("expected Ok(None)"),
    }
}

#[test]
fn matching_line_missing_file_is_probe_error() {
    let pred = LinePredicate::StartsWith("flags:".to_string());
    match matching_line(None, &pred) {
        Err(e) => assert_eq!(e.label(), "ProbeError"),
        Ok(_) => panic!("expected an error for a missing file"),
    }
}

#[test]
fn matching_line_first_match_is_authoritative() {
    let pred = LinePredicate::StartsWith("flags:".to_string());
    let content = "dir:/var/audit\nflags:first\nflags:second\n".to_string();
    match matching_line(Some(content), &pred) {
        Ok(Some(line)) => assert_eq!(line, "flags:first"),
        _ => panic!("expected the first matching line"),
    }
}

#[test]
fn first_matching_line_contains_predicate() {
    let pred = LinePredicate::Contains("* file /var/log/install.log".to_string());
    let lines = strings(&[
        "# log rules",
        "* file /var/log/install.log rotate=utc",
        "* file /var/log/install.log ttl=30",
    ]);
    let m = first_matching_line(&lines, &pred);
    assert_eq!(m.unwrap(), "* file /var/log/install.log rotate=utc");
}

#[test]
fn command_output_passes_text_through() {
    assert_eq!(command_output(Some("Apple M2".to_string())).unwrap(), "Apple M2");
    match command_output(None) {
        Err(e) => assert_eq!(e.label(), "ProbeError"),
        Ok(_) => panic!("expected ProbeError"),
    }
}

#[test]
fn cpu_branch_is_total() {
    assert_eq!(cpu_branch("Apple M1"), CpuBranch::Apple);
    assert_eq!(cpu_branch("Intel(R) Core(TM) i7"), CpuBranch::Intel);
    assert_eq!(cpu_branch("entirely unexpected cpu"), CpuBranch::Unknown);
    assert_eq!(cpu_branch(""), CpuBranch::Unknown);
    // A brand naming both vendors takes the Apple branch.
    assert_eq!(cpu_branch("Apple on Intel"), CpuBranch::Apple);
}

#[test]
fn exact_patch_plan_cases() {
    assert_eq!(exact_patch_plan(None, "expire-after:60d"), PatchPlan::TargetMissing);
    assert_eq!(
        exact_patch_plan(Some("expire-after:60d".to_string()), "expire-after:60d"),
        PatchPlan::AlreadyCompliant
    );
    assert_eq!(
        exact_patch_plan(Some("expire-after:7d".to_string()), "expire-after:60d"),
        PatchPlan::Rewrite("expire-after:60d".to_string())
    );
}

#[test]
fn flag_patch_plan_appends_only_missing_tokens() {
    let required = strings(&["-fm,ad", "-ex,aa"]);
    let plan = flag_patch_plan(Some("flags:-fm,ad".to_string()), &required);
    assert_eq!(plan, PatchPlan::Rewrite("flags:-fm,ad -ex,aa".to_string()));
}

#[test]
fn flag_patch_plan_leaves_complete_line_unmodified() {
    let required = strings(&["-fm,ad", "-ex,aa"]);
    let plan = flag_patch_plan(Some("flags:-fm,ad -ex,aa".to_string()), &required);
    assert_eq!(plan, PatchPlan::AlreadyCompliant);
}

#[test]
fn flag_patch_plan_missing_line() {
    let required = strings(&["-fm,ad"]);
    assert_eq!(flag_patch_plan(None, &required), PatchPlan::TargetMissing);
}

#[test]
fn flag_patch_is_idempotent() {
    let required = strings(&["rotate=seq", "compress", "ttl=365"]);
    let first = flag_patch_plan(Some("* file /var/log/install.log ttl=30".to_string()), &required);
    let corrected = match first {
        PatchPlan::Rewrite(line) => line,
        _ => panic!("expected a corrective rewrite"),
    };
    assert_eq!(
        corrected,
        "* file /var/log/install.log ttl=30 rotate=seq compress ttl=365"
    );
    // Running the same rule again over the corrected line is a no-op.
    assert_eq!(flag_patch_plan(Some(corrected), &required), PatchPlan::AlreadyCompliant);
}

#[test]
fn exact_patch_is_idempotent() {
    let first = exact_patch_plan(Some("flags:lo".to_string()), "flags:-fm,ad");
    let corrected = match first {
        PatchPlan::Rewrite(line) => line,
        _ => panic!("expected a corrective rewrite"),
    };
    assert_eq!(exact_patch_plan(Some(corrected), "flags:-fm,ad"), PatchPlan::AlreadyCompliant);
}

#[test]
fn missing_tokens_in_order() {
    let required = strings(&["a=1", "b=2", "c=3"]);
    assert_eq!(missing_tokens("x b=2 y", &required), strings(&["a=1", "c=3"]));
    assert_eq!(missing_tokens("a=1 b=2 c=3", &required), strings(&[]));
}

#[test]
fn append_tokens_space_separated() {
    let toks = strings(&["one", "two"]);
    assert_eq!(append_tokens("base", &toks), "base one two");
    assert_eq!(append_tokens("base", &strings(&[])), "base");
}

#[test]
fn classify_outcome_success_and_failure() {
    let ok = classify_outcome(true, "out".to_string(), "err".to_string()).unwrap();
    assert!(ok.success);
    assert_eq!(ok.stdout, "out");
    assert_eq!(ok.stderr, "err");
    match classify_outcome(false, "out".to_string(), "scary error".to_string()) {
        Err(EngineError::ExecutionFailure(stderr)) => assert_eq!(stderr, "scary error"),
        _ => panic!("expected ExecutionFailure carrying stderr"),
    }
}

#[test]
fn interactive_input_is_one_line() {
    let line = interactive_input_line();
    assert_eq!(line, "yes\n");
    assert_eq!(line.matches('\n').count(), 1);
    assert!(line.ends_with('\n'));
}

#[test]
fn invocation_concatenates_fixed_and_resolved_args() {
    let mut c = BashCommand::new(
        "demo",
        "a demonstration action",
        "sudo",
        strings(&["defaults", "write"]),
        false,
    );
    c.dynamic_args = Some(ArgResolver::Literal(strings(&["extra", "args"])));
    let (program, args) = c.invocation().unwrap();
    assert_eq!(program, "sudo");
    assert_eq!(args, strings(&["defaults", "write", "extra", "args"]));
}

#[test]
fn invocation_without_resolver() {
    let c = BashCommand::new("demo2", "plain action", "echo", strings(&["hello"]), false);
    let (program, args) = c.invocation().unwrap();
    assert_eq!(program, "echo");
    assert_eq!(args, strings(&["hello"]));
}

#[test]
fn resolver_literal_resolves_to_its_list() {
    let r = ArgResolver::Literal(strings(&["a", "b"]));
    assert_eq!(r.resolve().unwrap(), strings(&["a", "b"]));
}
