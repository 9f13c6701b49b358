use buck2_logic::server_commands::{
    audit_output_check_config, audit_output_report, audit_output_target, completions,
    transition_attrs_equality, AuditOutputError, AuditOutputReport, AuditOutputResult,
    AuditOutputStep, BuckOutPathType, LabelItem, LabelsAttr, LoadedTarget, TargetLoadError,
};

#[test]
fn audit_rejects_non_rule_outputs() {
    match audit_output_target("buck-out/v2/tmp/x", BuckOutPathType::Other) {
        Err(e) => {
            assert!(matches!(&e, AuditOutputError::UnsupportedPathType(p) if p == "buck-out/v2/tmp/x"));
            assert_eq!(
                e.message(),
                "BXL, anonymous target, test, and tmp artifacts are not supported for audit output. Only rule output artifacts are supported. Path: `buck-out/v2/tmp/x`"
            );
        }
        Ok(_) => panic!("expected an error"),
    }
}

#[test]
fn audit_follows_rule_outputs() {
    let parsed = BuckOutPathType::RuleOutput {
        target_label: "root//foo:bar".to_owned(),
        config_hash: "abc".to_owned(),
        path_after_target_name: "out.txt".to_owned(),
    };
    let rule = match audit_output_target("p", parsed) {
        Ok(r) => r,
        Err(_) => panic!("expected a rule output"),
    };
    assert_eq!(rule.target_label, "root//foo:bar");
    let rule2 = rule;
    match audit_output_check_config(rule2, "abc") {
        AuditOutputStep::FindMatchingAction(p) => assert_eq!(p, "out.txt"),
        AuditOutputStep::MaybeRelevant(_) => panic!("configurations match"),
    }
    let parsed = BuckOutPathType::RuleOutput {
        target_label: "root//foo:bar".to_owned(),
        config_hash: "abc".to_owned(),
        path_after_target_name: "out.txt".to_owned(),
    };
    let rule = match audit_output_target("p", parsed) {
        Ok(r) => r,
        Err(_) => panic!("expected a rule output"),
    };
    match audit_output_check_config(rule, "def") {
        AuditOutputStep::MaybeRelevant(l) => assert_eq!(l, "root//foo:bar"),
        AuditOutputStep::FindMatchingAction(_) => panic!("configurations differ"),
    }
}

#[test]
fn audit_reports() {
    assert!(matches!(audit_output_report(Some(AuditOutputResult::Match(3))), AuditOutputReport::PrintAction(3)));
    match audit_output_report(Some(AuditOutputResult::MaybeRelevant("root//a:b".to_owned()))) {
        AuditOutputReport::Text(t) => assert_eq!(
            t,
            "Platform configuration of the buck-out path did not match the one used to invoke this command. Returning the most relevant unconfigured target label for the buck-out path: root//a:b\n"
        ),
        AuditOutputReport::PrintAction(_) => panic!("expected text"),
    }
    match audit_output_report(None) {
        AuditOutputReport::Text(t) => assert_eq!(
            t,
            "Failed to find an action that produced the output path. Make sure that you did not input a symlinked buck-out path.\n"
        ),
        AuditOutputReport::PrintAction(_) => panic!("expected text"),
    }
}

fn target(label: &str, labels: Option<LabelsAttr>) -> Result<LoadedTarget, TargetLoadError> {
    Ok(LoadedTarget { label: label.to_owned(), labels })
}

#[test]
fn completions_skip_generated_targets() {
    let targets = vec![
        target("root//a:one", None),
        target(
            "root//a:gen",
            Some(LabelsAttr::List(vec![LabelItem::Str("x".to_owned()), LabelItem::Str("generated".to_owned())])),
        ),
        target("root//a:two", Some(LabelsAttr::List(vec![LabelItem::Other, LabelItem::Str("generate".to_owned())]))),
        target("root//a:three", Some(LabelsAttr::Other)),
    ];
    match completions(&targets) {
        Ok(v) => assert_eq!(v, vec!["root//a:one", "root//a:two", "root//a:three"]),
        Err(_) => panic!("no error expected"),
    }
}

#[test]
fn completions_stop_at_first_error() {
    let targets = vec![
        target("root//a:one", None),
        Err(TargetLoadError { message: "first".to_owned() }),
        Err(TargetLoadError { message: "second".to_owned() }),
    ];
    match completions(&targets) {
        Err(e) => assert_eq!(e.message, "first"),
        Ok(_) => panic!("error expected"),
    }
}

#[test]
fn transition_attrs_compare_only_successes() {
    let names = |v: &[&str]| -> Result<Option<Vec<String>>, String> { Ok(Some(v.iter().map(|s| s.to_string()).collect())) };
    assert!(transition_attrs_equality(&names(&["a", "b"]), &names(&["a", "b"])));
    assert!(!transition_attrs_equality(&names(&["a", "b"]), &names(&["a", "c"])));
    assert!(!transition_attrs_equality(&names(&["a"]), &names(&["a", "b"])));
    assert!(transition_attrs_equality(&Ok(None), &Ok(None)));
    assert!(!transition_attrs_equality(&Ok(None), &names(&[])));
    assert!(!transition_attrs_equality(&Err("x".to_owned()), &Err("x".to_owned())));
}
