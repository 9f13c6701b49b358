//! Daemon command logic: how `audit output` resolves a buck-out path and reports the
//! outcome, which targets `complete` offers, and when two computed transition attribute
//! lists count as equal.
use vstd::prelude::*;

verus! {

/// A parsed buck-out path.
pub enum BuckOutPathType {
    /// The output of a rule: the target, the configuration hash in the path, and the part
    /// of the path after the target's name.
    RuleOutput { target_label: String, config_hash: String, path_after_target_name: String },
    /// A BXL, anonymous target, test or tmp output.
    Other,
}

/// The rule output that a buck-out path names.
pub struct RuleOutputPath {
    /// The unconfigured target.
    pub target_label: String,
    /// The configuration hash in the path.
    pub config_hash: String,
    /// The part of the path after the target's name.
    pub path_after_target_name: String,
}

/// Why a buck-out path cannot be audited.
pub enum AuditOutputError {
    /// Only rule outputs are supported; the path is given.
    UnsupportedPathType(String),
}

/// The message of the unsupported-path error.
pub open spec fn unsupported_path_message(path: Seq<char>) -> Seq<char> {
    "BXL, anonymous target, test, and tmp artifacts are not supported for audit output. Only rule output artifacts are supported. Path: `"@
        + path + "`"@
}

impl AuditOutputError {
    /// The error's message.
    pub fn message(&self) -> (r: String)
        ensures
            r@ == match self {
                AuditOutputError::UnsupportedPathType(p) => unsupported_path_message(p@),
            },
    {
        match self {
            AuditOutputError::UnsupportedPathType(p) => {
                let mut m = "BXL, anonymous target, test, and tmp artifacts are not supported for audit output. Only rule output artifacts are supported. Path: `".to_owned();
                m.append(p.as_str());
                m.append("`");
                m
            },
        }
    }
}

/// The next step of auditing a rule output once its target was configured.
pub enum AuditOutputStep {
    /// The configuration differs from the path's: report the target as maybe relevant.
    MaybeRelevant(String),
    /// Analyse the target and look for the action producing this path.
    FindMatchingAction(String),
}

/// What `audit output` found.
pub enum AuditOutputResult {
    /// The action (by id) that produced the path.
    Match(u64),
    /// The unconfigured target most relevant to the path.
    MaybeRelevant(String),
}

/// What `audit output` prints.
pub enum AuditOutputReport {
    /// Print the action (by id).
    PrintAction(u64),
    /// Print the text.
    Text(String),
}

/// The text printed for a target whose configuration did not match the path's.
pub open spec fn maybe_relevant_text(label: Seq<char>) -> Seq<char> {
    "Platform configuration of the buck-out path did not match the one used to invoke this command. Returning the most relevant unconfigured target label for the buck-out path: "@
        + label + "\n"@
}

/// The text printed when no action produced the path.
pub open spec fn no_match_text() -> Seq<char> {
    "Failed to find an action that produced the output path. Make sure that you did not input a symlinked buck-out path.\n"@
}

/// The rule output named by a parsed buck-out path; other kinds of outputs are not
/// supported.
pub fn audit_output_target(output_path: &str, parsed: BuckOutPathType) -> (r: Result<RuleOutputPath, AuditOutputError>)
    ensures
        match parsed {
            BuckOutPathType::RuleOutput { target_label, config_hash, path_after_target_name } => {
                &&& r matches Ok(rule)
                &&& rule.target_label@ == target_label@
                &&& rule.config_hash@ == config_hash@
                &&& rule.path_after_target_name@ == path_after_target_name@
            },
            BuckOutPathType::Other => r matches Err(AuditOutputError::UnsupportedPathType(p)) && p@
                == output_path@,
        },
{
    match parsed {
        BuckOutPathType::RuleOutput { target_label, config_hash, path_after_target_name } => Ok(
            RuleOutputPath { target_label, config_hash, path_after_target_name },
        ),
        BuckOutPathType::Other => Err(AuditOutputError::UnsupportedPathType(output_path.to_owned())),
    }
}

/// Compares the path's configuration hash with that of the target as configured for this
/// command: a mismatch makes the target only maybe relevant; a match leads on to the
/// search for the action.
pub fn audit_output_check_config(rule: RuleOutputPath, command_config_hash: &str) -> (r: AuditOutputStep)
    ensures
        command_config_hash@ != rule.config_hash@ ==> (r matches AuditOutputStep::MaybeRelevant(l)
            && l@ == rule.target_label@),
        command_config_hash@ == rule.config_hash@ ==> (r matches AuditOutputStep::FindMatchingAction(
            p,
        ) && p@ == rule.path_after_target_name@),
{
    if rule.config_hash != command_config_hash.to_owned() {
        AuditOutputStep::MaybeRelevant(rule.target_label)
    } else {
        AuditOutputStep::FindMatchingAction(rule.path_after_target_name)
    }
}

/// What `audit output` prints for its result.
pub fn audit_output_report(result: Option<AuditOutputResult>) -> (r: AuditOutputReport)
    ensures
        match result {
            Some(AuditOutputResult::Match(a)) => r == AuditOutputReport::PrintAction(a),
            Some(AuditOutputResult::MaybeRelevant(l)) => r matches AuditOutputReport::Text(t) && t@
                == maybe_relevant_text(l@),
            None => r matches AuditOutputReport::Text(t) && t@ == no_match_text(),
        },
{
    match result {
        Some(AuditOutputResult::Match(a)) => AuditOutputReport::PrintAction(a),
        Some(AuditOutputResult::MaybeRelevant(l)) => {
            let mut t = "Platform configuration of the buck-out path did not match the one used to invoke this command. Returning the most relevant unconfigured target label for the buck-out path: ".to_owned();
            t.append(l.as_str());
            t.append("\n");
            AuditOutputReport::Text(t)
        },
        None => AuditOutputReport::Text(
            "Failed to find an action that produced the output path. Make sure that you did not input a symlinked buck-out path.\n".to_owned(),
        ),
    }
}

/// An item of a target's `labels` attribute.
pub enum LabelItem {
    /// A string label.
    Str(String),
    /// Anything else.
    Other,
}

/// A target's `labels` attribute.
pub enum LabelsAttr {
    /// A list of items.
    List(Vec<LabelItem>),
    /// Anything else.
    Other,
}

/// A loaded target, as far as completion looks at it.
pub struct LoadedTarget {
    /// The target's label as displayed.
    pub label: String,
    /// The `labels` attribute, if the target has one.
    pub labels: Option<LabelsAttr>,
}

/// A target that failed to load.
pub struct TargetLoadError {
    /// The error message.
    pub message: String,
}

/// The target is labelled `generated`: its `labels` attribute is a list holding the string
/// `generated`.
pub open spec fn is_generated(t: LoadedTarget) -> bool {
    t.labels matches Some(LabelsAttr::List(items)) && exists|i: int|
        0 <= i < items@.len() && (#[trigger] items@[i] matches LabelItem::Str(s) && s@
            == "generated"@)
}

/// The completions offered for loaded targets: the labels of the targets that are not
/// generated, in order; the first load error instead, if any.
pub open spec fn spec_completions(targets: Seq<Result<LoadedTarget, TargetLoadError>>) -> Result<Seq<Seq<char>>, Seq<char>>
    decreases targets.len(),
{
    if targets.len() == 0 {
        Ok(Seq::empty())
    } else {
        match spec_completions(targets.drop_last()) {
            Err(e) => Err(e),
            Ok(labels) => match targets.last() {
                Err(e) => Err(e.message@),
                Ok(t) => if is_generated(t) {
                    Ok(labels)
                } else {
                    Ok(labels.push(t.label@))
                },
            },
        }
    }
}

/// Whether the target is labelled `generated`.
#[verifier::loop_isolation(false)]
fn generated(t: &LoadedTarget) -> (r: bool)
    ensures
        r == is_generated(*t),
{
    match &t.labels {
        Some(LabelsAttr::List(items)) => {
            let generated = "generated".to_owned();
            let mut i: usize = 0;
            while i < items.len()
                invariant
                    i <= items@.len(),
                    generated@ == "generated"@,
                    forall|j: int|
                        0 <= j < i ==> !(#[trigger] items@[j] matches LabelItem::Str(s) && s@
                            == "generated"@),
                decreases items@.len() - i,
            {
                match &items[i] {
                    LabelItem::Str(s) => {
                        if *s == generated {
                            proof {
                                assert(items@[i as int] matches LabelItem::Str(s) && s@
                                    == "generated"@);
                            }
                            return true;
                        }
                    },
                    LabelItem::Other => {},
                }
                i = i + 1;
            }
            false
        },
        _ => false,
    }
}

/// The completions offered for loaded targets: the labels of those not labelled
/// `generated`, in order; the first load error instead, if any.
pub fn completions(targets: &Vec<Result<LoadedTarget, TargetLoadError>>) -> (r: Result<Vec<String>, TargetLoadError>)
    ensures
        match (r, spec_completions(targets@)) {
            (Ok(v), Ok(s)) => v@.map_values(|l: String| l@) == s,
            (Err(e), Err(m)) => e.message@ == m,
            _ => false,
        },
{
    let mut output: Vec<String> = Vec::new();
    let mut i: usize = 0;
    while i < targets.len()
        invariant
            i <= targets@.len(),
            spec_completions(targets@.take(i as int)) matches Ok(s) && output@.map_values(
                |l: String| l@,
            ) == s,
        decreases targets@.len() - i,
    {
        proof {
            assert(targets@.take(i + 1).drop_last() =~= targets@.take(i as int));
        }
        match &targets[i] {
            Err(e) => {
                proof {
                    lemma_completions_error_sticks(targets@, i as int + 1);
                }
                return Err(TargetLoadError { message: e.message.clone() });
            },
            Ok(t) => {
                if !generated(t) {
                    output.push(t.label.clone());
                }
            },
        }
        proof {
            assert(output@.map_values(|l: String| l@) =~= spec_completions(
                targets@.take(i + 1),
            )->Ok_0);
        }
        i = i + 1;
    }
    proof {
        assert(targets@.take(targets@.len() as int) =~= targets@);
    }
    Ok(output)
}

/// Once the completions of a prefix fail, those of every longer prefix fail the same way.
proof fn lemma_completions_error_sticks(targets: Seq<Result<LoadedTarget, TargetLoadError>>, n: int)
    requires
        0 < n <= targets.len(),
        spec_completions(targets.take(n)) is Err,
    ensures
        spec_completions(targets) == spec_completions(targets.take(n)),
    decreases targets.len() - n,
{
    if n < targets.len() {
        assert(targets.take(n + 1).drop_last() =~= targets.take(n));
        lemma_completions_error_sticks(targets, n + 1);
    } else {
        assert(targets.take(n) =~= targets);
    }
}

/// The names of the attributes a transition reads, as computed (or the failure to
/// compute them).
pub type TransitionAttrs = Result<Option<Vec<String>>, String>;

/// The computed attribute names, as strings.
pub open spec fn attrs_view(a: Option<Vec<String>>) -> Option<Seq<Seq<char>>> {
    match a {
        Some(v) => Some(v@.map_values(|s: String| s@)),
        None => None,
    }
}

/// Two computations of a transition's attributes are equal when both succeeded with the
/// same names; a failure is never equal to anything.
#[verifier::loop_isolation(false)]
pub fn transition_attrs_equality(x: &TransitionAttrs, y: &TransitionAttrs) -> (r: bool)
    ensures
        r == match (x, y) {
            (Ok(a), Ok(b)) => attrs_view(*a) == attrs_view(*b),
            _ => false,
        },
{
    match (x, y) {
        (Ok(a), Ok(b)) => match (a, b) {
            (None, None) => true,
            (Some(a), Some(b)) => {
                if a.len() != b.len() {
                    proof {
                        assert(attrs_view(Some(*a))->Some_0.len() != attrs_view(Some(*b))->Some_0.len());
                    }
                    return false;
                }
                let mut i: usize = 0;
                while i < a.len()
                    invariant
                        a@.len() == b@.len(),
                        i <= a@.len(),
                        forall|j: int| 0 <= j < i ==> (#[trigger] a@[j])@ == b@[j]@,
                    decreases a@.len() - i,
                {
                    if a[i] != b[i] {
                        proof {
                            let sa = a@.map_values(|s: String| s@);
                            let sb = b@.map_values(|s: String| s@);
                            assert(sa[i as int] != sb[i as int]);
                            assert(sa != sb);
                            assert(attrs_view(Some(*a)) != attrs_view(Some(*b)));
                        }
                        return false;
                    }
                    i = i + 1;
                }
                proof {
                    assert(a@.map_values(|s: String| s@) =~= b@.map_values(|s: String| s@));
                }
                true
            },
            _ => false,
        },
        _ => false,
    }
}


/// A target counts as generated only when its `labels` attribute is a list holding the
/// string `generated`; in particular a target without labels, with an empty list, or
/// with a list of other labels is offered.
pub proof fn lemma_generated_needs_generated_label(t: LoadedTarget)
    ensures
        is_generated(t) ==> (t.labels matches Some(LabelsAttr::List(items)) && exists|i: int|
            0 <= i < items@.len() && (#[trigger] items@[i] matches LabelItem::Str(s) && s@
                == "generated"@)),
        t.labels matches Some(LabelsAttr::List(items)) && items@.len() == 0 ==> !is_generated(t),
        t.labels is None ==> !is_generated(t),
{
}

/// A `generated` label anywhere in the list makes the target generated.
pub proof fn lemma_generated_label_anywhere_skips(t: LoadedTarget, i: int)
    requires
        t.labels matches Some(LabelsAttr::List(items)) && 0 <= i < items@.len() && (
        items@[i] matches LabelItem::Str(s) && s@ == "generated"@),
    ensures
        is_generated(t),
{
    if let Some(LabelsAttr::List(items)) = t.labels {
        assert(items@[i] matches LabelItem::Str(s) && s@ == "generated"@);
    }
}

/// Loading one more target extends the completions: a target with no `generated` label
/// is offered after those before it; a generated one is not offered; a failed load fails.
pub proof fn lemma_completions_step(prefix: Seq<Result<LoadedTarget, TargetLoadError>>, next: Result<LoadedTarget, TargetLoadError>)
    requires
        spec_completions(prefix) is Ok,
    ensures
        next matches Ok(t) ==> (!(t.labels matches Some(LabelsAttr::List(items)) && exists|i: int|
            0 <= i < items@.len() && (#[trigger] items@[i] matches LabelItem::Str(s) && s@
                == "generated"@)) ==> (spec_completions(prefix.push(next)) matches Ok(l) && l
            == spec_completions(prefix)->Ok_0.push(t.label@))),
        next matches Ok(t) ==> (is_generated(t) ==> spec_completions(prefix.push(next))
            == spec_completions(prefix)),
        next matches Err(e) ==> (spec_completions(prefix.push(next)) matches Err(m) && m
            == e.message@),
{
    assert(prefix.push(next).drop_last() =~= prefix);
    if let Ok(t) = next {
        lemma_generated_needs_generated_label(t);
    }
}

/// The computed names, as strings, list every name in order.
pub proof fn lemma_attrs_view_lists_names(v: Vec<String>)
    ensures
        attrs_view(Some(v)) is Some,
        attrs_view(Some(v))->Some_0.len() == v@.len(),
        forall|i: int| 0 <= i < v@.len() ==> #[trigger] attrs_view(Some(v))->Some_0[i] == v@[i]@,
        attrs_view(None) is None,
{
}

/// Two successful computations with names are equal exactly when they list the same
/// names in the same order.
pub proof fn lemma_attrs_equal_iff_same_names(a: Vec<String>, b: Vec<String>)
    ensures
        (attrs_view(Some(a)) == attrs_view(Some(b))) <==> (a@.len() == b@.len() && forall|i: int|
            0 <= i < a@.len() ==> (#[trigger] a@[i])@ == b@[i]@),
{
    lemma_attrs_view_lists_names(a);
    lemma_attrs_view_lists_names(b);
    let sa = attrs_view(Some(a))->Some_0;
    let sb = attrs_view(Some(b))->Some_0;
    if a@.len() == b@.len() && forall|i: int| 0 <= i < a@.len() ==> (#[trigger] a@[i])@ == b@[i]@ {
        assert(sa =~= sb);
    }
    if attrs_view(Some(a)) == attrs_view(Some(b)) {
        assert forall|i: int| 0 <= i < a@.len() implies (#[trigger] a@[i])@ == b@[i]@ by {
            assert(sa[i] == sb[i]);
        }
    }
}

} // verus!
