//! What installing one manifest does, decided before any file is touched.
use vstd::prelude::*;

use crate::error::DootError;
use crate::manifest::{flag_or, Rules};
use crate::text::{contains_char, has_char, join, joined, replace_char, replaced};

verus! {

/// One source/target pair, resolved to paths.
#[derive(Debug, Clone)]
pub enum Step {
    /// Copy the whole contents of `source` over `target`.
    Copy { source: String, target: String },
    /// Report the pair and touch nothing.
    DryRun { source: String, target: String },
}

/// What to do for one manifest.
#[derive(Debug, Clone)]
pub enum Plan {
    /// The user declined: nothing is done, and that is no failure.
    Skipped,
    /// Perform these steps in order, stopping at the first that fails.
    Run(Vec<Step>),
}

/// The home directory, or nothing where none is known.
pub open spec fn home_text(home: Option<String>) -> Seq<char> {
    match home {
        Some(h) => h@,
        None => Seq::empty(),
    }
}

/// Some target refers to the home directory.
pub open spec fn needs_home(targets: Seq<String>) -> bool {
    exists|i: int| 0 <= i < targets.len() && has_char(#[trigger] targets[i]@, '~')
}

/// Where a source lies: relative to the package directory.
pub open spec fn source_path(root: Seq<char>, source: Seq<char>) -> Seq<char> {
    joined(root, source)
}

/// Where a target lies: each `~` stands for the home directory, and the
/// result is taken relative to the package directory.
pub open spec fn target_path(root: Seq<char>, target: Seq<char>, home: Seq<char>) -> Seq<char> {
    joined(root, replaced(target, '~', home))
}

/// The failure that the rules meet first, checked in this order: unequal
/// counts, no pairs, symlinks, a `~` with no home directory.
pub open spec fn rule_error(rules: Rules, home_known: bool) -> Option<DootError> {
    if rules.sources.len() != rules.targets.len() {
        Some(DootError::RuleCountMismatch { sources: rules.sources.len(), targets: rules.targets.len() })
    } else if rules.sources.len() == 0 {
        Some(DootError::EmptyRuleSet)
    } else if flag_or(rules.symlink, false) {
        Some(DootError::NotImplemented)
    } else if !home_known && needs_home(rules.targets@) {
        Some(DootError::HomeUnset)
    } else {
        None
    }
}

/// `step` handles the pair `source`, `target`: a copy, or a dry run in debug mode.
pub open spec fn step_is(step: Step, debug: bool, source: Seq<char>, target: Seq<char>) -> bool {
    match step {
        Step::Copy { source: s, target: t } => !debug && s@ == source && t@ == target,
        Step::DryRun { source: s, target: t } => debug && s@ == source && t@ == target,
    }
}

/// `steps` handle the pairs of `rules` one each, in their order.
pub open spec fn steps_for(steps: Seq<Step>, rules: Rules, root: Seq<char>, home: Seq<char>) -> bool {
    &&& steps.len() == rules.sources.len()
    &&& forall|i: int|
        0 <= i < steps.len() ==> step_is(
            #[trigger] steps[i],
            flag_or(rules.debug, false),
            source_path(root, rules.sources@[i]@),
            target_path(root, rules.targets@[i]@, home),
        )
}

/// Whether some target holds a `~`.
pub fn any_needs_home(targets: &Vec<String>) -> (r: bool)
    ensures
        r == needs_home(targets@),
{
    let mut i: usize = 0;
    while i < targets.len()
        invariant
            i <= targets@.len(),
            forall|j: int| 0 <= j < i ==> !has_char(#[trigger] targets@[j]@, '~'),
        decreases targets@.len() - i,
    {
        if contains_char(targets[i].as_str(), '~') {
            return true;
        }
        i += 1;
    }
    false
}

/// Decides what installing a manifest with `rules` from the package directory
/// `root` does, once the user has answered (`confirmed` is true where nobody
/// was asked).
///
/// A declined install is skipped. Otherwise the rules are checked before any
/// file is touched, and each pair becomes one step, in order: a copy, or a
/// dry run where the manifest sets `debug`.
pub fn plan_install(rules: &Rules, root: &str, confirmed: bool, home: &Option<String>) -> (r: Result<Plan, DootError>)
    ensures
        !confirmed ==> r matches Ok(Plan::Skipped),
        confirmed && rule_error(*rules, home.is_some()) is Some ==> r == Err::<Plan, DootError>(
            rule_error(*rules, home.is_some())->0,
        ),
        confirmed && rule_error(*rules, home.is_some()) is None ==> (r matches Ok(Plan::Run(steps))
            && steps_for(steps@, *rules, root@, home_text(*home))),
{
    if !confirmed {
        return Ok(Plan::Skipped);
    }
    let n = rules.sources.len();
    if n != rules.targets.len() {
        return Err(DootError::RuleCountMismatch { sources: n, targets: rules.targets.len() });
    }
    if n == 0 {
        return Err(DootError::EmptyRuleSet);
    }
    if rules.wants_symlink() {
        return Err(DootError::NotImplemented);
    }
    if home.is_none() && any_needs_home(&rules.targets) {
        return Err(DootError::HomeUnset);
    }
    let home_dir = match home {
        Some(h) => h.clone(),
        None => String::new(),
    };
    let debug = rules.is_debug();
    let mut steps: Vec<Step> = Vec::new();
    let mut i: usize = 0;
    while i < n
        invariant
            n == rules.sources@.len(),
            n == rules.targets@.len(),
            i <= n,
            home_dir@ == home_text(*home),
            debug == flag_or(rules.debug, false),
            steps@.len() == i,
            forall|j: int|
                0 <= j < i ==> step_is(
                    #[trigger] steps@[j],
                    debug,
                    source_path(root@, rules.sources@[j]@),
                    target_path(root@, rules.targets@[j]@, home_text(*home)),
                ),
        decreases n - i,
    {
        let source = join(root, rules.sources[i].as_str());
        let resolved = replace_char(rules.targets[i].as_str(), '~', home_dir.as_str());
        let target = join(root, resolved.as_str());
        let step = if debug {
            Step::DryRun { source, target }
        } else {
            Step::Copy { source, target }
        };
        steps.push(step);
        i += 1;
    }
    Ok(Plan::Run(steps))
}

/// The line that reports a step: `DEBUG: {source} -> {target}` for a dry
/// run, `COPY: {source} -> {target}` for a copy.
pub fn step_report(debug: bool, source: &str, target: &str) -> (r: String)
    ensures
        r@ == (if debug {
            "DEBUG: "@
        } else {
            "COPY: "@
        }) + source@ + " -> "@ + target@,
{
    let mut line = if debug {
        String::from_str("DEBUG: ")
    } else {
        String::from_str("COPY: ")
    };
    line.append(source);
    line.append(" -> ");
    line.append(target);
    line
}

/// Unequal numbers of sources and targets are reported with both counts,
/// whatever else the rules say, and the install then has no steps.
pub proof fn lemma_count_mismatch_reported(rules: Rules, home_known: bool)
    requires
        rules.sources.len() != rules.targets.len(),
    ensures
        rule_error(rules, home_known) == Some(
            DootError::RuleCountMismatch { sources: rules.sources.len(), targets: rules.targets.len() },
        ),
{
}

/// Rules without any pair are refused, and the install then has no steps.
pub proof fn lemma_empty_rules_refused(rules: Rules, home_known: bool)
    requires
        rules.sources.len() == 0,
        rules.targets.len() == 0,
    ensures
        rule_error(rules, home_known) == Some(DootError::EmptyRuleSet),
{
}

/// In debug mode every step is a dry run: nothing is written, and there is
/// one step per pair, in the order the pairs are declared.
pub proof fn lemma_debug_writes_nothing(steps: Seq<Step>, rules: Rules, root: Seq<char>, home: Seq<char>)
    requires
        steps_for(steps, rules, root, home),
        flag_or(rules.debug, false),
    ensures
        steps.len() == rules.sources.len(),
        forall|i: int|
            0 <= i < steps.len() ==> (#[trigger] steps[i] matches Step::DryRun { source, target }
                && source@ == source_path(root, rules.sources@[i]@)
                && target@ == target_path(root, rules.targets@[i]@, home)),
{
    assert forall|i: int| 0 <= i < steps.len() implies (#[trigger] steps[i] matches Step::DryRun {
        source,
        target,
    } && source@ == source_path(root, rules.sources@[i]@) && target@ == target_path(
        root,
        rules.targets@[i]@,
        home,
    )) by {
        assert(step_is(steps[i], true, source_path(root, rules.sources@[i]@), target_path(root, rules.targets@[i]@, home)));
    }
}

/// Outside debug mode every step copies source `i` over target `i`, one step
/// per pair, in the order the pairs are declared.
pub proof fn lemma_copies_pair_in_order(steps: Seq<Step>, rules: Rules, root: Seq<char>, home: Seq<char>)
    requires
        steps_for(steps, rules, root, home),
        !flag_or(rules.debug, false),
    ensures
        steps.len() == rules.sources.len(),
        forall|i: int|
            0 <= i < steps.len() ==> (#[trigger] steps[i] matches Step::Copy { source, target }
                && source@ == source_path(root, rules.sources@[i]@)
                && target@ == target_path(root, rules.targets@[i]@, home)),
{
    assert forall|i: int| 0 <= i < steps.len() implies (#[trigger] steps[i] matches Step::Copy {
        source,
        target,
    } && source@ == source_path(root, rules.sources@[i]@) && target@ == target_path(
        root,
        rules.targets@[i]@,
        home,
    )) by {
        assert(step_is(steps[i], false, source_path(root, rules.sources@[i]@), target_path(root, rules.targets@[i]@, home)));
    }
}

} // verus!
