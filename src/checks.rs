//! The outcome of one probe, and the run over a whole configuration.

use vstd::prelude::*;
use vstd::string::StringExecFns;
use crate::binary::{binary_message, check_binary};
use crate::config::{BinaryCheck, Config};
use crate::env::{check_env_var, env_message};

verus! {

/// The outcome of one configured check.
#[derive(Debug)]
pub struct CheckResult {
    pub check_type: String,
    pub name: String,
    pub passed: bool,
    pub message: String,
}

impl CheckResult {
    pub fn pass(check_type: &str, name: &str, message: String) -> (r: Self)
        ensures
            r.check_type@ == check_type@,
            r.name@ == name@,
            r.passed,
            r.message@ == message@,
    {
        CheckResult {
            check_type: String::from_str(check_type),
            name: String::from_str(name),
            passed: true,
            message,
        }
    }

    pub fn fail(check_type: &str, name: &str, message: String) -> (r: Self)
        ensures
            r.check_type@ == check_type@,
            r.name@ == name@,
            !r.passed,
            r.message@ == message@,
    {
        CheckResult {
            check_type: String::from_str(check_type),
            name: String::from_str(name),
            passed: false,
            message,
        }
    }
}

/// What was learnt of one configured binary: where the search path resolved
/// it, if anywhere, and the version read from it, if any.
#[derive(Debug)]
pub struct BinaryLookup {
    pub path: Option<String>,
    pub version: Option<String>,
}

/// `r` is the result of checking the binary `b`, given the lookup `l`.
pub open spec fn is_binary_result(r: CheckResult, b: BinaryCheck, l: BinaryLookup) -> bool {
    &&& r.check_type@ == "Binary"@
    &&& r.name@ == b.spec_name()
    &&& r.passed == l.path is Some
    &&& r.message@ == binary_message(l.path.deep_view(), l.version.deep_view())
}

/// `r` is the result of checking the variable `name`, given its value if set.
pub open spec fn is_env_result(r: CheckResult, name: String, value: Option<String>) -> bool {
    &&& r.check_type@ == "Env"@
    &&& r.name@ == name@
    &&& r.passed == value is Some
    &&& r.message@ == env_message(value.deep_view())
}

/// How many of the results passed.
pub open spec fn passed_count(rs: Seq<CheckResult>) -> nat
    decreases rs.len(),
{
    if rs.len() == 0 {
        0
    } else {
        passed_count(rs.drop_last()) + if rs.last().passed { 1nat } else { 0nat }
    }
}

/// At most all results pass, and all of them exactly when none failed.
pub proof fn lemma_passed_count(rs: Seq<CheckResult>)
    ensures
        passed_count(rs) <= rs.len(),
        passed_count(rs) == rs.len() <==> forall|i: int| 0 <= i < rs.len() ==> (#[trigger] rs[i]).passed,
    decreases rs.len(),
{
    if rs.len() > 0 {
        let p = rs.drop_last();
        lemma_passed_count(p);
        assert forall|i: int| 0 <= i < p.len() implies (#[trigger] p[i]) == rs[i] by {}
        if passed_count(rs) == rs.len() {
            assert forall|i: int| 0 <= i < rs.len() implies (#[trigger] rs[i]).passed by {
                if i < p.len() {
                    assert(p[i] == rs[i]);
                }
            }
        }
        if forall|i: int| 0 <= i < rs.len() ==> (#[trigger] rs[i]).passed {
            assert(rs.last() == rs[rs.len() - 1]);
            assert forall|i: int| 0 <= i < p.len() implies (#[trigger] p[i]).passed by {
                assert(p[i] == rs[i]);
            }
        }
    }
}

fn copy_text(o: &Option<String>) -> (r: Option<String>)
    ensures
        r == *o,
{
    match o {
        Some(s) => Some(s.clone()),
        None => None,
    }
}

/// Runs every configured check, binaries first and then environment
/// variables, each in file order, one result per check. `lookups[i]` is what
/// was learnt of the binary of index `i`, `values[j]` the value of the
/// variable of index `j`.
pub fn run_checks(config: &Config, lookups: &Vec<BinaryLookup>, values: &Vec<Option<String>>) -> (r: Vec<CheckResult>)
    requires
        lookups@.len() == config.checks.binaries@.len(),
        values@.len() == config.checks.environment@.len(),
    ensures
        r@.len() == config.checks.binaries@.len() + config.checks.environment@.len(),
        forall|i: int| 0 <= i < config.checks.binaries@.len()
            ==> is_binary_result(#[trigger] r@[i], config.checks.binaries@[i], lookups@[i]),
        forall|j: int| 0 <= j < config.checks.environment@.len()
            ==> is_env_result(#[trigger] r@[config.checks.binaries@.len() + j],
                config.checks.environment@[j], values@[j]),
{
    let binaries = &config.checks.binaries;
    let environment = &config.checks.environment;
    let mut results: Vec<CheckResult> = Vec::new();
    let mut i: usize = 0;
    while i < binaries.len()
        invariant
            i <= binaries@.len(),
            lookups@.len() == binaries@.len(),
            results@.len() == i,
            forall|k: int| 0 <= k < i ==> is_binary_result(#[trigger] results@[k], binaries@[k], lookups@[k]),
        decreases binaries.len() - i,
    {
        let l = &lookups[i];
        results.push(check_binary(&binaries[i], copy_text(&l.path), copy_text(&l.version)));
        i = i + 1;
    }
    let mut j: usize = 0;
    while j < environment.len()
        invariant
            j <= environment@.len(),
            values@.len() == environment@.len(),
            results@.len() == binaries@.len() + j,
            forall|k: int| 0 <= k < binaries@.len() ==> is_binary_result(#[trigger] results@[k], binaries@[k], lookups@[k]),
            forall|k: int| 0 <= k < j ==> is_env_result(#[trigger] results@[binaries@.len() + k],
                environment@[k], values@[k]),
        decreases environment.len() - j,
    {
        results.push(check_env_var(environment[j].as_str(), copy_text(&values[j])));
        j = j + 1;
    }
    results
}

/// The number of results that passed and the number that failed.
pub fn tally(results: &Vec<CheckResult>) -> (r: (usize, usize))
    ensures
        r.0 == passed_count(results@),
        r.0 + r.1 == results@.len(),
        r.1 == 0 <==> forall|i: int| 0 <= i < results@.len() ==> (#[trigger] results@[i]).passed,
{
    let mut passed: usize = 0;
    let mut failed: usize = 0;
    let mut i: usize = 0;
    while i < results.len()
        invariant
            i <= results@.len(),
            passed == passed_count(results@.subrange(0, i as int)),
            passed + failed == i,
        decreases results.len() - i,
    {
        assert(results@.subrange(0, i + 1).drop_last() =~= results@.subrange(0, i as int));
        if results[i].passed {
            passed = passed + 1;
        } else {
            failed = failed + 1;
        }
        i = i + 1;
    }
    assert(results@.subrange(0, results@.len() as int) =~= results@);
    proof {
        lemma_passed_count(results@);
    }
    (passed, failed)
}

} // verus!
