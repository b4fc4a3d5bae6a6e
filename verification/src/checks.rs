//! Ordered checks: a run of checks reports the first failure, and the
//! messages that failures carry.
use vstd::prelude::*;

use crate::model::ValidationError;

verus! {

/// The outcome of a check: `Ok` or the message of the failure.
pub type Outcome = Result<(), Seq<char>>;

/// The first failure among `check(0)`, ..., `check(n - 1)`, in that order.
pub open spec fn first_failure(n: int, check: spec_fn(int) -> Outcome) -> Outcome
    decreases n,
{
    if n <= 0 {
        Ok(())
    } else {
        match first_failure(n - 1, check) {
            Err(e) => Err(e),
            Ok(_) => check(n - 1),
        }
    }
}

/// `first` if it failed, else `second`.
pub open spec fn followed_by(first: Outcome, second: Outcome) -> Outcome {
    match first {
        Err(e) => Err(e),
        Ok(_) => second,
    }
}

/// Once a prefix of checks has failed, longer runs report the same failure.
pub proof fn lemma_first_failure_stable(n: int, m: int, check: spec_fn(int) -> Outcome)
    requires
        0 <= n <= m,
        first_failure(n, check) is Err,
    ensures
        first_failure(m, check) == first_failure(n, check),
    decreases m - n,
{
    if n < m {
        lemma_first_failure_stable(n, m - 1, check);
    }
}

/// A run whose checks all pass has no failure.
pub proof fn lemma_first_failure_all_ok(n: int, check: spec_fn(int) -> Outcome)
    requires
        forall|i: int| 0 <= i < n ==> #[trigger] check(i) is Ok,
    ensures
        first_failure(n, check) is Ok,
    decreases n,
{
    if n > 0 {
        lemma_first_failure_all_ok(n - 1, check);
    }
}

/// A run with no failure passed every check.
pub proof fn lemma_first_failure_ok_all(n: int, check: spec_fn(int) -> Outcome)
    requires
        first_failure(n, check) is Ok,
    ensures
        forall|i: int| 0 <= i < n ==> #[trigger] check(i) is Ok,
    decreases n,
{
    if n > 0 {
        lemma_first_failure_ok_all(n - 1, check);
    }
}

/// When every check before `i` passes and check `i` fails, the run reports check `i`.
pub proof fn lemma_first_failure_at(n: int, i: int, check: spec_fn(int) -> Outcome)
    requires
        0 <= i < n,
        forall|k: int| 0 <= k < i ==> #[trigger] check(k) is Ok,
        check(i) is Err,
    ensures
        first_failure(n, check) == check(i),
{
    lemma_first_failure_all_ok(i, check);
    lemma_first_failure_stable(i + 1, n, check);
}

/// The view of a check's result.
pub open spec fn outcome(r: Result<(), ValidationError>) -> Outcome {
    match r {
        Ok(_) => Ok(()),
        Err(e) => Err(e@),
    }
}

/// A result with its failure taken by its message.
pub open spec fn with_message<T>(r: Result<T, ValidationError>) -> Result<T, Seq<char>> {
    match r {
        Ok(v) => Ok(v),
        Err(e) => Err(e@),
    }
}

/// A result with its value taken by its view and its failure by its message.
pub open spec fn viewed<T: View>(r: Result<T, ValidationError>) -> Result<T::V, Seq<char>> {
    match r {
        Ok(v) => Ok(v@),
        Err(e) => Err(e@),
    }
}


/// A failure whose message is `a + b + c`.
pub fn fail3(a: &str, b: &str, c: &str) -> (r: ValidationError)
    ensures
        r@ == a@ + b@ + c@,
{
    let mut m = String::from_str(a);
    m.append(b);
    m.append(c);
    ValidationError::new(m)
}

/// A failure whose message is `a + b + c + d + e`.
pub fn fail5(a: &str, b: &str, c: &str, d: &str, e: &str) -> (r: ValidationError)
    ensures
        r@ == a@ + b@ + c@ + d@ + e@,
{
    let mut m = String::from_str(a);
    m.append(b);
    m.append(c);
    m.append(d);
    m.append(e);
    ValidationError::new(m)
}

/// A failure whose message is the seven parts in order.
pub fn fail7(a: &str, b: &str, c: &str, d: &str, e: &str, f: &str, g: &str) -> (r:
    ValidationError)
    ensures
        r@ == a@ + b@ + c@ + d@ + e@ + f@ + g@,
{
    let mut m = String::from_str(a);
    m.append(b);
    m.append(c);
    m.append(d);
    m.append(e);
    m.append(f);
    m.append(g);
    ValidationError::new(m)
}


/// A failure whose message is the 2 parts in order.
pub fn fail2(a: &str, b: &str) -> (r: ValidationError)
    ensures
        r@ == a@ + b@,
{
    let mut m = String::from_str(a);
    m.append(b);
    ValidationError::new(m)
}

/// A failure whose message is the 4 parts in order.
pub fn fail4(a: &str, b: &str, c: &str, d: &str) -> (r: ValidationError)
    ensures
        r@ == a@ + b@ + c@ + d@,
{
    let mut m = String::from_str(a);
    m.append(b);
    m.append(c);
    m.append(d);
    ValidationError::new(m)
}

/// A failure whose message is the 6 parts in order.
pub fn fail6(a: &str, b: &str, c: &str, d: &str, e: &str, f: &str) -> (r: ValidationError)
    ensures
        r@ == a@ + b@ + c@ + d@ + e@ + f@,
{
    let mut m = String::from_str(a);
    m.append(b);
    m.append(c);
    m.append(d);
    m.append(e);
    m.append(f);
    ValidationError::new(m)
}


/// The string `a + b + c`.
pub fn cat3(a: &str, b: &str, c: &str) -> (r: String)
    ensures
        r@ == a@ + b@ + c@,
{
    let mut m = String::from_str(a);
    m.append(b);
    m.append(c);
    m
}

/// The string made of the five parts in order.
pub fn cat5(a: &str, b: &str, c: &str, d: &str, e: &str) -> (r: String)
    ensures
        r@ == a@ + b@ + c@ + d@ + e@,
{
    let mut m = String::from_str(a);
    m.append(b);
    m.append(c);
    m.append(d);
    m.append(e);
    m
}

} // verus!
