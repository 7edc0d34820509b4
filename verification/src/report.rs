//! Validation outcomes and their aggregation.
//!
//! A field validator answers with `Ok(())` or with a [`ValidationError`]. A
//! descriptor lists one [`FieldCheck`] per validated field, in the order in
//! which the fields are declared, and [`aggregate`] collects every failure
//! into one [`ValidationErrors`] value: validation never stops at the first
//! failure.

use vstd::prelude::*;

verus! {

/// Why one value was rejected: a machine-readable code and, where there is
/// one, a message for people.
#[derive(Clone, Copy, Debug, PartialEq, Eq)]
pub struct ValidationError {
    pub code: &'static str,
    pub message: Option<&'static str>,
}

/// One rejected field of a descriptor.
#[derive(Clone, Copy, Debug, PartialEq, Eq)]
pub struct FieldError {
    pub field: &'static str,
    pub error: ValidationError,
}

/// What the validator of one field answered.
#[derive(Clone, Copy, Debug, PartialEq, Eq)]
pub struct FieldCheck {
    pub field: &'static str,
    pub outcome: Result<(), ValidationError>,
}

/// The failures of one descriptor, one entry per rejected field, in the
/// order in which the fields were checked.
#[derive(Clone, Debug, PartialEq, Eq)]
pub struct ValidationErrors {
    pub errors: Vec<FieldError>,
}

impl View for ValidationErrors {
    type V = Seq<FieldError>;

    open spec fn view(&self) -> Seq<FieldError> {
        self.errors@
    }
}

/// The entry that `check` contributes to the aggregate: none when it
/// passed, one when it failed.
pub open spec fn failure_of(check: FieldCheck) -> Seq<FieldError> {
    match check.outcome {
        Ok(_) => Seq::empty(),
        Err(error) => seq![FieldError { field: check.field, error }],
    }
}

/// The failed checks among `checks`, in order.
pub open spec fn failures(checks: Seq<FieldCheck>) -> Seq<FieldError>
    decreases checks.len(),
{
    if checks.len() == 0 {
        Seq::empty()
    } else {
        failures(checks.drop_last()) + failure_of(checks.last())
    }
}

/// How many of `checks` failed.
pub open spec fn failed_count(checks: Seq<FieldCheck>) -> nat
    decreases checks.len(),
{
    if checks.len() == 0 {
        0
    } else {
        failed_count(checks.drop_last()) + if checks.last().outcome is Err {
            1nat
        } else {
            0nat
        }
    }
}

impl ValidationErrors {
    /// An aggregate without entries.
    pub fn new() -> (errors: Self)
        ensures
            errors@ == Seq::<FieldError>::empty(),
    {
        ValidationErrors { errors: Vec::new() }
    }

    /// Appends an entry for `field`.
    pub fn add(&mut self, field: &'static str, error: ValidationError)
        ensures
            final(self)@ == old(self)@.push(FieldError { field, error }),
    {
        self.errors.push(FieldError { field, error });
    }

    /// Takes note of what one field validator answered: a failure is
    /// appended, a success leaves the aggregate as it is.
    pub fn record(&mut self, check: FieldCheck)
        ensures
            final(self)@ == old(self)@ + failure_of(check),
    {
        match check.outcome {
            Ok(_) => {
                assert(self@ + failure_of(check) =~= self@);
            },
            Err(error) => {
                self.errors.push(FieldError { field: check.field, error });
                assert(old(self)@.push(FieldError { field: check.field, error }) =~= old(self)@
                    + failure_of(check));
            },
        }
    }

    /// The number of entries.
    pub fn len(&self) -> (n: usize)
        ensures
            n == self@.len(),
    {
        self.errors.len()
    }

    /// Whether no field was rejected.
    pub fn is_empty(&self) -> (empty: bool)
        ensures
            empty == (self@.len() == 0),
    {
        self.errors.len() == 0
    }

    /// Success when nothing was recorded, the aggregate itself otherwise.
    pub fn into_result(self) -> (r: Result<(), ValidationErrors>)
        ensures
            self@.len() == 0 ==> r is Ok,
            self@.len() > 0 ==> r == Err::<(), ValidationErrors>(self),
    {
        if self.errors.len() == 0 {
            Ok(())
        } else {
            Err(self)
        }
    }
}

/// Whether `r` is the answer that the checks `checks` call for: `Ok`
/// exactly when none of them failed, and otherwise the failed fields in
/// the order of `checks`.
pub open spec fn aggregated(checks: Seq<FieldCheck>, r: Result<(), ValidationErrors>) -> bool {
    &&& r is Ok <==> failures(checks).len() == 0
    &&& r matches Err(errors) ==> errors@ == failures(checks)
}

/// Collects every failure among `checks`. The answer is `Ok` exactly when
/// no check failed; otherwise it lists the failed fields in the order of
/// `checks`.
pub fn aggregate(checks: &Vec<FieldCheck>) -> (r: Result<(), ValidationErrors>)
    ensures
        aggregated(checks@, r),
        r is Ok <==> failures(checks@).len() == 0,
        r matches Err(errors) ==> errors@ == failures(checks@),
{
    let mut errors = ValidationErrors::new();
    let mut i: usize = 0;
    while i < checks.len()
        invariant
            i <= checks.len(),
            errors@ == failures(checks@.take(i as int)),
        decreases checks.len() - i,
    {
        errors.record(checks[i]);
        assert(checks@.take(i + 1).drop_last() =~= checks@.take(i as int));
        i += 1;
    }
    assert(checks@.take(checks@.len() as int) =~= checks@);
    errors.into_result()
}

/// One more check adds what that check contributes, after the others.
pub proof fn lemma_failures_push(checks: Seq<FieldCheck>, check: FieldCheck)
    ensures
        failures(checks.push(check)) == failures(checks) + failure_of(check),
{
    assert(checks.push(check).drop_last() =~= checks);
}

/// The aggregate of a single check is what that check contributes.
pub proof fn lemma_failures_of_one(a: FieldCheck)
    ensures
        failures(seq![a]) == failure_of(a),
{
    let none = Seq::<FieldCheck>::empty();
    lemma_failures_push(none, a);
    assert(none.push(a) =~= seq![a]);
    assert(failures(none) + failure_of(a) =~= failure_of(a));
}

/// The aggregate of two checks is what the first contributes, then what
/// the second does.
pub proof fn lemma_failures_of_two(a: FieldCheck, b: FieldCheck)
    ensures
        failures(seq![a, b]) == failure_of(a) + failure_of(b),
{
    lemma_failures_of_one(a);
    lemma_failures_push(seq![a], b);
    assert(seq![a].push(b) =~= seq![a, b]);
}

/// The aggregate of three checks is what each contributes, in order.
pub proof fn lemma_failures_of_three(a: FieldCheck, b: FieldCheck, c: FieldCheck)
    ensures
        failures(seq![a, b, c]) == failure_of(a) + failure_of(b) + failure_of(c),
{
    lemma_failures_of_two(a, b);
    lemma_failures_push(seq![a, b], c);
    assert(seq![a, b].push(c) =~= seq![a, b, c]);
}

/// The aggregate has exactly one entry for each failed check: two rejected
/// fields give two entries, never one.
pub proof fn lemma_one_entry_per_failure(checks: Seq<FieldCheck>)
    ensures
        failures(checks).len() == failed_count(checks),
    decreases checks.len(),
{
    if checks.len() > 0 {
        lemma_one_entry_per_failure(checks.drop_last());
    }
}

/// Each entry of the aggregate names a field whose check failed, with the
/// error that its validator gave.
pub proof fn lemma_failures_come_from_checks(checks: Seq<FieldCheck>, k: int)
    requires
        0 <= k < failures(checks).len(),
    ensures
        exists|i: int|
            0 <= i < checks.len() && checks[i].field == failures(checks)[k].field
                && checks[i].outcome == Err::<(), ValidationError>(failures(checks)[k].error),
    decreases checks.len(),
{
    let head = failures(checks.drop_last());
    if k < head.len() {
        lemma_failures_come_from_checks(checks.drop_last(), k);
        let i = choose|i: int|
            0 <= i < checks.drop_last().len() && checks.drop_last()[i].field == head[k].field
                && checks.drop_last()[i].outcome == Err::<(), ValidationError>(head[k].error);
        assert(checks[i] == checks.drop_last()[i]);
    } else {
        assert(checks[checks.len() - 1] == checks.last());
    }
}

/// Aggregation answers the same whenever it is given the same checks:
/// two answers agree on success and, on failure, entry by entry.
pub proof fn lemma_aggregate_repeats(
    checks: Seq<FieldCheck>,
    first: Result<(), ValidationErrors>,
    second: Result<(), ValidationErrors>,
)
    requires
        aggregated(checks, first),
        aggregated(checks, second),
    ensures
        first is Ok <==> second is Ok,
        first matches Err(a) ==> (second matches Err(b) && a@ == b@),
{
}

/// A passing check leaves no trace: the aggregate of checks that all pass
/// is empty.
pub proof fn lemma_no_failure_no_entry(checks: Seq<FieldCheck>)
    requires
        forall|i: int| 0 <= i < checks.len() ==> checks[i].outcome is Ok,
    ensures
        failures(checks).len() == 0,
    decreases checks.len(),
{
    if checks.len() > 0 {
        lemma_no_failure_no_entry(checks.drop_last());
    }
}

} // verus!
