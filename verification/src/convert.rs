//! Runtime semantics of the generated conversion: per-field error isolation,
//! ordered error accumulation, and a pluggable reduction from a non-empty
//! error sequence to one final error.
//!
//! A [`StagingValue`] holds, per field, either the realized value or the
//! field's error, plus the ordered unassociated errors. [`try_convert`]
//! consumes it in one pass: the accumulator starts as the unassociated
//! errors, each failing field appends its error in declaration order, and
//! the supplied reduction is invoked exactly once, on the whole accumulator,
//! if and only if it is non-empty.

use vstd::prelude::*;

verus! {

/// The outcome of one staged field: its realized value or its error,
/// never both and never neither.
#[derive(Clone, Debug, PartialEq, Eq)]
pub enum FieldOutcome<V, E> {
    Success(V),
    Failure(E),
}

/// A fully populated staging value: one outcome per field, in field
/// declaration order, plus the ordered unassociated errors. A staging type
/// generated without the unassociated-error sequence corresponds to a value
/// whose `additional_errors` is empty.
#[derive(Clone, Debug, PartialEq, Eq)]
pub struct StagingValue<V, E> {
    pub fields: Vec<FieldOutcome<V, E>>,
    pub additional_errors: Vec<E>,
}

/// The errors of the failing outcomes, in declaration order.
pub open spec fn field_errors<V, E>(outcomes: Seq<FieldOutcome<V, E>>) -> Seq<E>
    decreases outcomes.len(),
{
    if outcomes.len() == 0 {
        Seq::empty()
    } else {
        field_errors(outcomes.drop_last()) + match outcomes.last() {
            FieldOutcome::Success(_) => Seq::empty(),
            FieldOutcome::Failure(e) => seq![e],
        }
    }
}

/// The values of the succeeding outcomes, in declaration order.
pub open spec fn success_values<V, E>(outcomes: Seq<FieldOutcome<V, E>>) -> Seq<V>
    decreases outcomes.len(),
{
    if outcomes.len() == 0 {
        Seq::empty()
    } else {
        success_values(outcomes.drop_last()) + match outcomes.last() {
            FieldOutcome::Success(v) => seq![v],
            FieldOutcome::Failure(_) => Seq::empty(),
        }
    }
}

/// Every field outcome is a success.
pub open spec fn all_success<V, E>(outcomes: Seq<FieldOutcome<V, E>>) -> bool {
    forall|i: int| 0 <= i < outcomes.len() ==> (#[trigger] outcomes[i]) is Success
}

/// The full accumulator, in the order the reduction observes it: the
/// unassociated errors first, in their original order, then the field
/// errors in field declaration order.
pub open spec fn collected_errors<V, E>(staging: StagingValue<V, E>) -> Seq<E> {
    staging.additional_errors@ + field_errors(staging.fields@)
}

/// No field error is collected exactly when every field succeeded.
pub proof fn lemma_field_errors_empty_iff_all_success<V, E>(outcomes: Seq<FieldOutcome<V, E>>)
    ensures
        field_errors(outcomes).len() == 0 <==> all_success(outcomes),
    decreases outcomes.len(),
{
    if outcomes.len() == 0 {
    } else {
        let prefix = outcomes.drop_last();
        lemma_field_errors_empty_iff_all_success(prefix);
        assert(forall|i: int| 0 <= i < prefix.len() ==> prefix[i] == outcomes[i]);
        if all_success(outcomes) {
            assert(all_success(prefix));
        }
        if field_errors(outcomes).len() == 0 {
            assert(all_success(prefix));
            assert(outcomes.last() is Success);
        }
    }
}

/// Under all-success, the retained values line up with the fields, one for
/// one and in order.
pub proof fn lemma_success_values_all<V, E>(outcomes: Seq<FieldOutcome<V, E>>)
    requires
        all_success(outcomes),
    ensures
        success_values(outcomes).len() == outcomes.len(),
        forall|i: int| 0 <= i < outcomes.len()
            ==> ((#[trigger] outcomes[i]) matches FieldOutcome::Success(v)
                && success_values(outcomes)[i] == v),
    decreases outcomes.len(),
{
    if outcomes.len() == 0 {
    } else {
        let prefix = outcomes.drop_last();
        assert(forall|i: int| 0 <= i < prefix.len() ==> prefix[i] == outcomes[i]);
        assert(all_success(prefix));
        lemma_success_values_all(prefix);
    }
}

/// `fe` is a value the supplied reduction can produce from exactly the
/// collected accumulator of `staging`.
pub open spec fn reduction_outcome<V, E, FE, F: FnOnce(Vec<E>) -> FE>(
    staging: StagingValue<V, E>,
    reduce: F,
    fe: FE,
) -> bool {
    exists|errs: Vec<E>|
        errs@ == collected_errors(staging) && #[trigger] call_ensures(reduce, (errs,), fe)
}

/// Reduces a fully populated staging value to the final record's field
/// values, or to the one error the supplied reduction makes of the
/// accumulator.
///
/// The reduction is invoked exactly once, on exactly
/// `collected_errors(staging)`, when the accumulator is non-empty, and not
/// at all otherwise; no error is dropped, duplicated or reordered, and no
/// partial record ever escapes.
#[verifier::loop_isolation(false)]
pub fn try_convert<V, E, FE, F: FnOnce(Vec<E>) -> FE>(
    staging: StagingValue<V, E>,
    reduce: F,
) -> (r: Result<Vec<V>, FE>)
    requires
        forall|errs: Vec<E>|
            errs@ == collected_errors(staging) && errs@.len() > 0
                ==> #[trigger] call_requires(reduce, (errs,)),
    ensures
        collected_errors(staging).len() == 0
            ==> (r matches Ok(values) && values@ == success_values(staging.fields@)),
        collected_errors(staging).len() > 0
            ==> (r matches Err(fe) && reduction_outcome(staging, reduce, fe)),
        r is Ok <==> collected_errors(staging).len() == 0,
{
    let StagingValue { fields, additional_errors } = staging;
    let ghost fields0 = fields@;
    let mut errors = additional_errors;
    let ghost init_errors = errors@;
    let mut values: Vec<V> = Vec::new();
    let mut rest = fields;
    let ghost mut done: Seq<FieldOutcome<V, E>> = Seq::empty();
    while rest.len() > 0
        invariant
            fields0 == done + rest@,
            errors@ == init_errors + field_errors(done),
            values@ == success_values(done),
        decreases rest.len(),
    {
        let ghost rest0 = rest@;
        let fd = rest.remove(0);
        let ghost fdg = fd;
        match fd {
            FieldOutcome::Success(v) => values.push(v),
            FieldOutcome::Failure(e) => errors.push(e),
        }
        proof {
            assert(rest0 =~= seq![fdg] + rest@);
            let done1 = done.push(fdg);
            assert(done1.drop_last() =~= done);
            assert(done1.last() == fdg);
            match fdg {
                FieldOutcome::Success(v) => {
                    assert(field_errors(done1) =~= field_errors(done));
                    assert(success_values(done1) =~= success_values(done).push(v));
                    assert(values@ =~= success_values(done).push(v));
                },
                FieldOutcome::Failure(e) => {
                    assert(success_values(done1) =~= success_values(done));
                    assert(field_errors(done1) =~= field_errors(done).push(e));
                    assert(errors@ =~= init_errors + field_errors(done).push(e));
                    assert(init_errors + field_errors(done1) =~= errors@);
                },
            }
            done = done1;
            assert(fields0 =~= done + rest@);
        }
    }
    proof {
        assert(done =~= fields0);
        assert(errors@ == collected_errors(staging));
    }
    if errors.len() > 0 {
        let ghost ev = errors;
        let fe = reduce(errors);
        proof {
            assert(ev@ == collected_errors(staging));
            assert(call_ensures(reduce, (ev,), fe));
            assert(reduction_outcome(staging, reduce, fe));
        }
        Err(fe)
    } else {
        proof {
            assert(collected_errors(staging).len() == 0);
        }
        Ok(values)
    }
}

/// The result of [`singleton_or_wrap`]: one error passed through unchanged,
/// or the whole ordered accumulator.
#[derive(Clone, Debug, PartialEq, Eq)]
pub enum Aggregated<E> {
    Single(E),
    Multiple(Vec<E>),
}

/// A reduction that is transparent on a sole error and wraps two or more in
/// a container, preserving their order.
pub fn singleton_or_wrap<E>(errors: Vec<E>) -> (r: Aggregated<E>)
    requires
        errors@.len() > 0,
    ensures
        errors@.len() == 1 ==> (r matches Aggregated::Single(e) && e == errors@[0]),
        errors@.len() > 1 ==> (r matches Aggregated::Multiple(v) && v@ == errors@),
{
    let mut errs = errors;
    if errs.len() == 1 {
        let e = errs.remove(0);
        Aggregated::Single(e)
    } else {
        Aggregated::Multiple(errs)
    }
}

/// [`try_convert`] under [`singleton_or_wrap`]: the conversion as observed
/// by a consumer whose reduction passes a sole error through unchanged.
pub fn try_convert_aggregated<V, E>(staging: StagingValue<V, E>) -> (r: Result<
    Vec<V>,
    Aggregated<E>,
>)
    ensures
        collected_errors(staging).len() == 0
            ==> (r matches Ok(values) && values@ == success_values(staging.fields@)),
        collected_errors(staging).len() == 1
            ==> (r matches Err(a) && (a matches Aggregated::Single(e) && e == collected_errors(
                staging,
            )[0])),
        collected_errors(staging).len() > 1
            ==> (r matches Err(a) && (a matches Aggregated::Multiple(v) && v@ == collected_errors(
                staging,
            ))),
        r is Ok <==> collected_errors(staging).len() == 0,
{
    let ghost cs = collected_errors(staging);
    let r = try_convert(staging, singleton_or_wrap);
    proof {
        if cs.len() > 0 {
            let fe = r->Err_0;
            assert(reduction_outcome(staging, singleton_or_wrap, fe));
            let errs = choose|errs: Vec<E>|
                errs@ == collected_errors(staging) && #[trigger] call_ensures(
                    singleton_or_wrap,
                    (errs,),
                    fe,
                );
            assert(errs@.len() == 1 ==> (fe matches Aggregated::Single(e) && e == errs@[0]));
            assert(errs@.len() > 1 ==> (fe matches Aggregated::Multiple(v) && v@ == errs@));
        }
    }
    r
}

/// Zero-error success: when every field outcome is a success and no
/// unassociated error is present, nothing is collected, so by the contract
/// of [`try_convert`] the conversion returns exactly the staged values and
/// the reduction is never invoked.
pub proof fn lemma_zero_error_success<V, E>(staging: StagingValue<V, E>)
    requires
        all_success(staging.fields@),
        staging.additional_errors@.len() == 0,
    ensures
        collected_errors(staging).len() == 0,
        success_values(staging.fields@).len() == staging.fields@.len(),
        forall|i: int| 0 <= i < staging.fields@.len()
            ==> ((#[trigger] staging.fields@[i]) matches FieldOutcome::Success(v)
                && success_values(staging.fields@)[i] == v),
{
    lemma_field_errors_empty_iff_all_success(staging.fields@);
    lemma_success_values_all(staging.fields@);
}

/// A sole failing field contributes exactly its error to the accumulator.
pub proof fn lemma_field_errors_single<V, E>(outcomes: Seq<FieldOutcome<V, E>>, i: int)
    requires
        0 <= i < outcomes.len(),
        outcomes[i] is Failure,
        forall|j: int| 0 <= j < outcomes.len() && j != i ==> (#[trigger] outcomes[j]) is Success,
    ensures
        outcomes[i] matches FieldOutcome::Failure(e) && field_errors(outcomes) =~= seq![e],
    decreases outcomes.len(),
{
    let prefix = outcomes.drop_last();
    assert(forall|k: int| 0 <= k < prefix.len() ==> prefix[k] == outcomes[k]);
    if i == outcomes.len() - 1 {
        assert(all_success(prefix));
        lemma_field_errors_empty_iff_all_success(prefix);
        assert(field_errors(prefix) =~= Seq::<E>::empty());
    } else {
        lemma_field_errors_single(prefix, i);
        assert(outcomes.last() is Success);
    }
}

/// Exactly two failing fields, in declaration order, contribute exactly
/// their two errors, in that order.
pub proof fn lemma_field_errors_pair<V, E>(outcomes: Seq<FieldOutcome<V, E>>, i: int, j: int)
    requires
        0 <= i < j < outcomes.len(),
        outcomes[i] is Failure,
        outcomes[j] is Failure,
        forall|k: int| 0 <= k < outcomes.len() && k != i && k != j
            ==> (#[trigger] outcomes[k]) is Success,
    ensures
        outcomes[i] matches FieldOutcome::Failure(e1) && (outcomes[j] matches
            FieldOutcome::Failure(e2) && field_errors(outcomes) =~= seq![e1, e2]),
    decreases outcomes.len(),
{
    let prefix = outcomes.drop_last();
    assert(forall|k: int| 0 <= k < prefix.len() ==> prefix[k] == outcomes[k]);
    if j == outcomes.len() - 1 {
        lemma_field_errors_single(prefix, i);
    } else {
        lemma_field_errors_pair(prefix, i, j);
        assert(outcomes.last() is Success);
    }
}

/// Single-error passthrough: with exactly one failing field and no
/// unassociated error, the accumulator is exactly that field's error; the
/// singleton-transparent reduction therefore returns it unchanged, and
/// [`try_convert_aggregated`] fails with `Aggregated::Single` of it.
pub proof fn lemma_single_error_passthrough<V, E>(staging: StagingValue<V, E>, i: int)
    requires
        staging.additional_errors@.len() == 0,
        0 <= i < staging.fields@.len(),
        staging.fields@[i] is Failure,
        forall|j: int| 0 <= j < staging.fields@.len() && j != i
            ==> (#[trigger] staging.fields@[j]) is Success,
    ensures
        staging.fields@[i] matches FieldOutcome::Failure(e) && collected_errors(staging) =~= seq![
            e,
        ],
{
    lemma_field_errors_single(staging.fields@, i);
}

/// Order preservation: with unassociated errors `[u1, u2]` and exactly two
/// failing fields, in declaration order, the reduction observes exactly the
/// unassociated errors followed by the two field errors, in that order.
pub proof fn lemma_order_preservation<V, E>(
    staging: StagingValue<V, E>,
    u1: E,
    u2: E,
    i: int,
    j: int,
)
    requires
        staging.additional_errors@ =~= seq![u1, u2],
        0 <= i < j < staging.fields@.len(),
        staging.fields@[i] is Failure,
        staging.fields@[j] is Failure,
        forall|k: int| 0 <= k < staging.fields@.len() && k != i && k != j
            ==> (#[trigger] staging.fields@[k]) is Success,
    ensures
        staging.fields@[i] matches FieldOutcome::Failure(e1) && (staging.fields@[j] matches
            FieldOutcome::Failure(e2) && collected_errors(staging) =~= seq![u1, u2, e1, e2]),
{
    lemma_field_errors_pair(staging.fields@, i, j);
}

} // verus!
