use vstd::prelude::*;

use crate::doc::Val;
use crate::migration::{
    spec_chain_from, spec_run, spec_step, Migration, MigrationError, SchemaStep, Transform,
};
use crate::schema::{lemma_to_doc_version, Schema};

verus! {

/// The transforms a chain of migration steps carries, in chain order.
pub open spec fn transforms_of<T: Transform>(steps: Seq<Migration<T>>) -> Seq<T> {
    steps.map_values(|m: Migration<T>| m.migrate)
}

/// A document without a `version` field is treated as being at version 0:
/// reading its version yields 0, and any step with a positive target
/// version runs its transform on it.
pub proof fn lemma_missing_version_gates_as_zero<T: Transform>(v: Val, m: Migration<T>)
    requires
        v.get("version"@) is None,
    ensures
        v.version() == 0,
        m.version > 0 ==> spec_step(v, m) == m.migrate.spec_apply(v),
{
}

/// Running a chain on a document whose declared version already meets or
/// exceeds every step's target applies no transform at all: the document
/// comes back unchanged.
pub proof fn lemma_terminal_version_unchanged<T: Transform>(v: Val, steps: Seq<Migration<T>>)
    requires
        forall|i: int| 0 <= i < steps.len() ==> #[trigger] steps[i].version <= v.version(),
    ensures
        spec_run(v, steps) == Ok::<Val, MigrationError>(v),
    decreases steps.len(),
{
    if steps.len() > 0 {
        assert(spec_step(v, steps[0]) == Ok::<Val, MigrationError>(v));
        let tail = steps.skip(1);
        assert(forall|i: int| 0 <= i < tail.len() ==> #[trigger] tail[i] == steps[i + 1]);
        lemma_terminal_version_unchanged(v, tail);
    }
}

/// A conversion that cannot read the document it is given recovers with
/// the schema's default value; it never reports an error.
pub proof fn lemma_default_recovery(s: Schema, v: Val)
    requires
        s.spec_from_doc(v) is None,
    ensures
        s.spec_from_doc_or_default(v) == s.spec_default(),
{
}

/// A schema step always stamps its target's version tag: whenever it
/// produces a document, that document declares the step's target version.
pub proof fn lemma_schema_step_stamps(step: SchemaStep, v: Val)
    ensures
        step.spec_apply(v) is Ok ==> step.spec_apply(v)->Ok_0.version() == step.target.version,
{
    if step.spec_apply(v) is Ok {
        match step.source.spec_from_doc(v) {
            Some(t) => lemma_to_doc_version(step.target, t.value),
            None => lemma_to_doc_version(step.target, 0),
        }
    }
}

/// Whenever the plain composition of a non-empty schema-step chain
/// succeeds, the document it produces declares the version tag of the
/// last step's target shape.
pub proof fn lemma_chain_from_stamps_last(v: Val, transforms: Seq<SchemaStep>)
    requires
        transforms.len() > 0,
    ensures
        spec_chain_from(v, transforms) is Ok ==> spec_chain_from(v, transforms)->Ok_0.version()
            == transforms.last().target.version,
    decreases transforms.len(),
{
    lemma_schema_step_stamps(transforms[0], v);
    match transforms[0].spec_apply(v) {
        Ok(v2) => {
            if transforms.len() > 1 {
                let tail = transforms.skip(1);
                assert(forall|i: int|
                    0 <= i < tail.len() ==> #[trigger] tail[i] == transforms[i + 1]);
                lemma_chain_from_stamps_last(v2, tail);
                assert(tail.last() == transforms.last());
            } else {
                assert(transforms.last() == transforms[0]);
            }
        },
        Err(_) => {
        },
    }
}

/// Running a chain of schema steps that all lie ahead of the document
/// (every target version above the document's, targets strictly ascending
/// in chain order, and each step tagged with the version its target shape
/// carries) applies every transform: the gated run equals the plain
/// composition of the steps' conversions.
pub proof fn lemma_pending_chain_runs_all(v: Val, steps: Seq<Migration<SchemaStep>>)
    requires
        forall|i: int, j: int|
            0 <= i < j < steps.len() ==> #[trigger] steps[i].version < #[trigger] steps[j].version,
        forall|i: int| 0 <= i < steps.len() ==> (#[trigger] steps[i].migrate).target.version
            == steps[i].version,
        forall|i: int| 0 <= i < steps.len() ==> v.version() < #[trigger] steps[i].version,
    ensures
        spec_run(v, steps) == spec_chain_from(v, transforms_of(steps)),
    decreases steps.len(),
{
    let ms = transforms_of(steps);
    if steps.len() > 0 {
        assert(ms[0] == steps[0].migrate);
        assert(spec_step(v, steps[0]) == steps[0].migrate.spec_apply(v));
        let tail = steps.skip(1);
        assert(forall|i: int| 0 <= i < tail.len() ==> #[trigger] tail[i] == steps[i + 1]);
        assert(transforms_of(tail) =~= ms.skip(1));
        match steps[0].migrate.spec_apply(v) {
            Ok(v2) => {
                lemma_schema_step_stamps(steps[0].migrate, v);
                assert(v2.version() == steps[0].version);
                lemma_pending_chain_runs_all(v2, tail);
            },
            Err(_) => {
            },
        }
    }
}

/// The sorted-chain law: a chain of schema steps sorted strictly ascending
/// by target version, each step tagged with its target shape's version and
/// every target at least 1, applied to a document declaring version 0,
/// composes every step's conversion in order; when that composition
/// succeeds, the resulting document declares the highest target version of
/// the chain.
pub proof fn lemma_ascending_chain_from_zero(v: Val, steps: Seq<Migration<SchemaStep>>)
    requires
        v.version() == 0,
        forall|i: int, j: int|
            0 <= i < j < steps.len() ==> #[trigger] steps[i].version < #[trigger] steps[j].version,
        forall|i: int| 0 <= i < steps.len() ==> (#[trigger] steps[i].migrate).target.version
            == steps[i].version,
        forall|i: int| 0 <= i < steps.len() ==> #[trigger] steps[i].version >= 1,
    ensures
        spec_run(v, steps) == spec_chain_from(v, transforms_of(steps)),
        steps.len() > 0 && spec_run(v, steps) is Ok ==> spec_run(v, steps)->Ok_0.version()
            == steps.last().version,
{
    lemma_pending_chain_runs_all(v, steps);
    if steps.len() > 0 {
        let ms = transforms_of(steps);
        lemma_chain_from_stamps_last(v, ms);
        assert(ms.last() == steps.last().migrate);
    }
}

} // verus!
