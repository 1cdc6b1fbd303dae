use vstd::prelude::*;

use crate::doc::{Doc, Val};
use crate::schema::{Schema, Typed, Versioned};

verus! {

/// Error reported by a migration chain.
#[derive(Clone, Copy, PartialEq, Eq, Debug)]
pub enum MigrationError {
    /// A migration step's transform reported failure; the message names
    /// the reason. A failure mid-chain stops the run at once.
    Failed(&'static str),
}

/// One document transform. Implementations say in `spec_apply` exactly
/// which document or error `apply` produces, so that chains built from
/// them have exact contracts.
pub trait Transform: Sized {
    /// The document or error the transform produces for `v`.
    spec fn spec_apply(&self, v: Val) -> Result<Val, MigrationError>;

    /// Applies the transform to a document.
    fn apply(&self, d: &Doc) -> (r: Result<Doc, MigrationError>)
        ensures
            r is Ok <==> self.spec_apply(d@) is Ok,
            r is Ok ==> r->Ok_0@ == self.spec_apply(d@)->Ok_0,
            r is Err ==> r->Err_0 == self.spec_apply(d@)->Err_0,
    ;
}

/// A migration step: a transform tagged with the schema version it
/// upgrades a document to.
pub struct Migration<T> {
    /// The step runs only on documents whose declared version is below
    /// this target version.
    pub version: u32,
    /// The transform the step applies.
    pub migrate: T,
}

/// What the chain does with document `v` at step `m`: the transform runs
/// only when the step's target version exceeds the version the document
/// declares; otherwise the document passes through unchanged.
pub open spec fn spec_step<T: Transform>(v: Val, m: Migration<T>) -> Result<
    Val,
    MigrationError,
> {
    if m.version > v.version() {
        m.migrate.spec_apply(v)
    } else {
        Ok(v)
    }
}

/// The document produced by running the steps in the order given, each
/// gated on the version the document declares at that point, or the first
/// error a transform reports.
pub open spec fn spec_run<T: Transform>(v: Val, steps: Seq<Migration<T>>) -> Result<
    Val,
    MigrationError,
>
    decreases steps.len(),
{
    if steps.len() <= 0 {
        Ok(v)
    } else {
        match spec_step(v, steps[0]) {
            Ok(v2) => spec_run(v2, steps.skip(1)),
            Err(e) => Err(e),
        }
    }
}

/// Runs a migration chain over a document. Every step whose target version
/// exceeds the document's declared version is applied, in the order given;
/// a step failure is returned at once. The declared version is re-read
/// from the document before each step, so a transform is expected to stamp
/// the version of the shape it produces.
pub fn run_migrations<T: Transform>(data: Doc, migrations: &Vec<Migration<T>>) -> (r: Result<
    Doc,
    MigrationError,
>)
    ensures
        r is Ok <==> spec_run(data@, migrations@) is Ok,
        r is Ok ==> r->Ok_0@ == spec_run(data@, migrations@)->Ok_0,
        r is Err ==> r->Err_0 == spec_run(data@, migrations@)->Err_0,
{
    let ghost all = migrations@;
    let mut result = data;
    proof {
        assert(all.skip(0) =~= all);
    }
    let mut i: usize = 0;
    while i < migrations.len()
        invariant
            i <= all.len(),
            all == migrations@,
            spec_run(data@, all) == spec_run(result@, all.skip(i as int)),
        decreases all.len() - i,
    {
        let m = &migrations[i];
        proof {
            assert(all.skip(i as int)[0] == all[i as int]);
            assert(all.skip(i as int).skip(1) =~= all.skip(i as int + 1));
        }
        if m.version > result.get_version() {
            match m.migrate.apply(&result) {
                Ok(next) => {
                    result = next;
                },
                Err(e) => {
                    return Err(e);
                },
            }
        }
        i = i + 1;
    }
    proof {
        assert(all.skip(i as int) =~= Seq::<Migration<T>>::empty());
    }
    Ok(result)
}

/// Unconditional composition: the document produced by applying each
/// transform in order, with no version gating, or the first error.
pub open spec fn spec_chain_from<T: Transform>(v: Val, transforms: Seq<T>) -> Result<
    Val,
    MigrationError,
>
    decreases transforms.len(),
{
    if transforms.len() <= 0 {
        Ok(v)
    } else {
        match transforms[0].spec_apply(v) {
            Ok(v2) => spec_chain_from(v2, transforms.skip(1)),
            Err(e) => Err(e),
        }
    }
}

/// Applies a chain of transforms to a document unconditionally, in the
/// order given: the plain composition of the conversions, with no version
/// gating. A failure is returned at once.
pub fn chain_from<T: Transform>(data: Doc, transforms: &Vec<T>) -> (r: Result<
    Doc,
    MigrationError,
>)
    ensures
        r is Ok <==> spec_chain_from(data@, transforms@) is Ok,
        r is Ok ==> r->Ok_0@ == spec_chain_from(data@, transforms@)->Ok_0,
        r is Err ==> r->Err_0 == spec_chain_from(data@, transforms@)->Err_0,
{
    let ghost all = transforms@;
    let mut result = data;
    proof {
        assert(all.skip(0) =~= all);
    }
    let mut i: usize = 0;
    while i < transforms.len()
        invariant
            i <= all.len(),
            all == transforms@,
            spec_chain_from(data@, all) == spec_chain_from(result@, all.skip(i as int)),
        decreases all.len() - i,
    {
        proof {
            assert(all.skip(i as int)[0] == all[i as int]);
            assert(all.skip(i as int).skip(1) =~= all.skip(i as int + 1));
        }
        match transforms[i].apply(&result) {
            Ok(next) => {
                result = next;
            },
            Err(e) => {
                return Err(e);
            },
        }
        i = i + 1;
    }
    proof {
        assert(all.skip(i as int) =~= Seq::<T>::empty());
    }
    Ok(result)
}

/// Runs a migration chain and binds the final document to the `target`
/// schema. The conversion is lenient: a final document that does not fit
/// the schema yields the schema's default value, never an error. Only a
/// failing transform step makes this call fail.
pub fn do_migrate<T: Transform>(data: Doc, migrations: Vec<Migration<T>>, target: &Schema) -> (r:
    Result<Typed, MigrationError>)
    ensures
        match spec_run(data@, migrations@) {
            Ok(v) => r == Ok::<Typed, MigrationError>(target.spec_from_doc_or_default(v)),
            Err(e) => r == Err::<Typed, MigrationError>(e),
        },
{
    match run_migrations(data, &migrations) {
        Ok(d) => Ok(target.from_doc_or_default(&d)),
        Err(e) => Err(e),
    }
}

/// A step between two single-field schema revisions: the document is read
/// as the source revision and rebuilt in the target shape, carrying the
/// data value across and stamping the target's version tag. This mirrors
/// a chain of typed revisions in which each revision is built from the
/// previous one.
pub struct SchemaStep {
    /// Shape the step reads.
    pub source: Schema,
    /// Shape the step writes; a chain is consistent when this version is
    /// the owning `Migration`'s target version.
    pub target: Schema,
    /// A strict step fails on a document that does not fit the source
    /// revision; a lenient one falls back to the source's default value.
    pub strict: bool,
    /// The message a strict step reports on failure.
    pub message: &'static str,
}

impl Transform for SchemaStep {
    open spec fn spec_apply(&self, v: Val) -> Result<Val, MigrationError> {
        match self.source.spec_from_doc(v) {
            Some(t) => Ok(self.target.spec_to_doc(t.value)),
            None => if self.strict {
                Err(MigrationError::Failed(self.message))
            } else {
                Ok(self.target.spec_to_doc(0))
            },
        }
    }

    fn apply(&self, d: &Doc) -> Result<Doc, MigrationError> {
        match self.source.from_doc(d) {
            Some(t) => Ok(self.target.to_doc(t.value)),
            None => {
                if self.strict {
                    Err(MigrationError::Failed(self.message))
                } else {
                    Ok(self.target.to_doc(0))
                }
            },
        }
    }
}

} // verus!
