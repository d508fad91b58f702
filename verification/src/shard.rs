//! The contract that every shard meets: what it declares and how it lives.
use crate::context::ExecContext;
use crate::error::ShardError;
use crate::hash::spec_stable_hash;
use crate::objects::{after_release, count_in, refers_to, SlotModel};
use crate::types::{ObjectRef, Type, Value};
use crate::variables::{declared, ExposedTypes, VariableModel};
use vstd::prelude::*;

verus! {

/// Where a shard is in its life. It starts fresh, a successful warmup makes it
/// warm, and the cleanup of a warm shard leaves it cold for good.
#[derive(Clone, Copy, Debug, PartialEq, Eq, Structural)]
pub enum Phase {
    Fresh,
    Warm,
    Cold,
}

impl Phase {
    /// The phase after cleanup: a shard that never warmed up stays fresh, any
    /// other is cold.
    pub open spec fn after_cleanup(self) -> Phase {
        match self {
            Phase::Fresh => Phase::Fresh,
            _ => Phase::Cold,
        }
    }
}

/// Whether two contexts hold the same objects with the same reference counts.
/// The payloads may differ.
pub open spec fn same_counts(before: &ExecContext, after: &ExecContext) -> bool {
    &&& after@.objects.len() == before@.objects.len()
    &&& forall|slot: int|
        0 <= slot < before@.objects.len() ==> {
            &&& (#[trigger] after@.objects[slot]).refs == before@.objects[slot].refs
            &&& after@.objects[slot].object_type == before@.objects[slot].object_type
        }
}

/// The first cleanup of a shard gives back the one handle that the shard
/// holds, which takes exactly one from that object's count and leaves every
/// other object as it was. After it the shard holds nothing, so a second
/// cleanup gives back nothing and changes nothing.
pub proof fn lemma_cleanup_releases_once<T>(slots: Seq<SlotModel<T>>, held: ObjectRef)
    requires
        refers_to(slots, held),
    ensures
        ({
            let once = after_release(slots, Some(held));
            let twice = after_release(once, None);
            &&& once.len() == slots.len()
            &&& count_in(once, held.slot as int) == count_in(slots, held.slot as int) - 1
            &&& forall|other: int|
                0 <= other < slots.len() && other != held.slot ==> once[other] == slots[other]
            &&& twice == once
        }),
{
}

/// A processing unit of a graph.
///
/// A shard says under which name it is registered and what it takes, gives,
/// exposes and requires, all before it runs. It then runs through
/// `warmup`, any number of `activate`s and `cleanup`. Whatever handle it takes
/// at warmup it gives back at cleanup.
pub trait Shard: Sized {
    /// The name under which the shard is registered.
    spec fn spec_name() -> Seq<char>;

    /// The types of value that the shard accepts.
    spec fn spec_input_types() -> Seq<Type>;

    /// The types of value that the shard produces.
    spec fn spec_output_types() -> Seq<Type>;

    /// The variables that the shard publishes into the scope.
    spec fn spec_exposed() -> Seq<VariableModel>;

    /// The variables that the shard expects to find in scope.
    spec fn spec_required() -> Seq<VariableModel>;

    /// Where the shard is in its life.
    spec fn phase(&self) -> Phase;

    /// The shared object to which the shard holds a handle.
    spec fn held(&self) -> Option<ObjectRef>;

    /// A shard holds a handle only while it is warm.
    proof fn lemma_holds_only_warm(&self)
        ensures
            self.held() is Some ==> self.phase() == Phase::Warm,
    ;

    /// Where the shard is in its life.
    fn state(&self) -> (phase: Phase)
        ensures
            phase == self.phase(),
    ;

    fn registerName() -> (name: &'static str)
        ensures
            name@ == Self::spec_name(),
    ;

    /// The shard's stable hash, which depends on its registered name alone.
    fn hash() -> (hash: u32)
        ensures
            hash == spec_stable_hash(Self::spec_name()),
    ;

    fn name(&self) -> (name: &str)
        ensures
            name@ == Self::spec_name(),
    ;

    /// The types of value that the shard accepts.
    fn inputTypes(&self) -> (types: Vec<Type>)
        ensures
            types@ == Self::spec_input_types(),
    ;

    /// The types of value that the shard produces.
    fn outputTypes(&self) -> (types: Vec<Type>)
        ensures
            types@ == Self::spec_output_types(),
    ;

    /// The variables that the shard publishes into the scope, if any. The
    /// answer is the same whatever state the shard is in.
    fn exposedVariables(&mut self) -> (exposed: Option<&ExposedTypes>)
        ensures
            final(self).phase() == old(self).phase(),
            final(self).held() == old(self).held(),
            match exposed {
                Some(list) => declared(list@) == Self::spec_exposed(),
                None => Self::spec_exposed().len() == 0,
            },
    ;

    /// The variables that the shard expects to find in scope, if any. The
    /// answer is the same whatever state the shard is in.
    fn requiredVariables(&mut self) -> (required: Option<&ExposedTypes>)
        ensures
            final(self).phase() == old(self).phase(),
            final(self).held() == old(self).held(),
            match required {
                Some(list) => declared(list@) == Self::spec_required(),
                None => Self::spec_required().len() == 0,
            },
    ;

    /// Acquires what the shard needs to run. Only a fresh shard warms up, and
    /// a warmup that fails changes neither the shard nor the context.
    fn warmup(&mut self, ctx: &mut ExecContext) -> (result: Result<(), ShardError>)
        ensures
            final(ctx)@.variables == old(ctx)@.variables,
            old(self).phase() != Phase::Fresh ==> result == Err::<(), ShardError>(
                ShardError::WarmupFailure,
            ),
            result is Ok ==> {
                &&& final(self).phase() == Phase::Warm
                &&& final(self).held() matches Some(object) ==> refers_to(
                    final(ctx)@.objects,
                    object,
                )
            },
            result is Err ==> {
                &&& final(self).phase() == old(self).phase()
                &&& final(self).held() == old(self).held()
                &&& final(ctx)@ == old(ctx)@
            },
    ;

    /// Takes one value and gives one back. Only a warm shard does so. The
    /// shard stays as it is, and no reference count changes.
    fn activate(&mut self, ctx: &mut ExecContext, input: &Value) -> (result: Result<
        Value,
        ShardError,
    >)
        ensures
            final(self).phase() == old(self).phase(),
            final(self).held() == old(self).held(),
            final(ctx)@.variables == old(ctx)@.variables,
            same_counts(old(ctx), final(ctx)),
            old(self).phase() != Phase::Warm ==> {
                &&& result == Err::<Value, ShardError>(ShardError::ActivationFailure)
                &&& final(ctx)@ == old(ctx)@
            },
    ;

    /// Gives back the handle that the shard holds, if it holds one. It is safe
    /// at any time and any number of times.
    fn cleanup(&mut self, ctx: &mut ExecContext)
        ensures
            final(self).phase() == old(self).phase().after_cleanup(),
            final(self).held() is None,
            final(ctx)@.variables == old(ctx)@.variables,
            final(ctx)@.objects == after_release(old(ctx)@.objects, old(self).held()),
    ;
}

} // verus!
