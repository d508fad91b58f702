//! The execution context of one graph: the variables in scope and the objects
//! that its shards share.
use crate::error::ShardError;
use crate::object_type::ObjectType;
use crate::objects::{
    acquire_error_in, after_release, can_acquire_in, count_in, lemma_acquire_release_round_trip,
    with_acquired, ObjectStore, SharedHandle, SlotModel,
};
use crate::table::NameTable;
use crate::types::{ObjectRef, Value};
use crate::ui::UiContext;
use vstd::prelude::*;

verus! {

/// What a context holds.
pub struct ContextModel {
    /// The variables in scope, by name.
    pub variables: Map<Seq<char>, Value>,
    /// The shared objects, by slot.
    pub objects: Seq<SlotModel<UiContext>>,
}

/// What a shard is handed at warmup, activation and cleanup.
pub struct ExecContext {
    pub variables: NameTable<Value>,
    pub objects: ObjectStore<UiContext>,
}

impl View for ExecContext {
    type V = ContextModel;

    open spec fn view(&self) -> ContextModel {
        ContextModel { variables: self.variables@, objects: self.objects@ }
    }
}

impl ContextModel {
    /// What binding the variable `name` as an object of type `expected` comes
    /// to: the object to take a handle to, or the reason why there is none.
    pub open spec fn bind(self, name: Seq<char>, expected: ObjectType) -> Result<
        ObjectRef,
        ShardError,
    > {
        if !self.variables.dom().contains(name) {
            Err(ShardError::MissingVariable)
        } else {
            match self.variables[name] {
                Value::Object(object) => {
                    if object.object_type != expected {
                        Err(ShardError::TypeMismatch)
                    } else if can_acquire_in(self.objects, object) {
                        Ok(object)
                    } else {
                        Err(acquire_error_in(self.objects, object))
                    }
                },
                _ => Err(ShardError::TypeMismatch),
            }
        }
    }
}

/// Binding a variable and releasing what the binding gave leaves every object
/// as it was before: the reference count is back at its value before the
/// binding.
pub proof fn lemma_bind_release_round_trip(ctx: ContextModel, name: Seq<char>, expected: ObjectType)
    requires
        ctx.bind(name, expected) is Ok,
    ensures
        ({
            let object = ctx.bind(name, expected)->Ok_0;
            let bound = with_acquired(ctx.objects, object.slot as int);
            &&& ctx.variables[name] == Value::Object(object)
            &&& object.object_type == expected
            &&& count_in(bound, object.slot as int) == count_in(ctx.objects, object.slot as int)
                + 1
            &&& after_release(bound, Some(object)) == ctx.objects
        }),
{
    let object = ctx.bind(name, expected)->Ok_0;
    lemma_acquire_release_round_trip(ctx.objects, object);
}

impl ExecContext {
    /// A context without variables and objects.
    pub fn new() -> (ctx: ExecContext)
        ensures
            ctx@.variables == Map::<Seq<char>, Value>::empty(),
            ctx@.objects == Seq::<SlotModel<UiContext>>::empty(),
    {
        ExecContext { variables: NameTable::new(), objects: ObjectStore::new() }
    }

    /// Publishes `value` under `name`, in place of what was there.
    pub fn expose(&mut self, name: &str, value: Value)
        ensures
            final(self)@.variables == old(self)@.variables.insert(name@, value),
            final(self)@.objects == old(self)@.objects,
    {
        self.variables.set(name, value);
    }

    /// Looks up the variable `name` and takes a handle to the object it
    /// refers to.
    ///
    /// Fails with `MissingVariable` if no variable has that name, with
    /// `TypeMismatch` if the variable is not an object of type `expected`, and
    /// as [`ObjectStore::acquire`] does if no handle can be had. A failure
    /// changes nothing.
    pub fn bind(&mut self, name: &str, expected: ObjectType) -> (result: Result<
        SharedHandle,
        ShardError,
    >)
        ensures
            final(self)@.variables == old(self)@.variables,
            match result {
                Ok(handle) => {
                    &&& old(self)@.bind(name@, expected) == Ok::<ObjectRef, ShardError>(handle@)
                    &&& final(self)@.objects == with_acquired(
                        old(self)@.objects,
                        handle@.slot as int,
                    )
                },
                Err(error) => {
                    &&& old(self)@.bind(name@, expected) == Err::<ObjectRef, ShardError>(error)
                    &&& final(self)@.objects == old(self)@.objects
                },
            },
    {
        let object = match self.variables.get(name) {
            None => {
                return Err(ShardError::MissingVariable);
            },
            Some(value) => match value.as_object(expected) {
                None => {
                    return Err(ShardError::TypeMismatch);
                },
                Some(object) => object,
            },
        };
        self.objects.acquire(object)
    }

    /// Gives back what [`ExecContext::bind`] returned. Without a handle, as
    /// after a failed bind, it does nothing.
    pub fn release(&mut self, handle: Option<SharedHandle>)
        ensures
            final(self)@.variables == old(self)@.variables,
            final(self)@.objects == after_release(
                old(self)@.objects,
                match handle {
                    Some(h) => Some(h@),
                    None => None,
                },
            ),
    {
        match handle {
            Some(h) => self.objects.release(h),
            None => {},
        }
    }
}

} // verus!
