//! Shared objects with explicit reference counts.
//!
//! An object lives in a slot of an [`ObjectStore`]. Owners hold a
//! [`SharedHandle`], which counts; values carry an [`ObjectRef`], which does
//! not. The payload of an object is dropped when its last handle is released,
//! and a slot is never used for a second object.
use crate::error::ShardError;
use crate::object_type::ObjectType;
use crate::types::ObjectRef;
use vstd::prelude::*;

verus! {

/// What a store knows of one object.
pub struct SlotModel<T> {
    /// The type the object was created with.
    pub object_type: ObjectType,
    /// How many handles to the object exist.
    pub refs: nat,
    /// The object itself, unless it was created without one or was dropped.
    pub payload: Option<T>,
}

/// Where an object is in its life.
#[derive(Clone, Copy, Debug, PartialEq, Eq, Structural)]
pub enum SlotState {
    /// Handles exist, but the object was created without a payload.
    Uninitialized,
    /// Handles exist and the payload is there.
    Live,
    /// No handle exists; the payload is gone.
    Released,
}

/// How many handles to the object in `slot` exist; none where there is no such
/// object.
pub open spec fn count_in<T>(slots: Seq<SlotModel<T>>, slot: int) -> nat {
    if 0 <= slot < slots.len() {
        slots[slot].refs
    } else {
        0
    }
}

/// The payload of the object in `slot`, if it has one.
pub open spec fn payload_in<T>(slots: Seq<SlotModel<T>>, slot: int) -> Option<T> {
    if 0 <= slot < slots.len() {
        slots[slot].payload
    } else {
        None
    }
}

/// Where the object in `slot` is in its life.
pub open spec fn state_in<T>(slots: Seq<SlotModel<T>>, slot: int) -> SlotState {
    if count_in(slots, slot) == 0 {
        SlotState::Released
    } else if payload_in(slots, slot) is Some {
        SlotState::Live
    } else {
        SlotState::Uninitialized
    }
}

/// Whether `object` refers to an object that still has a handle, under the
/// type it was created with.
pub open spec fn refers_to<T>(slots: Seq<SlotModel<T>>, object: ObjectRef) -> bool {
    &&& object.slot < slots.len()
    &&& slots[object.slot as int].object_type == object.object_type
    &&& slots[object.slot as int].refs > 0
}

/// Whether one more handle to `object` can be handed out.
pub open spec fn can_acquire_in<T>(slots: Seq<SlotModel<T>>, object: ObjectRef) -> bool {
    refers_to(slots, object) && slots[object.slot as int].refs < usize::MAX
}

/// What acquiring reports where it hands out no handle: the wrong type where
/// the object exists under another one, else a failure to acquire.
pub open spec fn acquire_error_in<T>(slots: Seq<SlotModel<T>>, object: ObjectRef) -> ShardError {
    if object.slot < slots.len() && slots[object.slot as int].object_type != object.object_type {
        ShardError::TypeMismatch
    } else {
        ShardError::WarmupFailure
    }
}

/// The model of a store after one more handle to the object in `slot` exists.
pub open spec fn with_acquired<T>(slots: Seq<SlotModel<T>>, slot: int) -> Seq<SlotModel<T>>
    recommends
        0 <= slot < slots.len(),
{
    slots.update(slot, SlotModel { refs: slots[slot].refs + 1, ..slots[slot] })
}

/// The model of a store after one handle to the object in `slot` is gone. The
/// payload goes with the last handle.
pub open spec fn with_released<T>(slots: Seq<SlotModel<T>>, slot: int) -> Seq<SlotModel<T>>
    recommends
        0 <= slot < slots.len(),
        slots[slot].refs > 0,
{
    slots.update(
        slot,
        SlotModel {
            refs: (slots[slot].refs - 1) as nat,
            payload: if slots[slot].refs == 1 {
                None
            } else {
                slots[slot].payload
            },
            ..slots[slot]
        },
    )
}

/// The model of a store after the payload of the object in `slot` became
/// `payload`.
pub open spec fn with_payload<T>(slots: Seq<SlotModel<T>>, slot: int, payload: T) -> Seq<
    SlotModel<T>,
>
    recommends
        0 <= slot < slots.len(),
{
    slots.update(slot, SlotModel { payload: Some(payload), ..slots[slot] })
}

/// The model of a store after the handle to `held`, if there is one, went
/// back. A handle to nothing in the store changes nothing.
pub open spec fn after_release<T>(slots: Seq<SlotModel<T>>, held: Option<ObjectRef>) -> Seq<
    SlotModel<T>,
> {
    match held {
        Some(object) if refers_to(slots, object) => with_released(slots, object.slot as int),
        _ => slots,
    }
}

/// Taking a handle to an object and giving it back leaves every object as it
/// was: the count is what it was before the handle was taken, and so is the
/// payload.
pub proof fn lemma_acquire_release_round_trip<T>(slots: Seq<SlotModel<T>>, object: ObjectRef)
    requires
        refers_to(slots, object),
    ensures
        refers_to(with_acquired(slots, object.slot as int), object),
        after_release(with_acquired(slots, object.slot as int), Some(object)) == slots,
{
}

/// Giving back a handle to an object takes exactly one from its count and
/// leaves every other object as it was. The payload stays while another
/// handle exists and goes with the last one.
pub proof fn lemma_release_takes_one<T>(slots: Seq<SlotModel<T>>, object: ObjectRef)
    requires
        refers_to(slots, object),
    ensures
        ({
            let after = after_release(slots, Some(object));
            let slot = object.slot as int;
            &&& after.len() == slots.len()
            &&& count_in(after, slot) == count_in(slots, slot) - 1
            &&& forall|other: int| 0 <= other < slots.len() && other != slot ==> after[other] == slots[other]
            &&& count_in(slots, slot) > 1 ==> payload_in(after, slot) == payload_in(slots, slot)
            &&& count_in(slots, slot) == 1 ==> state_in(after, slot) == SlotState::Released
                && payload_in(after, slot) is None
        }),
{
}

/// Giving back no handle, as a second cleanup does, changes nothing; and a
/// handle to an object that has none left changes nothing either.
pub proof fn lemma_release_without_handle<T>(slots: Seq<SlotModel<T>>, object: ObjectRef)
    ensures
        after_release(slots, None) == slots,
        !refers_to(slots, object) ==> after_release(slots, Some(object)) == slots,
{
}

/// An owning reference to a shared object. It comes from
/// [`ObjectStore::create`] or [`ObjectStore::acquire`] and goes back with
/// [`ObjectStore::release`]; it cannot be copied.
#[derive(Debug)]
pub struct SharedHandle {
    object_type: ObjectType,
    slot: usize,
}

impl View for SharedHandle {
    type V = ObjectRef;

    closed spec fn view(&self) -> ObjectRef {
        ObjectRef { object_type: self.object_type, slot: self.slot }
    }
}

impl SharedHandle {
    /// The reference that values carry for this handle's object.
    pub fn as_ref(&self) -> (object: ObjectRef)
        ensures
            object == self@,
    {
        ObjectRef { object_type: self.object_type, slot: self.slot }
    }
}

struct Slot<T> {
    object_type: ObjectType,
    refs: usize,
    payload: Option<T>,
}

impl<T> Slot<T> {
    spec fn model(self) -> SlotModel<T> {
        SlotModel {
            object_type: self.object_type,
            refs: self.refs as nat,
            payload: self.payload,
        }
    }
}

/// The objects that the shards of one graph share, each with its reference
/// count.
pub struct ObjectStore<T> {
    slots: Vec<Slot<T>>,
}

impl<T> View for ObjectStore<T> {
    type V = Seq<SlotModel<T>>;

    closed spec fn view(&self) -> Seq<SlotModel<T>> {
        Seq::new(self.slots.len() as nat, |i: int| self.slots[i].model())
    }
}

impl<T> ObjectStore<T> {
    /// How many handles to the object in `slot` exist; none where there is no
    /// such object.
    pub open spec fn count(&self, slot: int) -> nat {
        count_in(self@, slot)
    }

    /// The payload of the object in `slot`, if it has one.
    pub open spec fn payload(&self, slot: int) -> Option<T> {
        payload_in(self@, slot)
    }

    /// Where the object in `slot` is in its life.
    pub open spec fn spec_state(&self, slot: int) -> SlotState {
        state_in(self@, slot)
    }

    /// Whether `object` refers to an object of this store that still has a
    /// handle, under the type it was created with.
    pub open spec fn refers(&self, object: ObjectRef) -> bool {
        refers_to(self@, object)
    }

    /// Whether one more handle to `object` can be handed out.
    pub open spec fn can_acquire(&self, object: ObjectRef) -> bool {
        can_acquire_in(self@, object)
    }

    /// What [`ObjectStore::acquire`] reports where it hands out no handle.
    pub open spec fn acquire_error(&self, object: ObjectRef) -> ShardError {
        acquire_error_in(self@, object)
    }

    /// A store without objects.
    pub fn new() -> (store: Self)
        ensures
            store@ == Seq::<SlotModel<T>>::empty(),
    {
        ObjectStore { slots: Vec::new() }
    }

    /// The number of objects ever created in this store.
    pub fn len(&self) -> (n: usize)
        ensures
            n == self@.len(),
    {
        self.slots.len()
    }

    /// Creates an object in a slot of its own and returns the first handle to
    /// it. Without a payload the object is uninitialized.
    pub fn create(&mut self, object_type: ObjectType, payload: Option<T>) -> (handle: SharedHandle)
        ensures
            final(self)@ == old(self)@.push(SlotModel { object_type, refs: 1, payload }),
            handle@ == (ObjectRef { object_type, slot: old(self)@.len() as usize }),
            handle@.slot == old(self)@.len(),
    {
        let slot: usize = self.slots.len();
        self.slots.push(Slot { object_type, refs: 1, payload });
        SharedHandle { object_type, slot }
    }

    /// Hands out one more handle to the object that `object` refers to.
    ///
    /// Fails, and changes nothing, if there is no such object, if it has no
    /// handle left, if it is of another type than `object` says, or if its
    /// count cannot grow.
    pub fn acquire(&mut self, object: ObjectRef) -> (result: Result<SharedHandle, ShardError>)
        ensures
            match result {
                Ok(handle) => {
                    &&& old(self).can_acquire(object)
                    &&& handle@ == object
                    &&& final(self)@ == with_acquired(old(self)@, object.slot as int)
                },
                Err(error) => {
                    &&& !old(self).can_acquire(object)
                    &&& error == old(self).acquire_error(object)
                    &&& final(self)@ == old(self)@
                },
            },
    {
        if object.slot >= self.slots.len() {
            return Err(ShardError::WarmupFailure);
        }
        let slot = &mut self.slots[object.slot];
        if slot.object_type != object.object_type {
            return Err(ShardError::TypeMismatch);
        }
        if slot.refs == 0 || slot.refs == usize::MAX {
            return Err(ShardError::WarmupFailure);
        }
        slot.refs = slot.refs + 1;
        Ok(SharedHandle { object_type: object.object_type, slot: object.slot })
    }

    /// Takes a handle back. The object's payload is dropped with its last
    /// handle. A handle that refers to no object of this store changes nothing.
    pub fn release(&mut self, handle: SharedHandle)
        ensures
            final(self)@ == after_release(old(self)@, Some(handle@)),
    {
        if handle.slot < self.slots.len() {
            let slot = &mut self.slots[handle.slot];
            if slot.object_type == handle.object_type && slot.refs > 0 {
                if slot.refs == 1 {
                    slot.payload = None;
                }
                slot.refs = slot.refs - 1;
            }
        }
    }

    /// How many handles to the object exist; none if `object` refers to no
    /// object of this store.
    pub fn strong_count(&self, object: ObjectRef) -> (n: usize)
        ensures
            n == (if self.refers(object) {
                self.count(object.slot as int)
            } else {
                0
            }),
    {
        if object.slot < self.slots.len() {
            let slot = &self.slots[object.slot];
            if slot.object_type == object.object_type {
                return slot.refs;
            }
        }
        0
    }

    /// Where the object is in its life; released if `object` refers to no
    /// object of this store.
    pub fn state(&self, object: ObjectRef) -> (state: SlotState)
        ensures
            state == (if self.refers(object) {
                self.spec_state(object.slot as int)
            } else {
                SlotState::Released
            }),
    {
        if object.slot < self.slots.len() {
            let slot = &self.slots[object.slot];
            if slot.object_type == object.object_type && slot.refs > 0 {
                if slot.payload.is_some() {
                    return SlotState::Live;
                } else {
                    return SlotState::Uninitialized;
                }
            }
        }
        SlotState::Released
    }

    /// The payload of the object that `object` refers to, to look at; nothing
    /// if the object has none.
    pub fn get(&self, object: ObjectRef) -> (payload: Option<&T>)
        ensures
            payload == (if self.refers(object) {
                match self.payload(object.slot as int) {
                    Some(p) => Some(&p),
                    None => None,
                }
            } else {
                None
            }),
    {
        if object.slot < self.slots.len() {
            let slot = &self.slots[object.slot];
            if slot.object_type == object.object_type && slot.refs > 0 {
                return slot.payload.as_ref();
            }
        }
        None
    }

    /// The payload behind a handle, to change it in place; nothing if the
    /// object has none. Only the payload of that one object can change.
    pub fn get_mut(&mut self, handle: &SharedHandle) -> (payload: Option<&mut T>)
        ensures
            match payload {
                Some(p) => {
                    &&& old(self).refers(handle@)
                    &&& old(self).payload(handle@.slot as int) == Some(*p)
                    &&& final(self)@ == with_payload(old(self)@, handle@.slot as int, *final(p))
                },
                None => {
                    &&& !old(self).refers(handle@) || old(self).payload(handle@.slot as int) is None
                    &&& final(self)@ == old(self)@
                },
            },
    {
        if handle.slot < self.slots.len() {
            let slot = &mut self.slots[handle.slot];
            if slot.object_type == handle.object_type && slot.refs > 0 {
                return slot.payload.as_mut();
            }
        }
        None
    }
}

} // verus!
