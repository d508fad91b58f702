//! The table of the shards that a graph can be built from.
use crate::hash::spec_stable_hash;
use crate::shard::Shard;
use crate::table::NameTable;
use vstd::prelude::*;

verus! {

/// Why a shard was not registered.
#[derive(Clone, Copy, Debug, PartialEq, Eq, Structural)]
pub enum RegistryError {
    /// A shard of that name is registered already.
    DuplicateName,
}

/// What the registry keeps of one shard: its stable hash and what makes
/// instances of it.
pub struct Registration<F> {
    pub hash: u32,
    pub factory: F,
}

/// The registered shards, by name. It is filled once, before any graph is
/// built.
pub struct Registry<F> {
    shards: NameTable<Registration<F>>,
}

impl<F> View for Registry<F> {
    type V = Map<Seq<char>, Registration<F>>;

    closed spec fn view(&self) -> Map<Seq<char>, Registration<F>> {
        self.shards@
    }
}

impl<F> Registry<F> {
    /// A registry without shards.
    pub fn new() -> (registry: Self)
        ensures
            registry@ == Map::<Seq<char>, Registration<F>>::empty(),
    {
        Registry { shards: NameTable::new() }
    }

    /// Whether a shard is registered as `name`.
    pub fn contains(&self, name: &str) -> (found: bool)
        ensures
            found == self@.dom().contains(name@),
    {
        self.shards.contains(name)
    }

    /// What is registered as `name`, if anything.
    pub fn lookup(&self, name: &str) -> (found: Option<&Registration<F>>)
        ensures
            found == (if self@.dom().contains(name@) {
                Some(&self@[name@])
            } else {
                None
            }),
    {
        self.shards.get(name)
    }

    /// Registers a shard under `name`. A second registration under a name
    /// fails and leaves the first in place.
    pub fn register(&mut self, name: &str, hash: u32, factory: F) -> (result: Result<
        (),
        RegistryError,
    >)
        ensures
            result is Ok <==> !old(self)@.dom().contains(name@),
            result is Ok ==> final(self)@ == old(self)@.insert(
                name@,
                Registration { hash, factory },
            ),
            result is Err ==> final(self)@ == old(self)@,
    {
        if self.shards.add(name, Registration { hash, factory }) {
            Ok(())
        } else {
            Err(RegistryError::DuplicateName)
        }
    }

    /// Forgets every shard.
    pub fn clear(&mut self)
        ensures
            final(self)@ == Map::<Seq<char>, Registration<F>>::empty(),
    {
        self.shards.clear();
    }
}

/// Registers the shard type `T` under its own name and with its own hash.
pub fn registerShard<T: Shard, F>(registry: &mut Registry<F>, factory: F) -> (result: Result<
    (),
    RegistryError,
>)
    ensures
        result is Ok <==> !old(registry)@.dom().contains(T::spec_name()),
        result is Ok ==> final(registry)@ == old(registry)@.insert(
            T::spec_name(),
            Registration { hash: spec_stable_hash(T::spec_name()), factory },
        ),
        result is Err ==> final(registry)@ == old(registry)@,
{
    registry.register(T::registerName(), T::hash(), factory)
}

} // verus!
