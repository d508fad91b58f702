//! Type descriptors and the values that flow between shards.
use crate::object_type::ObjectType;
use vstd::prelude::*;

verus! {

/// Describes the shape of a value: what a shard accepts, produces, exposes or
/// requires.
#[derive(Debug)]
pub enum Type {
    /// No value at all.
    NoValue,
    /// Any value.
    Any,
    Bool,
    Int,
    String,
    /// An opaque object of the given type.
    Object(ObjectType),
    /// A reference to a variable that holds a value of the inner type.
    ContextVariable(Box<Type>),
}

impl Type {
    /// An object descriptor for the given vendor and type identifiers.
    pub fn object(vendor: u32, type_id: u32) -> (t: Type)
        ensures
            t == Type::Object(ObjectType { vendor, type_id }),
    {
        Type::Object(ObjectType { vendor, type_id })
    }

    /// A descriptor of a variable that holds a value of type `inner`.
    pub fn context_variable(inner: Type) -> (t: Type)
        ensures
            t == Type::ContextVariable(Box::new(inner)),
    {
        Type::ContextVariable(Box::new(inner))
    }

    /// Whether two descriptors are the same. Object descriptors are the same
    /// exactly when both identifiers match.
    pub fn same(&self, other: &Type) -> (r: bool)
        ensures
            r == (*self == *other),
        decreases *self,
    {
        match (self, other) {
            (Type::NoValue, Type::NoValue) => true,
            (Type::Any, Type::Any) => true,
            (Type::Bool, Type::Bool) => true,
            (Type::Int, Type::Int) => true,
            (Type::String, Type::String) => true,
            (Type::Object(a), Type::Object(b)) => a.vendor == b.vendor && a.type_id == b.type_id,
            (Type::ContextVariable(a), Type::ContextVariable(b)) => a.same(b),
            _ => false,
        }
    }

    /// A copy of this descriptor.
    pub fn duplicate(&self) -> (t: Type)
        ensures
            t == *self,
        decreases *self,
    {
        match self {
            Type::NoValue => Type::NoValue,
            Type::Any => Type::Any,
            Type::Bool => Type::Bool,
            Type::Int => Type::Int,
            Type::String => Type::String,
            Type::Object(object_type) => Type::Object(*object_type),
            Type::ContextVariable(inner) => Type::ContextVariable(Box::new(inner.duplicate())),
        }
    }
}

impl Clone for Type {
    fn clone(&self) -> (t: Type)
        ensures
            t == *self,
    {
        self.duplicate()
    }
}

impl PartialEq for Type {
    fn eq(&self, other: &Type) -> (r: bool) {
        self.same(other)
    }
}

impl Eq for Type {

}

impl vstd::std_specs::cmp::PartialEqSpecImpl for Type {
    open spec fn obeys_eq_spec() -> bool {
        true
    }

    open spec fn eq_spec(&self, other: &Type) -> bool {
        *self == *other
    }
}

/// A reference to a shared object that does not own it: the object's type and
/// the slot of the object store in which it lives. Copying one does not change
/// the object's reference count.
#[derive(Clone, Copy, Debug, PartialEq, Eq, Structural)]
pub struct ObjectRef {
    pub object_type: ObjectType,
    pub slot: usize,
}

/// A value that flows along an edge of the graph or sits in a variable.
#[derive(Clone, Copy, Debug, PartialEq, Eq, Structural)]
pub enum Value {
    /// No value.
    NoValue,
    Bool(bool),
    Int(i64),
    /// A shared object, by reference.
    Object(ObjectRef),
}

impl Value {
    /// The descriptor of this value's type.
    pub open spec fn spec_type_of(self) -> Type {
        match self {
            Value::NoValue => Type::NoValue,
            Value::Bool(_) => Type::Bool,
            Value::Int(_) => Type::Int,
            Value::Object(object) => Type::Object(object.object_type),
        }
    }

    /// The descriptor of this value's type.
    pub fn type_of(&self) -> (t: Type)
        ensures
            t == self.spec_type_of(),
    {
        match self {
            Value::NoValue => Type::NoValue,
            Value::Bool(_) => Type::Bool,
            Value::Int(_) => Type::Int,
            Value::Object(object) => Type::Object(object.object_type),
        }
    }

    /// A value that refers to the object in `slot`, tagged with its type.
    pub fn new_object(slot: usize, object_type: ObjectType) -> (value: Value)
        ensures
            value == Value::Object(ObjectRef { object_type, slot }),
    {
        Value::Object(ObjectRef { object_type, slot })
    }

    /// The object this value refers to, if it is an object of the expected type.
    pub fn as_object(&self, expected: ObjectType) -> (object: Option<ObjectRef>)
        ensures
            object == match *self {
                Value::Object(o) if o.object_type == expected => Some(o),
                _ => None::<ObjectRef>,
            },
    {
        match self {
            Value::Object(o) => {
                if o.object_type == expected {
                    Some(*o)
                } else {
                    None
                }
            },
            _ => None,
        }
    }
}

} // verus!
