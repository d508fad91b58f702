//! What a shard says about the variables it exposes and requires.
use crate::types::Type;
use vstd::prelude::*;

verus! {

/// What a declaration says, with its texts as plain sequences of characters.
pub struct VariableModel {
    pub name: Seq<char>,
    pub exposed_type: Type,
    pub help: Seq<char>,
    pub is_mutable: bool,
}

/// The declaration of one variable: what a shard publishes into the scope
/// under that name, or expects to find there.
#[derive(Debug)]
pub struct ExposedInfo {
    pub name: String,
    pub exposedType: Type,
    pub help: String,
    pub isMutable: bool,
}

/// The lists in which a shard declares its variables.
pub type ExposedTypes = Vec<ExposedInfo>;

impl View for ExposedInfo {
    type V = VariableModel;

    open spec fn view(&self) -> VariableModel {
        VariableModel {
            name: self.name@,
            exposed_type: self.exposedType,
            help: self.help@,
            is_mutable: self.isMutable,
        }
    }
}

/// What a list of declarations says, one by one.
pub open spec fn declared(list: Seq<ExposedInfo>) -> Seq<VariableModel> {
    list.map_values(|info: ExposedInfo| info@)
}

/// What the declaration of an immutable variable says.
pub open spec fn immutable_variable(name: Seq<char>, exposed_type: Type, help: Seq<char>) -> VariableModel {
    VariableModel { name, exposed_type, help, is_mutable: false }
}

/// Declares an immutable variable. The declaration is made anew at every call.
pub fn declare_exposed(name: &str, exposed_type: Type, help: &str) -> (info: ExposedInfo)
    ensures
        info@ == immutable_variable(name@, exposed_type, help@),
{
    ExposedInfo {
        name: name.to_owned(),
        exposedType: exposed_type,
        help: help.to_owned(),
        isMutable: false,
    }
}

} // verus!
