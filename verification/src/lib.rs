//! Building blocks of a dataflow engine's GUI shards: typed values, named
//! variables, reference-counted shared objects, the shard lifecycle and the
//! two GUI shards built on them.
#![allow(non_snake_case)]

pub mod context;
pub mod error;
pub mod gui;
pub mod hash;
pub mod object_type;
pub mod objects;
pub mod registry;
pub mod shard;
pub mod table;
pub mod types;
pub mod ui;
pub mod variables;
