//! Object type identity: vendor and type identifiers, and their 64-bit tag.
use vstd::prelude::*;

verus! {

/// Vendor identifier of every object type defined here: the four characters `frag`.
pub const FRAG_CC: u32 = 0x6672_6167;

/// Type identifier of the GUI context object: the four characters `eguC`.
pub const EGUI_CTX_CC: u32 = 0x6567_7543;

/// Type identifier of a GUI region object: the four characters `eguU`.
pub const EGUI_UI_CC: u32 = 0x6567_7555;

/// Identity of an object type: who defined it and which of their types it is.
///
/// This pair is all that two independently built shards share about an object
/// they exchange.
#[derive(Clone, Copy, Debug, PartialEq, Eq, Structural)]
pub struct ObjectType {
    pub vendor: u32,
    pub type_id: u32,
}

impl ObjectType {
    /// The pair as one 64-bit number, the vendor in the upper half.
    pub open spec fn spec_tag(self) -> u64 {
        (self.vendor as u64) << 32 | (self.type_id as u64)
    }

    /// The pair that a 64-bit tag stands for.
    pub open spec fn spec_from_tag(tag: u64) -> ObjectType {
        ObjectType { vendor: (tag >> 32) as u32, type_id: (tag & 0xFFFF_FFFF) as u32 }
    }

    pub fn new(vendor: u32, type_id: u32) -> (object_type: ObjectType)
        ensures
            object_type == (ObjectType { vendor, type_id }),
    {
        ObjectType { vendor, type_id }
    }

    /// The compound tag of this type.
    pub fn tag(&self) -> (tag: u64)
        ensures
            tag == self.spec_tag(),
            tag == self.vendor * 0x1_0000_0000 + self.type_id,
    {
        let vendor: u32 = self.vendor;
        let type_id: u32 = self.type_id;
        assert(((vendor as u64) << 32 | (type_id as u64)) == vendor * 0x1_0000_0000 + type_id)
            by (bit_vector);
        (vendor as u64) << 32 | (type_id as u64)
    }

    /// The type that a compound tag stands for.
    pub fn from_tag(tag: u64) -> (object_type: ObjectType)
        ensures
            object_type == Self::spec_from_tag(tag),
            object_type.spec_tag() == tag,
    {
        assert(((((tag >> 32) as u32) as u64) << 32 | (((tag & 0xFFFF_FFFF) as u32) as u64)) == tag)
            by (bit_vector);
        ObjectType { vendor: (tag >> 32) as u32, type_id: (tag & 0xFFFF_FFFF) as u32 }
    }

    /// Equal tags mean equal types: both identifiers match.
    pub proof fn lemma_tag_injective(a: ObjectType, b: ObjectType)
        ensures
            a.spec_tag() == b.spec_tag() <==> a == b,
    {
        let (av, at, bv, bt) = (a.vendor, a.type_id, b.vendor, b.type_id);
        assert(((av as u64) << 32 | (at as u64)) == ((bv as u64) << 32 | (bt as u64)) ==> av == bv
            && at == bt) by (bit_vector);
    }

    /// Taking a type's tag apart gives the type back.
    pub proof fn lemma_tag_round_trip(a: ObjectType)
        ensures
            Self::spec_from_tag(a.spec_tag()) == a,
    {
        let (av, at) = (a.vendor, a.type_id);
        assert(((((av as u64) << 32 | (at as u64)) >> 32) as u32) == av && ((((av as u64) << 32 | (
        at as u64)) & 0xFFFF_FFFF) as u32) == at) by (bit_vector);
    }
}

/// Type of the GUI context object that the context shard creates.
pub open spec fn spec_egui_ctx_type() -> ObjectType {
    ObjectType { vendor: FRAG_CC, type_id: EGUI_CTX_CC }
}

/// Type of a GUI region object.
pub open spec fn spec_egui_ui_type() -> ObjectType {
    ObjectType { vendor: FRAG_CC, type_id: EGUI_UI_CC }
}

#[verifier::when_used_as_spec(spec_egui_ctx_type)]
pub fn egui_ctx_type() -> (object_type: ObjectType)
    ensures
        object_type == spec_egui_ctx_type(),
{
    ObjectType { vendor: FRAG_CC, type_id: EGUI_CTX_CC }
}

#[verifier::when_used_as_spec(spec_egui_ui_type)]
pub fn egui_ui_type() -> (object_type: ObjectType)
    ensures
        object_type == spec_egui_ui_type(),
{
    ObjectType { vendor: FRAG_CC, type_id: EGUI_UI_CC }
}

} // verus!
