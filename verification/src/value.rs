//! The engine-visible value representations and the per-kind table of
//! rooting behaviour: which kinds exist, what a freshly constructed slot of
//! each kind holds, and which kinds require a post-write barrier.

use vstd::prelude::*;

verus! {

/// The closed set of rootable reference kinds. Each execution context keeps
/// one root list per kind.
#[derive(Clone, Copy, PartialEq, Eq, Structural, Debug)]
pub enum RootKind {
    Object,
    StringRef,
    Symbol,
    Script,
    Id,
    Value,
}

/// A tagged engine value. Heap references are carried as opaque nonzero
/// engine addresses; doubles are carried as their IEEE-754 bit patterns so
/// that zero and NaN tests stay exact.
#[derive(Clone, Copy, PartialEq, Eq, Structural, Debug)]
pub enum Value {
    Undefined,
    Null,
    Boolean(bool),
    Int32(i32),
    DoubleBits(u64),
    StringRef(u64),
    ObjectRef(u64),
    SymbolRef(u64),
}

impl Default for Value {
    /// A fresh tagged value is the undefined value.
    fn default() -> (v: Value)
        ensures
            v == Value::Undefined,
    {
        Value::Undefined
    }
}

/// The contents of a rooted slot: one value of a fixed kind. Plain object
/// and function references both root under the object kind.
#[derive(Clone, Copy, PartialEq, Eq, Structural, Debug)]
pub enum RootValue {
    ObjectPtr(u64),
    StringPtr(u64),
    SymbolPtr(u64),
    ScriptPtr(u64),
    PropId(u64),
    Tagged(Value),
}

/// The void sentinel for property identifiers.
pub const JSID_VOID_BITS: u64 = 2;

/// The root-list kind a slot value belongs to.
pub open spec fn kind_of(v: RootValue) -> RootKind {
    match v {
        RootValue::ObjectPtr(_) => RootKind::Object,
        RootValue::StringPtr(_) => RootKind::StringRef,
        RootValue::SymbolPtr(_) => RootKind::Symbol,
        RootValue::ScriptPtr(_) => RootKind::Script,
        RootValue::PropId(_) => RootKind::Id,
        RootValue::Tagged(_) => RootKind::Value,
    }
}

/// Runtime lookup of a slot value's root kind.
pub fn root_kind(v: &RootValue) -> (k: RootKind)
    ensures
        k == kind_of(*v),
{
    match v {
        RootValue::ObjectPtr(_) => RootKind::Object,
        RootValue::StringPtr(_) => RootKind::StringRef,
        RootValue::SymbolPtr(_) => RootKind::Symbol,
        RootValue::ScriptPtr(_) => RootKind::Script,
        RootValue::PropId(_) => RootKind::Id,
        RootValue::Tagged(_) => RootKind::Value,
    }
}

/// The value a freshly constructed slot of each kind holds before anything
/// has been stored into it: a null reference, the void identifier sentinel,
/// or the undefined tagged value.
pub open spec fn spec_initial(k: RootKind) -> RootValue {
    match k {
        RootKind::Object => RootValue::ObjectPtr(0),
        RootKind::StringRef => RootValue::StringPtr(0),
        RootKind::Symbol => RootValue::SymbolPtr(0),
        RootKind::Script => RootValue::ScriptPtr(0),
        RootKind::Id => RootValue::PropId(JSID_VOID_BITS),
        RootKind::Value => RootValue::Tagged(Value::Undefined),
    }
}

/// Runtime table of initial slot values, one per kind.
pub fn initial(k: RootKind) -> (v: RootValue)
    ensures
        v == spec_initial(k),
{
    match k {
        RootKind::Object => RootValue::ObjectPtr(0),
        RootKind::StringRef => RootValue::StringPtr(0),
        RootKind::Symbol => RootValue::SymbolPtr(0),
        RootKind::Script => RootValue::ScriptPtr(0),
        RootKind::Id => RootValue::PropId(JSID_VOID_BITS),
        RootKind::Value => RootValue::Tagged(Value::Undefined),
    }
}

/// Whether a mutation of a slot of this kind must notify the collector's
/// write-barrier machinery. Object references and tagged values are subject
/// to generational relocation; identifiers, scripts and plain string
/// references use a no-op barrier in this binding.
pub open spec fn needs_post_barrier(k: RootKind) -> bool {
    match k {
        RootKind::Object => true,
        RootKind::Value => true,
        _ => false,
    }
}

/// Runtime table of which kinds take a real post-write barrier.
pub fn kind_needs_post_barrier(k: RootKind) -> (b: bool)
    ensures
        b == needs_post_barrier(k),
{
    match k {
        RootKind::Object => true,
        RootKind::Value => true,
        _ => false,
    }
}

/// A double's bit pattern encodes positive or negative zero.
pub open spec fn double_is_zero(bits: u64) -> bool {
    bits & 0x7fff_ffff_ffff_ffff == 0
}

/// A double's bit pattern encodes a NaN: exponent all ones, mantissa nonzero.
pub open spec fn double_is_nan(bits: u64) -> bool {
    bits & 0x7ff0_0000_0000_0000 == 0x7ff0_0000_0000_0000 && bits & 0x000f_ffff_ffff_ffff != 0
}

/// Runtime test for a zero double bit pattern.
pub fn is_double_zero(bits: u64) -> (b: bool)
    ensures
        b == double_is_zero(bits),
{
    bits & 0x7fff_ffff_ffff_ffff == 0
}

/// Runtime test for a NaN double bit pattern.
pub fn is_double_nan(bits: u64) -> (b: bool)
    ensures
        b == double_is_nan(bits),
{
    bits & 0x7ff0_0000_0000_0000 == 0x7ff0_0000_0000_0000 && bits & 0x000f_ffff_ffff_ffff != 0
}

} // verus!
