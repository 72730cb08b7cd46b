//! Native method and property definition tables. A table handed to the
//! engine must end in a fully zeroed terminator entry; handing over a
//! malformed table is a fatal embedding error, so the definition operations
//! require a well-terminated table and report the engine's success or
//! failure for everything else.

use vstd::prelude::*;

verus! {

/// A native call hook: an optional entry point and its associated
/// information word.
#[derive(Clone, Copy, PartialEq, Eq, Structural, Debug)]
pub struct NativeWrapper {
    pub op_present: bool,
    pub info: u64,
}

impl NativeWrapper {
    /// The hook is entirely zeroed: no entry point and no information.
    pub open spec fn spec_is_zeroed(self) -> bool {
        !self.op_present && self.info == 0
    }

    /// Runtime test for a zeroed hook.
    pub fn is_zeroed(&self) -> (b: bool)
        ensures
            b == self.spec_is_zeroed(),
    {
        !self.op_present && self.info == 0
    }
}

/// One entry of a native method table.
pub struct FunctionSpec {
    pub name: Option<Vec<u8>>,
    pub call: NativeWrapper,
    pub nargs: u16,
    pub flags: u16,
    pub self_hosted_name: Option<Vec<u8>>,
}

impl FunctionSpec {
    /// The entry is the zeroed terminator.
    pub open spec fn spec_is_terminator(self) -> bool {
        &&& self.name is None
        &&& self.call.spec_is_zeroed()
        &&& self.nargs == 0
        &&& self.flags == 0
        &&& self.self_hosted_name is None
    }

    /// Runtime test for the zeroed terminator entry.
    pub fn is_terminator(&self) -> (b: bool)
        ensures
            b == self.spec_is_terminator(),
    {
        self.name.is_none() && self.call.is_zeroed() && self.nargs == 0 && self.flags == 0
            && self.self_hosted_name.is_none()
    }
}

/// One entry of a native property table.
pub struct PropertySpec {
    pub name: Option<Vec<u8>>,
    pub flags: u8,
    pub getter: NativeWrapper,
    pub setter: NativeWrapper,
}

impl PropertySpec {
    /// The entry is entirely zeroed.
    pub open spec fn spec_is_zeroed(self) -> bool {
        &&& self.name is None
        &&& self.flags == 0
        &&& self.getter.spec_is_zeroed()
        &&& self.setter.spec_is_zeroed()
    }

    /// Runtime test for an entirely zeroed entry.
    pub fn is_zeroed(&self) -> (b: bool)
        ensures
            b == self.spec_is_zeroed(),
    {
        self.name.is_none() && self.flags == 0 && self.getter.is_zeroed()
            && self.setter.is_zeroed()
    }
}

/// A method table is well formed when it is nonempty and its last entry is
/// the zeroed terminator.
pub open spec fn methods_terminated(methods: Seq<FunctionSpec>) -> bool {
    methods.len() > 0 && methods.last().spec_is_terminator()
}

/// A property table is well formed when it is nonempty and its last entry
/// is entirely zeroed.
pub open spec fn properties_terminated(properties: Seq<PropertySpec>) -> bool {
    properties.len() > 0 && properties.last().spec_is_zeroed()
}

/// Runtime check that a method table carries its zeroed terminator.
pub fn check_methods_terminated(methods: &Vec<FunctionSpec>) -> (b: bool)
    ensures
        b == methods_terminated(methods@),
{
    methods.len() > 0 && methods[methods.len() - 1].is_terminator()
}

/// Runtime check that a property table carries its zeroed terminator.
pub fn check_properties_terminated(properties: &Vec<PropertySpec>) -> (b: bool)
    ensures
        b == properties_terminated(properties@),
{
    properties.len() > 0 && properties[properties.len() - 1].is_zeroed()
}

/// Define the table's methods on an object. The table must carry its zeroed
/// terminator — a malformed table is a fatal embedding error, checked by the
/// caller through `check_methods_terminated`. The engine's answer for the
/// well-formed table is `engine_ok`; failure surfaces as the error result.
pub fn define_methods(obj: u64, methods: &Vec<FunctionSpec>, engine_ok: bool) -> (r: Result<
    (),
    (),
>)
    requires
        methods_terminated(methods@),
    ensures
        r is Ok <==> engine_ok,
{
    to_result(engine_ok)
}

/// Define the table's properties on an object, under the same terminator
/// obligation as `define_methods`, checked by the caller through
/// `check_properties_terminated`.
pub fn define_properties(obj: u64, properties: &Vec<PropertySpec>, engine_ok: bool) -> (r: Result<
    (),
    (),
>)
    requires
        properties_terminated(properties@),
    ensures
        r is Ok <==> engine_ok,
{
    to_result(engine_ok)
}

/// Fold an engine success flag into a result.
pub fn to_result(ok: bool) -> (r: Result<(), ()>)
    ensures
        r is Ok <==> ok,
{
    if ok {
        Ok(())
    } else {
        Err(())
    }
}

} // verus!
