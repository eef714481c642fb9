//! What the module's entry points decide: which class names exist, which
//! component a name makes, and how the component may be attached.

use vstd::prelude::*;
use crate::container::AddInContainer;
use crate::my_add_in::{my_functions_ok, my_props_ok, MyAddInDescription};

verus! {

/// The class name of the one component this module offers.
pub const CLASS_NAME: u16 = 0x31;

/// The answer the module gives when the host reports its capabilities.
pub const CAPABILITIES_ACK: i32 = 3;

/// How a component may be attached to the host.
#[derive(Clone, Copy, PartialEq, Eq, Structural, Debug)]
pub enum AttachType {
    NotIsolated,
    Isolated,
    Any,
}

/// The host's number for each attach type.
pub open spec fn attach_code(t: AttachType) -> i32 {
    match t {
        AttachType::NotIsolated => 1,
        AttachType::Isolated => 2,
        AttachType::Any => 3,
    }
}

impl AttachType {
    /// The host's number for this attach type.
    pub fn code(&self) -> (r: i32)
        ensures
            r == attach_code(*self),
    {
        match self {
            AttachType::NotIsolated => 1,
            AttachType::Isolated => 2,
            AttachType::Any => 3,
        }
    }
}

/// The module's class names, UTF-16 with a terminating zero: one name, "1".
pub fn class_names() -> (r: Vec<u16>)
    ensures
        r@ == seq![CLASS_NAME, 0u16],
{
    let mut r: Vec<u16> = Vec::new();
    r.push(CLASS_NAME);
    r.push(0);
    assert(r@ =~= seq![CLASS_NAME, 0u16]);
    r
}

/// The component that the class name `name` (up to its terminating zero)
/// stands for: a fresh one for "1", none for any other name.
pub fn create_component(name: &[u16]) -> (r: Option<AddInContainer<MyAddInDescription>>)
    ensures
        r is Some <==> (name@.len() >= 1 && name@[0] == CLASS_NAME && (name@.len() == 1 || name@[1]
            == 0)),
        r matches Some(c) ==> c.component.counter() == 0 && !c.component.is_attached()
            && c.component.pending().len() == 0 && my_functions_ok(c.functions()) && my_props_ok(
            c.props(),
        ),
{
    if name.len() >= 1 && name[0] == CLASS_NAME && (name.len() == 1 || name[1] == 0) {
        Some(AddInContainer::new(MyAddInDescription::new()))
    } else {
        None
    }
}

/// How the module's components may be attached: in or out of the host's
/// process.
pub fn attach_type() -> (r: AttachType)
    ensures
        r == AttachType::Any,
{
    AttachType::Any
}

/// The answer to the host's report of its capabilities.
pub fn capabilities_ack() -> (r: i32)
    ensures
        r == CAPABILITIES_ACK,
{
    CAPABILITIES_ACK
}

} // verus!
