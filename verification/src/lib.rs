//! The server side of a binary component model, in safe code: one object,
//! presented to its callers through several dispatch tables that share a
//! single reference count.
//!
//! A class declares the interfaces of its objects ([`CoClass`]). From that
//! declaration [`generate`] builds the dispatch tables of one object, and a
//! [`ComBox`] owns the object together with its tables and its reference
//! count. A caller's pointer to one interface of the object is the position
//! of that interface's table among the tables of the container.

use vstd::prelude::*;

pub mod combox;
pub mod guiddef;
pub mod iclassfactory;
pub mod iunknown;
pub mod vtable;
pub mod winerror;

pub use combox::{ComBox, ComBoxView};
pub use guiddef::{is_equal_guid, GUID, IID};
pub use iclassfactory::{create_instance, iid_iclassfactory, lock_server, spec_iid_iclassfactory};
pub use iunknown::{iid_iunknown, spec_iid_iunknown};
pub use vtable::{generate, InterfaceDescriptor, Slot, VPointerList, VTable, VTableView};
pub use winerror::{CLASS_E_NOAGGREGATION, E_NOINTERFACE, HRESULT, NOERROR, S_OK};

verus! {

/// Tells whether a status code reports a failure: the negative codes do.
pub fn failed(result: HRESULT) -> (r: bool)
    ensures
        r == (result < 0),
{
    result < 0
}

/// An interface: an identifier, and a dispatch table of a fixed shape.
pub trait ComInterface {
    /// The interface's identifier.
    const IID: IID;

    /// The number of operations that the interface's dispatch table holds
    /// after the three that every table begins with.
    const METHOD_COUNT: usize;
}

/// A class: a type of object that can be put in a [`ComBox`].
pub trait CoClass: Sized {
    /// The interfaces that the objects of the class expose, in the order
    /// of their declaration. The dispatch tables of an object stand in the
    /// same order.
    const INTERFACES: &'static [InterfaceDescriptor];
}

} // verus!
