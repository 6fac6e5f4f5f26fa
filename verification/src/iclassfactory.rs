//! The factory protocol: how a host has a new object made and gets its
//! first interface pointer.

use vstd::prelude::*;
use crate::combox::ComBox;
use crate::guiddef::{GUID, IID};
use crate::vtable::{resolve, synthesized};
use crate::winerror::{CLASS_E_NOAGGREGATION, E_NOINTERFACE, HRESULT, S_OK};
use crate::CoClass;

verus! {

/// The identifier of the factory interface,
/// `00000001-0000-0000-C000-000000000046`.
pub open spec fn spec_iid_iclassfactory() -> IID {
    GUID {
        data1: 0x0000_0001,
        data2: 0x0000,
        data3: 0x0000,
        data4: [0xC0, 0x00, 0x00, 0x00, 0x00, 0x00, 0x00, 0x46],
    }
}

/// The identifier of the factory interface,
/// `00000001-0000-0000-C000-000000000046`.
#[verifier::when_used_as_spec(spec_iid_iclassfactory)]
pub fn iid_iclassfactory() -> (id: IID)
    ensures
        id == spec_iid_iclassfactory(),
{
    let id = GUID {
        data1: 0x0000_0001,
        data2: 0x0000,
        data3: 0x0000,
        data4: [0xC0, 0x00, 0x00, 0x00, 0x00, 0x00, 0x00, 0x46],
    };
    assert(id.data4 =~= spec_iid_iclassfactory().data4);
    id
}

/// Makes a new object of the class `T` for a caller that asks for its
/// interface `riid`. The object itself is what `make` builds.
///
/// A class made this way cannot be part of an aggregate: with an outer
/// object (`aggr` is not `None`) the call fails with
/// `CLASS_E_NOAGGREGATION` before anything is built. Otherwise the object
/// is built and put in a container, which the factory holds by a reference
/// of its own while it queries `riid` for the caller. If a table of the
/// object answers, the container comes back with exactly one reference,
/// the caller's, and the position of that table is stored through `ppv`.
/// If none does, the factory's reference was the only one: the container
/// is destroyed with it, and the call fails with `E_NOINTERFACE`.
pub fn create_instance<T: CoClass, F: FnOnce() -> T>(
    aggr: Option<usize>,
    make: F,
    riid: &IID,
    ppv: &mut Option<usize>,
) -> (res: (HRESULT, Option<ComBox<T>>))
    requires
        aggr is None ==> call_requires(make, ()),
    ensures
        aggr is Some ==> res.0 == CLASS_E_NOAGGREGATION && res.1 is None && *final(ppv) == None::<usize>,
        aggr is None ==> match resolve(synthesized(T::INTERFACES@), *riid) {
            Some(i) => {
                &&& res.0 == S_OK
                &&& *final(ppv) == Some(i as usize)
                &&& 0 <= i < T::INTERFACES@.len()
                &&& res.1 matches Some(combox)
                &&& combox@.ref_count == 1
                &&& combox@.tables == synthesized(T::INTERFACES@)
                &&& combox@.value matches Some(value)
                &&& call_ensures(make, (), value)
            },
            None => res.0 == E_NOINTERFACE && res.1 is None && *final(ppv) == None::<usize>,
        },
{
    if aggr.is_some() {
        *ppv = None;
        return (CLASS_E_NOAGGREGATION, None);
    }
    let mut combox = ComBox::new(make());
    combox.combox_add_ref();
    let hr = combox.combox_query_interface(riid, ppv);
    let rc = combox.combox_release();
    if rc == 0 {
        (hr, None)
    } else {
        (hr, Some(combox))
    }
}

/// Pins the server in memory, or lets it go again. The request is
/// advisory: it always succeeds, and no container's reference count
/// depends on it.
pub fn lock_server(increment: bool) -> (hr: HRESULT)
    ensures
        hr == S_OK,
{
    S_OK
}

} // verus!
