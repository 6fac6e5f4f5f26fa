//! The base interface, which every object with a dispatch table answers to.

use vstd::prelude::*;
use crate::guiddef::{GUID, IID};

verus! {

/// The identifier of the base interface, `00000000-0000-0000-C000-000000000046`.
pub open spec fn spec_iid_iunknown() -> IID {
    GUID {
        data1: 0x0000_0000,
        data2: 0x0000,
        data3: 0x0000,
        data4: [0xC0, 0x00, 0x00, 0x00, 0x00, 0x00, 0x00, 0x46],
    }
}

/// The identifier of the base interface, `00000000-0000-0000-C000-000000000046`.
#[verifier::when_used_as_spec(spec_iid_iunknown)]
pub fn iid_iunknown() -> (id: IID)
    ensures
        id == spec_iid_iunknown(),
{
    let id = GUID {
        data1: 0x0000_0000,
        data2: 0x0000,
        data3: 0x0000,
        data4: [0xC0, 0x00, 0x00, 0x00, 0x00, 0x00, 0x00, 0x46],
    };
    assert(id.data4 =~= spec_iid_iunknown().data4);
    id
}

} // verus!
