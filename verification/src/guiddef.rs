//! Interface identifiers.

use vstd::prelude::*;
use vstd::std_specs::cmp::PartialEqSpecImpl;

verus! {

/// A globally unique identifier: 128 bits, in the four groups of the
/// canonical form `xxxxxxxx-xxxx-xxxx-xxxx-xxxxxxxxxxxx`.
#[derive(Clone, Copy, Debug, Hash)]
pub struct GUID {
    pub data1: u32,
    pub data2: u16,
    pub data3: u16,
    pub data4: [u8; 8],
}

/// An interface identifier.
pub type IID = GUID;

/// Tells whether two identifiers are the same, bit for bit.
pub fn is_equal_guid(g1: &GUID, g2: &GUID) -> (r: bool)
    ensures
        r == (*g1 == *g2),
{
    let mut same: bool = g1.data1 == g2.data1 && g1.data2 == g2.data2 && g1.data3 == g2.data3;
    let mut i: usize = 0;
    while i < 8
        invariant
            i <= 8,
            same == (g1.data1 == g2.data1 && g1.data2 == g2.data2 && g1.data3 == g2.data3
                && forall|k: int| 0 <= k < i ==> g1.data4[k] == g2.data4[k]),
        decreases 8 - i,
    {
        if g1.data4[i] != g2.data4[i] {
            same = false;
        }
        i = i + 1;
    }
    proof {
        if same {
            assert(g1.data4 =~= g2.data4);
        }
    }
    same
}

impl PartialEq for GUID {
    fn eq(&self, other: &Self) -> (r: bool) {
        is_equal_guid(self, other)
    }
}

impl Eq for GUID {

}

impl PartialEqSpecImpl for GUID {
    open spec fn obeys_eq_spec() -> bool {
        true
    }

    open spec fn eq_spec(&self, other: &Self) -> bool {
        *self == *other
    }
}

} // verus!
