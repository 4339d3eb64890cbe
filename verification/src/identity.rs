//! Identity of a wireless peripheral.

use vstd::prelude::*;
use vstd::std_specs::cmp::PartialEqSpecImpl;

verus! {

/// Address of a peripheral: six octets, most significant first, as they are
/// written in colon-hexadecimal notation.
#[derive(Clone, Copy, Debug, Eq, Hash)]
pub struct DeviceIdentity {
    pub octets: [u8; 6],
}

impl PartialEq for DeviceIdentity {
    fn eq(&self, other: &Self) -> (b: bool) {
        let equal = self.octets[0] == other.octets[0] && self.octets[1] == other.octets[1]
            && self.octets[2] == other.octets[2] && self.octets[3] == other.octets[3]
            && self.octets[4] == other.octets[4] && self.octets[5] == other.octets[5];
        proof {
            if equal {
                assert(self.octets =~= other.octets);
            }
        }
        equal
    }
}

impl PartialEqSpecImpl for DeviceIdentity {
    open spec fn obeys_eq_spec() -> bool {
        true
    }

    open spec fn eq_spec(&self, other: &Self) -> bool {
        *self == *other
    }
}

impl DeviceIdentity {
    /// Identity with the given octets.
    pub fn new(octets: [u8; 6]) -> (id: Self)
        ensures
            id.octets == octets,
    {
        DeviceIdentity { octets }
    }

    /// Whether two identities name the same peripheral.
    pub fn same(&self, other: &DeviceIdentity) -> (b: bool)
        ensures
            b == (*self == *other),
    {
        *self == *other
    }
}

} // verus!
