//! A remote terminal unit and the devices attached to it.
pub mod connection;
pub mod device;

use vstd::prelude::*;

use crate::seqs::{first_index, lemma_first_index_is, lemma_first_index_none};
use crate::text::str_eq;
use device::Device;

verus! {

/// A digital representation of an RTU.
///
/// This is what the configuration file describes, and what is sent between the
/// server and the front end.
#[derive(Debug, Clone)]
pub struct RTU {
    /// The RTU name, for display purposes.
    pub name: String,
    /// The RTU id, must be unique among all RTUs and not contain whitespace.
    pub id: String,
    /// The IPv4 address of the RTU, as its four octets.
    pub ip_addr: [u8; 4],
    /// The devices connected to the RTU.
    pub devices: Vec<Device>,
}

/// The predicate "the device has this id".
pub open spec fn has_id(id: Seq<char>) -> spec_fn(Device) -> bool {
    |d: Device| d.id@ == id
}

/// The index of the first device with the id, if any.
pub open spec fn device_index(devices: Seq<Device>, id: Seq<char>) -> Option<int> {
    first_index(devices, has_id(id))
}

/// Finds the index of the first device with the id.
pub fn find_device(devices: &Vec<Device>, device_id: &str) -> (r: Option<usize>)
    ensures
        device_index(devices@, device_id@) is None <==> r is None,
        r matches Some(j) ==> device_index(devices@, device_id@) == Some(j as int) && j
            < devices@.len(),
{
    let mut i: usize = 0;
    while i < devices.len()
        invariant
            i <= devices@.len(),
            forall|k: int| 0 <= k < i ==> !has_id(device_id@)(#[trigger] devices@[k]),
        decreases devices@.len() - i,
    {
        if str_eq(devices[i].id.as_str(), device_id) {
            proof {
                lemma_first_index_is(devices@, has_id(device_id@), i as int);
            }
            return Some(i);
        }
        i = i + 1;
    }
    proof {
        lemma_first_index_none(devices@, has_id(device_id@));
    }
    None
}

/// `k` is the first device with the id.
pub open spec fn is_first_with_id(devices: Seq<Device>, id: Seq<char>, k: int) -> bool {
    &&& 0 <= k < devices.len()
    &&& devices[k].id@ == id
    &&& forall|m: int| 0 <= m < k ==> (#[trigger] devices[m]).id@ != id
}

/// The device found for an id is the first device with that id; there is none
/// exactly when no device has the id.
pub proof fn lemma_device_index_is_first(devices: Seq<Device>, id: Seq<char>)
    ensures
        device_index(devices, id) is None <==> forall|k: int|
            0 <= k < devices.len() ==> (#[trigger] devices[k]).id@ != id,
        forall|k: int|
            #![trigger is_first_with_id(devices, id, k)]
            device_index(devices, id) == Some(k) <==> is_first_with_id(devices, id, k),
{
    crate::seqs::lemma_first_index_some(devices, has_id(id));
    assert forall|k: int|
        #![trigger is_first_with_id(devices, id, k)]
        device_index(devices, id) == Some(k) <==> is_first_with_id(devices, id, k) by {
        if is_first_with_id(devices, id, k) {
            assert(crate::seqs::is_first(devices, has_id(id), k));
            lemma_first_index_is(devices, has_id(id), k);
        }
    }
    if device_index(devices, id) is None {
        assert forall|k: int| 0 <= k < devices.len() implies (#[trigger] devices[k]).id@ != id by {
            if devices[k].id@ == id {
                assert(has_id(id)(devices[k]));
            }
        }
    }
}

impl RTU {
    /// Returns a mutable borrow of the first device with the id, if any.
    pub fn device(&mut self, device_id: &str) -> (found: Option<&mut Device>)
        ensures
            device_index(old(self).devices@, device_id@) is None ==> found is None,
            device_index(old(self).devices@, device_id@) is None ==> *final(self) == *old(self),
            device_index(old(self).devices@, device_id@) matches Some(i) ==> {
                &&& found matches Some(d)
                &&& *d == old(self).devices@[i]
                &&& final(self).devices@ == old(self).devices@.update(i, *final(d))
                &&& final(self).name == old(self).name
                &&& final(self).id == old(self).id
                &&& final(self).ip_addr == old(self).ip_addr
            },
    {
        match find_device(&self.devices, device_id) {
            None => None,
            Some(i) => Some(&mut self.devices[i]),
        }
    }
}

} // verus!
