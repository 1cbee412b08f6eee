//! A snapshot collection of devices that passed an enumeration filter.

use vstd::prelude::*;

use crate::device::Device;
use crate::error::{Error, E_INVALIDARG};
use crate::foreign::ForeignRuntime;

verus! {

/// Devices matching one enumeration, in device-table order.
#[derive(Debug)]
pub struct DeviceCollection {
    pub indices: Vec<u64>,
}

impl DeviceCollection {
    /// Every listed index names a device of the runtime.
    pub open spec fn wf(&self, rt: ForeignRuntime) -> bool {
        forall|k: int|
            0 <= k < self.indices@.len() ==> (#[trigger] self.indices@[k]) < rt.devices@.len()
    }

    /// How many devices matched.
    pub fn get_count(&self) -> (r: Result<u32, Error>)
        requires
            self.indices@.len() <= u32::MAX,
        ensures
            r == Ok::<u32, Error>(self.indices@.len() as u32),
    {
        Ok(self.indices.len() as u32)
    }

    /// The device at position `index` of the collection; a position outside
    /// the range is rejected with the invalid-argument status, if and only
    /// if.
    pub fn item(&self, index: u32) -> (r: Result<Device, Error>)
        ensures
            index < self.indices@.len() ==> r == Ok::<Device, Error>(
                Device { index: self.indices@[index as int] },
            ),
            index >= self.indices@.len() ==> r == Err::<Device, Error>(
                Error::Foreign(E_INVALIDARG),
            ),
    {
        let n: usize = self.indices.len();
        if (index as usize) < n {
            Ok(Device { index: self.indices[index as usize] })
        } else {
            Err(Error::Foreign(E_INVALIDARG))
        }
    }

    /// An iterator over the collection.
    pub fn iter(&self) -> (r: DeviceIter<'_>)
        requires
            self.indices@.len() <= u32::MAX,
        ensures
            r.collection == self,
            r.next == 0,
            r.end == self.indices@.len(),
    {
        DeviceIter { collection: self, next: 0, end: self.indices.len() as u32 }
    }
}

/// Iterator over a device collection.
pub struct DeviceIter<'a> {
    pub collection: &'a DeviceCollection,
    pub next: u32,
    pub end: u32,
}

impl<'a> DeviceIter<'a> {
    pub fn new(collection: &'a DeviceCollection) -> (r: Self)
        requires
            collection.indices@.len() <= u32::MAX,
        ensures
            r.collection == collection,
            r.next == 0,
            r.end == collection.indices@.len(),
    {
        DeviceIter { collection, next: 0, end: collection.indices.len() as u32 }
    }

    /// The next device of the collection, or nothing when exhausted.
    pub fn next(&mut self) -> (r: Option<Device>)
        requires
            old(self).end <= old(self).collection.indices@.len(),
        ensures
            final(self).collection == old(self).collection,
            final(self).end == old(self).end,
            old(self).next < old(self).end ==> {
                &&& r == Some(
                    Device { index: old(self).collection.indices@[old(self).next as int] },
                )
                &&& final(self).next == old(self).next + 1
            },
            old(self).next >= old(self).end ==> {
                &&& r == None::<Device>
                &&& final(self).next == old(self).next
            },
    {
        if self.next < self.end {
            let i = self.next;
            self.next = i + 1;
            Some(Device { index: self.collection.indices[i as usize] })
        } else {
            None
        }
    }

    /// How many devices are left.
    pub fn size_hint(&self) -> (r: usize)
        requires
            self.next <= self.end,
        ensures
            r == self.end - self.next,
    {
        (self.end - self.next) as usize
    }
}

} // verus!
