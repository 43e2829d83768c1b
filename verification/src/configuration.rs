//! The table that maps the identity a device reports to its name and
//! attributes.

use vstd::prelude::*;

verus! {

/// What the configuration knows of a device: how many motors it has and the
/// highest level each of them accepts.
#[derive(Clone, Copy, Debug, PartialEq, Eq, Structural)]
pub struct DeviceAttributes {
    pub motor_count: usize,
    pub step_count: u32,
}

/// One known device: the identity it reports, its display name, its attributes.
#[derive(Debug)]
pub struct DeviceDefinition {
    pub identifier: Vec<u8>,
    pub name: String,
    pub attributes: DeviceAttributes,
}

/// The index of the first of `devices` from `from` on whose identifier is
/// `key`, if there is one.
pub open spec fn first_match(devices: Seq<DeviceDefinition>, key: Seq<u8>, from: int) -> Option<int>
    decreases devices.len() - from,
{
    if from < 0 || from >= devices.len() {
        None
    } else if devices[from].identifier@ == key {
        Some(from)
    } else {
        first_match(devices, key, from + 1)
    }
}

/// The display name and attributes that `devices` gives for `key`.
pub open spec fn resolve(devices: Seq<DeviceDefinition>, key: Seq<u8>) -> Option<
    (Seq<char>, DeviceAttributes),
> {
    match first_match(devices, key, 0) {
        Some(i) => Some((devices[i].name@, devices[i].attributes)),
        None => None,
    }
}

/// Whether `a` and `b` hold the same bytes.
pub fn same_bytes(a: &Vec<u8>, b: &Vec<u8>) -> (same: bool)
    ensures
        same == (a@ == b@),
{
    if a.len() != b.len() {
        return false;
    }
    let mut i: usize = 0;
    while i < a.len()
        invariant
            a@.len() == b@.len(),
            i <= a@.len(),
            forall|k: int| 0 <= k < i ==> a@[k] == b@[k],
        decreases a@.len() - i,
    {
        if a[i] != b[i] {
            return false;
        }
        i += 1;
    }
    assert(a@ =~= b@);
    true
}

/// The devices of one family that the configuration knows.
#[derive(Debug)]
pub struct DeviceProtocolConfiguration {
    devices: Vec<DeviceDefinition>,
}

impl DeviceProtocolConfiguration {
    /// The known devices, in the order in which they are searched.
    pub closed spec fn view(&self) -> Seq<DeviceDefinition> {
        self.devices@
    }

    /// A configuration that knows `devices`.
    pub fn new(devices: Vec<DeviceDefinition>) -> (config: DeviceProtocolConfiguration)
        ensures
            config@ == devices@,
    {
        DeviceProtocolConfiguration { devices }
    }

    /// Looks `key` up: the display name and the attributes of the first known
    /// device with that identifier, or `None` where no device has it.
    pub fn get_attributes(&self, key: &Vec<u8>) -> (found: Option<(String, DeviceAttributes)>)
        ensures
            match resolve(self@, key@) {
                Some((name, attributes)) => {
                    &&& found matches Some((found_name, found_attributes))
                    &&& found_name@ == name
                    &&& found_attributes == attributes
                },
                None => found is None,
            },
    {
        let mut i: usize = 0;
        while i < self.devices.len()
            invariant
                i <= self.devices@.len(),
                first_match(self.devices@, key@, 0) == first_match(self.devices@, key@, i as int),
            decreases self.devices@.len() - i,
        {
            if same_bytes(&self.devices[i].identifier, key) {
                return Some((self.devices[i].name.clone(), self.devices[i].attributes));
            }
            i += 1;
        }
        None
    }
}

} // verus!
