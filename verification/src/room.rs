//! A room: a collection of named devices with unique names, and the
//! summary text the home layer renders from their status snapshots.

use crate::devices::power_socket::{spec_socket_status, PowerSocket};
use crate::devices::thermometer::{spec_thermometer_status, Thermometer};
use crate::devices::{spec_status_string, Device, DeviceStatus, StatusModel};
use crate::strutil::str_eq;
use vstd::prelude::*;

verus! {

/// One device held by a room: the device kinds are closed variants, all
/// offering the same status snapshot.
pub enum DeviceEntry {
    PowerSocket(PowerSocket),
    Thermometer(Thermometer),
}

/// The mathematical shape of a `DeviceEntry`.
pub enum DeviceModel {
    PowerSocket(crate::devices::power_socket::PowerSocketModel),
    Thermometer(crate::devices::thermometer::ThermometerModel),
}

impl View for DeviceEntry {
    type V = DeviceModel;

    open spec fn view(&self) -> DeviceModel {
        match self {
            DeviceEntry::PowerSocket(p) => DeviceModel::PowerSocket(p@),
            DeviceEntry::Thermometer(t) => DeviceModel::Thermometer(t@),
        }
    }
}

/// The snapshot one device model reports.
pub open spec fn spec_device_status(d: DeviceModel) -> StatusModel {
    match d {
        DeviceModel::PowerSocket(p) => spec_socket_status(p),
        DeviceModel::Thermometer(t) => spec_thermometer_status(t),
    }
}

impl Device for DeviceEntry {
    open spec fn status_model(&self) -> StatusModel {
        spec_device_status(self@)
    }

    fn get_status(&self) -> (r: DeviceStatus) {
        match self {
            DeviceEntry::PowerSocket(p) => p.get_status(),
            DeviceEntry::Thermometer(t) => t.get_status(),
        }
    }
}

/// A device read failed at the room level.
#[derive(Debug)]
pub enum RoomReadError {
    DeviceDoesNotExist(String),
}

impl RoomReadError {
    /// The failure as text.
    pub fn as_string(&self) -> (r: String)
        ensures
            match self {
                RoomReadError::DeviceDoesNotExist(n) => r@ == "device '"@ + n@
                    + "' does not exist"@,
            },
    {
        match self {
            RoomReadError::DeviceDoesNotExist(n) => {
                let mut s = String::from_str("device '");
                s.append(n.as_str());
                s.append("' does not exist");
                s
            },
        }
    }
}

/// A device write failed at the room level.
#[derive(Debug)]
pub enum RoomUpdateError {
    DeviceAlreadyExists(String),
    DeviceDoesNotExist(String),
}

impl RoomUpdateError {
    /// The failure as text.
    pub fn as_string(&self) -> (r: String)
        ensures
            match self {
                RoomUpdateError::DeviceAlreadyExists(n) => r@ == "device '"@ + n@
                    + "' does not exist"@,
                RoomUpdateError::DeviceDoesNotExist(n) => r@ == "room does not contain device '"@
                    + n@ + "'"@,
            },
    {
        match self {
            RoomUpdateError::DeviceAlreadyExists(n) => {
                let mut s = String::from_str("device '");
                s.append(n.as_str());
                s.append("' does not exist");
                s
            },
            RoomUpdateError::DeviceDoesNotExist(n) => {
                let mut s = String::from_str("room does not contain device '");
                s.append(n.as_str());
                s.append("'");
                s
            },
        }
    }
}

/// A room: a name and its devices, each under a caller-chosen name.
pub struct Room {
    pub name: String,
    devices: Vec<(String, DeviceEntry)>,
}

/// The mathematical shape of a `Room`.
pub struct RoomModel {
    pub name: Seq<char>,
    pub devices: Seq<(Seq<char>, DeviceModel)>,
}

impl RoomModel {
    /// Device names never repeat within a room.
    pub open spec fn wf(self) -> bool {
        forall|i: int, j: int|
            0 <= i < j < self.devices.len() ==> self.devices[i].0 != self.devices[j].0
    }

    /// Whether the room holds a device under this name.
    pub open spec fn has_device(self, name: Seq<char>) -> bool {
        exists|i: int| 0 <= i < self.devices.len() && self.devices[i].0 == name
    }

    /// The position of the device under this name.
    pub open spec fn device_index(self, name: Seq<char>) -> int {
        choose|i: int| 0 <= i < self.devices.len() && self.devices[i].0 == name
    }
}

impl View for Room {
    type V = RoomModel;

    closed spec fn view(&self) -> RoomModel {
        RoomModel {
            name: self.name@,
            devices: self.devices@.map_values(|p: (String, DeviceEntry)| (p.0@, p.1@)),
        }
    }
}

/// The status blocks of a room's devices, in order, one per line group.
pub open spec fn spec_statuses(devs: Seq<(Seq<char>, DeviceModel)>) -> Seq<char>
    decreases devs.len(),
{
    if devs.len() == 0 {
        Seq::empty()
    } else {
        spec_statuses(devs.drop_last()) + spec_status_string(spec_device_status(devs.last().1))
            + "\n"@
    }
}

/// A room's summary: its header, then its device statuses — or a
/// placeholder where it has none — and a closing blank line.
pub open spec fn spec_room_summary(m: RoomModel) -> Seq<char> {
    "ROOM '"@ + m.name + "' SUMMARY:\n"@ + (if m.devices.len() == 0 {
        "\t* no devices *"@
    } else {
        spec_statuses(m.devices)
    }) + "\n"@
}

impl Room {
    /// The room's name, for verified readers outside this module.
    pub fn name_str(&self) -> (r: &str)
        ensures
            r@ == self@.name,
    {
        self.name.as_str()
    }

    /// An empty room under the given name.
    pub fn new(name: &str) -> (r: Self)
        ensures
            r@.name == name@,
            r@.devices == Seq::<(Seq<char>, DeviceModel)>::empty(),
            r@.wf(),
    {
        let r = Self { name: name.to_owned(), devices: Vec::new() };
        proof {
            assert(r@.devices =~= Seq::<(Seq<char>, DeviceModel)>::empty());
        }
        r
    }

    /// The position of the device under this name, if any.
    fn find_device(&self, name: &str) -> (r: Option<usize>)
        ensures
            match r {
                Option::Some(i) => i < self@.devices.len() && self@.devices[i as int].0 == name@,
                Option::None => !self@.has_device(name@),
            },
    {
        let mut i: usize = 0;
        while i < self.devices.len()
            invariant
                i <= self.devices.len(),
                self@.devices.len() == self.devices@.len(),
                forall|j: int| 0 <= j < self@.devices.len() ==> self@.devices[j].0 == self.devices@[j].0@,
                forall|j: int| 0 <= j < i ==> self@.devices[j].0 != name@,
            decreases self.devices.len() - i,
        {
            if str_eq(self.devices[i].0.as_str(), name) {
                return Some(i);
            }
            i += 1;
        }
        None
    }

    /// Adds a device under a new name; a name already taken is refused
    /// and the room stands unchanged.
    pub fn add_device(&mut self, name: &str, device: DeviceEntry) -> (r: Result<
        (),
        RoomUpdateError,
    >)
        requires
            old(self)@.wf(),
        ensures
            final(self)@.wf(),
            final(self)@.name == old(self)@.name,
            match r {
                Result::Ok(()) => !old(self)@.has_device(name@) && final(self)@.devices == old(
                    self,
                )@.devices.push((name@, device@)),
                Result::Err(e) => final(self)@ == old(self)@ && old(self)@.has_device(name@) && (
                e matches RoomUpdateError::DeviceAlreadyExists(n) && n@ == name@),
            },
    {
        match self.find_device(name) {
            Some(_) => Err(RoomUpdateError::DeviceAlreadyExists(name.to_owned())),
            None => {
                self.devices.push((name.to_owned(), device));
                proof {
                    assert(final(self)@.devices =~= old(self)@.devices.push((name@, device@)));
                }
                Ok(())
            },
        }
    }

    /// Removes the device under this name; a name not present is
    /// refused and the room stands unchanged.
    pub fn remove_device(&mut self, name: &str) -> (r: Result<(), RoomUpdateError>)
        requires
            old(self)@.wf(),
        ensures
            final(self)@.wf(),
            final(self)@.name == old(self)@.name,
            match r {
                Result::Ok(()) => old(self)@.has_device(name@) && final(self)@.devices == old(
                    self,
                )@.devices.remove(old(self)@.device_index(name@)),
                Result::Err(e) => final(self)@ == old(self)@ && !old(self)@.has_device(name@) && (
                e matches RoomUpdateError::DeviceAlreadyExists(n) && n@ == name@),
            },
    {
        match self.find_device(name) {
            None => Err(RoomUpdateError::DeviceAlreadyExists(name.to_owned())),
            Some(i) => {
                proof {
                    assert(old(self)@.device_index(name@) == i);
                }
                self.devices.remove(i);
                proof {
                    assert(final(self)@.devices =~= old(self)@.devices.remove(i as int));
                }
                Ok(())
            },
        }
    }

    /// The devices, in the order they were added.
    pub fn list_devices(&self) -> (r: Vec<&DeviceEntry>)
        ensures
            r@.len() == self@.devices.len(),
            forall|i: int| 0 <= i < r@.len() ==> r@[i]@ == self@.devices[i].1,
    {
        let mut out: Vec<&DeviceEntry> = Vec::new();
        let mut i: usize = 0;
        while i < self.devices.len()
            invariant
                i <= self.devices.len(),
                self@.devices.len() == self.devices@.len(),
                forall|j: int| 0 <= j < self@.devices.len() ==> self@.devices[j].1 == self.devices@[j].1@,
                out@.len() == i,
                forall|j: int| 0 <= j < i ==> out@[j]@ == self@.devices[j].1,
            decreases self.devices.len() - i,
        {
            out.push(&self.devices[i].1);
            i += 1;
        }
        out
    }

    /// The device under this name, or why there is none.
    pub fn get_device(&self, name: &str) -> (r: Result<&DeviceEntry, RoomReadError>)
        requires
            self@.wf(),
        ensures
            match r {
                Result::Ok(d) => self@.has_device(name@) && d@ == self@.devices[self@.device_index(
                    name@,
                )].1,
                Result::Err(e) => !self@.has_device(name@) && (e matches
                RoomReadError::DeviceDoesNotExist(n) && n@ == name@),
            },
    {
        match self.find_device(name) {
            Some(i) => {
                proof {
                    assert(self@.device_index(name@) == i);
                }
                Ok(&self.devices[i].1)
            },
            None => Err(RoomReadError::DeviceDoesNotExist(name.to_owned())),
        }
    }

    /// The room's summary text, exactly as `spec_room_summary` lays it
    /// out.
    pub fn get_summary(&self) -> (r: String)
        ensures
            r@ == spec_room_summary(self@),
    {
        let mut out = String::from_str("ROOM '");
        out.append(self.name.as_str());
        out.append("' SUMMARY:\n");
        if self.devices.len() == 0 {
            out.append("\t* no devices *");
            proof {
                assert(self@.devices.len() == 0);
            }
        } else {
            let mut i: usize = 0;
            while i < self.devices.len()
                invariant
                    i <= self.devices.len(),
                    self@.devices.len() == self.devices@.len(),
                    forall|j: int| 0 <= j < self@.devices.len() ==> self@.devices[j].1 == self.devices@[j].1@,
                    out@ == "ROOM '"@ + self@.name + "' SUMMARY:\n"@ + spec_statuses(
                        self@.devices.take(i as int),
                    ),
                decreases self.devices.len() - i,
            {
                let status = self.devices[i].1.get_status();
                let block = status.as_string();
                out.append(block.as_str());
                out.append("\n");
                proof {
                    let devs = self@.devices;
                    assert(devs.take(i + 1).drop_last() =~= devs.take(i as int));
                    assert(devs.take(i + 1).last() == devs[i as int]);
                }
                i += 1;
            }
            proof {
                assert(self@.devices.take(self@.devices.len() as int) =~= self@.devices);
            }
        }
        out.append("\n");
        out
    }
}

} // verus!
