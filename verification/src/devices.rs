//! Switch devices: the data each physical switch carries, its cached
//! status, and the registry operations over the configured device list.
//!
//! A device's `status` is `None` until the first successful poll or control
//! call reports ground truth; reconciliation treats `None` as
//! [`DeviceStatus::Unknown`].  Only the status bookkeeping functions here
//! mutate a device's status; transport itself happens outside the library
//! and reports back plain values.
use vstd::prelude::*;

verus! {

/// The vendor protocol a device speaks.
#[derive(Clone, Copy, PartialEq, Eq, Structural, Debug)]
pub enum Device {
    Shelly,
}

/// Cached on/off state of a physical switch.
#[derive(Clone, Copy, PartialEq, Eq, Structural, Debug)]
pub enum DeviceStatus {
    On,
    Off,
    Unknown,
}

/// Static configuration and cached status of one switch device.
#[derive(Clone, Debug)]
pub struct DeviceData {
    /// Human-readable name.
    pub alias: String,
    /// Transport address of the device; never exposed externally.
    pub addr: String,
    /// Stable identifier, unique across devices.
    pub id: u32,
    /// Transport credential; never exposed externally.
    pub username: String,
    /// Transport credential; never exposed externally.
    pub password: String,
    /// The vendor protocol the device speaks.
    pub device_type: Device,
    /// Last-known status; `None` until first reported.
    pub status: Option<DeviceStatus>,
}

/// Redacted view of a device, safe to hand to the API layer: it omits the
/// address and the credentials.
#[derive(Debug)]
pub struct DeviceDataSafe {
    pub alias: String,
    pub id: u32,
    pub device_type: Device,
    pub status: Option<DeviceStatus>,
}

/// The status reconciliation compares against: the cached status, with
/// `None` read as [`DeviceStatus::Unknown`].
pub open spec fn effective_status(d: DeviceData) -> DeviceStatus {
    match d.status {
        Some(s) => s,
        None => DeviceStatus::Unknown,
    }
}

/// Fields of a device that status bookkeeping never touches.
pub open spec fn same_device_config(a: DeviceData, b: DeviceData) -> bool {
    &&& a.alias@ == b.alias@
    &&& a.addr@ == b.addr@
    &&& a.id == b.id
    &&& a.username@ == b.username@
    &&& a.password@ == b.password@
    &&& a.device_type == b.device_type
}

impl DeviceData {
    /// The cached status, with `None` read as [`DeviceStatus::Unknown`].
    pub fn effective_status(&self) -> (r: DeviceStatus)
        ensures
            r == effective_status(*self),
    {
        match self.status {
            Some(s) => s,
            None => DeviceStatus::Unknown,
        }
    }

    /// The redacted view of this device.
    pub fn to_safe(&self) -> (r: DeviceDataSafe)
        ensures
            r.alias@ == self.alias@,
            r.id == self.id,
            r.device_type == self.device_type,
            r.status == self.status,
    {
        DeviceDataSafe {
            alias: self.alias.clone(),
            id: self.id,
            device_type: self.device_type,
            status: self.status,
        }
    }
}

/// Record what a successful status poll reported: `Some(true)` sets the
/// status to `On`, `Some(false)` to `Off`; `None` (a transport or decode
/// failure) leaves the cached status unchanged, stale but safe.
pub fn apply_status_report(device: &mut DeviceData, output: Option<bool>)
    ensures
        same_device_config(*final(device), *old(device)),
        final(device).status == (match output {
            Some(true) => Some(DeviceStatus::On),
            Some(false) => Some(DeviceStatus::Off),
            None => old(device).status,
        }),
{
    match output {
        Some(true) => {
            device.status = Some(DeviceStatus::On);
        },
        Some(false) => {
            device.status = Some(DeviceStatus::Off);
        },
        None => {},
    }
}

/// Index of the first device with the given id, `None` when no device
/// carries it.
pub fn find_switch_index(devices: &Vec<DeviceData>, id: u32) -> (r: Option<usize>)
    ensures
        (r matches Some(i) ==> i < devices@.len() && devices@[i as int].id == id && forall|k: int|
            0 <= k < i ==> devices@[k].id != id),
        (r is None ==> forall|k: int| 0 <= k < devices@.len() ==> devices@[k].id != id),
{
    let mut i: usize = 0;
    while i < devices.len()
        invariant
            i <= devices.len(),
            forall|k: int| 0 <= k < i ==> devices@[k].id != id,
        decreases devices.len() - i,
    {
        if devices[i].id == id {
            return Some(i);
        }
        i += 1;
    }
    None
}

/// The redacted views of all devices, in registry order.
pub fn list_devices_safe(devices: &Vec<DeviceData>) -> (r: Vec<DeviceDataSafe>)
    ensures
        r@.len() == devices@.len(),
        forall|i: int| 0 <= i < devices@.len() ==> {
            &&& (#[trigger] r@[i]).alias@ == devices@[i].alias@
            &&& r@[i].id == devices@[i].id
            &&& r@[i].device_type == devices@[i].device_type
            &&& r@[i].status == devices@[i].status
        },
{
    let mut out: Vec<DeviceDataSafe> = Vec::new();
    let mut i: usize = 0;
    while i < devices.len()
        invariant
            i <= devices.len(),
            out@.len() == i,
            forall|k: int| 0 <= k < i ==> {
                &&& (#[trigger] out@[k]).alias@ == devices@[k].alias@
                &&& out@[k].id == devices@[k].id
                &&& out@[k].device_type == devices@[k].device_type
                &&& out@[k].status == devices@[k].status
            },
        decreases devices.len() - i,
    {
        out.push(devices[i].to_safe());
        i += 1;
    }
    out
}

} // verus!
