//! Discovery: turning one native enumeration into the list of usable devices.
//!
//! The native subsystem reports a status and a list of entries; for each
//! entry the embedding application attempts the matching native open and
//! records its outcome.  This module decides, verified, what becomes of those
//! outcomes: a failed enumeration is a typed error, a failed per-entry open is
//! silently skipped (best-effort listing — the sole intentional
//! swallow-and-continue in the library), and the surviving devices keep the
//! native enumeration order.

use vstd::prelude::*;

use crate::device::Device;
use crate::error::Error;
use crate::marshal::str_eq;

verus! {

/// One enumerated entry, together with the outcome of the native open that
/// was attempted for its identifier: `open_status` 0 means the open
/// succeeded and `handle` is the (non-null) device handle.
pub struct DeviceEntry {
    pub udid: String,
    pub network: bool,
    pub open_status: i32,
    pub handle: u64,
}

impl DeviceEntry {
    /// A successful open always yields a non-null handle.
    pub open spec fn wf(&self) -> bool {
        self.open_status == 0 ==> self.handle != 0
    }

    /// Whether the per-entry open succeeded.
    pub open spec fn opened(&self) -> bool {
        self.open_status == 0
    }
}

/// The lookup mode the native open must be made with, matching how the entry
/// was enumerated.
#[derive(Clone, Copy, Debug, PartialEq, Eq, Structural)]
pub enum LookupMode {
    Usbmux,
    Network,
}

/// How a native connection-kind code is read: kind 1 is the local (USB)
/// transport, every other kind counts as reachable over the network.
pub fn is_network_connection(conn_type: u32) -> (r: bool)
    ensures
        r == (conn_type != 1),
{
    conn_type != 1
}

/// A network-reachable entry is opened with the network lookup, a local one
/// with the local lookup.
pub fn lookup_mode(network: bool) -> (m: LookupMode)
    ensures
        m == (if network {
            LookupMode::Network
        } else {
            LookupMode::Usbmux
        }),
{
    if network {
        LookupMode::Network
    } else {
        LookupMode::Usbmux
    }
}

/// The entries whose open succeeded, in enumeration order.
pub open spec fn surviving(entries: Seq<DeviceEntry>) -> Seq<DeviceEntry>
    decreases entries.len(),
{
    if entries.len() == 0 {
        Seq::empty()
    } else {
        let rest = surviving(entries.drop_last());
        if entries.last().opened() {
            rest.push(entries.last())
        } else {
            rest
        }
    }
}

/// How a returned device mirrors the entry it was made from.
pub open spec fn device_matches_entry(d: Device, e: DeviceEntry) -> bool {
    &&& d.udid@ == e.udid@
    &&& d.network == e.network
    &&& d.guard.is_valid()
    &&& d.guard.spec_handle() == e.handle
    &&& d.proxy_client is None
    &&& d.debug_server is None
}

/// There are never more survivors than entries.
pub proof fn lemma_surviving_len(entries: Seq<DeviceEntry>)
    ensures
        surviving(entries).len() <= entries.len(),
    decreases entries.len(),
{
    if entries.len() > 0 {
        lemma_surviving_len(entries.drop_last());
    }
}

/// One entry that failed to open makes the listing strictly shorter than the
/// enumeration, without failing the whole call.
pub proof fn lemma_failed_entry_shortens_listing(entries: Seq<DeviceEntry>, i: int)
    requires
        0 <= i < entries.len(),
        !entries[i].opened(),
    ensures
        surviving(entries).len() < entries.len(),
    decreases entries.len(),
{
    lemma_surviving_len(entries.drop_last());
    if i < entries.len() - 1 {
        lemma_failed_entry_shortens_listing(entries.drop_last(), i);
    }
}

/// Materializes a device per successfully opened entry.  `list_status` is
/// what the native enumeration call reported: on non-success nothing is
/// produced and the status is preserved in the error; on success (including
/// an empty enumeration) the result is the surviving entries, as devices, in
/// enumeration order.
pub fn get_devices(list_status: i32, entries: &Vec<DeviceEntry>) -> (r: Result<Vec<Device>, Error>)
    requires
        forall|i: int| 0 <= i < entries@.len() ==> (#[trigger] entries@[i]).wf(),
    ensures
        match r {
            Ok(devices) => {
                &&& list_status == 0
                &&& devices@.len() == surviving(entries@).len()
                &&& forall|i: int| 0 <= i < devices@.len() ==> device_matches_entry(
                    #[trigger] devices@[i],
                    surviving(entries@)[i],
                )
                &&& forall|i: int| 0 <= i < devices@.len() ==> (#[trigger] devices@[i]).wf()
            },
            Err(e) => {
                &&& list_status != 0
                &&& e == (Error::NativeCallFailed { code: list_status })
            },
        },
{
    if list_status != 0 {
        return Err(Error::NativeCallFailed { code: list_status });
    }
    let mut devices: Vec<Device> = Vec::new();
    let mut i: usize = 0;
    proof {
        assert(entries@.subrange(0, 0) =~= Seq::<DeviceEntry>::empty());
    }
    while i < entries.len()
        invariant
            0 <= i <= entries@.len(),
            forall|k: int| 0 <= k < entries@.len() ==> (#[trigger] entries@[k]).wf(),
            devices@.len() == surviving(entries@.subrange(0, i as int)).len(),
            forall|k: int| 0 <= k < devices@.len() ==> device_matches_entry(
                #[trigger] devices@[k],
                surviving(entries@.subrange(0, i as int))[k],
            ),
            forall|k: int| 0 <= k < devices@.len() ==> (#[trigger] devices@[k]).wf(),
        decreases entries@.len() - i,
    {
        let entry = &entries[i];
        proof {
            assert(entries@.subrange(0, i + 1).drop_last() =~= entries@.subrange(0, i as int));
            assert(entries@.subrange(0, i + 1).last() == entries@[i as int]);
        }
        if entry.open_status == 0 {
            let udid_copy = String::from_str(entry.udid.as_str());
            devices.push(Device::new(udid_copy, entry.network, entry.handle));
        }
        i += 1;
    }
    proof {
        assert(entries@.subrange(0, entries@.len() as int) =~= entries@);
    }
    Ok(devices)
}

/// Looks one device up by identifier: the enumeration is materialized as in
/// `get_devices`, then scanned linearly; the first device whose identifier
/// matches exactly (no case normalization) is returned, and `NotFound` when
/// none matches.
pub fn get_device(udid: String, list_status: i32, entries: &Vec<DeviceEntry>) -> (r: Result<
    Device,
    Error,
>)
    requires
        forall|i: int| 0 <= i < entries@.len() ==> (#[trigger] entries@[i]).wf(),
    ensures
        match r {
            Ok(d) => {
                &&& list_status == 0
                &&& exists|i: int|
                    {
                        &&& 0 <= i < surviving(entries@).len()
                        &&& device_matches_entry(d, #[trigger] surviving(entries@)[i])
                        &&& surviving(entries@)[i].udid@ == udid@
                        &&& forall|j: int| 0 <= j < i ==> surviving(entries@)[j].udid@ != udid@
                    }
                &&& d.wf()
            },
            Err(e) => {
                ||| (e == (Error::NativeCallFailed { code: list_status }) && list_status != 0)
                ||| (e == Error::NotFound && list_status == 0 && forall|i: int|
                    0 <= i < surviving(entries@).len() ==> (#[trigger] surviving(
                        entries@,
                    )[i]).udid@ != udid@)
            },
        },
{
    let mut devices = match get_devices(list_status, entries) {
        Ok(devices) => devices,
        Err(e) => {
            return Err(e);
        },
    };
    let mut i: usize = 0;
    while i < devices.len()
        invariant
            list_status == 0,
            0 <= i <= devices@.len(),
            devices@.len() == surviving(entries@).len(),
            forall|k: int| 0 <= k < devices@.len() ==> device_matches_entry(
                #[trigger] devices@[k],
                surviving(entries@)[k],
            ),
            forall|k: int| 0 <= k < devices@.len() ==> (#[trigger] devices@[k]).wf(),
            forall|j: int| 0 <= j < i ==> (#[trigger] surviving(entries@)[j]).udid@ != udid@,
        decreases devices@.len() - i,
    {
        if str_eq(devices[i].udid.as_str(), udid.as_str()) {
            let ghost w = i as int;
            let found = devices.remove(i);
            proof {
                assert(found.wf());
                assert(exists|ii: int|
                    {
                        &&& 0 <= ii < surviving(entries@).len()
                        &&& device_matches_entry(found, #[trigger] surviving(entries@)[ii])
                        &&& surviving(entries@)[ii].udid@ == udid@
                        &&& forall|j: int| 0 <= j < ii ==> surviving(entries@)[j].udid@ != udid@
                    }) by {
                    assert(device_matches_entry(found, surviving(entries@)[w]));
                    assert(surviving(entries@)[w].udid@ == udid@);
                    assert(forall|j: int| 0 <= j < w ==> surviving(entries@)[j].udid@ != udid@);
                }
            }
            return Ok(found);
        }
        i += 1;
    }
    Err(Error::NotFound)
}

} // verus!
