//! Lockdown sessions and the disk-image mounter: dependent resources whose
//! validity is borrowed from the device (and, for the mounter, from one
//! specific lockdown session), never owned.

use vstd::prelude::*;

use crate::device::{Device, NativeSession};
use crate::error::Error;
use crate::guard::Guard;
use crate::marshal::nul_free;

verus! {

/// An open lockdown session.  It records the handle of the device it was
/// opened on; every operation re-validates that device before using the
/// session's own handle.
#[derive(Debug)]
pub struct LockdowndClient {
    pub guard: Guard,
    pub parent_device: u64,
    pub label: String,
}

/// A service started over a lockdown session, ready to be bound to a
/// protocol client.
#[derive(Clone, Copy, Debug, PartialEq, Eq, Structural)]
pub struct LockdowndService {
    pub guard: Guard,
    pub parent_device: u64,
}

/// A disk-image mounting session.  Its validity depends on the device and on
/// the specific lockdown service it was created from: it becomes unusable the
/// instant either of those closes.
#[derive(Clone, Copy, Debug, PartialEq, Eq, Structural)]
pub struct MobileImageMounter {
    pub guard: Guard,
    pub dep_device: u64,
    pub dep_service: u64,
}

impl LockdowndClient {
    /// Every handle recorded is non-null.
    pub open spec fn wf(&self) -> bool {
        &&& self.guard.wf()
        &&& self.parent_device != 0
    }

    /// What a checked access against the given device yields: the session
    /// handle only while the device is still the one this client was opened
    /// on, the device's guard is valid, and the client's own guard is valid.
    pub open spec fn access_with(&self, device: &Device) -> Result<u64, Error> {
        if !self.guard.is_valid() {
            Err(Error::InvalidHandle)
        } else if !device.guard.is_valid() || device.guard.spec_handle() != self.parent_device {
            Err(Error::InvalidHandle)
        } else {
            Ok(self.guard.spec_handle())
        }
    }

    /// Re-validates this client's own guard, then the parent device's guard,
    /// and returns the session handle for one native call.
    pub fn checked_access(&self, device: &Device) -> (r: Result<u64, Error>)
        ensures
            r == self.access_with(device),
    {
        let own = match self.guard.checked_access() {
            Ok(h) => h,
            Err(e) => {
                return Err(e);
            },
        };
        match device.guard.checked_access() {
            Ok(h) => {
                if h != self.parent_device {
                    Err(Error::InvalidHandle)
                } else {
                    Ok(own)
                }
            },
            Err(e) => Err(e),
        }
    }

    /// Wraps the outcome of the native "start service" call for the named
    /// service over this session.  Both guards are re-validated first; a
    /// non-success status is surfaced with its native code; on success the
    /// service's validity is tied back to the same device.
    pub fn start_service(&self, device: &Device, name: String, session: NativeSession) -> (r:
        Result<LockdowndService, Error>)
        requires
            nul_free(name@),
            session.wf(),
        ensures
            match r {
                Ok(s) => {
                    &&& self.access_with(device) is Ok
                    &&& session.ok()
                    &&& s.guard.is_valid()
                    &&& s.guard.spec_handle() == session.handle
                    &&& s.parent_device == self.parent_device
                    &&& self.wf() ==> s.wf()
                },
                Err(e) => {
                    ||| (e == Error::InvalidHandle && self.access_with(device) is Err)
                    ||| (e == (Error::NativeCallFailed { code: session.status })
                        && self.access_with(device) is Ok && !session.ok())
                },
            },
    {
        match self.checked_access(device) {
            Ok(_) => {},
            Err(e) => {
                return Err(e);
            },
        }
        if session.status != 0 {
            return Err(Error::NativeCallFailed { code: session.status });
        }
        Ok(LockdowndService { guard: Guard::new(session.handle), parent_device: self.parent_device })
    }

    /// Releases the session handle exactly once: the first call on a valid
    /// client returns the handle for the matching native teardown call, every
    /// later call returns `None`.
    pub fn close(&mut self) -> (released: Option<u64>)
        ensures
            !final(self).guard.is_valid(),
            final(self).parent_device == old(self).parent_device,
            final(self).label == old(self).label,
            old(self).guard.is_valid() ==> released == Some(old(self).guard.spec_handle()),
            !old(self).guard.is_valid() ==> released is None,
            old(self).wf() ==> final(self).wf(),
    {
        let released = match self.guard.checked_access() {
            Ok(h) => Some(h),
            Err(_) => None,
        };
        self.guard.invalidate();
        released
    }
}

impl LockdowndService {
    /// Every handle recorded is non-null.
    pub open spec fn wf(&self) -> bool {
        &&& self.guard.wf()
        &&& self.parent_device != 0
    }

    /// What a checked access against the given device yields, exactly as for
    /// a lockdown client.
    pub open spec fn access_with(&self, device: &Device) -> Result<u64, Error> {
        if !self.guard.is_valid() {
            Err(Error::InvalidHandle)
        } else if !device.guard.is_valid() || device.guard.spec_handle() != self.parent_device {
            Err(Error::InvalidHandle)
        } else {
            Ok(self.guard.spec_handle())
        }
    }

    /// Re-validates this service's own guard, then the parent device's guard,
    /// and returns the service handle for one native call.
    pub fn checked_access(&self, device: &Device) -> (r: Result<u64, Error>)
        ensures
            r == self.access_with(device),
    {
        let own = match self.guard.checked_access() {
            Ok(h) => h,
            Err(e) => {
                return Err(e);
            },
        };
        match device.guard.checked_access() {
            Ok(h) => {
                if h != self.parent_device {
                    Err(Error::InvalidHandle)
                } else {
                    Ok(own)
                }
            },
            Err(e) => Err(e),
        }
    }

    /// Releases the service handle exactly once, as `LockdowndClient::close`
    /// does for a session.
    pub fn close(&mut self) -> (released: Option<u64>)
        ensures
            !final(self).guard.is_valid(),
            final(self).parent_device == old(self).parent_device,
            old(self).guard.is_valid() ==> released == Some(old(self).guard.spec_handle()),
            !old(self).guard.is_valid() ==> released is None,
            old(self).wf() ==> final(self).wf(),
    {
        let released = match self.guard.checked_access() {
            Ok(h) => Some(h),
            Err(_) => None,
        };
        self.guard.invalidate();
        released
    }
}

impl MobileImageMounter {
    /// Every handle recorded is non-null.
    pub open spec fn wf(&self) -> bool {
        &&& self.guard.wf()
        &&& self.dep_device != 0
        &&& self.dep_service != 0
    }

    /// What a checked access yields: the mounter handle only while the
    /// mounter's own guard, the device it was created on, and the specific
    /// lockdown service it depends on are all still valid.
    pub open spec fn access_with(&self, device: &Device, service: &LockdowndService) -> Result<
        u64,
        Error,
    > {
        if !self.guard.is_valid() {
            Err(Error::InvalidHandle)
        } else if !device.guard.is_valid() || device.guard.spec_handle() != self.dep_device {
            Err(Error::InvalidHandle)
        } else if !service.guard.is_valid() || service.guard.spec_handle() != self.dep_service {
            Err(Error::InvalidHandle)
        } else {
            Ok(self.guard.spec_handle())
        }
    }

    /// Re-validates this mounter's own guard, the parent device's guard and
    /// the lockdown service it depends on, and returns the mounter handle for
    /// one native call.
    pub fn checked_access(&self, device: &Device, service: &LockdowndService) -> (r: Result<
        u64,
        Error,
    >)
        ensures
            r == self.access_with(device, service),
    {
        let own = match self.guard.checked_access() {
            Ok(h) => h,
            Err(e) => {
                return Err(e);
            },
        };
        match device.guard.checked_access() {
            Ok(h) => {
                if h != self.dep_device {
                    return Err(Error::InvalidHandle);
                }
            },
            Err(e) => {
                return Err(e);
            },
        }
        match service.guard.checked_access() {
            Ok(h) => {
                if h != self.dep_service {
                    return Err(Error::InvalidHandle);
                }
            },
            Err(e) => {
                return Err(e);
            },
        }
        Ok(own)
    }

    /// Translates the outcome of the native mount call: the three validity
    /// checks come first, then a non-success status is surfaced with its
    /// native code.
    pub fn mount_image(&self, device: &Device, service: &LockdowndService, status: i32) -> (r:
        Result<(), Error>)
        ensures
            match r {
                Ok(()) => self.access_with(device, service) is Ok && status == 0,
                Err(e) => {
                    ||| (e == Error::InvalidHandle && self.access_with(device, service) is Err)
                    ||| (e == (Error::NativeCallFailed { code: status })
                        && self.access_with(device, service) is Ok && status != 0)
                },
            },
    {
        match self.checked_access(device, service) {
            Ok(_) => {},
            Err(e) => {
                return Err(e);
            },
        }
        if status != 0 {
            return Err(Error::NativeCallFailed { code: status });
        }
        Ok(())
    }

    /// Releases the mounter handle exactly once, as the other clients do.
    pub fn close(&mut self) -> (released: Option<u64>)
        ensures
            !final(self).guard.is_valid(),
            final(self).dep_device == old(self).dep_device,
            final(self).dep_service == old(self).dep_service,
            old(self).guard.is_valid() ==> released == Some(old(self).guard.spec_handle()),
            !old(self).guard.is_valid() ==> released is None,
            old(self).wf() ==> final(self).wf(),
    {
        let released = match self.guard.checked_access() {
            Ok(h) => Some(h),
            Err(_) => None,
        };
        self.guard.invalidate();
        released
    }
}

/// Destroying a device is immediately visible to every client opened on it:
/// once the device's guard is invalid, a checked access through any dependent
/// client yields `InvalidHandle`, never a stale handle.
pub proof fn lemma_client_access_fails_after_device_release(c: LockdowndClient, d: Device)
    requires
        !d.guard.is_valid(),
    ensures
        c.access_with(&d) == Err::<u64, Error>(Error::InvalidHandle),
{
}

/// The same, for a started service.
pub proof fn lemma_service_access_fails_after_device_release(s: LockdowndService, d: Device)
    requires
        !d.guard.is_valid(),
    ensures
        s.access_with(&d) == Err::<u64, Error>(Error::InvalidHandle),
{
}

/// Closing the lockdown service a mounter was built on makes every mounter
/// operation fail, even while the device's own guard is still valid.
pub proof fn lemma_mounter_fails_once_service_closed(
    m: MobileImageMounter,
    d: Device,
    s: LockdowndService,
)
    requires
        d.guard.is_valid(),
        !s.guard.is_valid(),
    ensures
        m.access_with(&d, &s) == Err::<u64, Error>(Error::InvalidHandle),
{
}

/// And the mounter also dies with the device itself.
pub proof fn lemma_mounter_fails_after_device_release(
    m: MobileImageMounter,
    d: Device,
    s: LockdowndService,
)
    requires
        !d.guard.is_valid(),
    ensures
        m.access_with(&d, &s) == Err::<u64, Error>(Error::InvalidHandle),
{
}

} // verus!
