//! The device: owner of one native device handle and root of every
//! dependent session's validity.

use vstd::prelude::*;

use crate::command::DebugServerCommand;
use crate::error::Error;
use crate::guard::Guard;
use crate::instproxy::instproxy_client_t;
use crate::lockdownd::{LockdowndClient, LockdowndService, MobileImageMounter};
use crate::marshal::nul_free;

verus! {

/// What a native session-open entry point reported: a status code (0 means
/// success) and the opaque client handle it produced.  A successful open
/// always yields a non-null handle.
#[derive(Clone, Copy, Debug, PartialEq, Eq, Structural)]
pub struct NativeSession {
    pub status: i32,
    pub handle: u64,
}

impl NativeSession {
    /// Success always comes with a non-null handle token.
    pub open spec fn wf(&self) -> bool {
        self.status == 0 ==> self.handle != 0
    }

    /// Whether the native open succeeded.
    pub open spec fn ok(&self) -> bool {
        self.status == 0
    }
}

/// What the native command/response entry point reported: a status code and
/// the text copied out of the response buffer while it was still alive.
#[derive(Debug, PartialEq, Eq)]
pub struct NativeResponse {
    pub status: i32,
    pub text: String,
}

/// An open debug-server session, retained by the device that opened it.
#[derive(Clone, Copy, Debug, PartialEq, Eq, Structural)]
pub struct DebugServerClient {
    pub guard: Guard,
}

/// One attached device: its identifier, how it is reached, the guard around
/// its native handle, and the sessions it retains.
#[derive(Debug)]
pub struct Device {
    pub udid: String,
    pub network: bool,
    pub guard: Guard,
    pub proxy_client: Option<instproxy_client_t>,
    pub debug_server: Option<DebugServerClient>,
}

impl Device {
    /// Every guard the device holds wraps a non-null token.
    pub open spec fn wf(&self) -> bool {
        &&& self.guard.wf()
        &&& match self.debug_server {
            Some(c) => c.guard.wf(),
            None => true,
        }
    }

    /// Whether the device's own handle may still be used.
    pub open spec fn is_valid(&self) -> bool {
        self.guard.is_valid()
    }

    /// Identity and reachability are untouched by session bookkeeping.
    pub open spec fn same_identity(&self, other: &Device) -> bool {
        &&& self.udid == other.udid
        &&& self.network == other.network
    }

    /// Wraps a just-opened, non-null native device handle.
    pub fn new(udid: String, network: bool, handle: u64) -> (d: Device)
        requires
            handle != 0,
        ensures
            d.udid == udid,
            d.network == network,
            d.guard.is_valid(),
            d.guard.spec_handle() == handle,
            d.proxy_client is None,
            d.debug_server is None,
            d.wf(),
    {
        Device { udid, network, guard: Guard::new(handle), proxy_client: None, debug_server: None }
    }

    /// The device handle for the next native call, or `InvalidHandle` once
    /// the device has been destroyed.
    pub fn checked_handle(&self) -> (r: Result<u64, Error>)
        ensures
            r == self.guard.access_of(),
    {
        self.guard.checked_access()
    }

    /// Wraps the outcome of the native "start lockdown service" call made
    /// with the given client label.  The device's own guard is re-validated
    /// first; a non-success status is surfaced as a typed error carrying the
    /// native code; on success the new client's validity is tied back to this
    /// device's handle.
    pub fn new_lockdownd_client(&self, label: String, session: NativeSession) -> (r: Result<
        LockdowndClient,
        Error,
    >)
        requires
            nul_free(label@),
            session.wf(),
        ensures
            match r {
                Ok(c) => {
                    &&& self.guard.is_valid()
                    &&& session.ok()
                    &&& c.guard.is_valid()
                    &&& c.guard.spec_handle() == session.handle
                    &&& c.parent_device == self.guard.spec_handle()
                    &&& c.label == label
                    &&& self.wf() ==> c.wf()
                },
                Err(e) => {
                    ||| (e == Error::InvalidHandle && !self.guard.is_valid())
                    ||| (e == (Error::NativeCallFailed { code: session.status })
                        && self.guard.is_valid() && !session.ok())
                },
            },
    {
        let device_handle = match self.guard.checked_access() {
            Ok(h) => h,
            Err(e) => {
                return Err(e);
            },
        };
        if session.status != 0 {
            return Err(Error::NativeCallFailed { code: session.status });
        }
        Ok(LockdowndClient { guard: Guard::new(session.handle), parent_device: device_handle, label })
    }

    /// Wraps the outcome of the native "start installation proxy" call made
    /// with the given client label, retaining the session on success.
    pub fn start_instproxy_service(&mut self, label: String, session: NativeSession) -> (r: Result<
        (),
        Error,
    >)
        requires
            nul_free(label@),
            session.wf(),
        ensures
            match r {
                Ok(()) => {
                    &&& old(self).guard.is_valid()
                    &&& session.ok()
                    &&& final(self).proxy_client matches Some(c) && c.client == session.handle
                    &&& final(self).debug_server == old(self).debug_server
                },
                Err(e) => {
                    &&& *final(self) == *old(self)
                    &&& {
                        ||| (e == Error::InvalidHandle && !old(self).guard.is_valid())
                        ||| (e == (Error::NativeCallFailed { code: session.status })
                            && old(self).guard.is_valid() && !session.ok())
                    }
                },
            },
            final(self).guard == old(self).guard,
            final(self).same_identity(old(self)),
            old(self).wf() ==> final(self).wf(),
    {
        match self.guard.checked_access() {
            Ok(_) => {},
            Err(e) => {
                return Err(e);
            },
        }
        if session.status != 0 {
            return Err(Error::NativeCallFailed { code: session.status });
        }
        self.proxy_client = Some(instproxy_client_t { client: session.handle });
        Ok(())
    }

    /// Wraps the outcome of the native "start debug server" call made with
    /// the given client label, retaining the session on success.
    pub fn start_debug_server(&mut self, label: String, session: NativeSession) -> (r: Result<
        (),
        Error,
    >)
        requires
            nul_free(label@),
            session.wf(),
        ensures
            match r {
                Ok(()) => {
                    &&& old(self).guard.is_valid()
                    &&& session.ok()
                    &&& final(self).debug_server matches Some(c) && c.guard.is_valid()
                        && c.guard.spec_handle() == session.handle
                    &&& final(self).proxy_client == old(self).proxy_client
                },
                Err(e) => {
                    &&& *final(self) == *old(self)
                    &&& {
                        ||| (e == Error::InvalidHandle && !old(self).guard.is_valid())
                        ||| (e == (Error::NativeCallFailed { code: session.status })
                            && old(self).guard.is_valid() && !session.ok())
                    }
                },
            },
            final(self).guard == old(self).guard,
            final(self).same_identity(old(self)),
            old(self).wf() ==> final(self).wf(),
    {
        match self.guard.checked_access() {
            Ok(_) => {},
            Err(e) => {
                return Err(e);
            },
        }
        if session.status != 0 {
            return Err(Error::NativeCallFailed { code: session.status });
        }
        self.debug_server = Some(DebugServerClient { guard: Guard::new(session.handle) });
        Ok(())
    }

    /// Wraps the outcome of the native image-mounter creation call.  Both
    /// this device's guard and the given lockdown service's guard must be
    /// valid; on success the mounter records the device handle and the
    /// specific service handle as its validity dependencies, so it becomes
    /// unusable the instant either one is released.
    pub fn new_mobile_image_mounter(&self, service: &LockdowndService, session: NativeSession) -> (r:
        Result<MobileImageMounter, Error>)
        requires
            session.wf(),
        ensures
            match r {
                Ok(m) => {
                    &&& self.guard.is_valid()
                    &&& service.guard.is_valid()
                    &&& session.ok()
                    &&& m.guard.is_valid()
                    &&& m.guard.spec_handle() == session.handle
                    &&& m.dep_device == self.guard.spec_handle()
                    &&& m.dep_service == service.guard.spec_handle()
                    &&& self.wf() && service.wf() ==> m.wf()
                },
                Err(e) => {
                    ||| (e == Error::InvalidHandle && (!self.guard.is_valid()
                        || !service.guard.is_valid()))
                    ||| (e == (Error::NativeCallFailed { code: session.status })
                        && self.guard.is_valid() && service.guard.is_valid() && !session.ok())
                },
            },
    {
        let device_handle = match self.guard.checked_access() {
            Ok(h) => h,
            Err(e) => {
                return Err(e);
            },
        };
        let service_handle = match service.guard.checked_access() {
            Ok(h) => h,
            Err(e) => {
                return Err(e);
            },
        };
        if session.status != 0 {
            return Err(Error::NativeCallFailed { code: session.status });
        }
        Ok(MobileImageMounter {
            guard: Guard::new(session.handle),
            dep_device: device_handle,
            dep_service: service_handle,
        })
    }

    /// The fixed service name a lazily opened debug-server session is labeled
    /// with: the native open performed for `send_command`'s lazy path must be
    /// made with this label.
    pub fn default_debug_label() -> (r: String)
        ensures
            r@ == "com.apple.debugserver"@,
            nul_free(r@),
    {
        proof {
            reveal_strlit("com.apple.debugserver");
        }
        String::from_str("com.apple.debugserver")
    }

    /// Whether a retained debug-server session is present and still valid.
    pub open spec fn debug_session_live(&self) -> bool {
        match self.debug_server {
            Some(c) => c.guard.is_valid(),
            None => false,
        }
    }

    /// Whether a debug-server session is already retained; when it is not,
    /// `send_command` needs the outcome of a fresh native session open.
    pub fn debug_server_ready(&self) -> (r: bool)
        ensures
            r == (self.debug_server is Some),
    {
        self.debug_server.is_some()
    }

    /// Sends one command over the debug-server session, lazily opening the
    /// session first when none is retained yet — a send may therefore create
    /// and keep a session as a side effect.  `session` is the outcome of the
    /// native open performed for that lazy path (ignored when a session is
    /// already retained), which must have been made with the fixed label
    /// `default_debug_label`; `response` is the outcome of the native send,
    /// which the caller performs only once a valid session is at hand.  A
    /// session opened here is retained even when the send itself then fails.
    pub fn send_command(
        &mut self,
        command: &DebugServerCommand,
        session: Option<NativeSession>,
        response: Option<NativeResponse>,
    ) -> (r: Result<String, Error>)
        requires
            command.wf(),
            old(self).debug_server is None ==> session is Some && session->Some_0.wf(),
            (old(self).guard.is_valid() && (old(self).debug_session_live() || (old(self).debug_server
                is None && session->Some_0.ok()))) ==> response is Some,
        ensures
            final(self).guard == old(self).guard,
            final(self).proxy_client == old(self).proxy_client,
            final(self).same_identity(old(self)),
            old(self).wf() ==> final(self).wf(),
            !old(self).guard.is_valid() ==> r == Err::<String, Error>(Error::InvalidHandle)
                && *final(self) == *old(self),
            (old(self).guard.is_valid() && old(self).debug_server is Some
                && !old(self).debug_session_live()) ==> r == Err::<String, Error>(
                Error::InvalidHandle,
            ) && *final(self) == *old(self),
            (old(self).guard.is_valid() && old(self).debug_server is None && !session->Some_0.ok())
                ==> r == Err::<String, Error>(
                (Error::NativeCallFailed { code: session->Some_0.status }),
            ) && *final(self) == *old(self),
            (old(self).guard.is_valid() && old(self).debug_server is None && session->Some_0.ok())
                ==> final(self).debug_session_live()
                && final(self).debug_server->Some_0.guard.spec_handle() == session->Some_0.handle,
            (old(self).guard.is_valid() && old(self).debug_session_live())
                ==> final(self).debug_server == old(self).debug_server,
            (old(self).guard.is_valid() && (old(self).debug_session_live() || (old(self).debug_server
                is None && session->Some_0.ok()))) ==> r == (if response->Some_0.status == 0 {
                Ok::<String, Error>(response->Some_0.text)
            } else {
                Err::<String, Error>((Error::NativeCallFailed { code: response->Some_0.status }))
            }),
    {
        match self.guard.checked_access() {
            Ok(_) => {},
            Err(e) => {
                return Err(e);
            },
        }
        match &self.debug_server {
            Some(c) => {
                match c.guard.checked_access() {
                    Ok(_) => {},
                    Err(e) => {
                        return Err(e);
                    },
                }
            },
            None => {
                let s = match session {
                    Some(s) => s,
                    None => {
                        return Err(Error::InvalidHandle);
                    },
                };
                if s.status != 0 {
                    return Err(Error::NativeCallFailed { code: s.status });
                }
                self.debug_server = Some(DebugServerClient { guard: Guard::new(s.handle) });
            },
        }
        let resp = match response {
            Some(resp) => resp,
            None => {
                return Err(Error::InvalidHandle);
            },
        };
        if resp.status != 0 {
            return Err(Error::NativeCallFailed { code: resp.status });
        }
        Ok(resp.text)
    }

    /// Releases the native device handle exactly once.  The first call on a
    /// valid device returns the handle to hand to the matching native free
    /// call; every later call returns `None` and changes nothing further.
    /// Retained sessions are discarded, so their handles can never be reached
    /// through this device again.
    pub fn destroy(&mut self) -> (released: Option<u64>)
        ensures
            !final(self).guard.is_valid(),
            final(self).proxy_client is None,
            final(self).debug_server is None,
            final(self).same_identity(old(self)),
            final(self).wf(),
            old(self).guard.is_valid() ==> released == Some(old(self).guard.spec_handle()),
            !old(self).guard.is_valid() ==> released is None,
    {
        let released = match self.guard.checked_access() {
            Ok(h) => Some(h),
            Err(_) => None,
        };
        self.guard.invalidate();
        self.proxy_client = None;
        self.debug_server = None;
        released
    }
}

} // verus!
