//! The installation-proxy boundary: lookup options, application lookup, and
//! the raw client wrapper.
//!
//! Structured plist values are a data-marshalling concern of the native
//! layer; this library carries them only as opaque handle tokens and decides
//! nothing from their contents.  What it does decide — which strings may
//! cross the C boundary, and how a native lookup status is translated — is
//! verified here.

use vstd::prelude::*;

use crate::error::Error;
use crate::marshal::{check_nul_free, nul_free};

verus! {

/// An opaque structured value owned by the native layer, carried by token.
/// Deliberately neither copied nor cloned: the value that reaches the
/// matching native free is consumed with it.
#[derive(Debug, PartialEq, Eq, Structural)]
pub struct Plist {
    pub plist_t: u64,
}

/// A raw installation-proxy session handle, as handed back by the native
/// service-start call.
#[allow(non_camel_case_types)]
#[derive(Clone, Copy, Debug, PartialEq, Eq, Structural)]
pub struct instproxy_client_t {
    pub client: u64,
}

impl instproxy_client_t {
    /// Wraps a native installation-proxy handle token.
    pub fn new(client: u64) -> (r: Self)
        ensures
            r.client == client,
    {
        instproxy_client_t { client }
    }
}

/// What the native lookup call reported: its status and the token of the
/// result value it produced (meaningful only on success).
#[derive(Clone, Copy, Debug, PartialEq, Eq, Structural)]
pub struct LookupOutcome {
    pub status: i32,
    pub plist: u64,
}

/// Wraps the token of a freshly allocated native options dictionary.
pub fn instproxy_client_options_new(raw: u64) -> (p: Plist)
    ensures
        p.plist_t == raw,
{
    Plist { plist_t: raw }
}

/// Validates one key/value pair before it is added to an options dictionary
/// through the native layer.  The pair may cross the C boundary exactly when
/// both strings are free of interior NULs; otherwise the addition must not be
/// attempted and the failure is local (`BuildError`).
pub fn instproxy_client_options_add(options: &Plist, key: String, value: String) -> (r: Result<
    (),
    Error,
>)
    ensures
        r is Ok <==> nul_free(key@) && nul_free(value@),
        r is Err ==> r == Err::<(), Error>(Error::BuildError),
{
    if check_nul_free(key.as_str()) && check_nul_free(value.as_str()) {
        Ok(())
    } else {
        Err(Error::BuildError)
    }
}

/// Validates the return-attributes string before it is set on an options
/// dictionary through the native layer; fails locally (`BuildError`) exactly
/// when the string cannot cross the C boundary.
pub fn instproxy_client_options_set_return_attributes(options: &Plist, attribute: String) -> (r:
    Result<(), Error>)
    ensures
        r is Ok <==> nul_free(attribute@),
        r is Err ==> r == Err::<(), Error>(Error::BuildError),
{
    if check_nul_free(attribute.as_str()) {
        Ok(())
    } else {
        Err(Error::BuildError)
    }
}

/// Translates the outcome of the native application lookup: a negative status
/// means the lookup failed and yields no value; any other status yields the
/// result value the native call produced.
pub fn instproxy_lookup(
    client: &instproxy_client_t,
    appid: String,
    client_opts: &Plist,
    outcome: LookupOutcome,
) -> (r: Option<Plist>)
    requires
        nul_free(appid@),
    ensures
        outcome.status < 0 ==> r is None,
        outcome.status >= 0 ==> r == Some(Plist { plist_t: outcome.plist }),
{
    if outcome.status < 0 {
        None
    } else {
        Some(Plist { plist_t: outcome.plist })
    }
}

/// Consumes an options dictionary and returns its token, to be handed to the
/// matching native free call exactly once.
pub fn instproxy_client_options_free(options: Plist) -> (raw: u64)
    ensures
        raw == options.plist_t,
{
    options.plist_t
}

/// Wraps the value the native path traversal produced for `appid` under
/// `apps`; the traversal itself is the native layer's, this only checks that
/// the identifier could cross the boundary and carries the result token.
pub fn plist_access_path(apps: &Plist, length: u32, appid: String, found: u64) -> (r: Plist)
    requires
        nul_free(appid@),
    ensures
        r.plist_t == found,
{
    Plist { plist_t: found }
}

/// Wraps the value the native dictionary lookup produced for `key` under
/// `apps`, as `plist_access_path` does for a path.
pub fn plist_dict_get_item(apps: &Plist, key: String, found: u64) -> (r: Plist)
    requires
        nul_free(key@),
    ensures
        r.plist_t == found,
{
    Plist { plist_t: found }
}

} // verus!
