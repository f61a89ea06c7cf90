//! Choosing which enumerated HID endpoint to open, and the open fallback
//! decisions.
//!
//! The transport enumerates endpoints and opens handles; this module only
//! decides. The caller turns each enumerated endpoint into an [`Endpoint`]
//! record, asks [`locate_step`] what to do, performs the open it was told to
//! try, and reports a failure back as the next event.

use vstd::prelude::*;

verus! {

/// The four identifiers that select one logical HID interface.
#[derive(Clone, Copy, Debug, PartialEq, Eq, Structural)]
pub struct Selector {
    pub vendor_id: u16,
    pub product_id: u16,
    pub usage_page: u16,
    pub usage_id: u16,
}

/// What the locator reads of one enumerated endpoint.
#[derive(Clone, Copy, Debug, PartialEq, Eq, Structural)]
pub struct Endpoint {
    pub vendor_id: u16,
    pub product_id: u16,
    pub usage_page: u16,
    pub usage_id: u16,
}

/// A fatal failure to obtain a device handle.
#[derive(Clone, Copy, Debug, PartialEq, Eq, Structural)]
pub enum LocateError {
    /// No enumerated endpoint matches the selector.
    DeviceNotFound { selector: Selector },
    /// A matching endpoint was found but neither open attempt succeeded.
    OpenFailed { vendor_id: u16, product_id: u16 },
}

/// What has happened so far in the open sequence.
#[derive(Clone, Copy, Debug, PartialEq, Eq, Structural)]
pub enum LocateEvent {
    /// Nothing yet: decide where to start.
    Start,
    /// The open by stable path failed.
    PathOpenFailed,
    /// The fallback open by vendor and product failed too.
    FallbackOpenFailed,
}

/// What the caller should try next.
#[derive(Clone, Copy, Debug, PartialEq, Eq, Structural)]
pub enum LocateAction {
    /// Open the endpoint at this position of the enumeration by its path.
    TryPathOpen { index: usize },
    /// Open by vendor and product id alone.
    TryFallbackOpen,
    /// Give up with this error.
    Fail { error: LocateError },
}

/// The endpoint's four identifiers equal the selector's.
pub open spec fn endpoint_matches(e: Endpoint, sel: Selector) -> bool {
    e.vendor_id == sel.vendor_id && e.product_id == sel.product_id && e.usage_page
        == sel.usage_page && e.usage_id == sel.usage_id
}

/// Position of the first endpoint matching `sel`, in enumeration order.
///
/// When several endpoints match, the first wins; that tie-break is part of
/// the contract, not an error.
pub fn find_endpoint(endpoints: &Vec<Endpoint>, sel: &Selector) -> (found: Option<usize>)
    ensures
        match found {
            Some(i) => i < endpoints@.len() && endpoint_matches(endpoints@[i as int], *sel)
                && forall|j: int| 0 <= j < i ==> !endpoint_matches(endpoints@[j], *sel),
            None => forall|j: int|
                0 <= j < endpoints@.len() ==> !endpoint_matches(endpoints@[j], *sel),
        },
{
    let mut i: usize = 0;
    while i < endpoints.len()
        invariant
            i <= endpoints@.len(),
            forall|j: int| 0 <= j < i ==> !endpoint_matches(endpoints@[j], *sel),
        decreases endpoints@.len() - i,
    {
        let e = &endpoints[i];
        if e.vendor_id == sel.vendor_id && e.product_id == sel.product_id && e.usage_page
            == sel.usage_page && e.usage_id == sel.usage_id {
            return Some(i);
        }
        i += 1;
    }
    None
}

/// Decides the next move of the open sequence.
///
/// From `Start`: open the first matching endpoint by path, or fail with
/// `DeviceNotFound` when nothing matches. After a failed path open: fall
/// back to opening by vendor and product. After a failed fallback open:
/// fail with `OpenFailed`.
pub fn locate_step(ev: &LocateEvent, endpoints: &Vec<Endpoint>, sel: &Selector) -> (a: LocateAction)
    ensures
        match *ev {
            LocateEvent::Start => {
                &&& (exists|j: int|
                    0 <= j < endpoints@.len() && endpoint_matches(endpoints@[j], *sel)) ==> (
                a matches LocateAction::TryPathOpen { index } && index < endpoints@.len()
                    && endpoint_matches(endpoints@[index as int], *sel) && forall|j: int|
                    0 <= j < index ==> !endpoint_matches(endpoints@[j], *sel))
                &&& (forall|j: int|
                    0 <= j < endpoints@.len() ==> !endpoint_matches(endpoints@[j], *sel)) ==> a
                    == (LocateAction::Fail {
                    error: LocateError::DeviceNotFound { selector: *sel },
                })
            },
            LocateEvent::PathOpenFailed => a == LocateAction::TryFallbackOpen,
            LocateEvent::FallbackOpenFailed => a == (LocateAction::Fail {
                error: LocateError::OpenFailed {
                    vendor_id: sel.vendor_id,
                    product_id: sel.product_id,
                },
            }),
        },
{
    match ev {
        LocateEvent::Start => {
            match find_endpoint(endpoints, sel) {
                Some(index) => LocateAction::TryPathOpen { index },
                None => LocateAction::Fail {
                    error: LocateError::DeviceNotFound { selector: *sel },
                },
            }
        },
        LocateEvent::PathOpenFailed => LocateAction::TryFallbackOpen,
        LocateEvent::FallbackOpenFailed => LocateAction::Fail {
            error: LocateError::OpenFailed {
                vendor_id: sel.vendor_id,
                product_id: sel.product_id,
            },
        },
    }
}

} // verus!
