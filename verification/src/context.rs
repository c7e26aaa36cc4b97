//! A made context: its platform, its devices and the driver's handle.

use vstd::prelude::*;

use crate::handle::{ContextHandle, DeviceId, PlatformId};
use crate::setup::{PlatformQuery, PlatformQueryView};

verus! {

/// Index of the device that is used where the caller names none.
pub const DEFAULT_DEVICE: usize = 0;

/// What a `Context` holds, as mathematics.
pub struct ContextView {
    pub platform: Option<PlatformId>,
    pub device_ids: Seq<DeviceId>,
    pub obj: ContextHandle,
    /// Whether the handle was already given up for release.
    pub released: bool,
}

impl ContextView {
    /// What `release` hands out: the handle, once; nothing after that.
    pub open spec fn handed_out(self) -> Option<ContextHandle> {
        if self.released {
            None
        } else {
            Some(self.obj)
        }
    }

    /// The record after a `release`: marked as released, else as it was.
    pub open spec fn after_release(self) -> ContextView {
        ContextView { released: true, ..self }
    }
}

/// The device that index `selected_idx` stands for in a list that is not
/// empty: the index wraps round the end of the list.
pub open spec fn wrapped_device(device_ids: Seq<DeviceId>, selected_idx: usize) -> DeviceId
    recommends
        device_ids.len() > 0,
{
    device_ids[(selected_idx as int) % (device_ids.len() as int)]
}

/// The device that an optional index stands for: the wrapped one where an
/// index is given, the one at `DEFAULT_DEVICE` where none is.
pub open spec fn resolved_device(device_ids: Seq<DeviceId>, device_idx: Option<usize>) -> DeviceId
    recommends
        device_ids.len() > 0,
{
    match device_idx {
        Some(di) => wrapped_device(device_ids, di),
        None => device_ids[DEFAULT_DEVICE as int],
    }
}

/// Whatever index is passed, the device it stands for is one of the list, as
/// long as the list is not empty; an index within the list stands for the
/// device at that place, and no index for the first.
pub proof fn lemma_resolved_device_is_listed(device_ids: Seq<DeviceId>, device_idx: Option<usize>)
    requires
        device_ids.len() > 0,
    ensures
        device_ids.contains(resolved_device(device_ids, device_idx)),
        device_idx is None ==> resolved_device(device_ids, device_idx) == device_ids[0],
        device_idx is Some && device_idx->Some_0 < device_ids.len() ==> resolved_device(
            device_ids,
            device_idx,
        ) == device_ids[device_idx->Some_0 as int],
{
    if device_idx is Some {
        let di = device_idx->Some_0;
        if di < device_ids.len() {
            vstd::arithmetic::div_mod::lemma_small_mod(di as nat, device_ids.len());
        }
        assert(0 <= (di as int) % (device_ids.len() as int) < device_ids.len());
    }
}

/// A handle is handed out for release at most once: whatever was released
/// before, a release leaves nothing to hand out, and a further release changes
/// nothing. A release touches neither handle, platform nor devices.
pub proof fn lemma_released_once(context: ContextView)
    ensures
        context.after_release().handed_out() is None,
        context.after_release().after_release() == context.after_release(),
        context.after_release().obj == context.obj,
        context.after_release().platform == context.platform,
        context.after_release().device_ids == context.device_ids,
        context.handed_out() is Some <==> !context.released,
        context.handed_out() is Some ==> context.handed_out() == Some(context.obj),
{
}

/// A context for one platform and the devices of it that were asked for.
///
/// Holds the handle of a context that the driver made, such as
/// `clCreateContext` returns. A value of this type always has a platform and
/// at least one device, and remembers whether its handle was given up for
/// release.
#[derive(Debug)]
pub struct Context {
    platform_opt: Option<PlatformId>,
    device_ids: Vec<DeviceId>,
    obj: ContextHandle,
    released: bool,
}

impl View for Context {
    type V = ContextView;

    closed spec fn view(&self) -> ContextView {
        ContextView {
            platform: self.platform_opt,
            device_ids: self.device_ids@,
            obj: self.obj,
            released: self.released,
        }
    }
}

impl Context {
    #[verifier::type_invariant]
    spec fn well_formed(&self) -> bool {
        &&& self.platform_opt is Some
        &&& self.device_ids@.len() > 0
    }

    /// Begins making a context within a platform and for a set of device types.
    ///
    /// `platform_idx_opt` is an index into the driver's list of platforms;
    /// `None` stands for the first platform. `device_types_opt` is a union of
    /// the driver's device type flags; `None` stands for the GPU devices.
    ///
    /// Nothing is decided yet: the query that comes back waits for the
    /// driver's list of platforms.
    pub fn new(platform_idx_opt: Option<usize>, device_types_opt: Option<u64>) -> (query:
        PlatformQuery)
        ensures
            query@ == (PlatformQueryView { platform_idx_opt, device_types_opt }),
    {
        PlatformQuery::from_options(platform_idx_opt, device_types_opt)
    }

    /// Puts a context together from what the driver answered.
    pub(crate) fn from_parts(platform: PlatformId, device_ids: Vec<DeviceId>, obj: ContextHandle) -> (context:
        Context)
        requires
            device_ids@.len() > 0,
        ensures
            context@ == (ContextView {
                platform: Some(platform),
                device_ids: device_ids@,
                obj,
                released: false,
            }),
    {
        Context { platform_opt: Some(platform), device_ids, obj, released: false }
    }

    /// The device for an optional index: see `resolved_device`.
    pub fn resolve_device_id(&self, device_idx: Option<usize>) -> (device: DeviceId)
        ensures
            device == resolved_device(self@.device_ids, device_idx),
            self@.device_ids.contains(device),
    {
        proof {
            use_type_invariant(self);
        }
        match device_idx {
            Some(di) => self.valid_device(di),
            None => self.device_ids[DEFAULT_DEVICE],
        }
    }

    /// The handle of the driver's context object, as the driver gave it.
    ///
    /// The record keeps the handle after a release; `is_released` tells
    /// whether the handle may still be passed to the driver.
    pub fn obj(&self) -> (obj: ContextHandle)
        ensures
            obj == self@.obj,
    {
        self.obj
    }

    /// Whether the handle was given up for release, so that it must not be
    /// passed to the driver again.
    pub fn is_released(&self) -> (released: bool)
        ensures
            released == self@.released,
    {
        self.released
    }

    /// The devices that are valid for use in this context. There is at least
    /// one.
    pub fn device_ids(&self) -> (device_ids: &Vec<DeviceId>)
        ensures
            device_ids@ == self@.device_ids,
            device_ids@.len() > 0,
    {
        proof {
            use_type_invariant(self);
        }
        &self.device_ids
    }

    /// The platform that this context pertains to. It is never `None`.
    pub fn platform(&self) -> (platform: Option<PlatformId>)
        ensures
            platform == self@.platform,
            platform is Some,
    {
        proof {
            use_type_invariant(self);
        }
        self.platform_opt
    }

    /// A device of this context whatever index is passed: the index is taken
    /// modulo the number of devices.
    pub fn valid_device(&self, selected_idx: usize) -> (device: DeviceId)
        ensures
            device == wrapped_device(self@.device_ids, selected_idx),
            self@.device_ids.contains(device),
            selected_idx < self@.device_ids.len() ==> device == self@.device_ids[selected_idx as int],
    {
        proof {
            use_type_invariant(self);
        }
        let valid_idx: usize = selected_idx % self.device_ids.len();
        proof {
            if selected_idx < self.device_ids@.len() {
                vstd::arithmetic::div_mod::lemma_small_mod(
                    selected_idx as nat,
                    self.device_ids@.len(),
                );
            }
        }
        self.device_ids[valid_idx]
    }

    /// Gives up the context.
    ///
    /// The first call hands out the handle, which the caller passes to the
    /// driver's `clReleaseContext`, and marks the record as released. Every
    /// later call hands out nothing. Handle, platform and devices stay in the
    /// record as they were.
    pub fn release(&mut self) -> (handed: Option<ContextHandle>)
        ensures
            handed == old(self)@.handed_out(),
            final(self)@ == old(self)@.after_release(),
    {
        proof {
            use_type_invariant(&*self);
        }
        if self.released {
            None
        } else {
            self.released = true;
            Some(self.obj)
        }
    }
}

} // verus!
