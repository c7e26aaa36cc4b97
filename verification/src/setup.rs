//! The three questions that are put to the driver on the way to a context,
//! and what each answer leads to.
//!
//! Each stage is a type of its own. A stage is left only through its
//! `answer`, so a `Context` exists only where a platform was chosen from the
//! driver's list and the platform had a device.

use vstd::prelude::*;

use crate::context::{Context, ContextView};
use crate::error::ContextError;
use crate::handle::{ContextHandle, DeviceId, PlatformId, DEVICE_TYPE_GPU};

verus! {

/// Index of the platform that is used where the caller names none.
pub const DEFAULT_PLATFORM: usize = 0;

/// The platform that an optional index picks from the driver's list, or why
/// none is picked.
pub open spec fn chosen_platform(platforms: Seq<PlatformId>, platform_idx_opt: Option<usize>) -> Result<
    PlatformId,
    ContextError,
> {
    if platforms.len() == 0 {
        Err(ContextError::NoPlatforms)
    } else {
        match platform_idx_opt {
            Some(pf_idx) => if pf_idx < platforms.len() {
                Ok(platforms[pf_idx as int])
            } else {
                Err(ContextError::InvalidPlatformIndex)
            },
            None => Ok(platforms[DEFAULT_PLATFORM as int]),
        }
    }
}

/// The device type mask that is asked for: the caller's, or the GPU devices
/// where the caller gave none.
pub open spec fn chosen_device_types(device_types_opt: Option<u64>) -> u64 {
    match device_types_opt {
        Some(device_types) => device_types,
        None => DEVICE_TYPE_GPU,
    }
}

/// What a `PlatformQuery` holds.
pub struct PlatformQueryView {
    pub platform_idx_opt: Option<usize>,
    pub device_types_opt: Option<u64>,
}

/// What a `DeviceQuery` holds.
pub struct DeviceQueryView {
    pub platform: PlatformId,
    pub device_types: u64,
}

/// What a `ContextRequest` holds.
pub struct ContextRequestView {
    pub platform: PlatformId,
    pub device_ids: Seq<DeviceId>,
}

impl PlatformQueryView {
    /// Where the driver's list of platforms leads.
    pub open spec fn answer(self, platforms: Seq<PlatformId>) -> Result<DeviceQueryView, ContextError> {
        match chosen_platform(platforms, self.platform_idx_opt) {
            Ok(platform) => Ok(
                DeviceQueryView {
                    platform,
                    device_types: chosen_device_types(self.device_types_opt),
                },
            ),
            Err(error) => Err(error),
        }
    }
}

impl DeviceQueryView {
    /// Where the driver's list of devices leads.
    pub open spec fn answer(self, device_ids: Seq<DeviceId>) -> Result<ContextRequestView, ContextError> {
        if device_ids.len() == 0 {
            Err(ContextError::NoDevices)
        } else {
            Ok(ContextRequestView { platform: self.platform, device_ids })
        }
    }
}

impl ContextRequestView {
    /// The context that the driver's handle completes. It is not released.
    pub open spec fn answer(self, obj: ContextHandle) -> ContextView {
        ContextView {
            platform: Some(self.platform),
            device_ids: self.device_ids,
            obj,
            released: false,
        }
    }
}

/// What the three answers lead to, taken together: the first failure on the
/// way, or the finished context.
pub open spec fn made_context(
    query: PlatformQueryView,
    platforms: Seq<PlatformId>,
    device_ids: Seq<DeviceId>,
    obj: ContextHandle,
) -> Result<ContextView, ContextError> {
    match query.answer(platforms) {
        Err(error) => Err(error),
        Ok(device_query) => match device_query.answer(device_ids) {
            Err(error) => Err(error),
            Ok(request) => Ok(request.answer(obj)),
        },
    }
}

/// A context is made exactly where the driver lists a platform, the index (if
/// one is given) lies within that list, and the platform has a device. Where
/// it is not made, the failure is the first of these that does not hold.
pub proof fn lemma_made_context_cases(
    query: PlatformQueryView,
    platforms: Seq<PlatformId>,
    device_ids: Seq<DeviceId>,
    obj: ContextHandle,
)
    ensures
        made_context(query, platforms, device_ids, obj) == if platforms.len() == 0 {
            Err::<ContextView, ContextError>(ContextError::NoPlatforms)
        } else if query.platform_idx_opt is Some && query.platform_idx_opt->Some_0
            >= platforms.len() {
            Err(ContextError::InvalidPlatformIndex)
        } else if device_ids.len() == 0 {
            Err(ContextError::NoDevices)
        } else {
            Ok(
                ContextView {
                    platform: Some(
                        platforms[match query.platform_idx_opt {
                            Some(pf_idx) => pf_idx as int,
                            None => 0,
                        }],
                    ),
                    device_ids,
                    obj,
                    released: false,
                },
            )
        },
{
}

/// The platform of a made context is one of those that the driver listed, its
/// devices and handle are the driver's, untouched, and it is not released.
pub proof fn lemma_made_context_keeps_answers(
    query: PlatformQueryView,
    platforms: Seq<PlatformId>,
    device_ids: Seq<DeviceId>,
    obj: ContextHandle,
)
    requires
        made_context(query, platforms, device_ids, obj) is Ok,
    ensures
        ({
            let context = made_context(query, platforms, device_ids, obj)->Ok_0;
            &&& context.platform is Some
            &&& platforms.contains(context.platform->Some_0)
            &&& context.device_ids == device_ids
            &&& context.device_ids.len() > 0
            &&& context.obj == obj
            &&& !context.released
        }),
{
}

/// First stage: the driver's list of platforms is awaited.
#[derive(Debug)]
pub struct PlatformQuery {
    platform_idx_opt: Option<usize>,
    device_types_opt: Option<u64>,
}

impl View for PlatformQuery {
    type V = PlatformQueryView;

    closed spec fn view(&self) -> PlatformQueryView {
        PlatformQueryView {
            platform_idx_opt: self.platform_idx_opt,
            device_types_opt: self.device_types_opt,
        }
    }
}

impl PlatformQuery {
    pub(crate) fn from_options(platform_idx_opt: Option<usize>, device_types_opt: Option<u64>) -> (query:
        PlatformQuery)
        ensures
            query@ == (PlatformQueryView { platform_idx_opt, device_types_opt }),
    {
        PlatformQuery { platform_idx_opt, device_types_opt }
    }

    /// Takes the driver's list of platforms and picks one.
    ///
    /// Fails with `NoPlatforms` on an empty list, and with
    /// `InvalidPlatformIndex` where an index was given that the list does not
    /// reach. Else the next stage asks for the devices of the platform at the
    /// index, or of the first platform where no index was given.
    pub fn answer(self, platforms: &Vec<PlatformId>) -> (next: Result<DeviceQuery, ContextError>)
        ensures
            match self@.answer(platforms@) {
                Ok(query) => next is Ok && next->Ok_0@ == query,
                Err(error) => next is Err && next->Err_0 == error,
            },
    {
        if platforms.len() == 0 {
            return Err(ContextError::NoPlatforms);
        }
        let platform: PlatformId = match self.platform_idx_opt {
            Some(pf_idx) => {
                if pf_idx < platforms.len() {
                    platforms[pf_idx]
                } else {
                    return Err(ContextError::InvalidPlatformIndex);
                }
            },
            None => platforms[DEFAULT_PLATFORM],
        };
        let device_types: u64 = match self.device_types_opt {
            Some(device_types) => device_types,
            None => DEVICE_TYPE_GPU,
        };
        Ok(DeviceQuery { platform, device_types })
    }
}

/// Second stage: a platform is chosen, and the list of its devices of the
/// wanted types is awaited.
#[derive(Debug)]
pub struct DeviceQuery {
    platform: PlatformId,
    device_types: u64,
}

impl View for DeviceQuery {
    type V = DeviceQueryView;

    closed spec fn view(&self) -> DeviceQueryView {
        DeviceQueryView { platform: self.platform, device_types: self.device_types }
    }
}

impl DeviceQuery {
    /// The platform whose devices are to be listed.
    pub fn platform(&self) -> (platform: PlatformId)
        ensures
            platform == self@.platform,
    {
        self.platform
    }

    /// The device type mask to list them by.
    pub fn device_types(&self) -> (device_types: u64)
        ensures
            device_types == self@.device_types,
    {
        self.device_types
    }

    /// Takes the driver's list of devices.
    ///
    /// Fails with `NoDevices` on an empty list. Else the next stage asks for
    /// a context of exactly these devices, in this order.
    pub fn answer(self, device_ids: Vec<DeviceId>) -> (next: Result<ContextRequest, ContextError>)
        ensures
            match self@.answer(device_ids@) {
                Ok(request) => next is Ok && next->Ok_0@ == request,
                Err(error) => next is Err && next->Err_0 == error,
            },
    {
        if device_ids.len() == 0 {
            return Err(ContextError::NoDevices);
        }
        Ok(ContextRequest { platform: self.platform, device_ids })
    }
}

/// Third stage: the devices are known, and the handle of the context that the
/// driver makes for them is awaited.
#[derive(Debug)]
pub struct ContextRequest {
    platform: PlatformId,
    device_ids: Vec<DeviceId>,
}

impl View for ContextRequest {
    type V = ContextRequestView;

    closed spec fn view(&self) -> ContextRequestView {
        ContextRequestView { platform: self.platform, device_ids: self.device_ids@ }
    }
}

impl ContextRequest {
    #[verifier::type_invariant]
    spec fn well_formed(&self) -> bool {
        self.device_ids@.len() > 0
    }

    /// The platform that the devices belong to.
    pub fn platform(&self) -> (platform: PlatformId)
        ensures
            platform == self@.platform,
    {
        self.platform
    }

    /// The devices to make the context for. There is at least one.
    pub fn device_ids(&self) -> (device_ids: &Vec<DeviceId>)
        ensures
            device_ids@ == self@.device_ids,
            device_ids@.len() > 0,
    {
        proof {
            use_type_invariant(self);
        }
        &self.device_ids
    }

    /// Takes the handle of the context that the driver made, and completes
    /// the `Context`.
    pub fn answer(self, obj: ContextHandle) -> (context: Context)
        ensures
            context@ == self@.answer(obj),
    {
        proof {
            use_type_invariant(&self);
        }
        Context::from_parts(self.platform, self.device_ids, obj)
    }
}

} // verus!
