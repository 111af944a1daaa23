//! Application-level device records: the simplified device category,
//! the per-device state with its one-way `seen` latch, and the
//! timestamped snapshot that gets published each cycle.

use vstd::prelude::*;
use crate::pose::Position;
use crate::pose::Rotation;

verus! {

/// The device class reported by the hardware interface.
#[derive(Clone, Copy, Debug, PartialEq, Eq, Structural)]
pub enum TrackedDeviceClass {
    Invalid,
    HMD,
    Controller,
    GenericTracker,
    TrackingReference,
    DisplayRedirect,
}

/// The hand a controller is assigned to, when the hardware reports one.
#[derive(Clone, Copy, Debug, PartialEq, Eq, Structural)]
pub enum TrackedControllerRole {
    LeftHand,
    RightHand,
}

/// The simplified device category the snapshot carries.
#[derive(Clone, Copy, Debug, PartialEq, Eq, Structural)]
pub enum VrDeviceClass {
    Controller,
    LeftController,
    RightController,
    Tracker,
    HMD,
    Sensor,
    Other,
}

/// The category for a device class and an optional controller role:
/// an HMD is `HMD`; a controller is `LeftController`, `RightController`
/// or `Controller` by its role; a generic tracker is `Tracker`; a
/// tracking reference is `Sensor`; anything else is `Other`.
pub open spec fn spec_classify(
    device_class: TrackedDeviceClass,
    controller: Option<TrackedControllerRole>,
) -> VrDeviceClass {
    match device_class {
        TrackedDeviceClass::HMD => VrDeviceClass::HMD,
        TrackedDeviceClass::Controller => match controller {
            Some(TrackedControllerRole::LeftHand) => VrDeviceClass::LeftController,
            Some(TrackedControllerRole::RightHand) => VrDeviceClass::RightController,
            None => VrDeviceClass::Controller,
        },
        TrackedDeviceClass::GenericTracker => VrDeviceClass::Tracker,
        TrackedDeviceClass::TrackingReference => VrDeviceClass::Sensor,
        _ => VrDeviceClass::Other,
    }
}

impl VrDeviceClass {
    /// Maps a hardware device class and optional controller role to the
    /// simplified category, following the classification table exactly.
    pub fn from_openvr_types(
        device_class: TrackedDeviceClass,
        controller: Option<TrackedControllerRole>,
    ) -> (r: VrDeviceClass)
        ensures
            r == spec_classify(device_class, controller),
    {
        match device_class {
            TrackedDeviceClass::HMD => VrDeviceClass::HMD,
            TrackedDeviceClass::Controller => match controller {
                Some(TrackedControllerRole::LeftHand) => VrDeviceClass::LeftController,
                Some(TrackedControllerRole::RightHand) => VrDeviceClass::RightController,
                None => VrDeviceClass::Controller,
            },
            TrackedDeviceClass::GenericTracker => VrDeviceClass::Tracker,
            TrackedDeviceClass::TrackingReference => VrDeviceClass::Sensor,
            _ => VrDeviceClass::Other,
        }
    }
}

/// One tracked device. `id` is the hardware-assigned slot, permanent for
/// the life of the registry. `is_tracked` reports the most recent poll;
/// `seen` latches once `is_tracked` has ever been true.
#[derive(Clone, Copy, Debug, PartialEq, Eq, Structural)]
pub struct VrDevice {
    pub id: usize,
    pub is_tracked: bool,
    pub seen: bool,
    pub position: Position,
    pub rotation: Rotation,
    pub class: VrDeviceClass,
}

/// The pre-observation default for a freshly created slot entry:
/// untracked, unseen, at the origin with the identity orientation,
/// category `Other`.
pub open spec fn spec_fresh_device(id: usize) -> VrDevice {
    VrDevice {
        id,
        is_tracked: false,
        seen: false,
        position: Position::spec_origin(),
        rotation: Rotation::spec_identity(),
        class: VrDeviceClass::Other,
    }
}

/// The state of a device after one observation. A valid observation
/// tracks the device, latches `seen` and overwrites pose and class;
/// an invalid one only clears `is_tracked`, leaving the last pose and
/// class in place (stale but present).
pub open spec fn spec_observe(
    d: VrDevice,
    valid: bool,
    position: Position,
    rotation: Rotation,
    class: VrDeviceClass,
) -> VrDevice {
    if valid {
        VrDevice { id: d.id, is_tracked: true, seen: true, position, rotation, class }
    } else {
        VrDevice { is_tracked: false, ..d }
    }
}

impl VrDevice {
    /// A fresh entry for slot `id` with the pre-observation defaults.
    pub fn new(id: usize) -> (r: VrDevice)
        ensures
            r == spec_fresh_device(id),
    {
        VrDevice {
            id,
            is_tracked: false,
            seen: false,
            position: Position::origin(),
            rotation: Rotation::identity(),
            class: VrDeviceClass::Other,
        }
    }

    /// Applies one observation: `is_tracked` follows `valid`; `seen`
    /// only ever rises; pose and class change only on a valid
    /// observation.
    pub fn update(
        &mut self,
        valid: bool,
        position: Position,
        rotation: Rotation,
        class: VrDeviceClass,
    )
        ensures
            *final(self) == spec_observe(*old(self), valid, position, rotation, class),
            final(self).id == old(self).id,
            final(self).seen == (old(self).seen || valid),
    {
        self.is_tracked = valid;
        if valid {
            self.seen = true;
            self.position = position;
            self.rotation = rotation;
            self.class = class;
        }
    }

    pub fn id(&self) -> (r: usize)
        ensures
            r == self.id,
    {
        self.id
    }

    pub fn seen(&self) -> (r: bool)
        ensures
            r == self.seen,
    {
        self.seen
    }
}

/// A publish-cycle snapshot: a timestamp in milliseconds since the Unix
/// epoch and the devices it covers, in ascending slot order.
#[derive(Clone, Debug)]
pub struct TrackedObjects {
    pub ts: u128,
    pub trackers: Vec<VrDevice>,
}

impl TrackedObjects {
    pub fn new(ts: u128, trackers: Vec<VrDevice>) -> (r: TrackedObjects)
        ensures
            r.ts == ts,
            r.trackers@ == trackers@,
    {
        TrackedObjects { ts, trackers }
    }

    /// Renders this snapshot as the canonical wire text. Succeeds exactly
    /// when every pose component of every device is finite.
    pub fn serialize(&self) -> (r: Option<String>)
        ensures
            r is Some <==> crate::wire::spec_all_finite(self.trackers@),
            r matches Some(text) ==> text@ == crate::wire::spec_snapshot_json(
                self.ts as nat,
                self.trackers@,
            ),
    {
        crate::wire::serialize(self.ts, &self.trackers)
    }
}

} // verus!
