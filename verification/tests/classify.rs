use vr_tracker::tracking_messages::TrackedControllerRole;
use vr_tracker::tracking_messages::TrackedDeviceClass;
use vr_tracker::tracking_messages::VrDeviceClass;

#[test]
fn hmd_maps_to_hmd_whatever_the_role() {
    assert_eq!(
        VrDeviceClass::from_openvr_types(TrackedDeviceClass::HMD, None),
        VrDeviceClass::HMD
    );
    assert_eq!(
        VrDeviceClass::from_openvr_types(
            TrackedDeviceClass::HMD,
            Some(TrackedControllerRole::LeftHand)
        ),
        VrDeviceClass::HMD
    );
}

#[test]
fn controller_maps_by_hand() {
    assert_eq!(
        VrDeviceClass::from_openvr_types(
            TrackedDeviceClass::Controller,
            Some(TrackedControllerRole::LeftHand)
        ),
        VrDeviceClass::LeftController
    );
    assert_eq!(
        VrDeviceClass::from_openvr_types(
            TrackedDeviceClass::Controller,
            Some(TrackedControllerRole::RightHand)
        ),
        VrDeviceClass::RightController
    );
    assert_eq!(
        VrDeviceClass::from_openvr_types(TrackedDeviceClass::Controller, None),
        VrDeviceClass::Controller
    );
}

#[test]
fn tracker_and_reference_map_to_their_categories() {
    assert_eq!(
        VrDeviceClass::from_openvr_types(TrackedDeviceClass::GenericTracker, None),
        VrDeviceClass::Tracker
    );
    assert_eq!(
        VrDeviceClass::from_openvr_types(
            TrackedDeviceClass::GenericTracker,
            Some(TrackedControllerRole::RightHand)
        ),
        VrDeviceClass::Tracker
    );
    assert_eq!(
        VrDeviceClass::from_openvr_types(TrackedDeviceClass::TrackingReference, None),
        VrDeviceClass::Sensor
    );
}

#[test]
fn unknown_classes_map_to_other() {
    assert_eq!(
        VrDeviceClass::from_openvr_types(TrackedDeviceClass::Invalid, None),
        VrDeviceClass::Other
    );
    assert_eq!(
        VrDeviceClass::from_openvr_types(
            TrackedDeviceClass::DisplayRedirect,
            Some(TrackedControllerRole::LeftHand)
        ),
        VrDeviceClass::Other
    );
}
