use vr_tracker::pose::Position;
use vr_tracker::pose::Rotation;
use vr_tracker::tracking_messages::TrackedObjects;
use vr_tracker::tracking_messages::VrDevice;
use vr_tracker::tracking_messages::VrDeviceClass;
use vr_tracker::wire::serialize;

fn device(
    id: usize,
    is_tracked: bool,
    seen: bool,
    position: (f32, f32, f32),
    rotation: (f32, f32, f32, f32),
    class: VrDeviceClass,
) -> VrDevice {
    VrDevice {
        id,
        is_tracked,
        seen,
        position: Position {
            x: position.0.to_bits(),
            y: position.1.to_bits(),
            z: position.2.to_bits(),
        },
        rotation: Rotation {
            w: rotation.0.to_bits(),
            x: rotation.1.to_bits(),
            y: rotation.2.to_bits(),
            z: rotation.3.to_bits(),
        },
        class,
    }
}

#[test]
fn serializes_one_device_exactly() {
    let d = device(0, true, true, (0.0, 0.0, 0.0), (1.0, 0.0, 0.0, 0.0), VrDeviceClass::HMD);
    let text = serialize(5, &vec![d]).unwrap();
    assert_eq!(
        text,
        "{\"ts\":5,\"trackers\":[{\"id\":0,\"tracked\":true,\"seen\":true,\
         \"position\":[0,0,0],\"rotation\":[1065353216,0,0,0],\"class\":\"HMD\"}]}"
    );
}

#[test]
fn serializes_empty_snapshot() {
    let text = serialize(1700000000123, &vec![]).unwrap();
    assert_eq!(text, "{\"ts\":1700000000123,\"trackers\":[]}");
}

#[test]
fn round_trip_reproduces_every_field() {
    let a = device(
        2,
        true,
        true,
        (1.5, -2.25, 3.75),
        (0.5, 0.5, -0.5, 0.5),
        VrDeviceClass::LeftController,
    );
    let b = device(
        10,
        false,
        true,
        (-0.125, 0.0625, 9.0),
        (0.9238795, 0.0, 0.3826834, 0.0),
        VrDeviceClass::Tracker,
    );
    let devices = vec![a, b];
    let text = serialize(424242, &devices).unwrap();
    let value: serde_json::Value = serde_json::from_str(&text).unwrap();
    assert_eq!(value["ts"].as_u64().unwrap(), 424242);
    let trackers = value["trackers"].as_array().unwrap();
    assert_eq!(trackers.len(), 2);
    let expect_class = ["LeftController", "Tracker"];
    for (i, d) in devices.iter().enumerate() {
        let t = &trackers[i];
        assert_eq!(t["id"].as_u64().unwrap() as usize, d.id);
        assert_eq!(t["tracked"].as_bool().unwrap(), d.is_tracked);
        assert_eq!(t["seen"].as_bool().unwrap(), d.seen);
        let p = t["position"].as_array().unwrap();
        assert_eq!(p[0].as_u64().unwrap() as u32, d.position.x);
        assert_eq!(p[1].as_u64().unwrap() as u32, d.position.y);
        assert_eq!(p[2].as_u64().unwrap() as u32, d.position.z);
        let r = t["rotation"].as_array().unwrap();
        assert_eq!(r[0].as_u64().unwrap() as u32, d.rotation.w);
        assert_eq!(r[1].as_u64().unwrap() as u32, d.rotation.x);
        assert_eq!(r[2].as_u64().unwrap() as u32, d.rotation.y);
        assert_eq!(r[3].as_u64().unwrap() as u32, d.rotation.z);
        assert_eq!(t["class"].as_str().unwrap(), expect_class[i]);
    }
}

#[test]
fn refuses_non_finite_components() {
    let nan = device(
        0,
        true,
        true,
        (f32::NAN, 0.0, 0.0),
        (1.0, 0.0, 0.0, 0.0),
        VrDeviceClass::Other,
    );
    assert!(serialize(1, &vec![nan]).is_none());
    let inf = device(
        0,
        true,
        true,
        (0.0, 0.0, 0.0),
        (f32::INFINITY, 0.0, 0.0, 0.0),
        VrDeviceClass::Other,
    );
    assert!(serialize(1, &vec![inf]).is_none());
}

#[test]
fn tracked_objects_serialize_matches_free_function() {
    let d = device(1, false, true, (2.0, 4.0, 8.0), (1.0, 0.0, 0.0, 0.0), VrDeviceClass::Sensor);
    let objects = TrackedObjects::new(77, vec![d]);
    assert_eq!(objects.serialize().unwrap(), serialize(77, &vec![d]).unwrap());
}

#[test]
fn serializes_the_largest_timestamp_and_slot() {
    let d = device(usize::MAX, false, false, (0.0, 0.0, 0.0), (0.0, 0.0, 0.0, 0.0), VrDeviceClass::Other);
    let text = serialize(u128::MAX, &vec![d]).unwrap();
    assert!(text.starts_with("{\"ts\":340282366920938463463374607431768211455,"));
    let value: serde_json::Value = serde_json::from_str(&text).unwrap();
    assert_eq!(
        value["trackers"][0]["id"].as_u64().unwrap(),
        usize::MAX as u64
    );
}

#[test]
fn serialization_is_deterministic() {
    let d = device(3, true, true, (0.1, 0.2, 0.3), (0.7, 0.1, 0.1, 0.1), VrDeviceClass::Controller);
    let first = serialize(9, &vec![d]).unwrap();
    let second = serialize(9, &vec![d]).unwrap();
    assert_eq!(first, second);
}
