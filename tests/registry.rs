use granit::device::{Device, DeviceError, DeviceRegister, Registry};
use serde_json::Value;

fn ids(devices: &[Device]) -> Vec<u128> {
    devices.iter().map(|d| d.id).collect()
}

#[test]
fn register_then_list_shows_one_bare_record() {
    let mut reg = Registry::new();
    let rec = reg.register(7).unwrap();
    assert_eq!(rec.id, 7);
    assert!(rec.metadata.is_none());
    let listed = reg.list();
    assert_eq!(listed.len(), 1);
    assert_eq!(listed[0].id, 7);
    assert!(listed[0].metadata.is_none());
}

#[test]
fn duplicate_register_is_conflict_and_keeps_metadata() {
    let mut reg = Registry::new();
    reg.register(1).unwrap();
    reg.set_metadata(1, Value::String("kept".to_string())).unwrap();
    assert_eq!(reg.register(1).unwrap_err(), DeviceError::Conflict(1));
    let listed = reg.list();
    assert_eq!(listed.len(), 1);
    assert_eq!(listed[0].metadata, Some(Value::String("kept".to_string())));
}

#[test]
fn each_identity_succeeds_once() {
    let mut reg = Registry::new();
    let calls = [3u128, 4, 3, 5, 4, 3];
    let results: Vec<bool> = calls.iter().map(|&id| reg.register(id).is_ok()).collect();
    assert_eq!(results, vec![true, true, false, true, false, false]);
    assert_eq!(ids(&reg.list()), vec![3, 4, 5]);
}

#[test]
fn same_identity_registered_many_times_gives_one_success() {
    let reg = std::sync::Mutex::new(Registry::new());
    let n = 16;
    let mut ok = 0;
    let mut conflicts = 0;
    for _ in 0..n {
        match reg.lock().unwrap().register(u128::MAX) {
            Ok(_) => ok += 1,
            Err(DeviceError::Conflict(id)) => {
                assert_eq!(id, u128::MAX);
                conflicts += 1
            }
            Err(e) => panic!("unexpected {:?}", e),
        }
    }
    assert_eq!(ok, 1);
    assert_eq!(conflicts, n - 1);
    assert_eq!(reg.lock().unwrap().list().len(), 1);
}

#[test]
fn set_metadata_replaces_whole_value() {
    let mut reg = Registry::new();
    reg.register(2).unwrap();
    let first: Value = serde_json::from_str(r#"{"a": 1, "b": 2}"#).unwrap();
    let second: Value = serde_json::from_str(r#"{"c": 3}"#).unwrap();
    reg.set_metadata(2, first).unwrap();
    reg.set_metadata(2, second.clone()).unwrap();
    let listed = reg.list();
    assert_eq!(listed.len(), 1);
    assert_eq!(listed[0].metadata, Some(second));
}

#[test]
fn unknown_identity_is_not_found_and_changes_nothing() {
    let mut reg = Registry::new();
    reg.register(10).unwrap();
    assert_eq!(reg.set_metadata(11, Value::Bool(true)), Err(DeviceError::NotFound(11)));
    assert!(!reg.delete(11));
    assert!(!reg.is_registered(11));
    let listed = reg.list();
    assert_eq!(listed.len(), 1);
    assert!(listed[0].metadata.is_none());
}

#[test]
fn delete_is_final() {
    let mut reg = Registry::new();
    reg.register(1).unwrap();
    reg.register(2).unwrap();
    reg.register(3).unwrap();
    assert!(reg.delete(2));
    assert_eq!(ids(&reg.list()), vec![1, 3]);
    assert!(!reg.is_registered(2));
    assert!(!reg.delete(2));
    assert_eq!(ids(&reg.list()), vec![1, 3]);
}

#[test]
fn deleted_identity_can_register_again() {
    let mut reg = Registry::new();
    reg.register(9).unwrap();
    reg.set_metadata(9, Value::Null).unwrap();
    assert!(reg.delete(9));
    let rec = reg.register(9).unwrap();
    assert!(rec.metadata.is_none());
    assert!(reg.is_registered(9));
}

#[test]
fn empty_registry_lists_nothing() {
    let reg = Registry::new();
    assert!(reg.list().is_empty());
    assert!(!reg.is_registered(0));
}

#[test]
fn register_request_carries_identity() {
    let mut reg = Registry::new();
    let req = DeviceRegister { id: 0x0123_4567_89ab_cdef_0123_4567_89ab_cdef };
    assert!(reg.register(req.id).is_ok());
    assert!(reg.is_registered(req.id));
}

#[test]
fn duplicate_copies_record() {
    let d = Device { id: 5, metadata: Some(Value::String("x".to_string())) };
    let c = d.duplicate();
    assert_eq!(c.id, 5);
    assert_eq!(c.metadata, d.metadata);
}
