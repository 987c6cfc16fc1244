use ani_dock::device_id::DeviceId;

#[test]
fn default_device_id_is_empty() {
    let device_id = DeviceId::default();

    assert_eq!(device_id.get_cloned(), None);
}

#[test]
fn device_id_can_be_set_and_cleared() {
    let device_id = DeviceId::default();

    device_id.set(Some("device-123".to_string()));
    assert_eq!(device_id.get_cloned().as_deref(), Some("device-123"));

    device_id.set(None);
    assert_eq!(device_id.get_cloned(), None);
}

#[test]
fn cloned_device_ids_share_the_same_value() {
    let first = DeviceId::default();
    let second = first.clone();

    first.set(Some("device-from-first".to_string()));
    assert_eq!(second.get_cloned().as_deref(), Some("device-from-first"));

    second.set(Some("device-from-second".to_string()));
    assert_eq!(first.get_cloned().as_deref(), Some("device-from-second"));
    assert_eq!(first, second);
}

#[test]
fn independently_created_device_ids_compare_by_value() {
    let first = DeviceId::default();
    let second = DeviceId::default();

    assert_eq!(first, second);

    first.set(Some("device-123".to_string()));
    assert_ne!(first, second);

    second.set(Some("device-123".to_string()));
    assert_eq!(first, second);
}

#[test]
fn ids_equal_compares_text() {
    assert!(DeviceId::ids_equal(&None, &None));
    assert!(DeviceId::ids_equal(&Some("a".to_string()), &Some("a".to_string())));
    assert!(!DeviceId::ids_equal(&Some("a".to_string()), &Some("b".to_string())));
    assert!(!DeviceId::ids_equal(&Some("a".to_string()), &None));
}
