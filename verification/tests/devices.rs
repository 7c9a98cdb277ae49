use rmus::devices::Devices;

fn some(name: &str) -> Option<String> {
    Some(String::from(name))
}

#[test]
fn unnamed_devices_are_left_out() {
    let devices = Devices::new(vec![some("hdmi"), None, some("usb"), None, some("jack")], 1);
    assert_eq!(devices.get_device_names(), vec!["hdmi", "usb", "jack"]);
    assert_eq!(devices.device_count(), 3);
    assert_eq!(devices.get_device_by_index(0), 0);
    assert_eq!(devices.get_device_by_index(1), 2);
    assert_eq!(devices.get_device_by_index(2), 4);
    assert_eq!(devices.get_current_device(), 1);
}

#[test]
fn stale_index_falls_back_to_the_first_device() {
    let devices = Devices::new(vec![some("a"), some("b")], 2);
    assert_eq!(devices.get_current_device(), 0);
    let devices = Devices::new(vec![some("a"), None], 1);
    assert_eq!(devices.get_current_device(), 0);
    let devices = Devices::new(vec![some("a"), some("b")], usize::MAX);
    assert_eq!(devices.get_current_device(), 0);
}

#[test]
fn valid_index_is_kept() {
    let devices = Devices::new(vec![some("a"), some("b"), some("c")], 2);
    assert_eq!(devices.get_current_device(), 2);
}

#[test]
fn empty_enumeration_gives_an_empty_registry() {
    let devices = Devices::new(Vec::new(), 3);
    assert_eq!(devices.device_count(), 0);
    assert!(devices.get_device_names().is_empty());
    assert_eq!(devices.get_current_device(), 0);
    let devices = Devices::new(vec![None, None], 0);
    assert_eq!(devices.device_count(), 0);
}

#[test]
fn names_and_positions_stay_aligned() {
    let probed = vec![None, some("x"), some("y"), None, None, some("z")];
    let devices = Devices::new(probed.clone(), 0);
    let names = devices.get_device_names();
    for k in 0..devices.device_count() {
        let position = devices.get_device_by_index(k);
        assert_eq!(probed[position].as_ref(), Some(&names[k]));
    }
}
