use dlab_ble::CharacteristicRef;
use dlab_ble::Connector;
use dlab_ble::Error;
use dlab_ble::NativeId;
use dlab_ble::PeripheralIndex;
use dlab_ble::UuidPair;
use dlab_ble::connector::name_passes_filter;

fn connector() -> Connector {
    Connector::create(1).unwrap()
}

#[test]
fn create_with_one_adapter_succeeds() {
    let c = connector();
    assert_eq!(c.next_peripheral_id, 0);
    assert!(c.list_devices().is_empty());
}

#[test]
fn create_with_zero_adapters_fails() {
    let r = Connector::create(0);
    assert_eq!(r.err(), Some(Error::WrongAdapterCount));
}

#[test]
fn create_with_two_adapters_fails() {
    let r = Connector::create(2);
    assert_eq!(r.err(), Some(Error::WrongAdapterCount));
}

#[test]
fn filter_accepts_prefixed_names_only() {
    assert!(name_passes_filter("D-LAB ESTIM"));
    assert!(name_passes_filter("D-LAB ESTIM-42"));
    assert!(!name_passes_filter("D-LAB ESTI"));
    assert!(!name_passes_filter(""));
    assert!(!name_passes_filter("Other Device"));
    assert!(!name_passes_filter("d-lab estim-42"));
    assert!(!name_passes_filter("xD-LAB ESTIM"));
}

#[test]
fn discovery_of_matching_peripheral_reaches_ready() {
    let mut c = connector();
    let ix = c.device_discovered(NativeId(9), Some("D-LAB ESTIM-42"));
    assert_eq!(ix, Some(PeripheralIndex(0)));
    assert!(c.mark_ready(PeripheralIndex(0)).is_ok());
    assert_eq!(c.list_devices(), vec![PeripheralIndex(0)]);
}

#[test]
fn filtered_peripheral_never_obtains_index() {
    let mut c = connector();
    assert_eq!(c.device_discovered(NativeId(1), Some("Other Device")), None);
    assert_eq!(c.device_discovered(NativeId(2), None), None);
    let ix = c.device_discovered(NativeId(3), Some("D-LAB ESTIM-X"));
    assert_eq!(ix, Some(PeripheralIndex(0)));
    assert_eq!(c.next_peripheral_id, 1);
    assert_eq!(
        c.lookup_peripheral_id(PeripheralIndex(0)),
        Ok(NativeId(3))
    );
}

#[test]
fn indices_are_issued_strictly_increasing() {
    let mut c = connector();
    let a = c.device_discovered(NativeId(10), Some("D-LAB ESTIM A"));
    let b = c.device_discovered(NativeId(11), Some("D-LAB ESTIM B"));
    assert_eq!(a, Some(PeripheralIndex(0)));
    assert_eq!(b, Some(PeripheralIndex(1)));
    assert_eq!(c.lookup_peripheral_id(PeripheralIndex(0)), Ok(NativeId(10)));
    assert_eq!(c.lookup_peripheral_id(PeripheralIndex(1)), Ok(NativeId(11)));
}

#[test]
fn mapping_exists_before_readiness() {
    let mut c = connector();
    let ix = c.device_discovered(NativeId(4), Some("D-LAB ESTIM-7")).unwrap();
    assert_eq!(c.lookup_peripheral_id(ix), Ok(NativeId(4)));
    assert!(c.list_devices().is_empty());
    assert!(c.mark_ready(ix).is_ok());
    assert_eq!(c.list_devices(), vec![ix]);
}

#[test]
fn lookup_of_unknown_index_fails() {
    let mut c = connector();
    let ix = c.device_discovered(NativeId(5), Some("D-LAB ESTIM-1")).unwrap();
    assert!(c.mark_ready(ix).is_ok());
    let r = c.lookup_peripheral_id(PeripheralIndex(7));
    assert_eq!(r, Err(Error::NoSuchPeripheral));
    assert_eq!(c.list_devices(), vec![PeripheralIndex(0)]);
}

#[test]
fn mark_ready_of_unknown_index_fails() {
    let mut c = connector();
    let r = c.mark_ready(PeripheralIndex(0));
    assert_eq!(r, Err(Error::NoSuchPeripheral));
    assert!(c.list_devices().is_empty());
}

#[test]
fn mark_ready_twice_keeps_one_entry() {
    let mut c = connector();
    let ix = c.device_discovered(NativeId(6), Some("D-LAB ESTIM-2")).unwrap();
    assert!(c.mark_ready(ix).is_ok());
    assert!(c.mark_ready(ix).is_ok());
    assert_eq!(c.list_devices(), vec![ix]);
}

fn sample_list() -> Vec<CharacteristicRef> {
    vec![
        CharacteristicRef {
            service_uuid: UuidPair { hi: 1, lo: 2 },
            uuid: UuidPair { hi: 3, lo: 4 },
        },
        CharacteristicRef {
            service_uuid: UuidPair { hi: 1, lo: 2 },
            uuid: UuidPair { hi: 5, lo: 6 },
        },
        CharacteristicRef {
            service_uuid: UuidPair { hi: 1, lo: 2 },
            uuid: UuidPair { hi: 5, lo: 6 },
        },
    ]
}

#[test]
fn find_characteristic_returns_first_match() {
    let list = sample_list();
    let r = Connector::find_characteristic(
        &list,
        UuidPair { hi: 1, lo: 2 },
        UuidPair { hi: 5, lo: 6 },
    );
    assert_eq!(r, Ok(1));
    let r0 = Connector::find_characteristic(
        &list,
        UuidPair { hi: 1, lo: 2 },
        UuidPair { hi: 3, lo: 4 },
    );
    assert_eq!(r0, Ok(0));
}

#[test]
fn find_characteristic_needs_both_uuids_to_match() {
    let list = sample_list();
    let r = Connector::find_characteristic(
        &list,
        UuidPair { hi: 9, lo: 9 },
        UuidPair { hi: 3, lo: 4 },
    );
    assert_eq!(r, Err(Error::NoSuchCharacteristic));
    let r2 = Connector::find_characteristic(
        &list,
        UuidPair { hi: 1, lo: 2 },
        UuidPair { hi: 3, lo: 6 },
    );
    assert_eq!(r2, Err(Error::NoSuchCharacteristic));
}

#[test]
fn find_characteristic_in_empty_list_fails() {
    let list: Vec<CharacteristicRef> = vec![];
    let r = Connector::find_characteristic(
        &list,
        UuidPair { hi: 1, lo: 2 },
        UuidPair { hi: 3, lo: 4 },
    );
    assert_eq!(r, Err(Error::NoSuchCharacteristic));
}

#[test]
fn error_messages_name_each_kind() {
    assert_eq!(Error::WrongAdapterCount.message(), "Wrong adapter count");
    assert_eq!(Error::NoSuchPeripheral.message(), "No such peripheral");
    assert_eq!(
        Error::NoSuchCharacteristic.message(),
        "No such characteristic"
    );
    assert_eq!(Error::Transport.message(), "Transport error");
}
