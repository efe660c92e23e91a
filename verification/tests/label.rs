use bt_autoconnect::address::Address;
use bt_autoconnect::device::{
    label_from_alias, label_from_name, pretty_device_name, Device, DeviceError,
};

fn widget() -> Device {
    Device::new(Address::new([0xAA, 0xBB, 0xCC, 0xDD, 0xEE, 0xFF]))
}

fn failed() -> DeviceError {
    DeviceError::new(String::from("org.bluez.Error.Failed"))
}

#[test]
fn address_text_is_upper_case_hex_with_colons() {
    assert_eq!(widget().address().to_text(), "AA:BB:CC:DD:EE:FF");
    assert_eq!(Address::new([0, 1, 9, 10, 15, 16]).to_text(), "00:01:09:0A:0F:10");
    assert_eq!(Address::new([0x7f, 0x80, 0x99, 0xa0, 0xfe, 0x5c]).to_text(), "7F:80:99:A0:FE:5C");
}

#[test]
fn address_key_is_big_endian() {
    assert_eq!(Address::new([0, 0, 0, 0, 0, 0]).key(), 0);
    assert_eq!(Address::new([0, 0, 0, 0, 0, 1]).key(), 1);
    assert_eq!(Address::new([0, 0, 0, 0, 1, 0]).key(), 256);
    assert_eq!(Address::new([1, 0, 0, 0, 0, 0]).key(), 1u64 << 40);
    assert_eq!(widget().address().key(), 0xAABB_CCDD_EEFF);
    assert_eq!(Address::new([0xFF; 6]).key(), (1u64 << 48) - 1);
}

#[test]
fn address_keys_differ_where_addresses_differ() {
    let a = Address::new([1, 2, 3, 4, 5, 6]);
    let b = Address::new([6, 5, 4, 3, 2, 1]);
    let c = Address::new([1, 2, 3, 4, 5, 7]);
    assert_ne!(a.key(), b.key());
    assert_ne!(a.key(), c.key());
    assert_eq!(a.key(), Address::new([1, 2, 3, 4, 5, 6]).key());
}

#[test]
fn label_uses_name_when_alias_is_empty() {
    let label =
        pretty_device_name(&widget(), &Ok(String::new()), &Ok(Some(String::from("Widget"))));
    assert_eq!(label, "[AA:BB:CC:DD:EE:FF] Widget");
}

#[test]
fn label_prefers_alias_over_name() {
    let label = pretty_device_name(
        &widget(),
        &Ok(String::from("MyHeadset")),
        &Ok(Some(String::from("Widget"))),
    );
    assert_eq!(label, "[AA:BB:CC:DD:EE:FF] MyHeadset");
}

#[test]
fn label_is_bare_without_alias_and_name() {
    let label = pretty_device_name(&widget(), &Ok(String::new()), &Ok(None));
    assert_eq!(label, "[AA:BB:CC:DD:EE:FF]");
}

#[test]
fn label_treats_failed_queries_as_nothing_reported() {
    assert_eq!(
        pretty_device_name(&widget(), &Err(failed()), &Ok(Some(String::from("Widget")))),
        "[AA:BB:CC:DD:EE:FF] Widget"
    );
    assert_eq!(
        pretty_device_name(&widget(), &Ok(String::new()), &Err(failed())),
        "[AA:BB:CC:DD:EE:FF]"
    );
    assert_eq!(pretty_device_name(&widget(), &Err(failed()), &Err(failed())), "[AA:BB:CC:DD:EE:FF]");
}

#[test]
fn label_is_bare_when_alias_and_name_are_both_empty() {
    let label = pretty_device_name(&widget(), &Ok(String::new()), &Ok(Some(String::new())));
    assert_eq!(label, "[AA:BB:CC:DD:EE:FF]");
    assert_eq!(label_from_name(&widget(), &Ok(Some(String::new()))), "[AA:BB:CC:DD:EE:FF]");
    assert_eq!(
        pretty_device_name(&widget(), &Err(failed()), &Ok(Some(String::new()))),
        "[AA:BB:CC:DD:EE:FF]"
    );
}

#[test]
fn label_keeps_a_name_of_one_space() {
    let label = pretty_device_name(&widget(), &Ok(String::new()), &Ok(Some(String::from(" "))));
    assert_eq!(label, "[AA:BB:CC:DD:EE:FF]  ");
}

#[test]
fn label_from_alias_decides_only_with_an_alias() {
    assert_eq!(
        label_from_alias(&widget(), &Ok(String::from("MyHeadset"))),
        Some(String::from("[AA:BB:CC:DD:EE:FF] MyHeadset"))
    );
    assert_eq!(label_from_alias(&widget(), &Ok(String::new())), None);
    assert_eq!(label_from_alias(&widget(), &Err(failed())), None);
}

#[test]
fn label_from_name_falls_back_to_the_address() {
    assert_eq!(
        label_from_name(&widget(), &Ok(Some(String::from("Widget")))),
        "[AA:BB:CC:DD:EE:FF] Widget"
    );
    assert_eq!(label_from_name(&widget(), &Ok(None)), "[AA:BB:CC:DD:EE:FF]");
}

#[test]
fn label_keeps_non_ascii_text() {
    let label = pretty_device_name(&widget(), &Ok(String::from("Kopfhörer ♫")), &Ok(None));
    assert_eq!(label, "[AA:BB:CC:DD:EE:FF] Kopfhörer ♫");
}
