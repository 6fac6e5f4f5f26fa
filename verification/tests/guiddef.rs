use com::{failed, iid_iclassfactory, iid_iunknown, is_equal_guid, lock_server};
use com::{CLASS_E_NOAGGREGATION, E_NOINTERFACE, GUID, HRESULT, IID, NOERROR, S_OK};

fn sample() -> GUID {
    GUID { data1: 0xf5353c58, data2: 0xcfd9, data3: 0x4204, data4: [0x8d, 0x92, 0xd2, 0x74, 0xc7, 0x57, 0x8b, 0x53] }
}

#[test]
fn failed_is_false_for_success_codes() {
    assert!(!failed(S_OK));
    assert!(!failed(NOERROR));
    assert!(!failed(1));
    assert!(!failed(i32::MAX));
}

#[test]
fn failed_is_true_for_negative_codes() {
    assert!(failed(-1));
    assert!(failed(i32::MIN));
    assert!(failed(E_NOINTERFACE));
    assert!(failed(CLASS_E_NOAGGREGATION));
}

#[test]
fn status_codes_have_their_binary_values() {
    let ok: HRESULT = S_OK;
    assert_eq!(ok, 0);
    assert_eq!(NOERROR, 0);
    assert_eq!(E_NOINTERFACE as u32, 0x8000_4002);
    assert_eq!(CLASS_E_NOAGGREGATION as u32, 0x8004_0110);
    assert_eq!(E_NOINTERFACE, -2147467262);
    assert_eq!(CLASS_E_NOAGGREGATION, -2147221232);
}

#[test]
fn lock_server_always_succeeds() {
    assert_eq!(lock_server(true), S_OK);
    assert_eq!(lock_server(false), S_OK);
    assert_eq!(lock_server(false), S_OK);
    assert!(!failed(lock_server(true)));
}

#[test]
fn an_identifier_equals_itself() {
    let a = sample();
    let b = sample();
    assert!(is_equal_guid(&a, &b));
    assert!(is_equal_guid(&a, &a));
    assert!(a == b);
    assert!(!(a != b));
}

#[test]
fn identifiers_that_differ_in_one_group_are_not_equal() {
    let a = sample();
    let mut b = sample();
    b.data1 = 0xf5353c59;
    assert!(!is_equal_guid(&a, &b));
    assert!(a != b);
    let mut b = sample();
    b.data2 = 0xcfd8;
    assert!(!is_equal_guid(&a, &b));
    let mut b = sample();
    b.data3 = 0x4205;
    assert!(!is_equal_guid(&a, &b));
    assert!(!is_equal_guid(&b, &a));
}

#[test]
fn identifiers_that_differ_in_one_byte_of_the_last_group_are_not_equal() {
    let a = sample();
    for k in 0..8 {
        let mut b = sample();
        b.data4[k] ^= 0x01;
        assert!(!is_equal_guid(&a, &b), "byte {}", k);
        assert!(a != b, "byte {}", k);
        b.data4[k] ^= 0x01;
        assert!(is_equal_guid(&a, &b), "byte {}", k);
    }
}

#[test]
fn identifiers_that_differ_in_the_top_bit_are_not_equal() {
    let a = GUID { data1: 0, data2: 0, data3: 0, data4: [0; 8] };
    let b = GUID { data1: 0x8000_0000, data2: 0, data3: 0, data4: [0; 8] };
    let c = GUID { data1: 0, data2: 0, data3: 0, data4: [0, 0, 0, 0, 0, 0, 0, 0x80] };
    assert!(!is_equal_guid(&a, &b));
    assert!(!is_equal_guid(&a, &c));
    assert!(!is_equal_guid(&b, &c));
}

#[test]
fn the_base_interface_has_its_canonical_identifier() {
    let id: IID = iid_iunknown();
    assert_eq!(id.data1, 0x0000_0000);
    assert_eq!(id.data2, 0x0000);
    assert_eq!(id.data3, 0x0000);
    assert_eq!(id.data4, [0xC0, 0x00, 0x00, 0x00, 0x00, 0x00, 0x00, 0x46]);
}

#[test]
fn the_factory_interface_has_its_canonical_identifier() {
    let id: IID = iid_iclassfactory();
    assert_eq!(id.data1, 0x0000_0001);
    assert_eq!(id.data2, 0x0000);
    assert_eq!(id.data3, 0x0000);
    assert_eq!(id.data4, [0xC0, 0x00, 0x00, 0x00, 0x00, 0x00, 0x00, 0x46]);
    assert!(!is_equal_guid(&id, &iid_iunknown()));
}

#[test]
fn an_identifier_can_be_copied() {
    let a = sample();
    let b = a;
    let c = a.clone();
    assert!(is_equal_guid(&a, &b));
    assert!(is_equal_guid(&a, &c));
}
