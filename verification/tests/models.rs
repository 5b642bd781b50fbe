use tauri_plugin_iap::models::{default_product_type, InitializeResponse, PurchaseStateValue};
use tauri_plugin_iap::text::{push_decimal, push_signed_decimal, same_text};

#[test]
fn product_type_defaults_to_subs() {
    assert_eq!(default_product_type(), "subs");
}

#[test]
fn initialize_response_defaults_to_failure() {
    assert_eq!(InitializeResponse::default(), InitializeResponse { success: false });
}

#[test]
fn purchase_states_serialize_to_their_integers() {
    assert_eq!(PurchaseStateValue::Purchased.serialize(), 0);
    assert_eq!(PurchaseStateValue::Canceled.serialize(), 1);
    assert_eq!(PurchaseStateValue::Pending.serialize(), 2);
}

#[test]
fn purchase_states_deserialize_from_their_integers() {
    assert_eq!(PurchaseStateValue::deserialize(0), Ok(PurchaseStateValue::Purchased));
    assert_eq!(PurchaseStateValue::deserialize(1), Ok(PurchaseStateValue::Canceled));
    assert_eq!(PurchaseStateValue::deserialize(2), Ok(PurchaseStateValue::Pending));
}

#[test]
fn other_integers_are_no_purchase_state() {
    assert_eq!(
        PurchaseStateValue::deserialize(3),
        Err(String::from("Invalid purchase state: 3"))
    );
    assert_eq!(
        PurchaseStateValue::deserialize(-1),
        Err(String::from("Invalid purchase state: -1"))
    );
    assert_eq!(
        PurchaseStateValue::deserialize(i32::MIN),
        Err(String::from("Invalid purchase state: -2147483648"))
    );
    assert_eq!(
        PurchaseStateValue::deserialize(i32::MAX),
        Err(String::from("Invalid purchase state: 2147483647"))
    );
}

#[test]
fn purchase_state_round_trip() {
    for state in [
        PurchaseStateValue::Purchased,
        PurchaseStateValue::Canceled,
        PurchaseStateValue::Pending,
    ] {
        assert_eq!(PurchaseStateValue::deserialize(state.serialize()), Ok(state));
    }
    for value in -3..6 {
        assert_eq!(
            PurchaseStateValue::deserialize(value).is_ok(),
            (0..=2).contains(&value)
        );
    }
}

#[test]
fn decimal_text() {
    let mut out = String::from("n=");
    push_decimal(&mut out, 0);
    out.push(',');
    push_decimal(&mut out, 9);
    out.push(',');
    push_decimal(&mut out, 10);
    out.push(',');
    push_decimal(&mut out, 1_002_003);
    out.push(',');
    push_decimal(&mut out, u64::MAX);
    assert_eq!(out, "n=0,9,10,1002003,18446744073709551615");
}

#[test]
fn signed_decimal_text() {
    let mut out = String::new();
    push_signed_decimal(&mut out, 0);
    out.push(' ');
    push_signed_decimal(&mut out, -7);
    out.push(' ');
    push_signed_decimal(&mut out, i64::MAX);
    out.push(' ');
    push_signed_decimal(&mut out, i64::MIN);
    assert_eq!(out, "0 -7 9223372036854775807 -9223372036854775808");
}

#[test]
fn text_comparison() {
    assert!(same_text("subs", "subs"));
    assert!(!same_text("subs", "Subs"));
    assert!(!same_text("subs", "sub"));
    assert!(same_text("", ""));
}
