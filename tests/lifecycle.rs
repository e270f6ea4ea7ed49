use momento_protosocket_ffi::{
    new_protosocket_client_configuration, new_protosocket_credential_provider, ClientSlot,
};

#[test]
fn configuration_keeps_its_settings() {
    let c = new_protosocket_client_configuration(1500, 4);
    assert_eq!(c.timeout_millis, 1500);
    assert_eq!(c.connection_count, 4);
    assert_eq!(c.timeout_millis_u64(), 1500u64);
    assert_eq!(c.connection_count_u32(), 4u32);
}

#[test]
fn connection_count_keeps_the_low_bits() {
    let c = new_protosocket_client_configuration(0, usize::MAX);
    assert_eq!(c.connection_count_u32(), u32::MAX);
}

#[test]
fn connection_count_just_over_the_limit_wraps() {
    let c = new_protosocket_client_configuration(10, (u32::MAX as usize) + 2);
    assert_eq!(c.connection_count_u32(), 1);
    let c = new_protosocket_client_configuration(10, u32::MAX as usize);
    assert_eq!(c.connection_count_u32(), u32::MAX);
}

#[test]
fn credential_provider_copies_the_key() {
    let key = String::from("SECRET-REDACTED");
    let p = new_protosocket_credential_provider(&key);
    drop(key);
    assert_eq!(p.api_key, "SECRET-REDACTED");
}

#[test]
fn credential_description_hides_the_key() {
    let p = new_protosocket_credential_provider("SECRET-REDACTED");
    let d = p.redacted_description();
    assert_eq!(d, "ProtosocketCredentialProvider { api_key: \"<redacted>\" }");
    assert!(!d.contains("SECRET-REDACTED"));
}

#[test]
fn fresh_slot_has_no_client() {
    let mut slot = ClientSlot::new();
    assert!(slot.client().is_none());
    assert!(slot.destroy().is_none());
    assert!(slot.client().is_none());
}
