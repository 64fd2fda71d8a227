use gateway_unlock::credential::derive_credential;

const FIXTURE: &str = "67da4a14f2bc9cf96c481f0ce99a0779";

#[test]
fn derive_matches_pinned_fixture() {
    let digest = derive_credential("ABC123", "AA:BB:CC:DD:EE:FF", "admin");
    assert_eq!(digest, FIXTURE);
    assert_eq!(digest.len(), 32);
}

#[test]
fn derive_is_deterministic() {
    let first = derive_credential("ABC123", "AA:BB:CC:DD:EE:FF", "admin");
    let second = derive_credential("ABC123", "AA:BB:CC:DD:EE:FF", "admin");
    assert_eq!(first, second);
}

#[test]
fn derive_ignores_case_of_sn_and_mac() {
    let lower = derive_credential("abc123", "aa:bb:cc:dd:ee:ff", "admin");
    assert_eq!(lower, FIXTURE);
    let mixed = derive_credential("AbC123", "Aa:Bb:Cc:Dd:Ee:Ff", "admin");
    assert_eq!(mixed, FIXTURE);
}

#[test]
fn derive_respects_case_of_password() {
    let other = derive_credential("ABC123", "AA:BB:CC:DD:EE:FF", "Admin");
    assert_ne!(other, FIXTURE);
}

#[test]
fn derive_changes_with_each_field() {
    let base = derive_credential("ABC123", "AA:BB:CC:DD:EE:FF", "admin");
    assert_ne!(derive_credential("ABC124", "AA:BB:CC:DD:EE:FF", "admin"), base);
    assert_ne!(derive_credential("ABC123", "AA:BB:CC:DD:EE:00", "admin"), base);
    assert_ne!(derive_credential("ABC123", "AA:BB:CC:DD:EE:FF", "secret"), base);
}
