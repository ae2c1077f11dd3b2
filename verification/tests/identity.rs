use hotel::{AccountId, ZERO_ADDRESS};

#[test]
fn null_identity_is_all_ones() {
    assert_eq!(ZERO_ADDRESS, [255u8; 32]);
    assert_eq!(AccountId::zero(), AccountId([255u8; 32]));
    assert!(AccountId::zero().is_zero());
}

#[test]
fn identities_differ_by_any_byte() {
    for i in 0..32 {
        let mut bytes = [7u8; 32];
        bytes[i] = 8;
        assert_ne!(AccountId(bytes), AccountId([7u8; 32]));
        assert!(!AccountId(bytes).is_zero());
    }
    assert_eq!(AccountId([7u8; 32]), AccountId([7u8; 32]));
}

#[test]
fn null_identity_is_the_zero_address_of_openbrush() {
    assert_eq!(ZERO_ADDRESS, openbrush_lang::traits::ZERO_ADDRESS);
    let on_chain: ink::primitives::AccountId = openbrush_lang::traits::ZERO_ADDRESS.into();
    let bytes: &[u8; 32] = on_chain.as_ref();
    assert_eq!(AccountId::zero(), AccountId(*bytes));
}
