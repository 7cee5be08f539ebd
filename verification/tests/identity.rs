use gg_ledger::Identity;

#[test]
fn identities_are_equal_when_all_bytes_agree() {
    let a = Identity { bytes: [7; 32] };
    let b = Identity { bytes: [7; 32] };
    assert!(a == b);
    assert!(!(a != b));
}

#[test]
fn identities_differ_by_any_byte() {
    let a = Identity { bytes: [7; 32] };
    for i in 0..32 {
        let mut bytes = [7u8; 32];
        bytes[i] = 8;
        let b = Identity { bytes };
        assert!(a != b);
        assert!(!(a == b));
    }
}

#[test]
fn zero_identity_has_zero_bytes() {
    assert_eq!(Identity::zero().bytes, [0u8; 32]);
    assert!(Identity::zero() == Identity { bytes: [0; 32] });
}
