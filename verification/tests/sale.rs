use gg_ledger::{
    initial_sale, initialize, second_sale, CustomError, Identity, TokenDetails, Transfer,
};

fn id(n: u8) -> Identity {
    Identity { bytes: [n; 32] }
}

fn registry_initialized_at(now: i64) -> TokenDetails {
    let mut registry = TokenDetails::new();
    let issued = initialize(
        &mut registry,
        id(1),
        id(2),
        id(3),
        1_000_000,
        String::from("GG Token"),
        String::from("GG"),
        now,
    );
    assert!(issued.is_ok());
    registry
}

#[test]
fn initial_sale_requests_the_transfer() {
    let t = initial_sale(id(4), id(5), id(6), 1_234);
    assert_eq!(t, Transfer { from: id(4), to: id(5), authority: id(6), amount: 1_234 });
    assert_eq!(initial_sale(id(4), id(5), id(6), 0).amount, 0);
    assert_eq!(initial_sale(id(4), id(5), id(6), u64::MAX).amount, u64::MAX);
}

#[test]
fn second_sale_before_the_unlock_time_fails() {
    let registry = registry_initialized_at(1_000);
    assert_eq!(registry.second_offering_unlock_time, 31_537_000);
    let r = second_sale(&registry, id(4), id(5), id(6), 50, 31_536_999);
    assert_eq!(r, Err(CustomError::LockPeriodNotOver));
    let r = second_sale(&registry, id(4), id(5), id(6), 50, 1_000);
    assert_eq!(r, Err(CustomError::LockPeriodNotOver));
}

#[test]
fn second_sale_at_the_unlock_time_transfers_the_amount() {
    let registry = registry_initialized_at(1_000);
    let r = second_sale(&registry, id(4), id(5), id(6), 50, 31_537_000);
    assert_eq!(r, Ok(Transfer { from: id(4), to: id(5), authority: id(6), amount: 50 }));
}

#[test]
fn second_sale_after_the_unlock_time_transfers_the_amount() {
    let registry = registry_initialized_at(1_000);
    let r = second_sale(&registry, id(4), id(5), id(6), 77, 40_000_000);
    assert_eq!(r, Ok(initial_sale(id(4), id(5), id(6), 77)));
}

#[test]
fn second_sale_on_a_blank_registry_goes_by_its_unlock_time() {
    let registry = TokenDetails::new();
    let early = second_sale(&registry, id(4), id(5), id(6), 1, -1);
    assert_eq!(early, Err(CustomError::LockPeriodNotOver));
    assert_eq!(second_sale(&registry, id(4), id(5), id(6), 1, 0).map(|t| t.amount), Ok(1));
}
