use crowdfunding::ledger::{ContributionError, Crowdfunding};
use crowdfunding::store::Store;

#[test]
fn fresh_total_is_zero() {
    let store = Store::new();
    assert_eq!(Crowdfunding::get_total(&store), 0);
}

#[test]
fn single_contribution_is_read_back() {
    let mut store = Store::new();
    assert_eq!(Crowdfunding::donate(&mut store, 100), Ok(()));
    assert_eq!(Crowdfunding::get_total(&store), 100);
}

#[test]
fn contributions_sum_up() {
    let mut store = Store::new();
    assert_eq!(Crowdfunding::donate(&mut store, 1), Ok(()));
    assert_eq!(Crowdfunding::donate(&mut store, 2), Ok(()));
    assert_eq!(Crowdfunding::donate(&mut store, 3), Ok(()));
    assert_eq!(Crowdfunding::donate(&mut store, 4), Ok(()));
    assert_eq!(Crowdfunding::get_total(&store), 10);
}

#[test]
fn zero_amount_is_refused_without_change() {
    let mut store = Store::new();
    assert_eq!(Crowdfunding::donate(&mut store, 7), Ok(()));
    assert_eq!(
        Crowdfunding::donate(&mut store, 0),
        Err(ContributionError::InvalidAmount)
    );
    assert_eq!(Crowdfunding::get_total(&store), 7);
}

#[test]
fn negative_amount_is_refused_without_change() {
    let mut store = Store::new();
    assert_eq!(
        Crowdfunding::donate(&mut store, -42),
        Err(ContributionError::InvalidAmount)
    );
    assert_eq!(Crowdfunding::get_total(&store), 0);
}

#[test]
fn repeated_contribution_accumulates() {
    let mut store = Store::new();
    assert_eq!(Crowdfunding::donate(&mut store, 5), Ok(()));
    assert_eq!(Crowdfunding::donate(&mut store, 5), Ok(()));
    assert_eq!(Crowdfunding::get_total(&store), 10);
}

#[test]
fn contribution_order_does_not_matter() {
    let mut first = Store::new();
    assert_eq!(Crowdfunding::donate(&mut first, 3), Ok(()));
    assert_eq!(Crowdfunding::donate(&mut first, 7), Ok(()));

    let mut second = Store::new();
    assert_eq!(Crowdfunding::donate(&mut second, 7), Ok(()));
    assert_eq!(Crowdfunding::donate(&mut second, 3), Ok(()));

    assert_eq!(Crowdfunding::get_total(&first), 10);
    assert_eq!(Crowdfunding::get_total(&second), 10);
}

#[test]
fn overflowing_contribution_is_refused_without_change() {
    let mut store = Store::with_total(i128::MAX - 1);
    assert_eq!(
        Crowdfunding::donate(&mut store, 2),
        Err(ContributionError::ArithmeticOverflow)
    );
    assert_eq!(Crowdfunding::get_total(&store), i128::MAX - 1);
    assert_eq!(Crowdfunding::donate(&mut store, 1), Ok(()));
    assert_eq!(Crowdfunding::get_total(&store), i128::MAX);
}

#[test]
fn persisted_total_is_picked_up() {
    let mut store = Store::with_total(40);
    assert_eq!(Crowdfunding::get_total(&store), 40);
    assert_eq!(Crowdfunding::donate(&mut store, 2), Ok(()));
    assert_eq!(Crowdfunding::get_total(&store), 42);
}

#[test]
fn donate_then_read_scenario() {
    let mut store = Store::new();
    assert_eq!(Crowdfunding::donate(&mut store, 100), Ok(()));
    assert_eq!(Crowdfunding::get_total(&store), 100);
    assert_eq!(
        Crowdfunding::donate(&mut store, -1),
        Err(ContributionError::InvalidAmount)
    );
    assert_eq!(Crowdfunding::get_total(&store), 100);
    assert_eq!(Crowdfunding::donate(&mut store, 50), Ok(()));
    assert_eq!(Crowdfunding::get_total(&store), 150);
}
