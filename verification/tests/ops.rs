use beefeater::AddAssign;
use beefeater::Beefeater;
use beefeater::FetchAdd;
use beefeater::FetchSub;
use beefeater::SubAssign;
use beefeater::ValueAdd;
use beefeater::ValueSub;
use beefeater::ops::add_assign_repeated;
use beefeater::ops::fetch_add_pair;

#[test]
fn it_implements_add_assign() {
    let mut guard = Beefeater::new(10u64);
    assert_eq!(guard.load(), 10);

    guard.add_assign(16);
    assert_eq!(guard.load(), 26);
}

#[test]
fn it_implements_fetch_add() {
    let mut guard = Beefeater::new(10u64);
    assert_eq!(guard.load(), 10);
    assert_eq!(guard.fetch_add(8), 10);
    assert_eq!(guard.fetch_add(8), 18);
    assert_eq!(guard.load(), 26);
}

#[test]
fn it_implements_fetch_sub() {
    let mut guard = Beefeater::new(10u64);
    assert_eq!(guard.load(), 10);
    assert_eq!(guard.fetch_sub(2), 10);
    assert_eq!(guard.fetch_sub(2), 8);
    assert_eq!(guard.load(), 6);
}

#[test]
fn it_implements_sub_assign() {
    let mut guard = Beefeater::new(10u64);
    assert_eq!(guard.load(), 10);

    guard.sub_assign(4);
    assert_eq!(guard.load(), 6);
}

#[test]
fn arithmetic_works_on_signed_values() {
    let mut guard = Beefeater::new(-3i64);
    guard.add_assign(5);
    assert_eq!(guard.load(), 2);

    guard.sub_assign(9);
    assert_eq!(guard.load(), -7);

    assert_eq!(guard.fetch_add(7), -7);
    assert_eq!(guard.fetch_sub(1), 0);
    assert_eq!(guard.load(), -1);
}

#[test]
fn arithmetic_works_on_other_widths() {
    let mut narrow = Beefeater::new(100u32);
    narrow.add_assign(28);
    assert_eq!(narrow.load(), 128);

    let mut sized = Beefeater::new(7usize);
    assert_eq!(sized.fetch_sub(7), 7);
    assert_eq!(sized.load(), 0);

    let mut signed = Beefeater::new(-5i32);
    signed.sub_assign(-5);
    assert_eq!(signed.load(), 0);

    let mut machine = Beefeater::new(-1isize);
    assert_eq!(machine.fetch_add(3), -1);
    assert_eq!(machine.load(), 2);
}

#[test]
fn try_add_reports_the_range() {
    assert_eq!(5u64.try_add(6), Some(11));
    assert_eq!(5u64.try_add(u64::MAX), None);
    assert_eq!(u64::MAX.try_add(0), Some(u64::MAX));
    assert_eq!(i64::MAX.try_add(1), None);
    assert_eq!(i64::MIN.try_add(-1), None);
}

#[test]
fn try_sub_reports_the_range() {
    assert_eq!(5u64.try_sub(5), Some(0));
    assert_eq!(3u64.try_sub(5), None);
    assert_eq!(i64::MIN.try_sub(1), None);
    assert_eq!(i64::MIN.try_sub(-1), Some(i64::MIN + 1));
}

#[test]
fn value_add_and_sub_match_the_operators() {
    assert_eq!(10u64.value_add(16), 26);
    assert_eq!(10u64.value_sub(4), 6);
    assert_eq!((-3i64).value_add(2), -1);
}

#[test]
fn repeated_add_assign_loses_no_update() {
    let mut cell = Beefeater::new(0u64);
    add_assign_repeated(&mut cell, 25);
    assert_eq!(cell.load(), 25);

    add_assign_repeated(&mut cell, 0);
    assert_eq!(cell.load(), 25);
}

#[test]
fn consecutive_fetch_adds_observe_increasing_values() {
    let mut cell = Beefeater::new(7u64);
    let pair = fetch_add_pair(&mut cell, 2, 3);
    assert_eq!(pair, (7, 9));
    assert!(pair.0 < pair.1);
    assert_eq!(cell.load(), 12);
}
