use lura::backoff::{Constant, Expo, Fibo};

fn expo_values(mut expo: Expo) -> Vec<u64> {
    let mut values = Vec::new();
    while let Some(v) = expo.next() {
        values.push(v);
    }
    values
}

fn fibo_values(mut fibo: Fibo) -> Vec<u64> {
    let mut values = Vec::new();
    while let Some(v) = fibo.next() {
        values.push(v);
    }
    values
}

fn constant_values(mut constant: Constant) -> Vec<u64> {
    let mut values = Vec::new();
    while let Some(v) = constant.next() {
        values.push(v);
    }
    values
}

#[test]
fn test_expo_new() {
    let expo = Expo::new(Some(10000));
    expo_values(expo).iter().for_each(|i| println!("{:?}", i));
}

#[test]
fn test_expo_with() {
    let expo = Expo::with(2, 1, 0, Some(10000));
    expo_values(expo).iter().for_each(|i| println!("{:?}", i));
}

#[test]
fn test_fibo_new() {
    let fibo = Fibo::new(Some(500));
    fibo_values(fibo).iter().for_each(|i| println!("{:?}", i));
}

#[test]
fn test_fibo_with() {
    let fibo = Fibo::with(0, 1, Some(500));
    fibo_values(fibo).iter().for_each(|i| println!("{:?}", i));
}

#[test]
fn test_constant_new() {
    let constant = Constant::new(1, Some(10));
    constant_values(constant).iter().for_each(|i| println!("{:?}", i));
}

#[test]
fn test_constant_with() {
    let constant = Constant::with(0, 2, Some(20));
    constant_values(constant).iter().for_each(|i| println!("{:?}", i));
}

#[test]
fn expo_powers_of_two_below_bound() {
    assert_eq!(
        expo_values(Expo::new(Some(10000))),
        vec![1, 2, 4, 8, 16, 32, 64, 128, 256, 512, 1024, 2048, 4096, 8192]
    );
    assert_eq!(expo_values(Expo::with(3, 5, 2, Some(1000))), vec![45, 135, 405]);
}

#[test]
fn expo_ends_where_values_overflow() {
    let values = expo_values(Expo::new(None));
    assert_eq!(values.len(), 64);
    assert_eq!(*values.last().unwrap(), 1u64 << 63);
}

#[test]
fn expo_stays_ended() {
    let mut expo = Expo::new(Some(2));
    assert_eq!(expo.next(), Some(1));
    assert_eq!(expo.next(), None);
    assert_eq!(expo.next(), None);
}

#[test]
fn fibo_sequence_below_bound() {
    assert_eq!(
        fibo_values(Fibo::new(Some(500))),
        vec![0, 1, 1, 2, 3, 5, 8, 13, 21, 34, 55, 89, 144, 233, 377]
    );
    assert_eq!(fibo_values(Fibo::with(2, 3, Some(20))), vec![2, 3, 5, 8, 13]);
}

#[test]
fn fibo_ends_where_values_overflow() {
    let values = fibo_values(Fibo::new(None));
    assert_eq!(values.len(), 94);
    assert_eq!(*values.last().unwrap(), 12200160415121876738);
}

#[test]
fn constant_multiples_below_bound() {
    assert_eq!(constant_values(Constant::new(1, Some(10))), vec![0, 1, 2, 3, 4, 5, 6, 7, 8, 9]);
    assert_eq!(constant_values(Constant::with(0, 2, Some(20))), vec![0, 2, 4, 6, 8, 10, 12, 14, 16, 18]);
}

#[test]
fn constant_ends_where_values_overflow() {
    let values = constant_values(Constant::with(u64::MAX / 4 - 1, 4, None));
    assert_eq!(values, vec![(u64::MAX / 4 - 1) * 4, (u64::MAX / 4) * 4]);
}
