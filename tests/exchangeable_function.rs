use runtime_interface::{ExchangeableFunction, RestoreImplementation};

fn f0() -> u32 {
    1
}

fn f1() -> u32 {
    2
}

fn f2() -> u32 {
    3
}

#[test]
fn replace_then_restore_scenario() {
    let mut cell = ExchangeableFunction::new(f0 as fn() -> u32);
    assert_eq!((cell.get())(), 1);
    let mut guard: RestoreImplementation<fn() -> u32> = cell.replace_implementation(f1);
    assert_eq!((cell.get())(), 2);
    assert_eq!((cell.get())(), 2);
    guard.restore(&mut cell);
    assert_eq!((cell.get())(), 1);
}

#[test]
fn second_restore_is_a_no_op() {
    let mut cell = ExchangeableFunction::new(10u32);
    let mut guard = cell.replace_implementation(20u32);
    guard.restore(&mut cell);
    assert_eq!(cell.get(), 10);
    let mut later = cell.replace_implementation(30u32);
    assert_eq!(cell.get(), 30);
    guard.restore(&mut cell);
    assert_eq!(cell.get(), 30);
    later.restore(&mut cell);
    assert_eq!(cell.get(), 10);
}

#[test]
fn double_replace_is_refused() {
    let mut cell = ExchangeableFunction::new(f0 as fn() -> u32);
    let first = cell.try_replace_implementation(f1);
    assert!(first.is_some());
    let second = cell.try_replace_implementation(f2);
    assert!(second.is_none());
    assert_eq!((cell.get())(), 2);
    let mut guard = first.unwrap();
    guard.restore(&mut cell);
    assert_eq!((cell.get())(), 1);
    assert!(cell.try_replace_implementation(f2).is_some());
    assert_eq!((cell.get())(), 3);
}

#[test]
fn scoped_replacement_restores_after_failure() {
    let mut cell = ExchangeableFunction::new(f0 as fn() -> u32);
    let r: Result<u32, String> = cell.with_replaced_implementation(f1, |c| {
        let seen = (c.get())();
        if seen == 2 {
            return Err(format!("failed with {}", seen));
        }
        Ok(seen)
    });
    assert_eq!(r, Err("failed with 2".to_string()));
    assert_eq!((cell.get())(), 1);
}

#[test]
fn scoped_replacement_restores_after_success() {
    let mut cell = ExchangeableFunction::new(5u64);
    let seen = cell.with_replaced_implementation(6u64, |c| c.get());
    assert_eq!(seen, 6);
    assert_eq!(cell.get(), 5);
    assert!(cell.try_replace_implementation(7u64).is_some());
}

#[test]
fn scope_restores_on_drop() {
    let mut cell = ExchangeableFunction::new(f0 as fn() -> u32);
    {
        let scope = cell.replace_scoped(f1);
        assert_eq!((scope.get())(), 2);
    }
    assert_eq!((cell.get())(), 1);
    assert!(cell.try_replace_implementation(f2).is_some());
}
