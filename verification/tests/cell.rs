use futures::executor::block_on;
use lazy_futuristic::Lazy;
use lazy_futuristic::ValueOrSetter;
use futures::executor::ThreadPool;
use futures::task::SpawnExt;

#[test]
fn instantiation_works() {
    Lazy::<()>::new();
}

#[test]
fn share_between_threads() {
    let lazy: Lazy<i32> = Lazy::new();
    let pool = ThreadPool::new().unwrap();
    let unset = pool
        .spawn_with_handle(futures::future::lazy(move |_| lazy.get() == None))
        .unwrap();
    assert!(block_on(unset));
}

#[test]
fn get_unset() {
    let lazy: Lazy<i32> = Lazy::new();
    assert_eq!(lazy.get(), None)
}

#[test]
fn get_or_set() {
    let lazy: Lazy<i32> = Lazy::new();
    assert!(matches!(block_on(lazy.get_or_set()), ValueOrSetter::Setter(_)));
}

#[test]
fn get_or_set_value() {
    let lazy: Lazy<i32> = Lazy::new();
    let value = match block_on(lazy.get_or_set()) {
        ValueOrSetter::Value(value) => value,
        ValueOrSetter::Setter(setter) => setter.set(5),
    };
    assert_eq!(*value, 5)
}

#[test]
fn get_and_set_double() {
    let lazy: Lazy<i32> = Lazy::new();
    match block_on(lazy.get_or_set()) {
        ValueOrSetter::Value(_) => unreachable!(),
        ValueOrSetter::Setter(setter) => setter.set(5),
    };
    match block_on(lazy.get_or_set()) {
        ValueOrSetter::Value(_) => (),
        ValueOrSetter::Setter(_) => unreachable!(),
    };
}
