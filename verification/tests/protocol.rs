use futures::executor::block_on;
use futures::executor::ThreadPool;
use futures::future::join_all;
use futures::task::SpawnExt;
use futures::future::join;
use futures::future::poll_fn;
use futures::future::FutureExt;
use futures::task::noop_waker;
use lazy_futuristic::Lazy;
use lazy_futuristic::Setter;
use lazy_futuristic::ValueOrSetter;
use std::future::Future;
use std::sync::Arc;
use std::task::Context;
use std::task::Poll;

fn expect_setter<'l, T>(outcome: ValueOrSetter<'l, T>) -> Setter<'l, T> {
    match outcome {
        ValueOrSetter::Setter(setter) => setter,
        ValueOrSetter::Value(_) => panic!("the cell already holds a value"),
    }
}

fn expect_value<'l, T>(outcome: ValueOrSetter<'l, T>) -> &'l T {
    match outcome {
        ValueOrSetter::Value(value) => value,
        ValueOrSetter::Setter(_) => panic!("the cell holds no value yet"),
    }
}

#[test]
fn commit_returns_the_value_and_get_sees_it() {
    let lazy: Lazy<i32> = Lazy::new();
    let setter = expect_setter(block_on(lazy.get_or_set()));
    let stored = setter.set(10);
    assert_eq!(*stored, 10);
    assert_eq!(lazy.get(), Some(&10));
}

#[test]
fn negotiating_after_commit_returns_the_value() {
    let lazy: Lazy<i32> = Lazy::new();
    let setter = expect_setter(block_on(lazy.get_or_set()));
    setter.set(10);
    let value = expect_value(block_on(lazy.get_or_set()));
    assert_eq!(*value, 10);
}

#[test]
fn second_negotiator_waits_and_then_gets_the_value() {
    let lazy: Lazy<i32> = Lazy::new();
    let waker = noop_waker();
    let mut cx = Context::from_waker(&waker);

    let mut first = Box::pin(lazy.get_or_set());
    let mut second = Box::pin(lazy.get_or_set());

    let setter = match first.as_mut().poll(&mut cx) {
        Poll::Ready(outcome) => expect_setter(outcome),
        Poll::Pending => panic!("nobody holds the lock of a fresh cell"),
    };
    assert!(second.as_mut().poll(&mut cx).is_pending());
    assert_eq!(lazy.get(), None);
    assert!(second.as_mut().poll(&mut cx).is_pending());

    let stored = setter.set(7);
    assert_eq!(*stored, 7);

    match second.as_mut().poll(&mut cx) {
        Poll::Ready(outcome) => assert_eq!(*expect_value(outcome), 7),
        Poll::Pending => panic!("the lock was not released by the commit"),
    };
}

#[test]
fn exactly_one_of_two_tasks_is_chosen() {
    let lazy: Lazy<u64> = Lazy::new();
    let task = |offer: u64| {
        let mut paused = false;
        lazy.get_or_set().then(move |outcome| {
            poll_fn(move |cx: &mut Context<'_>| {
                if paused {
                    Poll::Ready(())
                } else {
                    paused = true;
                    cx.waker().wake_by_ref();
                    Poll::Pending
                }
            })
            .map(move |_| match outcome {
                ValueOrSetter::Setter(setter) => (true, *setter.set(offer)),
                ValueOrSetter::Value(value) => (false, *value),
            })
        })
    };
    let ((first_chosen, first_value), (second_chosen, second_value)) =
        block_on(join(task(1), task(2)));
    assert!(first_chosen != second_chosen);
    assert_eq!(first_value, second_value);
    let committed = if first_chosen { 1 } else { 2 };
    assert_eq!(first_value, committed);
    assert_eq!(lazy.get(), Some(&committed));
}

#[test]
fn exactly_one_of_many_threads_commits() {
    let pool = ThreadPool::builder().pool_size(8).create().unwrap();
    for _ in 0..50 {
        let lazy: &'static Lazy<usize> = Box::leak(Box::new(Lazy::new()));
        let handles: Vec<_> = (0..32usize)
            .map(|offer| {
                let task = lazy.get_or_set().map(move |outcome| match outcome {
                    ValueOrSetter::Setter(setter) => (true, *setter.set(offer)),
                    ValueOrSetter::Value(value) => (false, *value),
                });
                pool.spawn_with_handle(task).unwrap()
            })
            .collect();
        let results = block_on(join_all(handles));
        let chosen: Vec<usize> = results
            .iter()
            .enumerate()
            .filter(|(_, (was_chosen, _))| *was_chosen)
            .map(|(offer, _)| offer)
            .collect();
        assert_eq!(chosen.len(), 1);
        for (_, value) in results.iter() {
            assert_eq!(*value, chosen[0]);
        }
        assert_eq!(lazy.get(), Some(&chosen[0]));
    }
}

#[test]
fn dropped_setter_leaves_the_cell_empty() {
    let lazy: Lazy<i32> = Lazy::new();
    let setter = expect_setter(block_on(lazy.get_or_set()));
    drop(setter);
    assert_eq!(lazy.get(), None);
    let again = expect_setter(block_on(lazy.get_or_set()));
    assert_eq!(*again.set(3), 3);
    assert_eq!(lazy.get(), Some(&3));
}

#[test]
fn waiter_is_chosen_after_the_setter_is_dropped() {
    let lazy: Lazy<i32> = Lazy::new();
    let waker = noop_waker();
    let mut cx = Context::from_waker(&waker);

    let setter = expect_setter(block_on(lazy.get_or_set()));
    let mut waiting = Box::pin(lazy.get_or_set());
    assert!(waiting.as_mut().poll(&mut cx).is_pending());
    drop(setter);
    match waiting.as_mut().poll(&mut cx) {
        Poll::Ready(outcome) => {
            let setter = expect_setter(outcome);
            assert_eq!(*setter.set(21), 21);
        }
        Poll::Pending => panic!("the lock was not released by the drop"),
    }
    assert_eq!(lazy.get(), Some(&21));
}

#[test]
fn cancelled_waiter_changes_nothing() {
    let lazy: Lazy<i32> = Lazy::new();
    let waker = noop_waker();
    let mut cx = Context::from_waker(&waker);

    let setter = expect_setter(block_on(lazy.get_or_set()));
    let mut waiting = Box::pin(lazy.get_or_set());
    assert!(waiting.as_mut().poll(&mut cx).is_pending());
    drop(waiting);
    assert_eq!(lazy.get(), None);
    assert_eq!(*setter.set(4), 4);
    assert_eq!(*expect_value(block_on(lazy.get_or_set())), 4);
}

#[test]
fn get_sees_nothing_while_a_setter_is_held() {
    let lazy: Lazy<String> = Lazy::new();
    let setter = expect_setter(block_on(lazy.get_or_set()));
    assert_eq!(lazy.get(), None);
    assert_eq!(lazy.get(), None);
    assert_eq!(lazy.get(), None);
    setter.set(String::from("ready"));
    assert_eq!(lazy.get().map(String::as_str), Some("ready"));
}

#[test]
fn get_is_idempotent() {
    let lazy: Lazy<i32> = Lazy::new();
    for _ in 0..5 {
        assert_eq!(lazy.get(), None);
    }
    expect_setter(block_on(lazy.get_or_set())).set(-8);
    let first = lazy.get().unwrap();
    for _ in 0..5 {
        let again = lazy.get().unwrap();
        assert_eq!(*again, -8);
        assert!(std::ptr::eq(first, again));
    }
}

#[test]
fn every_reader_gets_the_same_reference() {
    let lazy: Lazy<Vec<u8>> = Lazy::new();
    let stored = expect_setter(block_on(lazy.get_or_set())).set(vec![1, 2, 3]);
    let seen = lazy.get().unwrap();
    let negotiated = expect_value(block_on(lazy.get_or_set()));
    assert_eq!(stored, &vec![1, 2, 3]);
    assert!(std::ptr::eq(stored, seen));
    assert!(std::ptr::eq(stored, negotiated));
}

#[test]
fn full_cell_is_read_without_the_lock() {
    let lazy: Lazy<i32> = Lazy::new();
    expect_setter(block_on(lazy.get_or_set())).set(1);
    let outcome = lazy.get_or_set().now_or_never();
    assert_eq!(*expect_value(outcome.unwrap()), 1);
    let first = lazy.get_or_set().now_or_never().unwrap();
    let second = lazy.get_or_set().now_or_never().unwrap();
    assert_eq!(*expect_value(first), 1);
    assert_eq!(*expect_value(second), 1);
}

#[test]
fn lock_is_free_after_a_negotiation_that_found_the_value() {
    let lazy: Lazy<i32> = Lazy::new();
    let waker = noop_waker();
    let mut cx = Context::from_waker(&waker);

    let setter = expect_setter(block_on(lazy.get_or_set()));
    let mut second = Box::pin(lazy.get_or_set());
    let mut third = Box::pin(lazy.get_or_set());
    assert!(second.as_mut().poll(&mut cx).is_pending());
    assert!(third.as_mut().poll(&mut cx).is_pending());
    setter.set(9);
    match second.as_mut().poll(&mut cx) {
        Poll::Ready(outcome) => assert_eq!(*expect_value(outcome), 9),
        Poll::Pending => panic!("the second negotiation still waits"),
    }
    match third.as_mut().poll(&mut cx) {
        Poll::Ready(outcome) => assert_eq!(*expect_value(outcome), 9),
        Poll::Pending => panic!("the third negotiation still waits"),
    };
}

#[test]
fn default_is_an_empty_cell() {
    let lazy: Lazy<u8> = Lazy::default();
    assert_eq!(lazy.get(), None);
    assert!(matches!(block_on(lazy.get_or_set()), ValueOrSetter::Setter(_)));
}

#[test]
fn cells_are_independent() {
    let one: Lazy<i32> = Lazy::new();
    let two: Lazy<i32> = Lazy::new();
    let first = expect_setter(block_on(one.get_or_set()));
    let second = expect_setter(block_on(two.get_or_set()));
    assert_eq!(*first.set(1), 1);
    assert_eq!(two.get(), None);
    assert_eq!(*second.set(2), 2);
    assert_eq!(one.get(), Some(&1));
    assert_eq!(two.get(), Some(&2));
}

#[test]
fn value_is_dropped_with_the_cell() {
    let witness = Arc::new(());
    {
        let lazy: Lazy<Arc<()>> = Lazy::new();
        expect_setter(block_on(lazy.get_or_set())).set(Arc::clone(&witness));
        assert_eq!(Arc::strong_count(&witness), 2);
    }
    assert_eq!(Arc::strong_count(&witness), 1);
}

#[test]
fn debug_output_names_the_types() {
    let lazy: Lazy<i32> = Lazy::new();
    assert!(format!("{:?}", lazy).starts_with("Lazy"));
    let outcome = block_on(lazy.get_or_set());
    assert!(format!("{:?}", outcome).starts_with("Setter"));
    expect_setter(outcome).set(1);
    assert_eq!(format!("{:?}", block_on(lazy.get_or_set())), "Value(1)");
}

#[test]
fn shared_cell_can_cross_threads() {
    fn assert_send_and_sync<T: Send + Sync>(_: &T) {}
    let lazy: Lazy<i32> = Lazy::new();
    assert_send_and_sync(&lazy);
    let outcome_is_send = lazy.get_or_set();
    fn assert_send<T: Send>(_: &T) {}
    assert_send(&outcome_is_send);
}

#[test]
fn negotiation_is_a_future_of_the_outcome() {
    fn output_of<'l, F: Future<Output = ValueOrSetter<'l, i32>>>(future: F) -> F {
        future
    }
    let lazy: Lazy<i32> = Lazy::new();
    let outcome = block_on(output_of(lazy.get_or_set()));
    assert_eq!(*expect_setter(outcome).set(2), 2);
}
