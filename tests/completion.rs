use future_completion::{AlreadyCompleted, CompletionFuture, FutureCompletion, SharedState};
use std::sync::atomic::{AtomicUsize, Ordering};
use std::sync::Arc;
use std::task::{Wake, Waker};

struct WakeCount(AtomicUsize);

impl Wake for WakeCount {
    fn wake(self: Arc<Self>) {
        self.0.fetch_add(1, Ordering::SeqCst);
    }

    fn wake_by_ref(self: &Arc<Self>) {
        self.0.fetch_add(1, Ordering::SeqCst);
    }
}

fn counting_waker() -> (Arc<WakeCount>, Waker) {
    let count = Arc::new(WakeCount(AtomicUsize::new(0)));
    let waker = Waker::from(count.clone());
    (count, waker)
}

fn wakes(count: &Arc<WakeCount>) -> usize {
    count.0.load(Ordering::SeqCst)
}

#[test]
fn single_publish_reaches_every_waiter() {
    let mut completion: FutureCompletion<u32> = FutureCompletion::new();
    let futures: Vec<CompletionFuture<u32>> = (0..3).map(|_| completion.get_future()).collect();
    let counts: Vec<Arc<WakeCount>> = futures
        .iter()
        .map(|f| {
            let (count, waker) = counting_waker();
            assert_eq!(f.poll(&waker), None);
            count
        })
        .collect();
    assert_eq!(completion.set_result(7), Ok(()));
    for (f, count) in futures.iter().zip(counts.iter()) {
        assert_eq!(wakes(count), 1);
        let (_, waker) = counting_waker();
        assert_eq!(f.poll(&waker), Some(7));
        assert_eq!(wakes(count), 1);
    }
}

#[test]
fn publish_with_no_waiters() {
    let mut completion: FutureCompletion<u32> = FutureCompletion::new();
    assert_eq!(completion.set_result(1), Ok(()));
}

#[test]
fn late_waiter_is_ready_at_once() {
    let mut completion: FutureCompletion<String> = FutureCompletion::new();
    assert_eq!(completion.set_result("done".to_string()), Ok(()));
    let future = completion.get_future();
    let (count, waker) = counting_waker();
    assert_eq!(future.poll(&waker), Some("done".to_string()));
    assert_eq!(wakes(&count), 0);
}

#[test]
fn ready_waiter_answers_again() {
    let mut completion: FutureCompletion<u32> = FutureCompletion::new();
    let future = completion.get_future();
    assert_eq!(completion.set_result(5), Ok(()));
    let (_, waker) = counting_waker();
    assert_eq!(future.poll(&waker), Some(5));
    assert_eq!(future.poll(&waker), Some(5));
}

#[test]
fn sequential_ids_are_distinct() {
    let mut completion: FutureCompletion<u8> = FutureCompletion::new();
    let ids: Vec<u64> = (0..5).map(|_| completion.get_future().id()).collect();
    assert_eq!(ids, vec![1, 2, 3, 4, 5]);
}

#[test]
fn ids_continue_after_publish() {
    let mut completion: FutureCompletion<u8> = FutureCompletion::new();
    assert_eq!(completion.get_future().id(), 1);
    assert_eq!(completion.set_result(0), Ok(()));
    assert_eq!(completion.get_future().id(), 2);
}

#[test]
fn repeated_query_keeps_latest_waker_only() {
    let mut completion: FutureCompletion<u32> = FutureCompletion::new();
    let future = completion.get_future();
    let (first, first_waker) = counting_waker();
    let (second, second_waker) = counting_waker();
    assert_eq!(future.poll(&first_waker), None);
    assert_eq!(future.poll(&second_waker), None);
    assert_eq!(completion.set_result(9), Ok(()));
    assert_eq!(wakes(&first), 0);
    assert_eq!(wakes(&second), 1);
}

#[test]
fn repeated_query_one_entry_in_table() {
    let mut state: SharedState<u32> = SharedState::new();
    for _ in 0..4 {
        let (_, waker) = counting_waker();
        assert_eq!(state.poll(3, waker), None);
    }
    assert_eq!(state.waiter_count(), 1);
    assert!(state.is_waiting(3));
    assert!(!state.is_waiting(4));
}

#[test]
fn no_ready_before_publish() {
    let mut completion: FutureCompletion<u32> = FutureCompletion::new();
    let a = completion.get_future();
    let b = completion.get_future();
    let (count, waker) = counting_waker();
    for _ in 0..3 {
        assert_eq!(a.poll(&waker), None);
        assert_eq!(b.poll(&waker), None);
    }
    assert_eq!(wakes(&count), 0);
}

#[test]
fn double_publish_keeps_first_value() {
    let mut completion: FutureCompletion<u32> = FutureCompletion::new();
    let early = completion.get_future();
    let (count, waker) = counting_waker();
    assert_eq!(early.poll(&waker), None);
    assert_eq!(completion.set_result(1), Ok(()));
    assert_eq!(completion.set_result(2), Err(AlreadyCompleted));
    assert_eq!(wakes(&count), 1);
    let late = completion.get_future();
    assert_eq!(early.poll(&waker), Some(1));
    assert_eq!(late.poll(&waker), Some(1));
    assert_eq!(wakes(&count), 1);
}

#[test]
fn fresh_state_is_empty() {
    let state: SharedState<u32> = SharedState::new();
    assert!(!state.is_published());
    assert_eq!(state.waiter_count(), 0);
}

#[test]
fn state_publish_hands_back_registered_wakers() {
    let mut state: SharedState<u32> = SharedState::new();
    let (one, one_waker) = counting_waker();
    let (two, two_waker) = counting_waker();
    assert_eq!(state.poll(1, one_waker), None);
    assert_eq!(state.poll(2, two_waker), None);
    let woken = state.publish(11).unwrap();
    assert_eq!(woken.len(), 2);
    assert!(woken.contains_key(&1) && woken.contains_key(&2));
    assert!(state.is_published());
    assert_eq!(state.waiter_count(), 0);
    for w in woken.values() {
        w.wake_by_ref();
    }
    assert_eq!((wakes(&one), wakes(&two)), (1, 1));
}

#[test]
fn state_second_publish_is_refused() {
    let mut state: SharedState<u32> = SharedState::new();
    assert!(state.publish(1).is_ok());
    assert_eq!(state.publish(2).unwrap_err(), AlreadyCompleted);
    let (count, waker) = counting_waker();
    assert_eq!(state.poll(8, waker), Some(1));
    assert_eq!(state.waiter_count(), 0);
    assert_eq!(wakes(&count), 0);
}
