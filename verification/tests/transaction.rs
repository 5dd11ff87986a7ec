use niri::utils::transaction::{
    BarrierState, BlockerState, Deadline, Inner, SurfaceBarriers, Transaction, TransactionBlocker,
};

type TestTransaction = Transaction<&'static str, u8, u32>;

#[test]
fn transaction_completes_with_its_last_instance() {
    let mut transaction: TestTransaction = Transaction::new(1, 1_000);
    let blocker = transaction.blocker();
    assert!(transaction.is_last());
    assert!(!transaction.is_completed());
    transaction.add_instance();
    assert!(!transaction.is_last());

    assert!(transaction.add_notification("first", 1));
    assert!(transaction.add_notification("second", 2));

    let actions = transaction.drop_instance();
    assert!(actions.notify.is_none() && !actions.remove_timer);
    assert_eq!(blocker.state(Some(&transaction)), BlockerState::Pending);

    let actions = transaction.drop_instance();
    let notify = actions.notify.unwrap();
    // The first sender gets all notifications, in order.
    assert_eq!(notify.sender, "first");
    assert_eq!(notify.clients, [1, 2]);
    assert!(!actions.remove_timer);
    assert!(transaction.is_completed());
    assert_eq!(blocker.state(Some(&transaction)), BlockerState::Released);
    assert_eq!(
        blocker.state(None::<&TestTransaction>),
        BlockerState::Released
    );
}

#[test]
fn deadline_completes_the_transaction() {
    let mut transaction: TestTransaction = Transaction::new(1, 1_000);
    assert_eq!(transaction.deadline, Deadline::NotRegistered(1_300));
    assert_eq!(transaction.register_deadline_timer(), Some(1_300));
    // The timer is only set once.
    assert_eq!(transaction.register_deadline_timer(), None);

    let mut barriers = SurfaceBarriers::new();
    transaction.register_surface(&mut barriers, 50);
    transaction.add_notification("sender", 3);
    let actions = transaction.deadline_reached();
    assert_eq!(actions.notify.unwrap().clients, [3]);
    assert_eq!(actions.release, Some(50));
    assert!(transaction.is_completed());
    assert!(transaction.barrier.is_none());

    // Too late for notifications.
    assert!(!transaction.add_notification("sender", 4));
    assert!(transaction.inner.notifications.is_none());

    // The last instance removes the timer and notifies nobody again.
    let actions = transaction.drop_instance();
    assert!(actions.notify.is_none());
    assert!(actions.remove_timer);

    // The timer can still fire.
    let actions = transaction.deadline_reached();
    assert!(actions.notify.is_none() && actions.release.is_none());
}

#[test]
fn completing_sends_notifications_once() {
    let mut inner: Inner<(), u8> = Inner::new();
    assert!(!inner.is_completed());
    assert!(inner.complete().is_none());
    assert!(inner.is_completed());
    assert!(inner.complete().is_none());
}

#[test]
fn surfaces_share_a_barrier() {
    let mut transaction: TestTransaction = Transaction::new(7, 0);
    let mut barriers = SurfaceBarriers::new();
    let (barrier, blocker) = transaction.register_surface(&mut barriers, 50);
    assert_eq!(barrier, 50);
    assert_eq!(blocker, transaction.blocker());
    let (barrier, _) = transaction.register_surface(&mut barriers, 51);
    assert_eq!(barrier, 50);
    assert_eq!(barriers.barriers, [50]);

    // After the deadline took the barrier away, there is a new one.
    transaction.deadline_reached();
    let (barrier, _) = transaction.register_surface(&mut barriers, 52);
    assert_eq!(barrier, 52);
    assert_eq!(barriers.barriers, [50, 52]);
}

#[test]
fn completed_blocker_does_not_block() {
    let blocker = TransactionBlocker::completed();
    assert_eq!(
        blocker.state(None::<&TestTransaction>),
        BlockerState::Released
    );
}

#[test]
fn ready_barriers_are_released() {
    let mut barriers = SurfaceBarriers::new();
    for barrier in 1..=5u32 {
        barriers.create_barrier(barrier);
    }
    let release = barriers.release_ready(&vec![
        BarrierState::Ready,
        BarrierState::Waiting,
        BarrierState::Released,
        BarrierState::Ready,
        BarrierState::Waiting,
    ]);
    assert_eq!(release, [1, 4]);
    assert_eq!(barriers.barriers, [1, 2, 4, 5]);

    // The next pass forgets what was released.
    let release = barriers.release_ready(&vec![
        BarrierState::Released,
        BarrierState::Waiting,
        BarrierState::Released,
        BarrierState::Waiting,
    ]);
    assert!(release.is_empty());
    assert_eq!(barriers.barriers, [2, 5]);
}
