//! Transactions between Wayland clients.
//!
//! A transaction delays the commits of several surfaces until all of them are ready, or until a
//! deadline. Clients, the channels that tell about them, and surface barriers appear as handles.

use vstd::prelude::*;

verus! {

/// Default time limit in milliseconds, after which the transaction completes.
///
/// Serves to avoid hanging when a client fails to respond to a configure promptly.
pub const TIME_LIMIT: u64 = 300;

/// When a transaction completes on its own.
#[derive(Debug, Clone, Copy, PartialEq, Eq, Structural)]
pub enum Deadline {
    /// At this time, in milliseconds, but there is no timer yet.
    NotRegistered(u64),
    /// There is a timer, which has to be removed with the last instance.
    Registered,
}

/// Notifications to send out: the channel to send them on, and the clients in order.
#[derive(Debug)]
pub struct Notifications<S, C> {
    pub sender: S,
    pub clients: Vec<C>,
}

/// The state that blockers watch.
#[derive(Debug)]
pub struct Inner<S, C> {
    /// Whether the transaction is completed.
    pub completed: bool,
    /// Notifications to send out upon completing the transaction.
    pub notifications: Option<Notifications<S, C>>,
}

/// The clients to be notified, in order.
pub open spec fn pending_clients<S, C>(notifications: Option<Notifications<S, C>>) -> Seq<C> {
    match notifications {
        Some(notifications) => notifications.clients@,
        None => Seq::empty(),
    }
}

impl<S, C> Inner<S, C> {
    /// A completed transaction has nothing left to notify about.
    pub open spec fn wf(self) -> bool {
        self.completed ==> self.notifications is None
    }

    pub fn new() -> (inner: Self)
        ensures
            inner.wf(),
            !inner.completed,
            inner.notifications is None,
    {
        Inner { completed: false, notifications: None }
    }

    pub fn is_completed(&self) -> (completed: bool)
        ensures
            completed == self.completed,
    {
        self.completed
    }

    /// Completes the transaction. Returns the notifications to send out.
    pub fn complete(&mut self) -> (notify: Option<Notifications<S, C>>)
        ensures
            final(self).wf(),
            final(self).completed,
            final(self).notifications is None,
            notify == old(self).notifications,
    {
        self.completed = true;
        self.notifications.take()
    }
}

/// Blocker for a [`Transaction`].
#[derive(Debug, Clone, Copy, PartialEq, Eq)]
pub struct TransactionBlocker {
    /// The transaction that is waited for.
    pub transaction: Option<u64>,
}

/// Whether a commit may be applied.
#[derive(Debug, Clone, Copy, PartialEq, Eq, Structural)]
pub enum BlockerState {
    Released,
    Pending,
}

/// Transaction between Wayland clients: what all of its instances share.
///
/// How to use it:
/// 1. Create a transaction with [`Transaction::new()`].
/// 2. Clone it as many times as you need with [`Transaction::add_instance()`].
/// 3. Before adding the transaction as a commit blocker, remember to call
///    [`Transaction::add_notification()`] to receive a notification when the transaction completes.
/// 4. Before adding the transaction as a commit blocker, remember to call
///    [`Transaction::register_deadline_timer()`] to make sure the transaction completes when
///    reaching the deadline.
/// 5. In your surface pre-commit handler, if the transaction corresponding to that commit isn't
///    ready, get a blocker with [`Transaction::blocker()`] and add it to the surface.
#[derive(Debug)]
pub struct Transaction<S, C, B> {
    pub id: u64,
    /// How many instances there are. Without any, nothing but a deadline timer remembers it.
    pub instances: usize,
    pub inner: Inner<S, C>,
    pub deadline: Deadline,
    pub barrier: Option<B>,
}

/// What to do when the deadline is reached.
#[derive(Debug)]
pub struct DeadlineActions<S, C, B> {
    /// Notifications to send out.
    pub notify: Option<Notifications<S, C>>,
    /// The surface barrier to release, ready or not.
    pub release: Option<B>,
}

/// What to do when an instance is gone.
#[derive(Debug)]
pub struct DropActions<S, C> {
    /// Notifications to send out.
    pub notify: Option<Notifications<S, C>>,
    /// The deadline timer is to be removed.
    pub remove_timer: bool,
}

impl<S, C, B> Transaction<S, C, B> {
    /// Without any instance the transaction is completed.
    pub open spec fn wf(self) -> bool {
        &&& self.inner.wf()
        &&& self.instances == 0 ==> self.inner.completed
    }

    /// `after` is the transaction `before` with a notification added for when it completes: none is
    /// added to a completed transaction.
    pub open spec fn notification_added(
        before: Self,
        after: Self,
        sender: S,
        client: C,
        added: bool,
    ) -> bool {
        &&& added == !before.inner.completed
        &&& !added ==> after == before
        &&& added ==> {
            &&& after == (Transaction { inner: after.inner, ..before })
            &&& !after.inner.completed
            &&& after.inner.notifications is Some
            &&& pending_clients(after.inner.notifications) == pending_clients(
                before.inner.notifications,
            ).push(client)
            &&& (after.inner.notifications->0).sender == match before.inner.notifications {
                Some(notifications) => notifications.sender,
                None => sender,
            }
        }
    }

    /// `after` is the transaction `before` past its deadline, when the actions are due.
    pub open spec fn deadline_passed(
        before: Self,
        after: Self,
        actions: DeadlineActions<S, C, B>,
    ) -> bool {
        &&& after.inner.completed
        &&& after == (Transaction { inner: after.inner, barrier: None, ..before })
        &&& actions.notify == before.inner.notifications
        &&& actions.release == before.barrier
    }

    /// `after` is the transaction `before` with an instance less, when the actions are due.
    pub open spec fn instance_dropped(
        before: Self,
        after: Self,
        actions: DropActions<S, C>,
    ) -> bool {
        &&& after.instances == before.instances - 1
        &&& after == (Transaction { instances: after.instances, inner: after.inner, ..before })
        &&& if before.instances == 1 {
            &&& after.inner.completed
            &&& actions.notify == before.inner.notifications
            &&& actions.remove_timer == (before.deadline is Registered)
        } else {
            &&& after.inner == before.inner
            &&& actions.notify is None
            &&& !actions.remove_timer
        }
    }

    /// `after` is the transaction `before` with a surface registered into its barrier, which is a
    /// new one if it had none.
    pub open spec fn surface_registered(
        before: Self,
        after: Self,
        barriers: Seq<B>,
        barriers_after: Seq<B>,
        new_barrier: B,
        barrier: B,
    ) -> bool {
        match before.barrier {
            Some(own) => {
                &&& barrier == own
                &&& after == before
                &&& barriers_after == barriers
            },
            None => {
                &&& barrier == new_barrier
                &&& after == (Transaction { barrier: Some(new_barrier), ..before })
                &&& barriers_after == barriers.push(new_barrier)
            },
        }
    }

    /// Creates a new transaction, with one instance, at the given time in milliseconds.
    pub fn new(id: u64, now: u64) -> (transaction: Self)
        requires
            now + TIME_LIMIT <= u64::MAX,
        ensures
            transaction.wf(),
            transaction.id == id,
            transaction.instances == 1,
            !transaction.inner.completed,
            transaction.inner.notifications is None,
            transaction.deadline == Deadline::NotRegistered((now + TIME_LIMIT) as u64),
            transaction.deadline matches Deadline::NotRegistered(deadline) && deadline == now + 300,
            transaction.barrier is None,
    {
        Transaction {
            id,
            instances: 1,
            inner: Inner::new(),
            deadline: Deadline::NotRegistered(now + TIME_LIMIT),
            barrier: None,
        }
    }

    /// Adds an instance.
    pub fn add_instance(&mut self)
        requires
            old(self).wf(),
            0 < old(self).instances < usize::MAX,
        ensures
            final(self).wf(),
            *final(self) == (Transaction { instances: final(self).instances, ..*old(self) }),
            final(self).instances == old(self).instances + 1,
    {
        self.instances = self.instances + 1;
    }

    /// Registers a surface's pending commit into this transaction's surface barrier.
    ///
    /// Returns the barrier to register the surface into, and the blocker to add to the surface.
    /// The blocker gates the commit on the completion of this transaction, and the barrier delays
    /// the application of the committed state until every surface registered into it is ready, at
    /// which point they all apply atomically (see [`SurfaceBarriers`]). `new_barrier` becomes the
    /// barrier of the transaction if it has none yet.
    pub fn register_surface(&mut self, barriers: &mut SurfaceBarriers<B>, new_barrier: B) -> (
    registration: (B, TransactionBlocker)) where B: Copy
        ensures
            registration.1.transaction == Some(old(self).id),
            Self::surface_registered(
                *old(self),
                *final(self),
                old(barriers).barriers@,
                final(barriers).barriers@,
                new_barrier,
                registration.0,
            ),
            old(self).barrier is Some ==> *final(barriers) == *old(barriers),
    {
        let barrier: B = match self.barrier {
            Some(barrier) => barrier,
            None => {
                barriers.create_barrier(new_barrier);
                self.barrier = Some(new_barrier);
                new_barrier
            },
        };
        (barrier, self.blocker())
    }

    /// Gets a blocker for this transaction.
    pub fn blocker(&self) -> (blocker: TransactionBlocker)
        ensures
            blocker.transaction == Some(self.id),
    {
        TransactionBlocker { transaction: Some(self.id) }
    }

    /// Adds a notification for when this transaction completes. All notifications go to the first
    /// sender. Returns whether it was added, which it is not on a completed transaction.
    pub fn add_notification(&mut self, sender: S, client: C) -> (added: bool)
        requires
            old(self).wf(),
        ensures
            final(self).wf(),
            Self::notification_added(*old(self), *final(self), sender, client, added),
    {
        if self.is_completed() {
            return false;
        }
        let notifications: Option<Notifications<S, C>> = self.inner.notifications.take();
        let mut notifications: Notifications<S, C> = match notifications {
            Some(notifications) => notifications,
            None => Notifications { sender, clients: Vec::new() },
        };
        notifications.clients.push(client);
        self.inner.notifications = Some(notifications);
        true
    }

    /// Registers this transaction's deadline timer. Returns the time for which to set the timer,
    /// unless there is one already.
    pub fn register_deadline_timer(&mut self) -> (set_timer: Option<u64>)
        requires
            old(self).wf(),
        ensures
            final(self).wf(),
            set_timer == match old(self).deadline {
                Deadline::NotRegistered(deadline) => Some(deadline),
                Deadline::Registered => None,
            },
            *final(self) == (Transaction { deadline: Deadline::Registered, ..*old(self) }),
    {
        match self.deadline {
            Deadline::NotRegistered(deadline) => {
                self.deadline = Deadline::Registered;
                Some(deadline)
            },
            Deadline::Registered => None,
        }
    }

    /// The deadline timer fired. The transaction completes, and past the deadline we no longer
    /// wait for every participant to become ready. If the last instance is already gone, the
    /// transaction has been completed.
    pub fn deadline_reached(&mut self) -> (actions: DeadlineActions<S, C, B>)
        requires
            old(self).wf(),
        ensures
            final(self).wf(),
            Self::deadline_passed(*old(self), *final(self), actions),
    {
        let notify: Option<Notifications<S, C>> = if self.instances > 0 {
            self.inner.complete()
        } else {
            None
        };
        DeadlineActions { notify, release: self.barrier.take() }
    }

    /// Returns whether this transaction has already completed.
    pub fn is_completed(&self) -> (completed: bool)
        ensures
            completed == self.inner.completed,
    {
        self.inner.is_completed()
    }

    /// Returns whether there is only one instance of this transaction.
    pub fn is_last(&self) -> (last: bool)
        ensures
            last == (self.instances == 1),
    {
        self.instances == 1
    }

    /// An instance is gone. With the last one, the transaction completes.
    pub fn drop_instance(&mut self) -> (actions: DropActions<S, C>)
        requires
            old(self).wf(),
            old(self).instances > 0,
        ensures
            final(self).wf(),
            Self::instance_dropped(*old(self), *final(self), actions),
    {
        let mut actions: DropActions<S, C> = DropActions { notify: None, remove_timer: false };
        if self.is_last() {
            // If this was the last transaction, complete it.
            actions.notify = self.inner.complete();
            // Also remove the timer.
            actions.remove_timer = matches!(self.deadline, Deadline::Registered);
        }
        self.instances = self.instances - 1;
        actions
    }
}

impl TransactionBlocker {
    /// A blocker that never blocks.
    pub fn completed() -> (blocker: Self)
        ensures
            blocker.transaction is None,
    {
        TransactionBlocker { transaction: None }
    }

    /// Whether the watched transaction holds the commit back. A transaction without instances no
    /// longer does.
    pub open spec fn pending<S, C, B>(self, watched: Option<Transaction<S, C, B>>) -> bool {
        &&& self.transaction is Some
        &&& watched matches Some(transaction)
        &&& transaction.instances > 0
        &&& !transaction.inner.completed
    }

    /// The state of the blocker. `watched` is the transaction that the blocker waits for, if it
    /// still exists.
    pub fn state<S, C, B>(&self, watched: Option<&Transaction<S, C, B>>) -> (state: BlockerState)
        requires
            watched matches Some(transaction) ==> self.transaction == Some(transaction.id),
        ensures
            state == if self.pending(
                match watched {
                    Some(transaction) => Some(*transaction),
                    None => None,
                },
            ) {
                BlockerState::Pending
            } else {
                BlockerState::Released
            },
    {
        if self.transaction.is_none() {
            return BlockerState::Released;
        }
        match watched {
            Some(transaction) => if transaction.instances == 0 || transaction.is_completed() {
                BlockerState::Released
            } else {
                BlockerState::Pending
            },
            None => BlockerState::Released,
        }
    }
}

/// The state of a surface barrier.
#[derive(Debug, Clone, Copy, PartialEq, Eq, Structural)]
pub enum BarrierState {
    /// Some registered surface is not ready.
    Waiting,
    /// Every registered surface is only waiting on the barrier itself.
    Ready,
    /// The barrier was released.
    Released,
}

/// Registry of in-flight surface barriers.
///
/// Surfaces committing in response to a transaction's configure are registered into the
/// transaction's barrier ([`Transaction::register_surface()`]). The barrier becomes ready once
/// every registered surface is only waiting on the barrier itself, i.e. the transaction completed
/// and all per-surface readiness blockers cleared.
///
/// A becoming-ready barrier merely wakes the event loop; ready barriers are released at the start
/// of every refresh cycle, applying all their pending surface states atomically within that same
/// cycle.
#[derive(Debug)]
pub struct SurfaceBarriers<B> {
    pub barriers: Vec<B>,
}

/// The barriers that are not released, in order.
pub open spec fn in_flight<B>(barriers: Seq<B>, states: Seq<BarrierState>) -> Seq<B>
    recommends
        barriers.len() == states.len(),
    decreases barriers.len(),
{
    if barriers.len() == 0 {
        Seq::empty()
    } else {
        let rest = in_flight(barriers.drop_last(), states.drop_last());
        if states.last() is Released {
            rest
        } else {
            rest.push(barriers.last())
        }
    }
}

/// The barriers that are ready, in order.
pub open spec fn ready<B>(barriers: Seq<B>, states: Seq<BarrierState>) -> Seq<B>
    recommends
        barriers.len() == states.len(),
    decreases barriers.len(),
{
    if barriers.len() == 0 {
        Seq::empty()
    } else {
        let rest = ready(barriers.drop_last(), states.drop_last());
        if states.last() is Ready {
            rest.push(barriers.last())
        } else {
            rest
        }
    }
}

impl<B> SurfaceBarriers<B> {
    /// Creates the registry.
    pub fn new() -> (registry: Self)
        ensures
            registry.barriers@.len() == 0,
    {
        SurfaceBarriers { barriers: Vec::new() }
    }

    /// Adds a new barrier.
    pub fn create_barrier(&mut self, barrier: B)
        ensures
            final(self).barriers@ == old(self).barriers@.push(barrier),
    {
        self.barriers.push(barrier);
    }
}

impl<B: Copy> SurfaceBarriers<B> {
    /// One pass of releasing all barriers that became ready, given the state of each barrier.
    /// Forgets released barriers and returns those to release now.
    ///
    /// Applying a released barrier's states can complete further transactions and make more
    /// barriers ready, and register new barriers, so passes are made until one finds nothing to
    /// release.
    pub fn release_ready(&mut self, states: &Vec<BarrierState>) -> (release: Vec<B>)
        requires
            states.len() == old(self).barriers.len(),
        ensures
            final(self).barriers@ == in_flight(old(self).barriers@, states@),
            release@ == ready(old(self).barriers@, states@),
    {
        let mut kept: Vec<B> = Vec::new();
        let mut release: Vec<B> = Vec::new();
        let mut i: usize = 0;
        while i < self.barriers.len()
            invariant
                i <= self.barriers.len(),
                states.len() == self.barriers.len(),
                self.barriers@ == old(self).barriers@,
                kept@ == in_flight(self.barriers@.take(i as int), states@.take(i as int)),
                release@ == ready(self.barriers@.take(i as int), states@.take(i as int)),
            decreases self.barriers.len() - i,
        {
            let barrier: B = self.barriers[i];
            proof {
                assert(self.barriers@.take(i + 1).drop_last() == self.barriers@.take(i as int));
                assert(states@.take(i + 1).drop_last() == states@.take(i as int));
            }
            match states[i] {
                BarrierState::Released => {},
                BarrierState::Ready => {
                    kept.push(barrier);
                    release.push(barrier);
                },
                BarrierState::Waiting => {
                    kept.push(barrier);
                },
            }
            i = i + 1;
        }
        assert(self.barriers@.take(i as int) == self.barriers@);
        assert(states@.take(i as int) == states@);
        self.barriers = kept;
        release
    }
}

/// No barrier is forgotten before it is released.
pub proof fn law_unreleased_barriers_are_kept<B>(barriers: Seq<B>, states: Seq<BarrierState>, i: int)
    requires
        barriers.len() == states.len(),
        0 <= i < barriers.len(),
        states[i] !is Released,
    ensures
        in_flight(barriers, states).contains(barriers[i]),
    decreases barriers.len(),
{
    let rest = in_flight(barriers.drop_last(), states.drop_last());
    if i < barriers.len() - 1 {
        law_unreleased_barriers_are_kept(barriers.drop_last(), states.drop_last(), i);
        let k = rest.index_of(barriers[i]);
        assert(in_flight(barriers, states)[k] == barriers[i]);
    } else {
        assert(in_flight(barriers, states)[rest.len() as int] == barriers[i]);
    }
}

/// Whether the barrier is one of the given ones and ready.
pub open spec fn is_ready<B>(barriers: Seq<B>, states: Seq<BarrierState>, barrier: B) -> bool {
    exists|i: int|
        0 <= i < barriers.len() && states[i] is Ready && #[trigger] barriers[i] == barrier
}

/// A pass releases exactly the ready barriers, so a pass that finds nothing to release leaves no
/// ready barrier behind.
pub proof fn law_passes_release_exactly_the_ready_barriers<B>(
    barriers: Seq<B>,
    states: Seq<BarrierState>,
)
    requires
        barriers.len() == states.len(),
    ensures
        forall|i: int|
            0 <= i < barriers.len() && states[i] is Ready ==> ready(barriers, states).contains(
                #[trigger] barriers[i],
            ),
        forall|k: int|
            0 <= k < ready(barriers, states).len() ==> is_ready(
                barriers,
                states,
                #[trigger] ready(barriers, states)[k],
            ),
        ready(barriers, states).len() == 0 ==> forall|i: int|
            0 <= i < states.len() ==> #[trigger] states[i] !is Ready,
    decreases barriers.len(),
{
    if barriers.len() > 0 {
        let b = barriers.drop_last();
        let s = states.drop_last();
        let rest = ready(b, s);
        law_passes_release_exactly_the_ready_barriers(b, s);
        assert forall|i: int| 0 <= i < barriers.len() && states[i] is Ready implies ready(
            barriers,
            states,
        ).contains(#[trigger] barriers[i]) by {
            if i < b.len() {
                assert(rest.contains(b[i]));
                let k = rest.index_of(b[i]);
                assert(ready(barriers, states)[k] == barriers[i]);
            } else {
                assert(ready(barriers, states)[rest.len() as int] == barriers[i]);
            }
        }
        assert forall|k: int| 0 <= k < ready(barriers, states).len() implies is_ready(
            barriers,
            states,
            #[trigger] ready(barriers, states)[k],
        ) by {
            if k < rest.len() {
                assert(is_ready(b, s, rest[k]));
                let i = choose|i: int|
                    0 <= i < b.len() && s[i] is Ready && #[trigger] b[i] == rest[k];
                assert(barriers[i] == ready(barriers, states)[k]);
            } else {
                assert(barriers[barriers.len() - 1] == ready(barriers, states)[k]);
            }
        }
        if ready(barriers, states).len() == 0 {
            assert forall|i: int| 0 <= i < states.len() implies #[trigger] states[i] !is Ready by {
                if i < s.len() {
                    assert(s[i] !is Ready);
                }
            }
        }
    }
}

/// A transaction is completed at most once: completing it again, by its deadline or with its last
/// instance, sends no notification a second time.
pub proof fn law_notifications_are_sent_once<S, C, B>(transaction: Transaction<S, C, B>)
    requires
        transaction.wf(),
        transaction.inner.completed,
    ensures
        transaction.inner.notifications is None,
{
}

/// A blocker of a transaction blocks exactly until the transaction completes, and the last
/// instance going away completes it.
pub proof fn law_blockers_wait_for_completion<S, C, B>(
    blocker: TransactionBlocker,
    transaction: Transaction<S, C, B>,
)
    requires
        transaction.wf(),
        blocker.transaction == Some(transaction.id),
    ensures
        blocker.pending(Some(transaction)) <==> !transaction.inner.completed,
        transaction.instances == 0 ==> !blocker.pending(Some(transaction)),
        !blocker.pending(None::<Transaction<S, C, B>>),
{
}

/// A pass treats each barrier by its own state, and keeps their order: released barriers are
/// forgotten, ready ones are kept until they are released and are to be released now, and waiting
/// ones are only kept.
pub proof fn law_barriers_are_treated_one_by_one<B>(
    barriers: Seq<B>,
    states: Seq<BarrierState>,
    more: Seq<B>,
    more_states: Seq<BarrierState>,
    barrier: B,
)
    requires
        barriers.len() == states.len(),
        more.len() == more_states.len(),
    ensures
        in_flight(barriers + more, states + more_states) == in_flight(barriers, states) + in_flight(
            more,
            more_states,
        ),
        ready(barriers + more, states + more_states) == ready(barriers, states) + ready(
            more,
            more_states,
        ),
        in_flight(seq![barrier], seq![BarrierState::Released]) == Seq::<B>::empty(),
        in_flight(seq![barrier], seq![BarrierState::Ready]) == seq![barrier],
        in_flight(seq![barrier], seq![BarrierState::Waiting]) == seq![barrier],
        ready(seq![barrier], seq![BarrierState::Released]) == Seq::<B>::empty(),
        ready(seq![barrier], seq![BarrierState::Ready]) == seq![barrier],
        ready(seq![barrier], seq![BarrierState::Waiting]) == Seq::<B>::empty(),
    decreases more.len(),
{
    assert forall|state: BarrierState| #[trigger]
        in_flight(seq![barrier], seq![state]) == if state is Released {
            Seq::empty()
        } else {
            seq![barrier]
        } by {
        assert(seq![barrier].drop_last() == Seq::<B>::empty());
        assert(in_flight(seq![barrier].drop_last(), seq![state].drop_last()) == Seq::<B>::empty());
    }
    assert forall|state: BarrierState| #[trigger]
        ready(seq![barrier], seq![state]) == if state is Ready {
            seq![barrier]
        } else {
            Seq::empty()
        } by {
        assert(seq![barrier].drop_last() == Seq::<B>::empty());
        assert(ready(seq![barrier].drop_last(), seq![state].drop_last()) == Seq::<B>::empty());
    }
    if more.len() == 0 {
        assert(barriers + more == barriers);
        assert(states + more_states == states);
    } else {
        let all = barriers + more;
        let all_states = states + more_states;
        law_barriers_are_treated_one_by_one(
            barriers,
            states,
            more.drop_last(),
            more_states.drop_last(),
            barrier,
        );
        assert(all.drop_last() == barriers + more.drop_last());
        assert(all_states.drop_last() == states + more_states.drop_last());
        assert(all.last() == more.last() && all_states.last() == more_states.last());
    }
}

/// Clients are notified when the transaction completes, in the order in which they were added, on
/// the channel of the first of them. Once it is completed, no client is added or notified any more.
pub proof fn law_clients_are_notified_in_order<S, C, B>(
    start: Transaction<S, C, B>,
    one: Transaction<S, C, B>,
    two: Transaction<S, C, B>,
    done: Transaction<S, C, B>,
    late: Transaction<S, C, B>,
    senders: (S, S, S),
    clients: (C, C, C),
    added: (bool, bool, bool),
    by_deadline: DeadlineActions<S, C, B>,
    by_drop: DropActions<S, C>,
)
    requires
        start.wf() && one.wf() && two.wf() && done.wf() && late.wf(),
        !start.inner.completed,
        start.inner.notifications is None,
        Transaction::notification_added(start, one, senders.0, clients.0, added.0),
        Transaction::notification_added(one, two, senders.1, clients.1, added.1),
        two.instances == 1,
        Transaction::deadline_passed(two, done, by_deadline) || Transaction::instance_dropped(
            two,
            done,
            by_drop,
        ),
        Transaction::notification_added(done, late, senders.2, clients.2, added.2),
    ensures
        added.0 && added.1 && !added.2,
        ({
            let notify = if Transaction::deadline_passed(two, done, by_deadline) {
                by_deadline.notify
            } else {
                by_drop.notify
            };
            &&& notify matches Some(notify)
            &&& notify.sender == senders.0
            &&& notify.clients@ == seq![clients.0, clients.1]
        }),
        done.inner.completed,
        done.inner.notifications is None,
        late == done,
{
    assert(pending_clients(start.inner.notifications) == Seq::<C>::empty());
    assert(Seq::<C>::empty().push(clients.0).push(clients.1) == seq![clients.0, clients.1]);
}

/// A transaction stays as it is until its last instance is gone: only then does it complete, and is
/// its timer, if it has one, removed.
pub proof fn law_last_instance_completes<S, C, B>(
    before: Transaction<S, C, B>,
    after: Transaction<S, C, B>,
    actions: DropActions<S, C>,
)
    requires
        before.wf(),
        after.wf(),
        before.instances > 0,
        Transaction::instance_dropped(before, after, actions),
    ensures
        after.instances + 1 == before.instances,
        before.instances > 1 ==> after.inner.completed == before.inner.completed
            && after.inner.notifications == before.inner.notifications && actions.notify is None
            && !actions.remove_timer,
        before.instances == 1 ==> after.inner.completed && after.inner.notifications is None && (
        actions.remove_timer <==> before.deadline == Deadline::Registered),
        after.barrier == before.barrier,
        after.deadline == before.deadline,
        after.id == before.id,
{
}

/// The deadline completes a transaction and releases its barrier, once: a second time there is
/// nothing left to notify about or to release. Surfaces that are registered before it share one
/// barrier, which is entered into the registry once.
pub proof fn law_deadline_releases_the_barrier_once<S, C, B>(
    start: Transaction<S, C, B>,
    one: Transaction<S, C, B>,
    two: Transaction<S, C, B>,
    done: Transaction<S, C, B>,
    again: Transaction<S, C, B>,
    barriers: (Seq<B>, Seq<B>, Seq<B>),
    new_barriers: (B, B),
    given: (B, B),
    first: DeadlineActions<S, C, B>,
    second: DeadlineActions<S, C, B>,
)
    requires
        start.wf() && one.wf() && two.wf() && done.wf() && again.wf(),
        start.barrier is None,
        Transaction::surface_registered(
            start,
            one,
            barriers.0,
            barriers.1,
            new_barriers.0,
            given.0,
        ),
        Transaction::surface_registered(one, two, barriers.1, barriers.2, new_barriers.1, given.1),
        Transaction::deadline_passed(two, done, first),
        Transaction::deadline_passed(done, again, second),
    ensures
        given.0 == new_barriers.0,
        given.1 == given.0,
        barriers.2 == barriers.0.push(given.0),
        first.release == Some(given.0),
        second.release is None,
        second.notify is None,
        done.inner.completed && again.inner.completed,
{
}

/// Whether a commit is held back: exactly while its transaction has instances and is not completed.
pub proof fn law_blockers_hold_commits_back<S, C, B>(
    blocker: TransactionBlocker,
    transaction: Transaction<S, C, B>,
    free: TransactionBlocker,
    state: BlockerState,
    gone: BlockerState,
    own: TransactionBlocker,
)
    requires
        transaction.wf(),
        blocker.transaction == Some(transaction.id),
        call_ensures(TransactionBlocker::state::<S, C, B>, (&blocker, Some(&transaction)), state),
        call_ensures(TransactionBlocker::state::<S, C, B>, (&blocker, None), gone),
        call_ensures(TransactionBlocker::completed, (), free),
        call_ensures(Transaction::<S, C, B>::blocker, (&transaction,), own),
    ensures
        state == BlockerState::Pending <==> !transaction.inner.completed,
        gone == BlockerState::Released,
        free.transaction is None,
        own.transaction == Some(transaction.id),
{
}

/// The deadline timer is set once, for the deadline: registering it again sets no other.
pub proof fn law_deadline_timer_is_set_once<S, C, B>(
    first: &mut Transaction<S, C, B>,
    second: &mut Transaction<S, C, B>,
    set_first: Option<u64>,
    set_second: Option<u64>,
)
    requires
        call_ensures(Transaction::<S, C, B>::register_deadline_timer, (first,), set_first),
        call_ensures(Transaction::<S, C, B>::register_deadline_timer, (second,), set_second),
        *old(second) == *final(first),
    ensures
        old(first).deadline matches Deadline::NotRegistered(deadline) ==> set_first == Some(deadline),
        old(first).deadline is Registered ==> set_first is None,
        set_second is None,
        *final(second) == *final(first),
        final(first).instances == old(first).instances && final(first).inner == old(first).inner
            && final(first).barrier == old(first).barrier,
{
}

/// An instance that is added and gone again makes no difference: the transaction goes on, with
/// nothing to notify about.
pub proof fn law_additional_instances_come_and_go<S, C, B>(
    added: &mut Transaction<S, C, B>,
    dropped: &mut Transaction<S, C, B>,
    actions: DropActions<S, C>,
)
    requires
        old(added).instances > 0,
        call_ensures(Transaction::<S, C, B>::add_instance, (added,), ()),
        call_ensures(Transaction::<S, C, B>::drop_instance, (dropped,), actions),
        *old(dropped) == *final(added),
    ensures
        *final(dropped) == *old(added),
        actions.notify is None && !actions.remove_timer,
        final(added).inner == old(added).inner,
{
}

/// A new transaction holds the commits of its blockers back until its only instance is gone.
pub proof fn law_new_transactions_block_until_they_are_dropped<S, C, B>(
    id: u64,
    now: u64,
    transaction: &mut Transaction<S, C, B>,
    blocker: TransactionBlocker,
    state: BlockerState,
    actions: DropActions<S, C>,
    later: BlockerState,
)
    requires
        call_ensures(Transaction::<S, C, B>::new, (id, now), *old(transaction)),
        call_ensures(Transaction::<S, C, B>::blocker, (&*old(transaction),), blocker),
        call_ensures(
            TransactionBlocker::state::<S, C, B>,
            (&blocker, Some(&*old(transaction))),
            state,
        ),
        call_ensures(Transaction::<S, C, B>::drop_instance, (transaction,), actions),
        call_ensures(
            TransactionBlocker::state::<S, C, B>,
            (&blocker, Some(&*final(transaction))),
            later,
        ),
    ensures
        state == BlockerState::Pending,
        later == BlockerState::Released,
        final(transaction).inner.completed,
        actions.notify is None && !actions.remove_timer,
{
}

/// All surfaces of a transaction are registered into one barrier, which the registry learns of with
/// the first one, and get blockers that wait for the transaction.
pub proof fn law_surfaces_share_the_barrier<S, C, B: Copy>(
    first: &mut Transaction<S, C, B>,
    second: &mut Transaction<S, C, B>,
    barriers: &mut SurfaceBarriers<B>,
    barriers_later: &mut SurfaceBarriers<B>,
    new_barrier: B,
    other_barrier: B,
    registered: (B, TransactionBlocker),
    registered_later: (B, TransactionBlocker),
)
    requires
        call_ensures(
            Transaction::<S, C, B>::register_surface,
            (first, barriers, new_barrier),
            registered,
        ),
        call_ensures(
            Transaction::<S, C, B>::register_surface,
            (second, barriers_later, other_barrier),
            registered_later,
        ),
        *old(second) == *final(first),
        *old(barriers_later) == *final(barriers),
    ensures
        registered_later == registered,
        *final(second) == *final(first),
        *final(barriers_later) == *final(barriers),
        final(first).barrier == Some(registered.0),
        old(first).barrier is None ==> registered.0 == new_barrier && final(barriers).barriers@
            == old(barriers).barriers@ + seq![new_barrier],
        old(first).barrier matches Some(own) ==> registered.0 == own && *final(first) == *old(first)
            && *final(barriers) == *old(barriers),
        registered.1.transaction == Some(old(first).id),
        final(first).inner == old(first).inner && final(first).instances == old(first).instances
            && final(first).deadline == old(first).deadline,
{
    assert(old(barriers).barriers@.push(new_barrier) =~= old(barriers).barriers@ + seq![
        new_barrier,
    ]);
}

/// Past the deadline a transaction is completed: no notification can be added to it any more, and
/// its blockers are released.
pub proof fn law_nothing_waits_past_the_deadline<S, C, B>(
    transaction: &mut Transaction<S, C, B>,
    actions: DeadlineActions<S, C, B>,
    blocker: TransactionBlocker,
    state: BlockerState,
    later: &mut Transaction<S, C, B>,
    sender: S,
    client: C,
    added: bool,
)
    requires
        call_ensures(Transaction::<S, C, B>::deadline_reached, (transaction,), actions),
        call_ensures(
            TransactionBlocker::state::<S, C, B>,
            (&blocker, Some(&*final(transaction))),
            state,
        ),
        *old(later) == *final(transaction),
        call_ensures(
            Transaction::<S, C, B>::add_notification,
            (later, sender, client),
            added,
        ),
    ensures
        state == BlockerState::Released,
        !added && *final(later) == *final(transaction),
        actions.release == old(transaction).barrier && final(transaction).barrier is None,
        actions.notify == old(transaction).inner.notifications,
        final(transaction).instances == old(transaction).instances,
{
}

} // verus!
