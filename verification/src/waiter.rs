//! Waiting for a state of the engine: the waiter that is registered, the
//! future that its owner holds, and the manager that trips the waiters when
//! the engine reports a state.

use vstd::prelude::*;
use vstd::multiset::*;
use vstd::seq_lib::*;
use core::task::Context;
use futures::channel::oneshot;
use std::sync::mpsc;
use crate::channel::{enqueue, try_next};
use crate::resolver::{fire, poll_signal, resolver_pair, Signal};
use crate::state::M64PError;

verus! {

/// A registered interest in one state value: the value waited for and the
/// completion handle to fire when the engine reports it.
pub struct EmulatorWaiter {
    value: i32,
    tx: oneshot::Sender<()>,
}

impl EmulatorWaiter {
    /// The state value that this waiter waits for.
    pub closed spec fn target(&self) -> i32 {
        self.value
    }

    /// Returns the state value that this waiter waits for.
    pub fn value(&self) -> (value: i32)
        ensures
            value == self.target(),
    {
        self.value
    }
}

/// The observing side of a waiter, with the failure that was known before
/// any waiting began, if there was one.
pub struct EmulatorFuture {
    early_fail: Option<M64PError>,
    rx: oneshot::Receiver<()>,
    awaits: Ghost<i32>,
}

/// The queue of registrations has lost its receiving end: there is no
/// manager left to trip a waiter.
#[derive(Clone, Copy, Debug, PartialEq, Eq, Structural)]
pub struct QueueClosed;

/// What a future without early failure yields for what its receiver has
/// seen: it stays pending until the receiver has seen anything, and then
/// completes without error, whether the handle was fired or went away.
pub open spec fn settled(seen: Option<Signal>) -> Option<Result<(), M64PError>> {
    match seen {
        None => None,
        Some(_) => Some(Ok(())),
    }
}

/// What one poll of a future yields: its early failure if it has one,
/// whatever its receiver has seen; else [`settled`] of what the receiver has
/// seen.
pub open spec fn polled(early_failure: Option<M64PError>, seen: Option<Signal>) -> Option<
    Result<(), M64PError>,
> {
    match early_failure {
        Some(error) => Some(Err(error)),
        None => settled(seen),
    }
}

/// Computes [`settled`].
pub fn settle(seen: Option<Signal>) -> (outcome: Option<Result<(), M64PError>>)
    ensures
        outcome == settled(seen),
{
    match seen {
        None => None,
        Some(_) => Some(Ok(())),
    }
}

impl EmulatorFuture {
    /// The failure that this future yields without waiting, if it has one.
    pub closed spec fn early_failure(&self) -> Option<M64PError> {
        self.early_fail
    }

    /// The receiver that this future observes.
    pub closed spec fn receiver(&self) -> oneshot::Receiver<()> {
        self.rx
    }

    /// The state value whose report this future waits for.
    pub closed spec fn awaited(&self) -> i32 {
        self.awaits@
    }

    /// Marks the future as failed: from now on it yields `error` at once.
    pub fn fail_early(&mut self, error: M64PError)
        ensures
            final(self).early_failure() == Some(error),
            final(self).receiver() == old(self).receiver(),
            final(self).awaited() == old(self).awaited(),
    {
        self.early_fail = Some(error);
    }

    /// Settles the future by the outcome of issuing the command that it
    /// waits for: a command that could not be issued fails the future early,
    /// one that was issued leaves it as it is.
    pub fn conclude(&mut self, issued: Result<(), M64PError>)
        ensures
            final(self).early_failure() == match issued {
                Ok(_) => old(self).early_failure(),
                Err(error) => Some(error),
            },
            final(self).receiver() == old(self).receiver(),
            final(self).awaited() == old(self).awaited(),
    {
        if let Err(error) = issued {
            self.fail_early(error);
        }
    }

    /// Polls the future once: `None` while it is pending, else its output.
    ///
    /// With an early failure the receiver is left alone. Without one it is
    /// polled, and `seen` stands for what it has seen.
    pub fn poll(&mut self, cx: &mut Context<'_>) -> (outcome: Option<Result<(), M64PError>>)
        ensures
            final(self).early_failure() == old(self).early_failure(),
            final(self).awaited() == old(self).awaited(),
            old(self).early_failure() is Some ==> final(self).receiver() == old(self).receiver(),
            exists|seen: Option<Signal>|
                outcome == #[trigger] polled(old(self).early_failure(), seen),
    {
        match self.early_fail {
            Some(error) => {
                assert(polled(self.early_fail, None) == Some(Err::<(), M64PError>(error)));
                Some(Err(error))
            },
            None => {
                let seen = poll_signal(&mut self.rx, cx);
                assert(polled(None, seen) == settled(seen));
                settle(seen)
            },
        }
    }
}

/// Makes a waiter for `value` and the future that observes it.
pub fn emu_pair(value: i32) -> (pair: (EmulatorFuture, EmulatorWaiter))
    ensures
        pair.0.early_failure() is None,
        pair.0.awaited() == value,
        pair.1.target() == value,
{
    let (tx, rx) = resolver_pair();
    (EmulatorFuture { early_fail: None, rx, awaits: Ghost(value) }, EmulatorWaiter { value, tx })
}

/// What registering comes to once the queue has answered: the future where
/// the queue took the waiter, `QueueClosed` where it did not.
pub open spec fn registration(future: EmulatorFuture, queued: bool) -> Result<
    EmulatorFuture,
    QueueClosed,
> {
    if queued {
        Ok(future)
    } else {
        Err(QueueClosed)
    }
}

/// Computes [`registration`] from the answer of the queue to which the
/// waiter of `future` was handed.
pub fn settle_registration(
    future: EmulatorFuture,
    sent: Result<(), mpsc::SendError<EmulatorWaiter>>,
) -> (registered: Result<EmulatorFuture, QueueClosed>)
    ensures
        registered == registration(future, sent is Ok),
{
    match sent {
        Ok(_) => Ok(future),
        Err(_) => Err(QueueClosed),
    }
}

/// Registers interest in the state `value`: puts a waiter into `queue`, for
/// the manager to take at the next report, and returns the future that
/// observes it. It never blocks. Whether the queue still has its manager is
/// not the caller's to know: where it has none, the answer is `QueueClosed`
/// and no waiter is left behind.
pub fn register(queue: &mpsc::Sender<EmulatorWaiter>, value: i32) -> (registered: Result<
    EmulatorFuture,
    QueueClosed,
>)
    ensures
        registered matches Ok(future) ==> {
            &&& future.early_failure() is None
            &&& future.awaited() == value
        },
{
    let (future, waiter) = emu_pair(value);
    let sent = enqueue(queue, waiter);
    settle_registration(future, sent)
}

/// The waiters that are still registered once the engine has reported
/// `value`: those that wait for another value.
pub open spec fn left_waiting(registered: Multiset<EmulatorWaiter>, value: i32) -> Multiset<
    EmulatorWaiter,
> {
    registered.filter(|w: EmulatorWaiter| w.target() != value)
}

/// The waiters that are tripped when the engine reports `value`: those that
/// wait for it.
pub open spec fn tripped_by(registered: Multiset<EmulatorWaiter>, value: i32) -> Multiset<
    EmulatorWaiter,
> {
    registered.filter(|w: EmulatorWaiter| w.target() == value)
}

/// Every registered waiter is either tripped by a report or left waiting.
pub proof fn lemma_report_partitions(registered: Multiset<EmulatorWaiter>, value: i32)
    ensures
        left_waiting(registered, value).add(tripped_by(registered, value)) == registered,
        left_waiting(registered, value).len() + tripped_by(registered, value).len()
            == registered.len(),
{
    broadcast use group_multiset_axioms;

    assert(left_waiting(registered, value).add(tripped_by(registered, value)) =~= registered);
}

/// Removing position `i` by moving the last element into it removes one
/// occurrence of the element at `i` and nothing else.
proof fn lemma_swap_remove_to_multiset<A>(s: Seq<A>, i: int)
    requires
        0 <= i < s.len(),
    ensures
        s.update(i, s.last()).drop_last().to_multiset() == s.to_multiset().remove(s[i]),
{
    broadcast use {group_multiset_axioms, group_to_multiset_ensures};

    let moved = s.update(i, s.last());
    assert(moved.drop_last() =~= moved.remove(s.len() - 1));
    assert(moved[s.len() - 1] == s.last());
    assert(s.contains(s[i]));
    assert(moved.to_multiset() == s.to_multiset().insert(s.last()).remove(s[i]));
    assert(moved.remove(s.len() - 1).to_multiset() == moved.to_multiset().remove(s.last()));
    assert(s.to_multiset().insert(s.last()).remove(s[i]).remove(s.last())
        =~= s.to_multiset().remove(s[i]));
}

/// Where no waiter waits for `value`, a report of it leaves all waiting.
proof fn lemma_none_waiting(s: Seq<EmulatorWaiter>, value: i32)
    requires
        forall|j: int| 0 <= j < s.len() ==> s[j].target() != value,
    ensures
        left_waiting(s.to_multiset(), value) == s.to_multiset(),
{
    broadcast use {group_multiset_axioms, group_to_multiset_ensures};

    assert forall|w: EmulatorWaiter|
        left_waiting(s.to_multiset(), value).count(w) == s.to_multiset().count(w) by {
        if w.target() == value && s.to_multiset().count(w) > 0 {
            assert(s.contains(w));
        }
    }
    assert(left_waiting(s.to_multiset(), value) =~= s.to_multiset());
}

/// Trips the waiters when the engine reports a state: it takes the waiters
/// that were registered through the queue and fires those that wait for
/// the reported value.
pub struct EmulatorWaitManager {
    rx: mpsc::Receiver<EmulatorWaiter>,
    waiters: Vec<EmulatorWaiter>,
}

impl View for EmulatorWaitManager {
    type V = Multiset<EmulatorWaiter>;

    /// The waiters that were taken from the queue and not tripped yet. Their
    /// order is no part of it.
    closed spec fn view(&self) -> Multiset<EmulatorWaiter> {
        self.waiters@.to_multiset()
    }
}

impl EmulatorWaitManager {
    /// The queue through which waiters are registered.
    pub closed spec fn queue(&self) -> mpsc::Receiver<EmulatorWaiter> {
        self.rx
    }

    /// A manager that holds no waiter yet and takes them from `rx`.
    pub fn new(rx: mpsc::Receiver<EmulatorWaiter>) -> (manager: Self)
        ensures
            manager@ == Multiset::<EmulatorWaiter>::empty(),
            manager.queue() == rx,
    {
        let manager = Self { rx, waiters: Vec::new() };
        proof {
            broadcast use group_to_multiset_ensures;

            assert(manager.waiters@.to_multiset().len() == 0);
            assert(manager.waiters@.to_multiset() =~= Multiset::<EmulatorWaiter>::empty());
        }
        manager
    }

    /// Returns how many waiters are held.
    pub fn len(&self) -> (n: usize)
        ensures
            n == self@.len(),
    {
        proof {
            broadcast use group_to_multiset_ensures;

        }
        self.waiters.len()
    }

    /// Takes from the queue, without blocking, the waiters that have been
    /// registered, until the queue gives no more or the list is full, and
    /// returns how many there were. The waiters held before stay; `arrived`
    /// stands for those that came.
    pub fn drain(&mut self) -> (taken: usize)
        ensures
            final(self).queue() == old(self).queue(),
            exists|arrived: Multiset<EmulatorWaiter>|
                final(self)@ == #[trigger] old(self)@.add(arrived) && arrived.len() == taken,
    {
        let ghost before = self.waiters@;
        let ghost mut arrived = Multiset::<EmulatorWaiter>::empty();
        let mut taken: usize = 0;
        proof {
            broadcast use group_multiset_axioms;

            assert(before.to_multiset().add(arrived) =~= before.to_multiset());
        }
        while self.waiters.len() < usize::MAX
            invariant
                self.rx == old(self).rx,
                self.waiters@.to_multiset() == before.to_multiset().add(arrived),
                arrived.len() == taken,
                taken <= self.waiters.len(),
            decreases usize::MAX - self.waiters.len(),
        {
            match try_next(&self.rx) {
                Ok(next) => {
                    proof {
                        broadcast use {group_multiset_axioms, group_to_multiset_ensures};

                        assert(before.to_multiset().add(arrived.insert(next))
                            =~= before.to_multiset().add(arrived).insert(next));
                        arrived = arrived.insert(next);
                    }
                    self.waiters.push(next);
                    taken += 1;
                },
                Err(_) => {
                    break ;
                },
            }
        }
        assert(self@ == old(self)@.add(arrived));
        taken
    }

    /// Fires the held waiters that wait for `value` and lets go of them, and
    /// returns how many there were. The others stay.
    pub fn trip(&mut self, value: i32) -> (tripped: usize)
        ensures
            final(self).queue() == old(self).queue(),
            final(self)@ == left_waiting(old(self)@, value),
            tripped == tripped_by(old(self)@, value).len(),
    {
        let ghost before = self.waiters@;
        let mut tripped: usize = 0;
        let mut i: usize = 0;
        assert(before.len() == self.waiters.len());
        while i < self.waiters.len()
            invariant
                self.rx == old(self).rx,
                before.len() <= usize::MAX,
                i <= self.waiters.len(),
                forall|j: int| 0 <= j < i ==> self.waiters@[j].target() != value,
                left_waiting(self.waiters@.to_multiset(), value) == left_waiting(
                    before.to_multiset(),
                    value,
                ),
                tripped + self.waiters.len() == before.len(),
            decreases self.waiters.len() - i,
        {
            if self.waiters[i].value == value {
                proof {
                    broadcast use group_multiset_axioms;

                    lemma_swap_remove_to_multiset(self.waiters@, i as int);
                    assert(left_waiting(self.waiters@.to_multiset().remove(self.waiters@[i as int]), value)
                        =~= left_waiting(self.waiters@.to_multiset(), value));
                }
                let waiter = self.waiters.swap_remove(i);
                let _ = fire(waiter.tx);
                tripped += 1;
            } else {
                i += 1;
            }
        }
        proof {
            broadcast use group_to_multiset_ensures;

            lemma_none_waiting(self.waiters@, value);
            lemma_report_partitions(before.to_multiset(), value);
        }
        tripped
    }

    /// To be called when the engine reports the state `value`: takes the
    /// waiters registered since the last report, then fires every held
    /// waiter that waits for `value` and lets go of it. Returns how many
    /// were fired. `arrived` stands for the waiters that the queue gave.
    pub fn on_emu_state_changed(&mut self, value: i32) -> (tripped: usize)
        ensures
            final(self).queue() == old(self).queue(),
            exists|arrived: Multiset<EmulatorWaiter>|
                {
                    &&& final(self)@ == left_waiting(#[trigger] old(self)@.add(arrived), value)
                    &&& tripped == tripped_by(old(self)@.add(arrived), value).len()
                },
    {
        self.drain();
        self.trip(value)
    }
}

/// The waiters that are still registered once the engine has reported the
/// values of `reports` one after the other.
pub open spec fn after_reports(registered: Multiset<EmulatorWaiter>, reports: Seq<i32>) -> Multiset<
    EmulatorWaiter,
>
    decreases reports.len(),
{
    if reports.len() == 0 {
        registered
    } else {
        left_waiting(after_reports(registered, reports.drop_last()), reports.last())
    }
}

/// The waiters that are tripped while the engine reports the values of
/// `reports` one after the other, each as often as it is tripped.
pub open spec fn tripped_during(registered: Multiset<EmulatorWaiter>, reports: Seq<i32>) -> Multiset<
    EmulatorWaiter,
>
    decreases reports.len(),
{
    if reports.len() == 0 {
        Multiset::empty()
    } else {
        tripped_during(registered, reports.drop_last()).add(
            tripped_by(after_reports(registered, reports.drop_last()), reports.last()),
        )
    }
}

/// A report of the value that a waiter waits for trips every registration
/// of it and leaves none; a report of another value trips none and leaves
/// every one.
pub proof fn law_report_trips_its_waiters(
    registered: Multiset<EmulatorWaiter>,
    waiter: EmulatorWaiter,
    value: i32,
)
    ensures
        waiter.target() == value ==> {
            &&& tripped_by(registered, value).count(waiter) == registered.count(waiter)
            &&& left_waiting(registered, value).count(waiter) == 0
        },
        waiter.target() != value ==> {
            &&& tripped_by(registered, value).count(waiter) == 0
            &&& left_waiting(registered, value).count(waiter) == registered.count(waiter)
        },
{
    broadcast use group_multiset_axioms;

}

/// A waiter stays registered through any run of reports of other values.
pub proof fn law_waits_through_other_reports(
    registered: Multiset<EmulatorWaiter>,
    reports: Seq<i32>,
    waiter: EmulatorWaiter,
)
    requires
        forall|i: int| 0 <= i < reports.len() ==> reports[i] != waiter.target(),
    ensures
        after_reports(registered, reports).count(waiter) == registered.count(waiter),
        tripped_during(registered, reports).count(waiter) == 0,
    decreases reports.len(),
{
    broadcast use group_multiset_axioms;

    if reports.len() > 0 {
        law_waits_through_other_reports(registered, reports.drop_last(), waiter);
    }
}

/// Over any run of reports every registration is tripped at most once:
/// what was tripped and what still waits make up what was registered.
pub proof fn law_tripped_at_most_once(registered: Multiset<EmulatorWaiter>, reports: Seq<i32>)
    ensures
        tripped_during(registered, reports).add(after_reports(registered, reports))
            == registered,
    decreases reports.len(),
{
    broadcast use group_multiset_axioms;

    if reports.len() == 0 {
        assert(tripped_during(registered, reports).add(after_reports(registered, reports))
            =~= registered);
    } else {
        let earlier = reports.drop_last();
        law_tripped_at_most_once(registered, earlier);
        lemma_report_partitions(after_reports(registered, earlier), reports.last());
        assert(tripped_during(registered, reports).add(after_reports(registered, reports))
            =~= tripped_during(registered, earlier).add(after_reports(registered, earlier)));
    }
}

/// Once the value that a waiter waits for has been reported, the waiter is
/// registered no more, and every registration of it has been tripped
/// exactly once, whatever else was reported before and after.
pub proof fn law_tripped_exactly_once(
    registered: Multiset<EmulatorWaiter>,
    reports: Seq<i32>,
    waiter: EmulatorWaiter,
)
    requires
        reports.contains(waiter.target()),
    ensures
        after_reports(registered, reports).count(waiter) == 0,
        tripped_during(registered, reports).count(waiter) == registered.count(waiter),
    decreases reports.len(),
{
    broadcast use group_multiset_axioms;

    let earlier = reports.drop_last();
    if reports.last() != waiter.target() {
        let i = choose|i: int| 0 <= i < reports.len() && reports[i] == waiter.target();
        assert(earlier[i] == waiter.target());
        law_tripped_exactly_once(registered, earlier, waiter);
    }
    law_tripped_at_most_once(registered, reports);
    assert(tripped_during(registered, reports).add(after_reports(registered, reports)).count(
        waiter,
    ) == registered.count(waiter));
}

/// A future with an early failure yields that failure at once, whatever
/// its receiver has seen; one without stays pending while the receiver has
/// seen nothing and completes without error once the handle has been fired
/// or has gone away.
pub proof fn law_early_failure_wins(error: M64PError, seen: Option<Signal>)
    ensures
        polled(Some(error), seen) == Some(Err::<(), M64PError>(error)),
        polled(None, None) is None,
        seen is Some ==> polled(None, seen) == Some(Ok::<(), M64PError>(())),
{
}

} // verus!
