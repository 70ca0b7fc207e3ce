//! The list through which parked tasks are woken.
//!
//! A task that cannot proceed leaves a waiter and suspends; whoever changes the
//! channel's state signals, which wakes every waiter left since the last signal.
//! A task that polls again before it is woken leaves a waiter that wakes the
//! same task as one already stored, and such a waiter is not stored twice.
//!
//! [`Waiters`] is the list itself, for one owner at a time, and what this
//! module proves is proved of it. [`Waitlist`] shares one such list among
//! threads: the list sits behind a spin lock, and an atomic flag lets a signal
//! skip the lock while nobody waits. Of a list that other threads may change at
//! any moment no contract can say what it holds; the shared operations are the
//! steps of `Waiters`, taken while the lock is held.

use vstd::prelude::*;
use core::sync::atomic::{AtomicBool, Ordering};
use core::task::Waker;
use crossbeam_utils::CachePadded;
use crate::cells::{flag, initial_flag};
use crate::spin::SpinLock;

verus! {

/// The capability to resume a suspended task.
///
/// Implementations outside verified code answer for the contract of
/// `will_wake` themselves: what it reports of two waiters must depend on the
/// two waiters alone, and `wakes_same` stands for that report. There
/// `wakes_same` is a method like the other two, which nothing ever calls.
pub trait Wake {
    /// Whether waking `other` would resume the very task that waking `self`
    /// resumes, as far as `self` can tell.
    spec fn wakes_same(&self, other: &Self) -> bool;

    /// Resumes the task. The waiter is used up.
    fn wake(self);

    /// Reports whether waking `other` would have the effect of waking `self`.
    fn will_wake(&self, other: &Self) -> (same: bool)
        ensures
            same == self.wakes_same(other),
    ;
}

/// `core::task::Waker`, the waiter of asynchronous tasks. Opaque here.
#[verifier::external_type_specification]
#[verifier::external_body]
pub struct ExWaker(Waker);

/// What `Waker::will_wake` reports of `waker` and `other`. It reports `true`
/// only of two wakers that wake the same task, and may report `false` of two
/// that do.
pub uninterp spec fn waker_will_wake(waker: Waker, other: Waker) -> bool;

/// `Waker::wake`: hands control to the task's executor, whose code decides what
/// happens next. Nothing is claimed.
#[verifier::external_body]
fn wake_task(waker: Waker) {
    waker.wake()
}

/// `Waker::will_wake`: the report is the one named `waker_will_wake`.
#[verifier::external_body]
fn same_task(waker: &Waker, other: &Waker) -> (same: bool)
    ensures
        same == waker_will_wake(*waker, *other),
{
    waker.will_wake(other)
}

impl Wake for Waker {
    open spec fn wakes_same(&self, other: &Self) -> bool {
        waker_will_wake(*self, *other)
    }

    fn wake(self) {
        wake_task(self)
    }

    fn will_wake(&self, other: &Self) -> (same: bool) {
        same_task(self, other)
    }
}

/// Whether some waiter of `list` reports that it wakes what `waker` wakes, so
/// that storing `waker` as well would add nothing.
pub open spec fn is_redundant<W: Wake>(list: Seq<W>, waker: W) -> bool {
    exists|i: int| 0 <= i < list.len() && (#[trigger] list[i]).wakes_same(&waker)
}

/// The list after `waker` has registered with `list`: unchanged if `waker` is
/// redundant, else with `waker` at its end.
pub open spec fn registered<W: Wake>(list: Seq<W>, waker: W) -> Seq<W> {
    if is_redundant(list, waker) {
        list
    } else {
        list.push(waker)
    }
}

/// The list after the waiters of `wakers` have registered with `list`, first
/// to last.
pub open spec fn registered_all<W: Wake>(list: Seq<W>, wakers: Seq<W>) -> Seq<W>
    decreases wakers.len(),
{
    if wakers.len() == 0 {
        list
    } else {
        registered(registered_all(list, wakers.drop_last()), wakers.last())
    }
}

/// No waiter of `list` reports that it wakes what a later one wakes.
pub open spec fn coalesced<W: Wake>(list: Seq<W>) -> bool {
    forall|i: int, j: int|
        0 <= i < j < list.len() ==> !(#[trigger] list[i]).wakes_same(#[trigger] &list[j])
}

/// All the waiters woken by a number of signals in a row, the first of which
/// finds `list`: a signal wakes the whole list and leaves it empty.
pub open spec fn woken_by_signals<W: Wake>(list: Seq<W>, signals: nat) -> Seq<W>
    decreases signals,
{
    if signals == 0 {
        Seq::empty()
    } else {
        list + woken_by_signals(Seq::<W>::empty(), (signals - 1) as nat)
    }
}

/// The waiters left since the last signal, in the order in which they came.
///
/// The list is coalesced at all times: see [`coalesced`].
pub struct Waiters<W: Wake> {
    items: Vec<W>,
}

impl<W: Wake> View for Waiters<W> {
    type V = Seq<W>;

    closed spec fn view(&self) -> Seq<W> {
        self.items@
    }
}

impl<W: Wake> Waiters<W> {
    #[verifier::type_invariant]
    spec fn well_formed(&self) -> bool {
        coalesced(self.items@)
    }

    /// The empty list.
    pub fn new() -> (list: Self)
        ensures
            list@ == Seq::<W>::empty(),
    {
        Waiters { items: Vec::new() }
    }

    /// The number of waiters stored.
    pub fn len(&self) -> (len: usize)
        ensures
            len == self@.len(),
    {
        self.items.len()
    }

    /// Asks the stored waiters, first to last, whether one of them wakes what
    /// `waker` wakes, and stops at the first that says so.
    pub fn contains(&self, waker: &W) -> (known: bool)
        ensures
            known == is_redundant(self@, *waker),
    {
        let mut i: usize = 0;
        while i < self.items.len()
            invariant
                i <= self.items.len(),
                forall|j: int| 0 <= j < i ==> !(#[trigger] self.items@[j]).wakes_same(waker),
            decreases self.items.len() - i,
        {
            if self.items[i].will_wake(waker) {
                return true;
            }
            i += 1;
        }
        false
    }

    /// Stores `waker` at the end of the list unless it is redundant, in which
    /// case it is dropped. Tells whether it was stored.
    pub fn register(&mut self, waker: W) -> (added: bool)
        ensures
            added == !is_redundant(old(self)@, waker),
            final(self)@ == registered(old(self)@, waker),
    {
        if self.contains(&waker) {
            return false;
        }
        proof {
            use_type_invariant(&*self);
        }
        // The list grows outside `self` and is put back whole.
        let mut items: Vec<W> = Vec::new();
        core::mem::swap(&mut self.items, &mut items);
        items.push(waker);
        self.items = items;
        true
    }

    /// Takes every waiter out, in order, and leaves the list empty.
    pub fn drain(&mut self) -> (taken: Vec<W>)
        ensures
            taken@ == old(self)@,
            coalesced(taken@),
            final(self)@ == Seq::<W>::empty(),
    {
        proof {
            use_type_invariant(&*self);
        }
        let mut taken: Vec<W> = Vec::new();
        core::mem::swap(&mut self.items, &mut taken);
        taken
    }
}

/// A list of waiters shared among threads.
///
/// `empty` is true while nobody may be waiting. It is cleared after a waiter
/// was stored and the lock released, and set by the signal that is about to
/// empty the list, so a registration that has returned before a signal begins
/// is served by that signal. One that runs beside a signal may have to wait
/// for the next: a task that parks must look at the channel once more after it
/// has registered.
#[verifier::reject_recursive_types(W)]
pub struct Waitlist<W: Wake> {
    empty: AtomicBool,
    wakers: CachePadded<SpinLock<Waiters<W>>>,
}

impl<W: Wake> Waitlist<W> {
    /// The flag was created set: the list starts in the state in which nobody
    /// waits.
    pub closed spec fn starts_empty(&self) -> bool {
        initial_flag(self.empty)
    }

    /// A list on which nobody waits.
    pub fn new() -> (list: Self)
        ensures
            list.starts_empty(),
    {
        Waitlist { empty: flag(true), wakers: CachePadded::new(SpinLock::new(Waiters::new())) }
    }

    /// Whether the flag says that nobody may be waiting.
    pub fn is_empty(&self) -> bool {
        self.empty.load(Ordering::Relaxed)
    }

    /// The number of waiters stored at the moment the lock was held.
    pub fn len(&self) -> usize {
        let mut guard = self.wakers.lock();
        let len = guard.value().len();
        guard.unlock();
        len
    }

    /// Registers `waker` under the lock, as [`Waiters::register`] does. If it
    /// was stored, the flag is cleared once the lock is released. The stored
    /// waiters are asked `will_wake` while the lock is held: an implementation
    /// of it must not come back to this list.
    pub fn wait(&self, waker: W) {
        let mut guard = self.wakers.lock();
        let added = guard.value().register(waker);
        guard.unlock();
        if added {
            self.empty.store(false, Ordering::Release);
        }
    }

    /// Signals. Sets the flag; if it was clear, takes all waiters out under the
    /// lock, as [`Waiters::drain`] does, releases the lock and only then wakes
    /// them, first to last, so that a woken task may register again at once.
    pub fn wake(&self) {
        if !self.empty.swap(true, Ordering::Acquire) {
            let mut guard = self.wakers.lock();
            let taken = guard.value().drain();
            guard.unlock();
            for waker in taken {
                waker.wake();
            }
        }
    }
}

impl<W: Wake> Default for Waitlist<W> {
    fn default() -> (list: Self)
        ensures
            list.starts_empty(),
    {
        Waitlist::new()
    }
}

/// Redundant registrations coalesce: if every waiter of a sequence reports
/// that it wakes what each later one wakes, then registering the sequence with
/// the empty list stores the first waiter and nothing else, however long the
/// sequence.
pub proof fn lemma_redundant_registrations_coalesce<W: Wake>(wakers: Seq<W>)
    requires
        wakers.len() >= 1,
        forall|i: int, j: int|
            0 <= i < j < wakers.len() ==> (#[trigger] wakers[i]).wakes_same(#[trigger] &wakers[j]),
    ensures
        registered_all(Seq::<W>::empty(), wakers) == seq![wakers[0]],
    decreases wakers.len(),
{
    let earlier = wakers.drop_last();
    let first = seq![wakers[0]];
    if wakers.len() == 1 {
        assert(registered_all(Seq::<W>::empty(), earlier) == Seq::<W>::empty());
        assert(Seq::<W>::empty().push(wakers.last()) == first);
    } else {
        lemma_redundant_registrations_coalesce(earlier);
        assert(seq![earlier[0]] == first);
        assert(first[0].wakes_same(&wakers[wakers.len() - 1]));
    }
}

/// Distinct registrations accumulate: if no waiter of a sequence reports that
/// it wakes what a later one wakes, then registering the sequence with the
/// empty list stores all of it, in order.
pub proof fn lemma_distinct_registrations_accumulate<W: Wake>(wakers: Seq<W>)
    requires
        coalesced(wakers),
    ensures
        registered_all(Seq::<W>::empty(), wakers) == wakers,
    decreases wakers.len(),
{
    if wakers.len() > 0 {
        let earlier = wakers.drop_last();
        lemma_distinct_registrations_accumulate(earlier);
        assert forall|i: int| 0 <= i < earlier.len() implies !(#[trigger] earlier[i]).wakes_same(
            &wakers.last(),
        ) by {
            assert(!wakers[i].wakes_same(&wakers[wakers.len() - 1]));
        }
        assert(earlier.push(wakers.last()) == wakers);
    }
}

/// Registration keeps a list coalesced.
pub proof fn lemma_registered_is_coalesced<W: Wake>(list: Seq<W>, waker: W)
    requires
        coalesced(list),
    ensures
        coalesced(registered(list, waker)),
{
}

/// Whatever registers, and in whatever order, a list that was coalesced stays
/// so: no task has two waiters stored that the earlier one knows to be the same.
pub proof fn lemma_registered_all_is_coalesced<W: Wake>(list: Seq<W>, wakers: Seq<W>)
    requires
        coalesced(list),
    ensures
        coalesced(registered_all(list, wakers)),
    decreases wakers.len(),
{
    if wakers.len() > 0 {
        lemma_registered_all_is_coalesced(list, wakers.drop_last());
        lemma_registered_is_coalesced(registered_all(list, wakers.drop_last()), wakers.last());
    }
}

/// One signal or many, every waiter is woken once: the signals that follow the
/// first find nothing left to wake.
pub proof fn lemma_signals_wake_each_once<W: Wake>(list: Seq<W>, signals: nat)
    requires
        signals >= 1,
    ensures
        woken_by_signals(list, signals) == list,
    decreases signals,
{
    let rest = (signals - 1) as nat;
    assert(woken_by_signals(Seq::<W>::empty(), rest) == Seq::<W>::empty()) by {
        if rest >= 1 {
            lemma_signals_wake_each_once(Seq::<W>::empty(), rest);
        }
    }
    assert(list + Seq::<W>::empty() == list);
}

} // verus!
