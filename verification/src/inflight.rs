//! How many compiler processes are running: the daemon's own, and those of a
//! host that embeds it.

use crate::priority::{CompilePriority, CompilePriorityDecision};
use crate::priority;
use std::sync::atomic::{AtomicUsize, Ordering};
use std::sync::Arc;
use vstd::prelude::*;

verus! {

/// The number of compiler processes that have been started and not yet reaped.
#[derive(Debug)]
pub struct InFlightCompiles {
    count: usize,
}

/// A claim on one running process, with the number that ran before it.
#[derive(Debug)]
#[must_use]
pub struct InFlightCompileTicket {
    in_flight_before: usize,
}

impl View for InFlightCompiles {
    type V = nat;

    closed spec fn view(&self) -> nat {
        self.count as nat
    }
}

impl View for InFlightCompileTicket {
    type V = nat;

    closed spec fn view(&self) -> nat {
        self.in_flight_before as nat
    }
}

impl InFlightCompiles {
    /// No process is running.
    pub fn new() -> (c: Self)
        ensures
            c@ == 0,
    {
        InFlightCompiles { count: 0 }
    }

    /// The number of running processes.
    pub fn current_in_flight_compiles(&self) -> (n: usize)
        ensures
            n == self@,
    {
        self.count
    }

    /// Counts one more process; the ticket holds the number before it.
    pub fn acquire(&mut self) -> (t: InFlightCompileTicket)
        requires
            old(self)@ < usize::MAX,
        ensures
            t@ == old(self)@,
            final(self)@ == old(self)@ + 1,
    {
        let before: usize = self.count;
        self.count = before + 1;
        InFlightCompileTicket { in_flight_before: before }
    }

    /// Gives a ticket back: one process less.
    pub fn release(&mut self, ticket: InFlightCompileTicket)
        requires
            old(self)@ > 0,
        ensures
            final(self)@ == old(self)@ - 1,
    {
        let _spent = ticket;
        self.count = self.count - 1;
    }
}

impl InFlightCompileTicket {
    /// The number of processes that ran before this one.
    pub fn in_flight_before(&self) -> (n: usize)
        ensures
            n == self@,
    {
        self.in_flight_before
    }
}

/// The counter of a host, in a slot that holds one at a time.
#[verifier::external_body]
#[derive(Debug)]
pub struct HostInFlightSlot {
    inner: arc_swap::ArcSwap<Option<Arc<AtomicUsize>>>,
}

/// The counter that a slot holds.
pub uninterp spec fn slot_counter(slot: HostInFlightSlot) -> Option<Arc<AtomicUsize>>;

/// `ArcSwap::from_pointee`: a slot that holds no counter.
#[verifier::external_body]
fn empty_slot() -> (slot: HostInFlightSlot)
    ensures
        slot_counter(slot) is None,
{
    HostInFlightSlot { inner: arc_swap::ArcSwap::from_pointee(None) }
}

/// `ArcSwap::swap`: afterwards the slot holds the given counter; what it held
/// before is returned.
#[verifier::external_body]
fn swap_counter(slot: &mut HostInFlightSlot, counter: Option<Arc<AtomicUsize>>) -> (before: Option<
    Arc<AtomicUsize>,
>)
    ensures
        slot_counter(*final(slot)) == counter,
        before == slot_counter(*old(slot)),
{
    (*slot.inner.swap(Arc::new(counter))).clone()
}

/// `ArcSwap::load_full`: the counter that the slot holds.
#[verifier::external_body]
fn load_counter(slot: &HostInFlightSlot) -> (counter: Option<Arc<AtomicUsize>>)
    ensures
        counter == slot_counter(*slot),
{
    (*slot.inner.load_full()).clone()
}

/// Whether a number is what a reading of a counter gave, as `AtomicUsize::load`
/// reads it. Others who hold the counter change it at any moment, so that two
/// readings may differ.
pub open spec fn may_show(counter: Arc<AtomicUsize>, n: usize) -> bool {
    call_ensures(AtomicUsize::load, (&*counter, Ordering::Acquire), n)
}

impl HostInFlightSlot {
    /// A slot without a counter.
    pub fn new() -> (slot: Self)
        ensures
            slot_counter(slot) is None,
    {
        empty_slot()
    }

    /// Puts the counter of a host into the slot, in place of any other; says
    /// whether there was another.
    pub fn register_host_in_flight_counter(&mut self, counter: Arc<AtomicUsize>) -> (replaced: bool)
        ensures
            slot_counter(*final(self)) == Some(counter),
            replaced == slot_counter(*old(self)) is Some,
    {
        swap_counter(self, Some(counter)).is_some()
    }

    /// Takes the counter out of the slot.
    pub fn clear(&mut self)
        ensures
            slot_counter(*final(self)) is None,
    {
        let _before = swap_counter(self, None);
    }

    /// The number of processes of the host: what its counter shows at this
    /// moment, and zero without a counter.
    pub fn current_host_in_flight(&self) -> (n: usize)
        ensures
            match slot_counter(*self) {
                Some(counter) => may_show(counter, n),
                None => n == 0,
            },
    {
        match load_counter(self) {
            Some(counter) => counter.load(Ordering::Acquire),
            None => 0,
        }
    }
}

/// The number of processes on the machine, as far as it can be counted.
pub open spec fn total_in_flight(own: nat, host: nat) -> nat {
    if own + host > usize::MAX {
        usize::MAX as nat
    } else {
        own + host
    }
}

/// The sum of the daemon's and the host's processes.
pub fn combined_in_flight(own: usize, host: usize) -> (n: usize)
    ensures
        n == total_in_flight(own as nat, host as nat),
{
    own.saturating_add(host)
}

/// Claims a process and decides its priority by the number of processes that
/// ran before it. The processor load counts for the automatic priority only.
pub fn resolve_and_track(
    priority: CompilePriority,
    compiles: &mut InFlightCompiles,
    host_in_flight: usize,
    cpu_usage_millipercent: Option<u32>,
    is_ci: bool,
) -> (r: (CompilePriorityDecision, InFlightCompileTicket))
    requires
        old(compiles)@ < usize::MAX,
    ensures
        final(compiles)@ == old(compiles)@ + 1,
        r.1@ == old(compiles)@,
        r.0.requested == priority,
        r.0.cpu_usage_millipercent == if priority == CompilePriority::Auto {
            cpu_usage_millipercent
        } else {
            None
        },
        r.0.effective == if priority == CompilePriority::Auto {
            priority::auto_priority(
                cpu_usage_millipercent,
                is_ci,
                total_in_flight(old(compiles)@, host_in_flight as nat) as usize,
            )
        } else {
            priority
        },
{
    let ticket = compiles.acquire();
    let sample = if priority == CompilePriority::Auto {
        cpu_usage_millipercent
    } else {
        None
    };
    let before: usize = combined_in_flight(ticket.in_flight_before(), host_in_flight);
    (priority.resolve_with_cpu_usage_and_ci(sample, is_ci, before), ticket)
}

/// Decides a priority by the processes that run now, without claiming one.
pub fn resolve_for_current_load(
    priority: CompilePriority,
    compiles: &InFlightCompiles,
    host_in_flight: usize,
    cpu_usage_millipercent: Option<u32>,
    is_ci: bool,
) -> (d: CompilePriorityDecision)
    ensures
        d.requested == priority,
        d.cpu_usage_millipercent == if priority == CompilePriority::Auto {
            cpu_usage_millipercent
        } else {
            None
        },
        d.effective == if priority == CompilePriority::Auto {
            priority::auto_priority(
                cpu_usage_millipercent,
                is_ci,
                total_in_flight(compiles@, host_in_flight as nat) as usize,
            )
        } else {
            priority
        },
{
    let sample = if priority == CompilePriority::Auto {
        cpu_usage_millipercent
    } else {
        None
    };
    let now: usize = combined_in_flight(compiles.current_in_flight_compiles(), host_in_flight);
    priority.resolve_with_cpu_usage_and_ci(sample, is_ci, now)
}

/// The compilers of the daemon and those of its host count together; a sum that
/// cannot be held is the largest number.
pub proof fn compilers_of_both_count(own: usize, host: usize, n: usize)
    requires
        call_ensures(combined_in_flight, (own, host), n),
    ensures
        own + host <= usize::MAX ==> n == own + host,
        own + host > usize::MAX ==> n == usize::MAX,
{
}

/// The priority of a compiler is decided by the compilers that ran before it,
/// and it is counted itself until it is over.
pub proof fn compilers_are_counted_until_they_are_over(
    p: CompilePriority,
    compiles: &mut InFlightCompiles,
    later: &mut InFlightCompiles,
    host: usize,
    cpu: Option<u32>,
    is_ci: bool,
    r: (CompilePriorityDecision, InFlightCompileTicket),
    before: usize,
    d: CompilePriorityDecision,
)
    requires
        call_ensures(resolve_and_track, (p, compiles, host, cpu, is_ci), r),
        call_ensures(InFlightCompiles::release, (later, r.1), ()),
        *later == *final(compiles),
        call_ensures(InFlightCompileTicket::in_flight_before, (&r.1,), before),
        call_ensures(
            CompilePriority::resolve_with_cpu_usage_and_ci,
            (p, cpu, is_ci, if before + host <= usize::MAX { (before + host) as usize } else { usize::MAX }),
            d,
        ),
    ensures
        final(compiles)@ == old(compiles)@ + 1,
        final(later)@ == old(compiles)@,
        before == old(compiles)@,
        r.0.requested == p,
        r.0.effective == d.effective,
        p == CompilePriority::Auto ==> r.0.cpu_usage_millipercent == cpu,
        p != CompilePriority::Auto ==> r.0.cpu_usage_millipercent is None,
{
}

/// A process that is not counted gets the priority that a counted one would.
pub proof fn uncounted_processes_get_the_same_priority(
    p: CompilePriority,
    compiles: &mut InFlightCompiles,
    host: usize,
    cpu: Option<u32>,
    is_ci: bool,
    r: (CompilePriorityDecision, InFlightCompileTicket),
    d: CompilePriorityDecision,
)
    requires
        call_ensures(resolve_for_current_load, (p, &*compiles, host, cpu, is_ci), d),
        call_ensures(resolve_and_track, (p, compiles, host, cpu, is_ci), r),
    ensures
        d == r.0,
{
}

/// A host's counter is asked from when it is registered until it is cleared, and
/// a second one replaces the first.
pub proof fn host_counters_are_replaced(
    slot: &mut HostInFlightSlot,
    counter: Arc<AtomicUsize>,
    replaced: bool,
    after: &mut HostInFlightSlot,
    n: usize,
    fresh: HostInFlightSlot,
)
    requires
        call_ensures(HostInFlightSlot::register_host_in_flight_counter, (slot, counter), replaced),
        call_ensures(HostInFlightSlot::clear, (after,), ()),
        call_ensures(HostInFlightSlot::current_host_in_flight, (&*final(after),), n),
        call_ensures(HostInFlightSlot::new, (), fresh),
    ensures
        slot_counter(*final(slot)) == Some(counter),
        replaced <==> slot_counter(*old(slot)) is Some,
        n == 0,
        slot_counter(fresh) == slot_counter(*final(after)),
{
}

} // verus!
