//! Registries of keys that someone is working on: artifacts about to be
//! published, and tool runs in flight. Waiters are found by a ticket.

use crate::records::{Record, RecordView};
use crate::state::SharedState;
use crate::table::{get, insert, len, remove, Table};
use crate::table;
use vstd::prelude::*;

verus! {

/// The longest time that a lookup waits for a pending artifact, in
/// nanoseconds.
pub const PENDING_WAIT_TIMEOUT_NS: u64 = 5_000_000;

/// The ticket under which a key is registered.
pub open spec fn ticket_of(m: Map<Seq<char>, RecordView>, key: Seq<char>) -> Option<u64> {
    if m.contains_key(key) {
        match m[key] {
            RecordView::Ticket(n) => Some(n),
            _ => None,
        }
    } else {
        None
    }
}

fn find(pending: &Table, key: &str) -> (r: Option<u64>)
    ensures
        r == ticket_of(table::contents(*pending), key@),
{
    match get(pending, key) {
        Some(Record::Ticket(n)) => Some(n),
        _ => None,
    }
}

/// Registers a key under a fresh ticket; where the key is registered already,
/// its ticket is returned and nothing changes.
pub fn register(pending: &mut Table, key: &str, fresh: u64) -> (ticket: u64)
    ensures
        match ticket_of(table::contents(*old(pending)), key@) {
            Some(n) => ticket == n && *final(pending) == *old(pending),
            None => ticket == fresh && table::contents(*final(pending)) == table::contents(
                *old(pending),
            ).insert(key@, RecordView::Ticket(fresh)),
        },
{
    match find(pending, key) {
        Some(n) => n,
        None => {
            insert(pending, key.to_owned(), Record::Ticket(fresh));
            fresh
        },
    }
}

/// Takes a key out of the registry; the ticket whose waiters are to be woken,
/// where it was registered.
pub fn complete(pending: &mut Table, key: &str) -> (woken: Option<u64>)
    ensures
        woken == ticket_of(table::contents(*old(pending)), key@),
        table::contents(*final(pending)) == table::contents(*old(pending)).remove(key@),
{
    match remove(pending, key) {
        Some(Record::Ticket(n)) => Some(n),
        _ => None,
    }
}

/// What a lookup does about a pending artifact.
#[derive(Clone, Copy, Debug, PartialEq, Eq, Structural)]
pub enum PendingWait {
    /// Nothing is pending.
    NotPending,
    /// Something is pending, but the caller does not wait.
    Observed,
    /// Wait for the ticket, at most this long.
    Wait {
        /// Ticket to wait for.
        ticket: u64,
        /// Longest wait in nanoseconds.
        timeout_ns: u64,
    },
}

/// How long a caller waits: no longer than it asks for, and no longer than the
/// registry allows.
pub open spec fn capped(timeout_ns: u64) -> u64 {
    if timeout_ns < PENDING_WAIT_TIMEOUT_NS {
        timeout_ns
    } else {
        PENDING_WAIT_TIMEOUT_NS
    }
}

/// What a lookup does about a key.
pub open spec fn wait_for(m: Map<Seq<char>, RecordView>, key: Seq<char>, timeout_ns: u64) -> PendingWait {
    match ticket_of(m, key) {
        None => PendingWait::NotPending,
        Some(ticket) => if timeout_ns == 0 {
            PendingWait::Observed
        } else {
            PendingWait::Wait { ticket, timeout_ns: capped(timeout_ns) }
        },
    }
}

/// What a lookup does about a key: nothing where it is not pending; otherwise
/// it waits, at most as long as it asks for and the registry allows, and looks
/// again. With a timeout of zero it does not wait.
pub fn await_pending(pending: &Table, key: &str, timeout_ns: u64) -> (r: PendingWait)
    ensures
        r == wait_for(table::contents(*pending), key@, timeout_ns),
{
    match find(pending, key) {
        None => PendingWait::NotPending,
        Some(ticket) => {
            let wait: u64 = if timeout_ns < PENDING_WAIT_TIMEOUT_NS {
                timeout_ns
            } else {
                PENDING_WAIT_TIMEOUT_NS
            };
            if wait == 0 {
                PendingWait::Observed
            } else {
                PendingWait::Wait { ticket, timeout_ns: wait }
            }
        },
    }
}

/// Whether the caller has seen a pending entry, and so looks again.
pub fn observed(wait: PendingWait) -> (r: bool)
    ensures
        r == (wait != PendingWait::NotPending),
{
    match wait {
        PendingWait::NotPending => false,
        _ => true,
    }
}

/// The next step of waiting until nothing is pending: the answer, or nothing
/// where the caller polls again. At the deadline the answer is whether nothing
/// is pending.
pub fn await_all_step(pending: &Table, deadline_passed: bool) -> (r: Option<bool>)
    ensures
        r == if table::contents(*pending).dom().len() == 0 {
            Some(true)
        } else if deadline_passed {
            Some(false)
        } else {
            None
        },
{
    if len(pending) == 0 {
        Some(true)
    } else if deadline_passed {
        Some(false)
    } else {
        None
    }
}

/// A caller's claim on the slot of a key.
#[derive(Clone, Copy, Debug, PartialEq, Eq, Structural)]
pub enum InFlight {
    /// The slot is ours.
    Owner,
    /// Another caller holds it; wait for its ticket.
    Wait {
        /// Ticket to wait for.
        ticket: u64,
    },
}

/// Takes the slot of a key, or says whom to wait for.
pub fn acquire_in_flight(in_flight: &mut Table, key_hex: &str, fresh: u64) -> (r: InFlight)
    ensures
        match ticket_of(table::contents(*old(in_flight)), key_hex@) {
            Some(ticket) => r == (InFlight::Wait { ticket }) && *final(in_flight) == *old(
                in_flight,
            ),
            None => r == InFlight::Owner && table::contents(*final(in_flight)) == table::contents(
                *old(in_flight),
            ).insert(key_hex@, RecordView::Ticket(fresh)),
        },
{
    match find(in_flight, key_hex) {
        Some(ticket) => InFlight::Wait { ticket },
        None => {
            insert(in_flight, key_hex.to_owned(), Record::Ticket(fresh));
            InFlight::Owner
        },
    }
}

/// Ends a claim: the owner gives the slot back and its waiters are woken; one
/// that has waited holds nothing.
pub fn release_in_flight(in_flight: &mut Table, key_hex: &str, claim: InFlight) -> (woken: Option<
    u64,
>)
    ensures
        match claim {
            InFlight::Owner => woken == ticket_of(table::contents(*old(in_flight)), key_hex@)
                && table::contents(*final(in_flight)) == table::contents(*old(in_flight)).remove(
                key_hex@,
            ),
            InFlight::Wait { .. } => woken is None && *final(in_flight) == *old(in_flight),
        },
{
    match claim {
        InFlight::Owner => complete(in_flight, key_hex),
        InFlight::Wait { .. } => None,
    }
}

/// A lookup waits for a key exactly where the daemon has it among the pending
/// ones, and never longer than the registry allows.
pub proof fn pending_keys_are_waited_for(st: SharedState, key: Seq<char>, timeout_ns: u64)
    requires
        st.wf(),
        timeout_ns > 0,
    ensures
        ({
            let pending = table::contents(st.pending_cache_writes);
            let wait = wait_for(pending, key, timeout_ns);
            &&& wait is Wait == pending.contains_key(key)
            &&& wait is NotPending == !pending.contains_key(key)
            &&& wait matches PendingWait::Wait { ticket, timeout_ns: limit } ==> pending[key]
                == RecordView::Ticket(ticket) && limit <= timeout_ns && limit
                <= PENDING_WAIT_TIMEOUT_NS
        }),
{
}

/// Completing what was registered under a fresh key wakes its ticket and leaves
/// the registry as it was before.
pub proof fn complete_undoes_register(m: Map<Seq<char>, RecordView>, key: Seq<char>, fresh: u64)
    requires
        !m.contains_key(key),
    ensures
        ticket_of(m.insert(key, RecordView::Ticket(fresh)), key) == Some(fresh),
        m.insert(key, RecordView::Ticket(fresh)).remove(key) == m,
{
    assert(m.insert(key, RecordView::Ticket(fresh)).remove(key) =~= m);
}

/// Everyone who registers a key gets the ticket of the first, until the key is
/// completed: that wakes the holders of this ticket, and the next one to
/// register is a first again. Other keys are not concerned.
pub proof fn registered_keys_share_a_ticket(
    first: &mut Table,
    second: &mut Table,
    done: &mut Table,
    key: &str,
    fresh: u64,
    other: u64,
    t1: u64,
    t2: u64,
    woken: Option<u64>,
    k: Seq<char>,
)
    requires
        !table::contents(*first).contains_key(key@),
        call_ensures(register, (first, key, fresh), t1),
        *second == *final(first),
        call_ensures(register, (second, key, other), t2),
        *done == *final(second),
        call_ensures(complete, (done, key), woken),
    ensures
        t1 == fresh,
        t2 == fresh,
        table::contents(*final(second)).contains_key(key@),
        woken == Some(fresh),
        table::contents(*final(done)) == table::contents(*old(first)),
        k != key@ ==> (table::contents(*final(second)).contains_key(k) <==> table::contents(
            *old(first),
        ).contains_key(k)),
{
    let m = table::contents(*old(first));
    assert(m.insert(key@, RecordView::Ticket(fresh)).remove(key@) =~= m);
}

/// Whoever asks for a key that is pending is told to wait for it, no longer than
/// they would and no longer than five milliseconds; with no time to wait they
/// are told that it is pending, and of another key that it is not.
pub proof fn pending_keys_can_be_waited_for(
    pending: &Table,
    key: &str,
    timeout_ns: u64,
    r: PendingWait,
    seen: bool,
    ticket: u64,
)
    requires
        call_ensures(await_pending, (pending, key, timeout_ns), r),
        call_ensures(observed, (r,), seen),
    ensures
        !table::contents(*pending).contains_key(key@) ==> r == PendingWait::NotPending && !seen,
        table::contents(*pending).contains_key(key@) && table::contents(*pending)[key@]
            == RecordView::Ticket(ticket) ==> seen && (timeout_ns == 0 ==> r
            == PendingWait::Observed) && (timeout_ns > 0 ==> (r matches PendingWait::Wait {
            ticket: t,
            timeout_ns: limit,
        } && t == ticket && 0 < limit <= timeout_ns && limit <= 5_000_000 && (limit == timeout_ns
            || limit == 5_000_000))),
{
}

/// One waits for all keys until none is pending, or no longer than the deadline.
pub proof fn all_keys_are_waited_for(pending: &Table, passed: bool, r: Option<bool>)
    requires
        call_ensures(await_all_step, (pending, passed), r),
    ensures
        r == Some(true) <==> table::contents(*pending).dom().len() == 0,
        r == Some(false) ==> passed,
        r is None ==> !passed,
{
}

/// Of those who come for one key, the first owns the run and the others wait for
/// it. Only the owner gives it free, which wakes them; one who waited and leaves
/// changes nothing.
pub proof fn a_run_has_one_owner(
    first: &mut Table,
    second: &mut Table,
    third: &mut Table,
    done: &mut Table,
    key: &str,
    fresh: u64,
    other: u64,
    c1: InFlight,
    c2: InFlight,
    w2: Option<u64>,
    w1: Option<u64>,
)
    requires
        !table::contents(*first).contains_key(key@),
        call_ensures(acquire_in_flight, (first, key, fresh), c1),
        *second == *final(first),
        call_ensures(acquire_in_flight, (second, key, other), c2),
        *third == *final(second),
        call_ensures(release_in_flight, (third, key, c2), w2),
        *done == *final(third),
        call_ensures(release_in_flight, (done, key, c1), w1),
    ensures
        c1 == InFlight::Owner,
        c2 == (InFlight::Wait { ticket: fresh }),
        w2 is None,
        table::contents(*final(third)) == table::contents(*final(first)),
        table::contents(*final(third)).contains_key(key@),
        w1 == Some(fresh),
        table::contents(*final(done)) == table::contents(*old(first)),
{
    let m = table::contents(*old(first));
    assert(m.insert(key@, RecordView::Ticket(fresh)).remove(key@) =~= m);
}

} // verus!
