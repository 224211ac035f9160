//! The reconciliation protocol that drives a device's address list to the
//! desired set: enumerate the existing entries, delete every one of them,
//! then insert every desired address. The decisions live here, as a state
//! machine from event to next action; the caller performs the requests
//! and hands the outcomes back.
//!
//! A failed enumerate ends the cycle. A failed delete or insert does not:
//! the next phase is entered for every batch outcome alike, so a single
//! item's failure never prevents the sibling requests or the following
//! phase from being attempted.

use crate::device::{IpListItem, ItemOutcome};
use vstd::prelude::*;

verus! {

/// Where the protocol stands.
#[derive(Debug, Clone, Copy, PartialEq, Eq, Structural)]
pub enum Phase {
    AwaitingEnumerate,
    AwaitingDeletes,
    AwaitingInserts,
    Done,
    Failed,
}

/// What the enumerate request came back with, already decoded to plain
/// values.
#[derive(Debug)]
pub enum EnumerateEvent {
    /// The request or the body's parse failed: fatal for the cycle.
    TransportError,
    /// Valid JSON that is not an entry array: nothing to delete, and the
    /// cycle ends successfully without touching the device.
    NotAList,
    /// The existing entries' ids.
    Entries(Vec<String>),
}

/// What the caller is to do next.
#[derive(Debug)]
pub enum Action {
    /// Issue one delete per id, concurrently, and await them all.
    IssueDeletes(Vec<String>),
    /// Issue one insert per item, concurrently, and await them all.
    IssueInserts(Vec<IpListItem>),
    /// The cycle is over, successfully.
    Succeed,
    /// The cycle is over; surface the enumerate failure.
    Fail,
}

/// One reconciliation cycle for one list.
pub struct Reconciler {
    pub list_name: String,
    pub desired: Vec<String>,
    pub phase: Phase,
}

impl Reconciler {
    /// A cycle that will drive the device's list of `list_name` to
    /// exactly the `desired` addresses.
    pub fn new(list_name: String, desired: Vec<String>) -> (r: Reconciler)
        ensures
            r.list_name == list_name,
            r.desired == desired,
            r.phase == Phase::AwaitingEnumerate,
    {
        Reconciler { list_name, desired, phase: Phase::AwaitingEnumerate }
    }

    /// Takes the enumerate outcome. A transport or parse failure is fatal;
    /// a non-list body ends the cycle untouched; otherwise exactly one
    /// delete per returned entry is ordered.
    pub fn on_enumerate(&mut self, event: EnumerateEvent) -> (a: Action)
        requires
            old(self).phase == Phase::AwaitingEnumerate,
        ensures
            final(self).list_name == old(self).list_name,
            final(self).desired == old(self).desired,
            event matches EnumerateEvent::TransportError ==> final(self).phase == Phase::Failed
                && a matches Action::Fail,
            event matches EnumerateEvent::NotAList ==> final(self).phase == Phase::Done
                && a matches Action::Succeed,
            event matches EnumerateEvent::Entries(ids) ==> final(self).phase
                == Phase::AwaitingDeletes && (a matches Action::IssueDeletes(d) && d == ids),
    {
        match event {
            EnumerateEvent::TransportError => {
                self.phase = Phase::Failed;
                Action::Fail
            },
            EnumerateEvent::NotAList => {
                self.phase = Phase::Done;
                Action::Succeed
            },
            EnumerateEvent::Entries(ids) => {
                self.phase = Phase::AwaitingDeletes;
                Action::IssueDeletes(ids)
            },
        }
    }

    /// Takes the delete batch's outcomes. Whatever they are — every
    /// delete may have failed — the insert phase follows, with exactly
    /// one item per desired address: the ordered inserts do not depend on
    /// the delete outcomes in any way.
    pub fn on_deletes_done(&mut self, outcomes: &Vec<ItemOutcome>) -> (a: Action)
        requires
            old(self).phase == Phase::AwaitingDeletes,
        ensures
            final(self).list_name == old(self).list_name,
            final(self).desired == old(self).desired,
            final(self).phase == Phase::AwaitingInserts,
            a matches Action::IssueInserts(items) && items@.len() == old(self).desired@.len(),
            a matches Action::IssueInserts(items) ==> forall|i: int|
                0 <= i < items@.len() ==> (#[trigger] items@[i].address)@ == old(
                    self,
                ).desired@[i]@ && items@[i].list@ == old(self).list_name@,
    {
        let _ = outcomes;
        self.phase = Phase::AwaitingInserts;
        let mut items: Vec<IpListItem> = Vec::new();
        let mut i: usize = 0;
        while i < self.desired.len()
            invariant
                0 <= i <= self.desired@.len(),
                items@.len() == i,
                forall|j: int|
                    0 <= j < i ==> (#[trigger] items@[j].address)@ == self.desired@[j]@
                        && items@[j].list@ == self.list_name@,
            decreases self.desired@.len() - i,
        {
            let address = self.desired[i].clone();
            let list = self.list_name.clone();
            items.push(IpListItem { address, list });
            i += 1;
        }
        Action::IssueInserts(items)
    }

    /// Takes the insert batch's outcomes: the cycle is over and counts as
    /// successful for every combination of per-item outcomes.
    pub fn on_inserts_done(&mut self, outcomes: &Vec<ItemOutcome>) -> (a: Action)
        requires
            old(self).phase == Phase::AwaitingInserts,
        ensures
            final(self).list_name == old(self).list_name,
            final(self).desired == old(self).desired,
            final(self).phase == Phase::Done,
            a matches Action::Succeed,
    {
        let _ = outcomes;
        self.phase = Phase::Done;
        Action::Succeed
    }
}

/// The device's list after the delete phase: what was enumerated is gone.
pub open spec fn after_delete_phase(device: Set<Seq<char>>, deleted: Set<Seq<char>>) -> Set<
    Seq<char>,
> {
    device.difference(deleted)
}

/// The device's list after the insert phase: the desired addresses are
/// there.
pub open spec fn after_insert_phase(device: Set<Seq<char>>, inserted: Set<Seq<char>>) -> Set<
    Seq<char>,
> {
    device.union(inserted)
}

/// One full successful cycle: the enumerate returns the device's whole
/// list for the name, the delete phase removes all of it, the insert
/// phase adds every desired address.
pub open spec fn cycle_result(device: Set<Seq<char>>, desired: Set<Seq<char>>) -> Set<Seq<char>> {
    after_insert_phase(after_delete_phase(device, device), desired)
}

/// Delete-then-insert is self-correcting: a successful cycle leaves
/// exactly the desired set, whatever the device held before. Two runs
/// from any two starting states — in particular, a second run right after
/// a first, with an unchanged directory source — converge to the same
/// final list.
pub proof fn lemma_cycle_idempotent(
    device1: Set<Seq<char>>,
    device2: Set<Seq<char>>,
    desired: Set<Seq<char>>,
)
    ensures
        cycle_result(device1, desired) == desired,
        cycle_result(device1, desired) == cycle_result(device2, desired),
        cycle_result(cycle_result(device1, desired), desired) == cycle_result(device1, desired),
{
    assert(cycle_result(device1, desired) =~= desired);
    assert(cycle_result(device2, desired) =~= desired);
    assert(cycle_result(desired, desired) =~= desired);
}

} // verus!
