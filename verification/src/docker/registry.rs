//! The registry of live executions: at most one container per execution
//! identifier.

use vstd::prelude::*;
use crate::docker::types::{ContainerInfo, ContainerInfoView, ContainerStatus};
use crate::text::same_text;

verus! {

/// Whether some entry of the list belongs to the execution.
pub open spec fn holds(entries: Seq<ContainerInfo>, execution_id: Seq<char>) -> bool {
    exists|i: int| 0 <= i < entries.len() && #[trigger] entries[i].execution_id@ == execution_id
}

/// The place of an entry that belongs to the execution.
pub open spec fn place(entries: Seq<ContainerInfo>, execution_id: Seq<char>) -> int {
    choose|i: int| 0 <= i < entries.len() && #[trigger] entries[i].execution_id@ == execution_id
}

/// No two entries of the list belong to the same execution.
pub open spec fn distinct(entries: Seq<ContainerInfo>) -> bool {
    forall|i: int, j: int|
        0 <= i < j < entries.len() ==> #[trigger] entries[i].execution_id@
            != #[trigger] entries[j].execution_id@
}

/// The list read as a map from execution identifier to entry.
pub open spec fn as_map(entries: Seq<ContainerInfo>) -> Map<Seq<char>, ContainerInfoView> {
    Map::new(
        |execution_id: Seq<char>| holds(entries, execution_id),
        |execution_id: Seq<char>| entries[place(entries, execution_id)]@,
    )
}

/// In a list without duplicates, each entry is found under its own identifier.
pub proof fn entry_is_found(entries: Seq<ContainerInfo>, i: int)
    requires
        distinct(entries),
        0 <= i < entries.len(),
    ensures
        holds(entries, entries[i].execution_id@),
        place(entries, entries[i].execution_id@) == i,
        as_map(entries)[entries[i].execution_id@] == entries[i]@,
{
    let id = entries[i].execution_id@;
    let p = place(entries, id);
    assert(0 <= p < entries.len() && entries[p].execution_id@ == id);
    if p < i {
        assert(entries[p].execution_id@ != entries[i].execution_id@);
    } else if i < p {
        assert(entries[i].execution_id@ != entries[p].execution_id@);
    }
}

/// The executions that have a live container, each with what is known of it.
pub struct ExecutionRegistry {
    entries: Vec<ContainerInfo>,
}

impl View for ExecutionRegistry {
    type V = Map<Seq<char>, ContainerInfoView>;

    closed spec fn view(&self) -> Map<Seq<char>, ContainerInfoView> {
        as_map(self.entries@)
    }
}

impl ExecutionRegistry {
    /// What every registry satisfies: no execution has two entries.
    pub closed spec fn well_formed(&self) -> bool {
        distinct(self.entries@)
    }

    /// A registry with nothing in it.
    pub fn new() -> (registry: Self)
        ensures
            registry.well_formed(),
            registry@ == Map::<Seq<char>, ContainerInfoView>::empty(),
    {
        let registry = ExecutionRegistry { entries: Vec::new() };
        assert(registry@ =~= Map::<Seq<char>, ContainerInfoView>::empty());
        registry
    }

    /// The place of the execution's entry, if it has one.
    fn find(&self, execution_id: &str) -> (found: Option<usize>)
        ensures
            match found {
                Some(i) => i < self.entries@.len() && self.entries@[i as int].execution_id@
                    == execution_id@,
                None => !holds(self.entries@, execution_id@),
            },
    {
        let mut i: usize = 0;
        while i < self.entries.len()
            invariant
                i <= self.entries@.len(),
                forall|k: int| 0 <= k < i ==> self.entries@[k].execution_id@ != execution_id@,
            decreases self.entries@.len() - i,
        {
            if same_text(self.entries[i].execution_id.as_str(), execution_id) {
                return Some(i);
            }
            i += 1;
        }
        None
    }

    /// Whether the execution has an entry.
    pub fn contains(&self, execution_id: &str) -> (present: bool)
        ensures
            present == self@.contains_key(execution_id@),
    {
        self.find(execution_id).is_some()
    }

    /// What is known of the execution's container, if it has one.
    pub fn get(&self, execution_id: &str) -> (entry: Option<ContainerInfo>)
        requires
            self.well_formed(),
        ensures
            match entry {
                Some(info) => self@.contains_key(execution_id@) && info@ == self@[execution_id@],
                None => !self@.contains_key(execution_id@),
            },
    {
        match self.find(execution_id) {
            Some(i) => {
                proof {
                    entry_is_found(self.entries@, i as int);
                }
                Some(self.entries[i].clone())
            },
            None => None,
        }
    }

    /// Adds an entry unless its execution already has one. Says whether it
    /// was added.
    pub fn insert_if_absent(&mut self, info: ContainerInfo) -> (added: bool)
        requires
            old(self).well_formed(),
        ensures
            final(self).well_formed(),
            added == !old(self)@.contains_key(info.execution_id@),
            final(self)@ == if added {
                old(self)@.insert(info.execution_id@, info@)
            } else {
                old(self)@
            },
    {
        match self.find(info.execution_id.as_str()) {
            Some(_) => false,
            None => {
                let ghost before = self.entries@;
                let ghost id = info.execution_id@;
                let ghost view = info@;
                self.entries.push(info);
                proof {
                    let after = self.entries@;
                    assert(distinct(after));
                    assert forall|k: Seq<char>|
                        as_map(after).contains_key(k) <==> as_map(before).insert(
                            id,
                            view,
                        ).contains_key(k) by {
                        if holds(before, k) {
                            let p = place(before, k);
                            assert(after[p].execution_id@ == k);
                        }
                        if k == id {
                            assert(after[before.len() as int].execution_id@ == k);
                        }
                    }
                    assert forall|k: Seq<char>| as_map(after).contains_key(k) implies as_map(
                        after,
                    )[k] == as_map(before).insert(id, view)[k] by {
                        let p = place(after, k);
                        entry_is_found(after, p);
                        if p < before.len() {
                            entry_is_found(before, p);
                        }
                    }
                    assert(as_map(after) =~= as_map(before).insert(id, view));
                }
                true
            },
        }
    }

    /// Records a new status for the execution's container. Does nothing where
    /// the execution has no entry.
    pub fn set_status(&mut self, execution_id: &str, status: ContainerStatus)
        requires
            old(self).well_formed(),
        ensures
            final(self).well_formed(),
            final(self)@ == if old(self)@.contains_key(execution_id@) {
                old(self)@.insert(
                    execution_id@,
                    ContainerInfoView { status, ..old(self)@[execution_id@] },
                )
            } else {
                old(self)@
            },
    {
        match self.find(execution_id) {
            Some(i) => {
                let ghost before = self.entries@;
                let updated = ContainerInfo {
                    id: self.entries[i].id.clone(),
                    execution_id: self.entries[i].execution_id.clone(),
                    started_at: self.entries[i].started_at,
                    status,
                };
                let ghost view = updated@;
                self.entries.set(i, updated);
                proof {
                    let after = self.entries@;
                    let id = execution_id@;
                    entry_is_found(before, i as int);
                    assert forall|a: int, b: int| 0 <= a < b < after.len() implies after[a].execution_id@
                        != after[b].execution_id@ by {
                        assert(after[a].execution_id@ == before[a].execution_id@);
                        assert(after[b].execution_id@ == before[b].execution_id@);
                    }
                    assert forall|k: Seq<char>|
                        as_map(after).contains_key(k) <==> as_map(before).contains_key(k) by {
                        if holds(before, k) {
                            let p = place(before, k);
                            assert(after[p].execution_id@ == k);
                        }
                        if holds(after, k) {
                            let p = place(after, k);
                            assert(before[p].execution_id@ == k);
                        }
                    }
                    assert forall|k: Seq<char>| as_map(after).contains_key(k) implies as_map(
                        after,
                    )[k] == as_map(before).insert(id, view)[k] by {
                        let p = place(after, k);
                        entry_is_found(after, p);
                        entry_is_found(before, p);
                    }
                    assert(as_map(after) =~= as_map(before).insert(id, view));
                }
            },
            None => {},
        }
    }

    /// Takes the execution's entry out. Does nothing where it has none.
    pub fn remove(&mut self, execution_id: &str)
        requires
            old(self).well_formed(),
        ensures
            final(self).well_formed(),
            final(self)@ == old(self)@.remove(execution_id@),
    {
        match self.find(execution_id) {
            Some(i) => {
                let ghost before = self.entries@;
                self.entries.remove(i);
                proof {
                    let after = self.entries@;
                    let id = execution_id@;
                    assert forall|a: int| 0 <= a < after.len() implies #[trigger] after[a]
                        == before[if a < i { a } else { a + 1 }] by {}
                    assert forall|a: int, b: int| 0 <= a < b < after.len() implies after[a].execution_id@
                        != after[b].execution_id@ by {
                        let a0 = if a < i { a } else { a + 1 };
                        let b0 = if b < i { b } else { b + 1 };
                        assert(after[a] == before[a0]);
                        assert(after[b] == before[b0]);
                        assert(before[a0].execution_id@ != before[b0].execution_id@);
                    }
                    assert forall|k: Seq<char>|
                        as_map(after).contains_key(k) <==> as_map(before).remove(id).contains_key(
                            k,
                        ) by {
                        if holds(after, k) {
                            let p = place(after, k);
                            let q = if p < i { p } else { p + 1 };
                            assert(after[p] == before[q]);
                            assert(before[q].execution_id@ == k);
                            if k == id {
                                entry_is_found(before, i as int);
                                entry_is_found(before, q);
                            }
                        }
                        if holds(before, k) && k != id {
                            let q = place(before, k);
                            let p = if q < i { q } else { q - 1 };
                            assert(after[p] == before[q]);
                            assert(after[p].execution_id@ == k);
                        }
                    }
                    assert forall|k: Seq<char>| as_map(after).contains_key(k) implies as_map(
                        after,
                    )[k] == as_map(before).remove(id)[k] by {
                        let p = place(after, k);
                        let q = if p < i { p } else { p + 1 };
                        assert(after[p] == before[q]);
                        entry_is_found(after, p);
                        entry_is_found(before, q);
                    }
                    assert(as_map(after) =~= as_map(before).remove(id));
                }
            },
            None => {
                assert(self@ =~= old(self)@.remove(execution_id@));
            },
        }
    }

    /// How many executions have an entry.
    pub fn len(&self) -> (count: usize)
        ensures
            count == self.entry_count(),
    {
        self.entries.len()
    }

    /// The number of entries.
    pub closed spec fn entry_count(&self) -> nat {
        self.entries@.len()
    }

    /// A copy of every entry. Each execution of the registry occurs once in
    /// it.
    pub fn snapshot(&self) -> (list: Vec<ContainerInfo>)
        requires
            self.well_formed(),
        ensures
            is_snapshot(list@, self@),
            list@.len() == self.entry_count(),
    {
        let mut list: Vec<ContainerInfo> = Vec::new();
        let mut i: usize = 0;
        while i < self.entries.len()
            invariant
                i <= self.entries@.len(),
                list@.len() == i,
                forall|k: int| 0 <= k < i ==> list@[k]@ == self.entries@[k]@,
            decreases self.entries@.len() - i,
        {
            list.push(self.entries[i].clone());
            i += 1;
        }
        proof {
            let entries = self.entries@;
            assert forall|k: int| 0 <= k < list@.len() implies self@.contains_key(
                #[trigger] list@[k].execution_id@,
            ) && self@[list@[k].execution_id@] == list@[k]@ by {
                entry_is_found(entries, k);
                assert(list@[k]@ == entries[k]@);
            }
            assert forall|a: int, b: int| 0 <= a < b < list@.len() implies list@[a].execution_id@
                != list@[b].execution_id@ by {
                assert(list@[a]@ == entries[a]@);
                assert(list@[b]@ == entries[b]@);
            }
            assert forall|id: Seq<char>| self@.contains_key(id) implies holds(list@, id) by {
                let p = place(entries, id);
                assert(list@[p]@ == entries[p]@);
                assert(list@[p].execution_id@ == id);
            }
        }
        list
    }
}

/// Whether a list shows exactly what a registry holds: every entry of the
/// list is the registry's entry for its execution, no execution occurs twice
/// in the list, and every execution of the registry occurs in it.
pub open spec fn is_snapshot(
    list: Seq<ContainerInfo>,
    registry: Map<Seq<char>, ContainerInfoView>,
) -> bool {
    &&& forall|k: int|
        0 <= k < list.len() ==> registry.contains_key(#[trigger] list[k].execution_id@)
            && registry[list[k].execution_id@] == list[k]@
    &&& distinct(list)
    &&& forall|id: Seq<char>| registry.contains_key(id) ==> holds(list, id)
}

} // verus!
