//! The registry of held inhibitor locks.
//!
//! The registry maps a label to the lock that was acquired for it. A label
//! occurs at most once, and labels are listed in the order in which they
//! were first inhibited. Inhibiting a label that is held changes nothing,
//! and one release clears a label however often it was inhibited: holders
//! are not counted.
//!
//! The registry itself acquires nothing. [`State::acquisition`] says which
//! call to the power-management service is due, the caller makes it, and
//! [`State::inhibit`] takes what came back. A lock is released by dropping
//! it, which [`State::release`] does.

use vstd::prelude::*;
use crate::text::{owned, same_text};

verus! {

/// One held lock and the label it is held for.
struct Held<H> {
    label: String,
    lock: H,
}

/// The locks that are held, by label.
pub struct State<H> {
    active_locks: Vec<Held<H>>,
}

/// The call to the power-management service that acquires a lock.
#[derive(Clone, Debug, PartialEq, Eq)]
pub struct AcquireCall {
    pub what: String,
    pub who: String,
    pub why: String,
    pub mode: String,
}

/// A lock was needed and the power-management service gave none.
#[derive(Clone, Copy, Debug, PartialEq, Eq, Structural)]
pub struct AcquireError;

/// The labels of the entries, in their order.
pub open spec fn labels<H>(entries: Seq<(Seq<char>, H)>) -> Seq<Seq<char>> {
    entries.map_values(|e: (Seq<char>, H)| e.0)
}

/// Whether no label occurs twice.
pub open spec fn distinct<H>(entries: Seq<(Seq<char>, H)>) -> bool {
    labels(entries).no_duplicates()
}

/// Whether a lock is held for the label.
pub open spec fn holds<H>(entries: Seq<(Seq<char>, H)>, label: Seq<char>) -> bool {
    labels(entries).contains(label)
}

/// Where the label's entry stands, for a label that is held.
pub open spec fn position<H>(entries: Seq<(Seq<char>, H)>, label: Seq<char>) -> int {
    choose|i: int| 0 <= i < entries.len() && entries[i].0 == label
}

/// The entries after inhibiting a label with the outcome of the acquisition:
/// a lock that was acquired for a new label is added at the end, and
/// nothing else changes.
pub open spec fn inhibited<H>(entries: Seq<(Seq<char>, H)>, label: Seq<char>, lock: Option<H>) -> Seq<
    (Seq<char>, H),
> {
    match lock {
        Some(h) if !holds(entries, label) => entries.push((label, h)),
        _ => entries,
    }
}

/// The entries after releasing a label: its entry is gone, the others stay
/// in their order.
pub open spec fn released<H>(entries: Seq<(Seq<char>, H)>, label: Seq<char>) -> Seq<(Seq<char>, H)> {
    if holds(entries, label) {
        entries.remove(position(entries, label))
    } else {
        entries
    }
}

/// The fixed form of the acquisition for a label.
pub open spec fn is_acquisition_for(call: AcquireCall, label: Seq<char>) -> bool {
    &&& call.what@ == "idle"@
    &&& call.who@ == "doppio"@
    &&& call.why@ == "Request from "@ + label
    &&& call.mode@ == "block"@
}

impl<H> View for State<H> {
    type V = Seq<(Seq<char>, H)>;

    closed spec fn view(&self) -> Seq<(Seq<char>, H)> {
        entries_of(self.active_locks@)
    }
}

/// The entries that a list of held locks stands for.
spec fn entries_of<H>(held: Seq<Held<H>>) -> Seq<(Seq<char>, H)> {
    held.map_values(|e: Held<H>| (e.label@, e.lock))
}

impl<H> State<H> {
    #[verifier::type_invariant]
    spec fn well_formed(&self) -> bool {
        distinct(self@)
    }

    /// An empty registry.
    pub fn new() -> (s: Self)
        ensures
            s@ == Seq::<(Seq<char>, H)>::empty(),
    {
        let s = State { active_locks: Vec::new() };
        assert(s@ =~= Seq::<(Seq<char>, H)>::empty());
        s
    }

    /// Takes the held locks out, leaving the registry empty.
    fn take(&mut self) -> (held: Vec<Held<H>>)
        ensures
            entries_of(held@) == old(self)@,
            final(self)@ == Seq::<(Seq<char>, H)>::empty(),
    {
        let mut taken = State::new();
        std::mem::swap(self, &mut taken);
        let State { active_locks } = taken;
        active_locks
    }

    /// Finds the entry of a label.
    fn find(&self, label: &str) -> (r: Option<usize>)
        ensures
            distinct(self@),
            match r {
                Some(i) => holds(self@, label@) && i < self@.len() && self@[i as int].0 == label@
                    && position(self@, label@) == i,
                None => !holds(self@, label@),
            },
    {
        proof {
            use_type_invariant(self);
        }
        let mut i: usize = 0;
        while i < self.active_locks.len()
            invariant
                i <= self.active_locks.len(),
                self@.len() == self.active_locks.len(),
                distinct(self@),
                forall|j: int| 0 <= j < i ==> self@[j].0 != label@,
            decreases self.active_locks.len() - i,
        {
            if same_text(self.active_locks[i].label.as_str(), label) {
                proof {
                    assert(labels(self@)[i as int] == label@);
                    lemma_position(self@, label@);
                    let k = position(self@, label@);
                    assert(labels(self@)[k] == labels(self@)[i as int]);
                }
                return Some(i);
            }
            i = i + 1;
        }
        assert(!labels(self@).contains(label@)) by {
            if labels(self@).contains(label@) {
                let k = choose|k: int| 0 <= k < labels(self@).len() && labels(self@)[k] == label@;
                assert(self@[k].0 == label@);
            }
        }
        None
    }

    /// Whether a lock is held for the label.
    pub fn is_inhibited(&self, label: &str) -> (r: bool)
        ensures
            r == holds(self@, label@),
            distinct(self@),
    {
        self.find(label).is_some()
    }

    /// The labels that are held, in the order in which they were inhibited.
    pub fn active_inhibitors(&self) -> (r: Vec<String>)
        ensures
            r@.map_values(|s: String| s@) == labels(self@),
            labels(self@).no_duplicates(),
    {
        proof {
            use_type_invariant(self);
        }
        let mut r: Vec<String> = Vec::new();
        let mut i: usize = 0;
        while i < self.active_locks.len()
            invariant
                i <= self.active_locks.len(),
                r@.len() == i,
                forall|j: int| 0 <= j < i ==> (#[trigger] r@[j])@ == self@[j].0,
            decreases self.active_locks.len() - i,
        {
            r.push(self.active_locks[i].label.clone());
            i = i + 1;
        }
        assert(r@.map_values(|s: String| s@) =~= labels(self@));
        r
    }

    /// The call that acquires a lock for the label, if none is held for it.
    pub fn acquisition(&self, label: &str) -> (r: Option<AcquireCall>)
        ensures
            r is None <==> holds(self@, label@),
            r matches Some(call) ==> is_acquisition_for(call, label@),
            distinct(self@),
    {
        match self.find(label) {
            Some(_) => None,
            None => {
                let mut why = owned("Request from ");
                why.append(label);
                Some(AcquireCall { what: owned("idle"), who: owned("doppio"), why, mode: owned("block") })
            },
        }
    }

    /// Inhibits a label, given the outcome of its acquisition: `Some` with
    /// the lock that was acquired, `None` where none was.
    ///
    /// A label that is held stays as it is, and a lock passed for it is
    /// dropped. For a new label the lock is kept; without one the call fails
    /// and the registry is unchanged.
    pub fn inhibit(&mut self, label: &str, lock: Option<H>) -> (r: Result<(), AcquireError>)
        ensures
            final(self)@ == inhibited(old(self)@, label@, lock),
            r is Ok <==> holds(old(self)@, label@) || lock is Some,
            distinct(final(self)@),
    {
        match self.find(label) {
            Some(_) => Ok(()),
            None => match lock {
                Some(h) => {
                    let ghost before = self@;
                    let mut held = self.take();
                    held.push(Held { label: owned(label), lock: h });
                    proof {
                        assert(entries_of(held@) =~= before.push((label@, h)));
                        lemma_inhibited_distinct(before, label@, lock);
                    }
                    *self = State { active_locks: held };
                    Ok(())
                },
                None => Err(AcquireError),
            },
        }
    }

    /// Releases a label: its lock, if one is held, is dropped.
    pub fn release(&mut self, label: &str)
        ensures
            final(self)@ == released(old(self)@, label@),
            distinct(final(self)@),
    {
        match self.find(label) {
            Some(i) => {
                let ghost before = self@;
                let mut held = self.take();
                let _ = held.remove(i);
                proof {
                    assert(entries_of(held@) =~= before.remove(i as int));
                    lemma_released_distinct(before, label@);
                }
                *self = State { active_locks: held };
            },
            None => {},
        }
    }
}

/// Inhibiting keeps the labels distinct.
pub proof fn lemma_inhibited_distinct<H>(entries: Seq<(Seq<char>, H)>, label: Seq<char>, lock: Option<H>)
    requires
        distinct(entries),
    ensures
        distinct(inhibited(entries, label, lock)),
{
    let after = inhibited(entries, label, lock);
    if after != entries {
        assert(labels(after) =~= labels(entries).push(label));
    }
}

/// Releasing keeps the labels distinct.
pub proof fn lemma_released_distinct<H>(entries: Seq<(Seq<char>, H)>, label: Seq<char>)
    requires
        distinct(entries),
    ensures
        distinct(released(entries, label)),
{
    if holds(entries, label) {
        let i = position(entries, label);
        lemma_position(entries, label);
        assert(labels(entries.remove(i)) =~= labels(entries).remove(i));
    }
}

/// The position of a held label is that of an entry with the label.
pub proof fn lemma_position<H>(entries: Seq<(Seq<char>, H)>, label: Seq<char>)
    requires
        holds(entries, label),
    ensures
        0 <= position(entries, label) < entries.len(),
        entries[position(entries, label)].0 == label,
{
    let k = choose|k: int| 0 <= k < labels(entries).len() && labels(entries)[k] == label;
    assert(entries[k].0 == label);
}

/// What releasing does to the question whether a label is held: the
/// released label is not held, every other label is held as before.
pub proof fn lemma_released_holds<H>(entries: Seq<(Seq<char>, H)>, label: Seq<char>, other: Seq<char>)
    requires
        distinct(entries),
    ensures
        !holds(released(entries, label), label),
        other != label ==> holds(released(entries, label), other) == holds(entries, other),
{
    if holds(entries, label) {
        lemma_position(entries, label);
        let i = position(entries, label);
        let after = entries.remove(i);
        assert(labels(after) =~= labels(entries).remove(i));
        if holds(after, label) {
            let k = choose|k: int| 0 <= k < labels(after).len() && labels(after)[k] == label;
            let from = if k < i { k } else { k + 1 };
            assert(labels(entries)[from] == labels(entries)[i]);
        }
        if other != label {
            if holds(entries, other) {
                let k = choose|k: int| 0 <= k < labels(entries).len() && labels(entries)[k] == other;
                let to = if k < i { k } else { k - 1 };
                assert(labels(after)[to] == other);
            }
            if holds(after, other) {
                let k = choose|k: int| 0 <= k < labels(after).len() && labels(after)[k] == other;
                let from = if k < i { k } else { k + 1 };
                assert(labels(entries)[from] == other);
            }
        }
    }
}

/// What inhibiting does to the question whether a label is held: the
/// inhibited label is held if it was or if a lock came, every other label
/// is held as before.
pub proof fn lemma_inhibited_holds<H>(
    entries: Seq<(Seq<char>, H)>,
    label: Seq<char>,
    lock: Option<H>,
    other: Seq<char>,
)
    ensures
        holds(inhibited(entries, label, lock), label) == (holds(entries, label) || lock is Some),
        other != label ==> holds(inhibited(entries, label, lock), other) == holds(entries, other),
{
    let after = inhibited(entries, label, lock);
    if after != entries {
        assert(labels(after) =~= labels(entries).push(label));
        assert(labels(after)[entries.len() as int] == label);
        if holds(entries, other) {
            let k = choose|k: int| 0 <= k < labels(entries).len() && labels(entries)[k] == other;
            assert(labels(after)[k] == other);
        }
        if other != label && holds(after, other) {
            let k = choose|k: int| 0 <= k < labels(after).len() && labels(after)[k] == other;
            assert(labels(entries)[k] == other);
        }
    }
}

/// Inhibiting a label twice is inhibiting it once: after a first call that
/// succeeded, the label has exactly one entry, no acquisition is due for
/// it, and a second call changes nothing and succeeds, whatever lock it is
/// given.
pub proof fn law_inhibit_idempotent<H>(
    entries: Seq<(Seq<char>, H)>,
    label: Seq<char>,
    first: Option<H>,
    second: Option<H>,
)
    requires
        distinct(entries),
        holds(entries, label) || first is Some,
    ensures
        holds(inhibited(entries, label, first), label),
        labels(inhibited(entries, label, first)).to_multiset().count(label) == 1,
        inhibited(inhibited(entries, label, first), label, second) == inhibited(
            entries,
            label,
            first,
        ),
{
    let once = inhibited(entries, label, first);
    lemma_inhibited_holds(entries, label, first, label);
    lemma_inhibited_distinct(entries, label, first);
    labels(once).lemma_multiset_has_no_duplicates();
    labels(once).to_multiset_ensures();
    assert(labels(once).to_multiset().contains(label));
}

/// Releasing a label that is not held changes nothing.
pub proof fn law_release_absent<H>(entries: Seq<(Seq<char>, H)>, label: Seq<char>)
    requires
        !holds(entries, label),
    ensures
        released(entries, label) == entries,
{
}

/// A label is held after it was inhibited with success, and is not held
/// after it was then released.
pub proof fn law_status_follows<H>(entries: Seq<(Seq<char>, H)>, label: Seq<char>, lock: Option<H>)
    requires
        distinct(entries),
        holds(entries, label) || lock is Some,
    ensures
        holds(inhibited(entries, label, lock), label),
        !holds(released(inhibited(entries, label, lock), label), label),
{
    lemma_inhibited_holds(entries, label, lock, label);
    lemma_inhibited_distinct(entries, label, lock);
    lemma_released_holds(inhibited(entries, label, lock), label, label);
}

/// Inhibiting one label and releasing another do not touch each other:
/// neither changes whether the other's label is held, and the two give the
/// same registry in either order.
pub proof fn law_isolation<H>(
    entries: Seq<(Seq<char>, H)>,
    a: Seq<char>,
    b: Seq<char>,
    lock: Option<H>,
)
    requires
        distinct(entries),
        a != b,
    ensures
        holds(released(entries, b), a) == holds(entries, a),
        holds(inhibited(entries, a, lock), b) == holds(entries, b),
        released(inhibited(entries, a, lock), b) == inhibited(released(entries, b), a, lock),
{
    lemma_released_holds(entries, b, a);
    lemma_inhibited_holds(entries, a, lock, b);
    let grown = inhibited(entries, a, lock);
    if grown != entries && holds(entries, b) {
        lemma_position(entries, b);
        lemma_position(grown, b);
        lemma_inhibited_distinct(entries, a, lock);
        let i = position(entries, b);
        let k = position(grown, b);
        assert(labels(grown) =~= labels(entries).push(a));
        assert(labels(grown)[i] == labels(grown)[k]);
        assert(grown.remove(i) =~= entries.remove(i).push((a, lock->Some_0)));
    }
}

} // verus!
