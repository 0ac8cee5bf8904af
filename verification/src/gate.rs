//! The doorkeeper that lets each identifier through once.

use vstd::prelude::*;
use vstd::string::*;

verus! {

/// The identifiers seen so far. An identifier that was let through is never
/// forgotten, so it is never let through again.
pub struct IdentifierGate {
    seen: Vec<String>,
}

/// Whether a doorkeeper that has seen `seen` lets `id` through.
pub open spec fn admits(seen: Set<Seq<char>>, id: Seq<char>) -> bool {
    !seen.contains(id)
}

/// What a doorkeeper that has seen `seen` has seen once `id` was shown to it.
pub open spec fn after(seen: Set<Seq<char>>, id: Seq<char>) -> Set<Seq<char>> {
    seen.insert(id)
}

/// What a doorkeeper has seen once all of `calls` were shown to it, in that order.
pub open spec fn after_all(seen: Set<Seq<char>>, calls: Seq<Seq<char>>) -> Set<Seq<char>>
    decreases calls.len(),
{
    if calls.len() == 0 {
        seen
    } else {
        after(after_all(seen, calls.drop_last()), calls.last())
    }
}

/// The answers that a doorkeeper which has seen `seen` gives to `calls`, shown to
/// it one after the other.
pub open spec fn answers(seen: Set<Seq<char>>, calls: Seq<Seq<char>>) -> Seq<bool> {
    Seq::new(calls.len(), |i: int| admits(after_all(seen, calls.take(i)), calls[i]))
}

/// After a run of calls the doorkeeper has seen what it had seen before and every
/// identifier of the run.
pub proof fn lemma_after_all(seen: Set<Seq<char>>, calls: Seq<Seq<char>>)
    ensures
        forall|id: Seq<char>| #[trigger]
            after_all(seen, calls).contains(id) <==> seen.contains(id) || calls.contains(id),
    decreases calls.len(),
{
    if calls.len() > 0 {
        let earlier = calls.drop_last();
        lemma_after_all(seen, earlier);
        assert forall|id: Seq<char>| #[trigger]
            after_all(seen, calls).contains(id) <==> seen.contains(id) || calls.contains(
                id,
            ) by {
            let last = calls.last();
            assert(after_all(seen, calls) == after_all(seen, earlier).insert(last));
            assert(after_all(seen, earlier).contains(id) <==> seen.contains(id)
                || earlier.contains(id));
            assert(calls.contains(id) <==> earlier.contains(id) || id == last) by {
                if calls.contains(id) {
                    let at = choose|i: int| 0 <= i < calls.len() && calls[i] == id;
                    if at < calls.len() - 1 {
                        assert(earlier[at] == id);
                    }
                }
                if earlier.contains(id) {
                    let at = choose|i: int| 0 <= i < earlier.len() && earlier[i] == id;
                    assert(calls[at] == id);
                }
                if id == last {
                    assert(calls[calls.len() - 1] == id);
                }
            }
        }
    }
}

/// However many callers show identifiers to the doorkeeper, and in whatever order
/// their calls take effect: a call is answered with `true` exactly when its
/// identifier was not seen before the run and no earlier call of the run
/// showed it. So of all the calls that show one identifier, at most one is
/// let through, and exactly one if the identifier was new.
pub proof fn gate_admits_first_sighting_only(seen: Set<Seq<char>>, calls: Seq<Seq<char>>)
    ensures
        answers(seen, calls).len() == calls.len(),
        forall|i: int|
            0 <= i < calls.len() ==> (#[trigger] answers(seen, calls)[i] <==> !seen.contains(
                calls[i],
            ) && forall|j: int| 0 <= j < i ==> calls[j] != calls[i]),
        forall|i: int, j: int|
            0 <= i < j < calls.len() && calls[i] == calls[j] ==> !(#[trigger] answers(
                seen,
                calls,
            )[i] && #[trigger] answers(seen, calls)[j]),
        forall|i: int|
            0 <= i < calls.len() && !seen.contains(#[trigger] calls[i]) ==> exists|j: int|
                0 <= j <= i && calls[j] == calls[i] && answers(seen, calls)[j],
{
    assert forall|i: int| 0 <= i < calls.len() implies (#[trigger] answers(seen, calls)[i]
        <==> !seen.contains(calls[i]) && forall|j: int| 0 <= j < i ==> calls[j] != calls[i]) by {
        let earlier = calls.take(i);
        lemma_after_all(seen, earlier);
        if earlier.contains(calls[i]) {
            let at = choose|k: int| 0 <= k < earlier.len() && earlier[k] == calls[i];
            assert(calls[at] == calls[i]);
        }
        if exists|j: int| 0 <= j < i && calls[j] == calls[i] {
            let at = choose|j: int| 0 <= j < i && calls[j] == calls[i];
            assert(earlier[at] == calls[i]);
        }
    }
    assert forall|i: int| 0 <= i < calls.len() && !seen.contains(
        #[trigger] calls[i],
    ) implies exists|j: int|
        0 <= j <= i && calls[j] == calls[i] && answers(seen, calls)[j] by {
        lemma_first_sighting(seen, calls, i);
    }
}

/// Among the calls up to `upto` that show the identifier of call `upto`,
/// there is a first one, and it is let through if the identifier was new.
proof fn lemma_first_sighting(seen: Set<Seq<char>>, calls: Seq<Seq<char>>, upto: int)
    requires
        0 <= upto < calls.len(),
        !seen.contains(calls[upto]),
        forall|i: int|
            0 <= i < calls.len() ==> (#[trigger] answers(seen, calls)[i] <==> !seen.contains(
                calls[i],
            ) && forall|j: int| 0 <= j < i ==> calls[j] != calls[i]),
    ensures
        exists|j: int| 0 <= j <= upto && calls[j] == calls[upto] && answers(seen, calls)[j],
    decreases upto,
{
    if exists|j: int| 0 <= j < upto && calls[j] == calls[upto] {
        let earlier = choose|j: int| 0 <= j < upto && calls[j] == calls[upto];
        lemma_first_sighting(seen, calls, earlier);
        let first = choose|j: int|
            0 <= j <= earlier && calls[j] == calls[earlier] && answers(seen, calls)[j];
        assert(0 <= first <= upto && calls[first] == calls[upto] && answers(seen, calls)[first]);
    } else {
        assert(answers(seen, calls)[upto]);
    }
}

impl View for IdentifierGate {
    type V = Set<Seq<char>>;

    closed spec fn view(&self) -> Set<Seq<char>> {
        self.seen@.map_values(|id: String| id@).to_set()
    }
}

impl IdentifierGate {
    /// No identifier is kept twice: one that was seen is never stored again.
    #[verifier::type_invariant]
    spec fn kept_once(self) -> bool {
        self.seen@.map_values(|id: String| id@).no_duplicates()
    }

    /// A doorkeeper that has seen nothing.
    pub fn new() -> (gate: IdentifierGate)
        ensures
            gate@ == Set::<Seq<char>>::empty(),
    {
        let gate = IdentifierGate { seen: Vec::new() };
        assert(gate@ =~= Set::<Seq<char>>::empty());
        gate
    }

    /// Whether `id` was shown to the doorkeeper before.
    pub fn has_seen(&self, id: &String) -> (known: bool)
        ensures
            known == self@.contains(id@),
    {
        let ghost texts = self.seen@.map_values(|id: String| id@);
        let mut index: usize = 0;
        while index < self.seen.len()
            invariant
                index <= self.seen.len(),
                texts == self.seen@.map_values(|id: String| id@),
                forall|k: int| 0 <= k < index ==> texts[k] != id@,
            decreases self.seen.len() - index,
        {
            if self.seen[index] == *id {
                assert(texts[index as int] == id@);
                return true;
            }
            index = index + 1;
        }
        false
    }

    /// Shows `id` to the doorkeeper. The answer is `true` the first time an
    /// identifier is shown and `false` every time after; either way the doorkeeper
    /// has seen it from now on. Test and record are one step: whoever holds
    /// the doorkeeper for a call holds it alone.
    pub fn observe(&mut self, id: String) -> (first: bool)
        ensures
            first == admits(old(self)@, id@),
            final(self)@ == after(old(self)@, id@),
    {
        if self.has_seen(&id) {
            assert(self@ =~= after(self@, id@));
            false
        } else {
            proof {
                use_type_invariant(&*self);
            }
            let ghost texts = self.seen@.map_values(|id: String| id@);
            assert(!texts.contains(id@));
            let mut seen: Vec<String> = Vec::new();
            std::mem::swap(&mut self.seen, &mut seen);
            seen.push(id);
            proof {
                let kept = seen@.map_values(|id: String| id@);
                assert(kept =~= texts.push(id@));
                assert forall|i: int, j: int| 0 <= i < kept.len() && 0 <= j < kept.len() && i
                    != j implies kept[i] != kept[j] by {
                    if i < texts.len() {
                        assert(texts.contains(texts[i]));
                    }
                    if j < texts.len() {
                        assert(texts.contains(texts[j]));
                    }
                }
            }
            std::mem::swap(&mut self.seen, &mut seen);
            assert(self.seen@.map_values(|id: String| id@) =~= texts.push(id@));
            assert(self@ =~= after(old(self)@, id@)) by {
                assert forall|other: Seq<char>|
                    self@.contains(other) <==> after(old(self)@, id@).contains(other) by {
                    if texts.push(id@).contains(other) {
                        let at = choose|i: int|
                            0 <= i < texts.push(id@).len() && texts.push(id@)[i] == other;
                        if at < texts.len() {
                            assert(texts[at] == other);
                        }
                    }
                    if texts.contains(other) {
                        let at = choose|i: int| 0 <= i < texts.len() && texts[i] == other;
                        assert(texts.push(id@)[at] == other);
                    }
                    assert(texts.push(id@)[texts.len() as int] == id@);
                }
            }
            true
        }
    }
}

} // verus!
