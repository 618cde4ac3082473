//! The scheduler's shared decision state: the set of job ids currently
//! eligible to tick.
//!
//! One repeating task per job runs outside this crate; at the top of every
//! tick it asks `is_active` and terminates for good when the answer is no.
//! This module owns that set's semantics — membership, and how `schedule` and
//! `unschedule` change it — while the caller wraps the structure in its own
//! reader/writer lock for concurrent use. Because each operation reads and
//! writes one id's membership only, operations on distinct ids are
//! independent, which is what makes the concurrent fan-in safe; the lemmas at
//! the end state that.

use vstd::prelude::*;

use crate::model::Job;

verus! {

/// Compares two string slices by content.
fn str_eq(a: &str, b: &str) -> (r: bool)
    ensures
        r == (a@ == b@),
{
    a.to_owned() == b.to_owned()
}

/// The set of currently scheduled job ids. The raw collection is never
/// exposed: membership is readable through `is_active` only, and only
/// `schedule` and `unschedule` change it.
pub struct JobScheduler {
    active: Vec<String>,
}

impl JobScheduler {
    /// The ids currently eligible to tick.
    pub closed spec fn active_ids(&self) -> Set<Seq<char>> {
        Set::new(
            |id: Seq<char>|
                exists|k: int| 0 <= k < self.active@.len() && self.active@[k]@ == id,
        )
    }

    /// Each id is held at most once.
    pub closed spec fn wf(&self) -> bool {
        forall|p: int, q: int|
            0 <= p < q < self.active@.len() ==> self.active@[p]@ != self.active@[q]@
    }

    /// A fresh scheduler has nothing scheduled.
    pub fn new() -> (s: Self)
        ensures
            s.wf(),
            s.active_ids() == Set::<Seq<char>>::empty(),
    {
        let s = Self { active: Vec::new() };
        proof {
            assert(s.active_ids() =~= Set::<Seq<char>>::empty());
        }
        s
    }

    /// Whether a tick for this id may start now.
    #[verifier::loop_isolation(false)]
    pub fn is_active(&self, job_id: &str) -> (r: bool)
        ensures
            r == self.active_ids().contains(job_id@),
    {
        let n = self.active.len();
        for i in 0..n
            invariant
                forall|k: int| 0 <= k < i ==> self.active@[k]@ != job_id@,
        {
            if str_eq(self.active[i].as_str(), job_id) {
                return true;
            }
        }
        false
    }

    /// Makes the job's id eligible to tick. Scheduling an id twice holds it
    /// once: the set after the call is the set before plus this id.
    #[verifier::loop_isolation(false)]
    pub fn schedule(&mut self, job: &Job)
        requires
            old(self).wf(),
            job.valid(),
        ensures
            final(self).wf(),
            final(self).active_ids() == old(self).active_ids().insert(job.id@),
    {
        if self.is_active(job.id.as_str()) {
            proof {
                assert(self.active_ids() =~= self.active_ids().insert(job.id@));
            }
            return ;
        }
        let ghost before = self.active@;
        self.active.push(job.id.clone());
        proof {
            assert forall|p: int, q: int|
                0 <= p < q < self.active@.len() implies self.active@[p]@
                != self.active@[q]@ by {
                if q == before.len() {
                    assert(self.active@[p] == before[p]);
                }
            }
            assert(self.active_ids() =~= old(self).active_ids().insert(job.id@)) by {
                assert forall|x: Seq<char>|
                    old(self).active_ids().insert(job.id@).contains(x)
                        implies self.active_ids().contains(x) by {
                    if x == job.id@ {
                        assert(self.active@[before.len() as int]@ == x);
                    } else {
                        let k = choose|k: int|
                            0 <= k < before.len() && before[k]@ == x;
                        assert(self.active@[k]@ == x);
                    }
                }
            }
        }
    }

    /// Takes the job id out of the active set: the membership test before
    /// every subsequent tick for it is false from here on. A check already
    /// past that test runs to completion; it alone may still finish.
    #[verifier::loop_isolation(false)]
    pub fn unschedule(&mut self, job_id: &str)
        requires
            old(self).wf(),
        ensures
            final(self).wf(),
            final(self).active_ids() == old(self).active_ids().remove(job_id@),
    {
        let n = self.active.len();
        for i in 0..n
            invariant
                self.active@ == old(self).active@,
                forall|k: int| 0 <= k < i ==> self.active@[k]@ != job_id@,
        {
            if str_eq(self.active[i].as_str(), job_id) {
                let ghost before = self.active@;
                self.active.remove(i);
                proof {
                    assert forall|p: int, q: int|
                        0 <= p < q < self.active@.len() implies self.active@[p]@
                        != self.active@[q]@ by {
                        assert(self.active@[p] == if p < i { before[p] } else { before[p + 1] });
                        assert(self.active@[q] == if q < i { before[q] } else { before[q + 1] });
                    }
                    assert(self.active_ids() =~= old(self).active_ids().remove(job_id@)) by {
                        assert forall|x: Seq<char>| self.active_ids().contains(x)
                            implies old(self).active_ids().remove(job_id@).contains(x) by {
                            let k = choose|k: int|
                                0 <= k < self.active@.len() && self.active@[k]@ == x;
                            let j = if k < i { k } else { k + 1 };
                            assert(before[j]@ == x);
                            assert(j != i);
                        }
                        assert forall|x: Seq<char>|
                            old(self).active_ids().remove(job_id@).contains(x)
                                implies self.active_ids().contains(x) by {
                            let k = choose|k: int|
                                0 <= k < before.len() && before[k]@ == x;
                            assert(k != i);
                            let j = if k < i { k } else { k - 1 };
                            assert(self.active@[j]@ == x);
                        }
                    }
                }
                return ;
            }
        }
        proof {
            assert(self.active_ids() =~= old(self).active_ids().remove(job_id@));
        }
    }
}

/// After `unschedule(id)` the id is not in the set any more, so no tick for
/// it passes the membership test that every tick begins with.
pub proof fn lemma_unscheduled_id_inactive(ids: Set<Seq<char>>, id: Seq<char>)
    ensures
        !ids.remove(id).contains(id),
{
}

/// Scheduling or unscheduling one id never touches another id's membership:
/// interleaved calls for distinct ids cannot lose or duplicate one another's
/// work.
pub proof fn lemma_distinct_ids_independent(ids: Set<Seq<char>>, this: Seq<char>, other: Seq<char>)
    requires
        this != other,
    ensures
        ids.insert(other).contains(this) == ids.contains(this),
        ids.remove(other).contains(this) == ids.contains(this),
{
}

/// Operations for distinct ids commute: whatever order interleaved
/// `schedule` and `unschedule` calls for different ids take effect in, the
/// resulting active set is the same.
pub proof fn lemma_distinct_ops_commute(ids: Set<Seq<char>>, a: Seq<char>, b: Seq<char>)
    requires
        a != b,
    ensures
        ids.insert(a).insert(b) =~= ids.insert(b).insert(a),
        ids.insert(a).remove(b) =~= ids.remove(b).insert(a),
        ids.remove(a).remove(b) =~= ids.remove(b).remove(a),
{
}

/// The active set after scheduling every id of `xs` in order.
pub open spec fn schedule_all(ids: Set<Seq<char>>, xs: Seq<Seq<char>>) -> Set<Seq<char>>
    decreases xs.len(),
{
    if xs.len() == 0 {
        ids
    } else {
        schedule_all(ids.insert(xs[0]), xs.drop_first())
    }
}

/// The active set after unscheduling every id of `xs` in order.
pub open spec fn unschedule_all(ids: Set<Seq<char>>, xs: Seq<Seq<char>>) -> Set<Seq<char>>
    decreases xs.len(),
{
    if xs.len() == 0 {
        ids
    } else {
        unschedule_all(ids.remove(xs[0]), xs.drop_first())
    }
}

proof fn lemma_schedule_all_membership(ids: Set<Seq<char>>, xs: Seq<Seq<char>>, x: Seq<char>)
    ensures
        schedule_all(ids, xs).contains(x) == (ids.contains(x) || xs.contains(x)),
    decreases xs.len(),
{
    if xs.len() > 0 {
        lemma_schedule_all_membership(ids.insert(xs[0]), xs.drop_first(), x);
        assert(xs.contains(x) == (xs[0] == x || xs.drop_first().contains(x))) by {
            if xs.contains(x) {
                let k = choose|k: int| 0 <= k < xs.len() && xs[k] == x;
                if k > 0 {
                    assert(xs.drop_first()[k - 1] == x);
                }
            }
            if xs.drop_first().contains(x) {
                let k = choose|k: int| 0 <= k < xs.drop_first().len() && xs.drop_first()[k] == x;
                assert(xs[k + 1] == x);
            }
        }
    }
}

proof fn lemma_unschedule_all_membership(ids: Set<Seq<char>>, xs: Seq<Seq<char>>, x: Seq<char>)
    ensures
        unschedule_all(ids, xs).contains(x) == (ids.contains(x) && !xs.contains(x)),
    decreases xs.len(),
{
    if xs.len() > 0 {
        lemma_unschedule_all_membership(ids.remove(xs[0]), xs.drop_first(), x);
        assert(xs.contains(x) == (xs[0] == x || xs.drop_first().contains(x))) by {
            if xs.contains(x) {
                let k = choose|k: int| 0 <= k < xs.len() && xs[k] == x;
                if k > 0 {
                    assert(xs.drop_first()[k - 1] == x);
                }
            }
            if xs.drop_first().contains(x) {
                let k = choose|k: int| 0 <= k < xs.drop_first().len() && xs.drop_first()[k] == x;
                assert(xs[k + 1] == x);
            }
        }
    }
}

/// Any number of schedules followed by unschedules of the same ids leaves the
/// active set empty: no membership is lost on the way in or left behind on
/// the way out.
pub proof fn lemma_schedule_then_unschedule_all_empty(xs: Seq<Seq<char>>)
    ensures
        unschedule_all(schedule_all(Set::<Seq<char>>::empty(), xs), xs) =~= Set::<Seq<char>>::empty(),
{
    assert forall|x: Seq<char>|
        !unschedule_all(schedule_all(Set::<Seq<char>>::empty(), xs), xs).contains(x) by {
        lemma_schedule_all_membership(Set::<Seq<char>>::empty(), xs, x);
        lemma_unschedule_all_membership(schedule_all(Set::<Seq<char>>::empty(), xs), xs, x);
    }
}

} // verus!
