//! The batch coordinator: drives one ingestion unit per source under a
//! fixed concurrency ceiling, collects every unit's terminal outcome, and
//! turns the collection into the batch's reported result.

use vstd::prelude::*;
use vstd::string::*;
use crate::unit::UnitError;

verus! {

/// The concurrency ceiling: how many units may be in flight at once.
pub const PARALLEL_REQUESTS: usize = 20;

/// One unit's terminal outcome: the stored filename, or why it failed.
#[derive(Debug)]
pub enum UnitOutcome {
    Done(String),
    Failed(UnitError),
}

/// Whether an outcome reports a success.
pub open spec fn is_done(o: UnitOutcome) -> bool {
    o matches UnitOutcome::Done(_)
}

/// How many outcomes of the sequence are successes.
pub open spec fn done_count(s: Seq<UnitOutcome>) -> nat
    decreases s.len(),
{
    if s.len() == 0 {
        0
    } else {
        done_count(s.drop_last()) + (if is_done(s.last()) {
            1nat
        } else {
            0nat
        })
    }
}

/// The filenames of the successful outcomes, in sequence order.
pub open spec fn done_filenames(s: Seq<UnitOutcome>) -> Seq<Seq<char>>
    decreases s.len(),
{
    if s.len() == 0 {
        Seq::empty()
    } else {
        done_filenames(s.drop_last()) + (match s.last() {
            UnitOutcome::Done(f) => seq![f@],
            UnitOutcome::Failed(_) => Seq::empty(),
        })
    }
}

/// The views of a sequence of owned strings.
pub open spec fn strings_view(v: Seq<String>) -> Seq<Seq<char>> {
    v.map_values(|s: String| s@)
}

/// Each successful unit contributes exactly one filename and each failed
/// unit none, whatever order the outcomes arrived in.
pub proof fn lemma_done_filenames_count(s: Seq<UnitOutcome>)
    ensures
        done_filenames(s).len() == done_count(s),
    decreases s.len(),
{
    if s.len() > 0 {
        lemma_done_filenames_count(s.drop_last());
    }
}

/// A batch whose units all succeeded reports exactly one filename per
/// source.
pub proof fn lemma_all_done_counts(s: Seq<UnitOutcome>)
    requires
        forall|i: int| 0 <= i < s.len() ==> is_done(#[trigger] s[i]),
    ensures
        done_filenames(s).len() == s.len(),
    decreases s.len(),
{
    if s.len() > 0 {
        lemma_all_done_counts(s.drop_last());
    }
}

/// The batch's reported result: the collected filenames when at least one
/// unit succeeded, a client error otherwise — an empty batch included.
#[derive(Debug)]
pub enum BatchOutcome {
    Success(Vec<String>),
    ClientError,
}

/// Aggregates every unit's terminal outcome. A failed unit contributes no
/// filename but never suppresses its siblings; a batch with no success at
/// all — in particular an empty batch — is a client error, never an empty
/// success.
pub fn batch_response(outcomes: &Vec<UnitOutcome>) -> (r: BatchOutcome)
    ensures
        done_filenames(outcomes@).len() == 0 ==> r is ClientError,
        done_filenames(outcomes@).len() > 0 ==> (r matches BatchOutcome::Success(v)
            && strings_view(v@) == done_filenames(outcomes@)),
{
    let mut names: Vec<String> = Vec::new();
    let mut i: usize = 0;
    while i < outcomes.len()
        invariant
            0 <= i <= outcomes@.len(),
            strings_view(names@) =~= done_filenames(outcomes@.subrange(0, i as int)),
        decreases outcomes@.len() - i,
    {
        match &outcomes[i] {
            UnitOutcome::Done(f) => {
                names.push(String::from_str(f.as_str()));
            },
            UnitOutcome::Failed(_) => {},
        }
        proof {
            let prefix = outcomes@.subrange(0, i + 1);
            assert(prefix.drop_last() =~= outcomes@.subrange(0, i as int));
            assert(prefix.last() == outcomes@[i as int]);
            assert(strings_view(names@) =~= done_filenames(prefix));
        }
        i = i + 1;
    }
    proof {
        assert(outcomes@.subrange(0, outcomes@.len() as int) =~= outcomes@);
    }
    if names.len() > 0 {
        proof {
            assert(strings_view(names@).len() == names@.len());
        }
        BatchOutcome::Success(names)
    } else {
        proof {
            assert(strings_view(names@).len() == names@.len());
        }
        BatchOutcome::ClientError
    }
}

/// Admission control for one batch: at most `cap` of its `total` units are
/// ever in flight at once; as soon as one completes, the next queued source
/// may be admitted.
pub struct BatchCoordinator {
    /// How many sources the batch has.
    pub total: usize,
    /// The concurrency ceiling the batch was opened with.
    pub cap: usize,
    /// How many units have been admitted so far.
    pub launched: usize,
    /// How many units have reached a terminal outcome so far.
    pub finished: usize,
}

impl BatchCoordinator {
    /// Units admitted but not yet terminal.
    pub open spec fn in_flight(self) -> int {
        self.launched - self.finished
    }

    /// Admission never outruns the sources, completion never outruns
    /// admission, and the ceiling is never exceeded.
    pub open spec fn wf(self) -> bool {
        &&& 1 <= self.cap
        &&& self.finished <= self.launched <= self.total
        &&& self.in_flight() <= self.cap
    }

    /// Opens a batch of `total` sources under the ceiling `cap`.
    pub fn new(total: usize, cap: usize) -> (c: Self)
        requires
            1 <= cap,
        ensures
            c.wf(),
            c.total == total,
            c.cap == cap,
            c.launched == 0,
            c.finished == 0,
    {
        BatchCoordinator { total, cap, launched: 0, finished: 0 }
    }

    /// Admits the next source when one is queued and a slot is free,
    /// handing its index out; otherwise changes nothing.
    pub fn launch_next(&mut self) -> (r: Option<usize>)
        requires
            old(self).wf(),
        ensures
            final(self).wf(),
            old(self).launched < old(self).total && old(self).in_flight() < old(self).cap ==> (r
                == Some(old(self).launched) && *final(self) == (BatchCoordinator {
                launched: (old(self).launched + 1) as usize,
                ..*old(self)
            })),
            !(old(self).launched < old(self).total && old(self).in_flight() < old(self).cap)
                ==> (r is None && *final(self) == *old(self)),
    {
        if self.launched < self.total && self.launched - self.finished < self.cap {
            let idx = self.launched;
            self.launched = self.launched + 1;
            Some(idx)
        } else {
            None
        }
    }

    /// Records that one in-flight unit reached its terminal outcome,
    /// freeing a slot.
    pub fn complete_one(&mut self)
        requires
            old(self).wf(),
            old(self).in_flight() > 0,
        ensures
            final(self).wf(),
            *final(self) == (BatchCoordinator {
                finished: (old(self).finished + 1) as usize,
                ..*old(self)
            }),
    {
        self.finished = self.finished + 1;
    }

    /// Whether every source has been admitted and has completed.
    pub fn is_done(&self) -> (r: bool)
        requires
            self.wf(),
        ensures
            r == (self.launched == self.total && self.finished == self.total),
    {
        self.launched == self.total && self.finished == self.total
    }
}

/// The concurrency ceiling holds in every reachable coordinator state:
/// however a batch is driven through `launch_next` and `complete_one`, the
/// units in flight never exceed the cap the batch was opened with.
pub proof fn lemma_cap_respected(c: BatchCoordinator)
    requires
        c.wf(),
    ensures
        c.in_flight() <= c.cap,
{
}

} // verus!
