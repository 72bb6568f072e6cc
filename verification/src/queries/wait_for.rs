//! Waiting for tasks to finish: the set of tasks still awaited, and what a
//! task's stored state says of it.
use vstd::prelude::*;

use crate::config::{queue_key, Config};
use crate::decode::DecodeError;
use crate::error::Error;
use crate::script::texts_view;
use crate::status::{parse_status, status_named, TaskStatus};

verus! {

/// The identifiers of the tasks still awaited.
#[derive(Debug)]
pub struct PendingIds {
    ids: Vec<String>,
}

impl View for PendingIds {
    type V = Set<Seq<char>>;

    closed spec fn view(&self) -> Set<Seq<char>> {
        texts_view(self.ids@).to_set()
    }
}

/// Where `id` stands among `ids`, if it does.
fn position(ids: &Vec<String>, id: &String) -> (r: Option<usize>)
    ensures
        match r {
            Some(j) => j < ids@.len() && ids@[j as int]@ == id@,
            None => !texts_view(ids@).contains(id@),
        },
{
    let mut i: usize = 0;
    while i < ids.len()
        invariant
            i <= ids@.len(),
            forall|k: int| 0 <= k < i ==> (#[trigger] ids@[k])@ != id@,
        decreases ids@.len() - i,
    {
        if ids[i] == *id {
            return Some(i);
        }
        i = i + 1;
    }
    proof {
        if texts_view(ids@).contains(id@) {
            let k = choose|k: int| 0 <= k < ids@.len() && texts_view(ids@)[k] == id@;
            assert(ids@[k]@ == id@);
        }
    }
    None
}

/// Removing an element from a list without duplicates removes it from the
/// list's set and leaves no duplicates.
proof fn lemma_remove_to_set(s: Seq<Seq<char>>, j: int)
    requires
        s.no_duplicates(),
        0 <= j < s.len(),
    ensures
        s.remove(j).to_set() == s.to_set().remove(s[j]),
        s.remove(j).no_duplicates(),
{
    let r = s.remove(j);
    assert forall|a: int, b: int| 0 <= a < r.len() && 0 <= b < r.len() && a != b implies r[a]
        != r[b] by {
        let a2 = if a < j { a } else { a + 1 };
        let b2 = if b < j { b } else { b + 1 };
        assert(r[a] == s[a2]);
        assert(r[b] == s[b2]);
    }
    assert forall|y: Seq<char>| r.to_set().contains(y) implies s.to_set().remove(s[j]).contains(
        y,
    ) by {
        assert(r.contains(y));
        let k = choose|k: int| 0 <= k < r.len() && r[k] == y;
        let k2 = if k < j { k } else { k + 1 };
        assert(s[k2] == y);
        assert(s.contains(y));
    }
    assert forall|y: Seq<char>| s.to_set().remove(s[j]).contains(y) implies r.to_set().contains(
        y,
    ) by {
        assert(s.contains(y));
        let k = choose|k: int| 0 <= k < s.len() && s[k] == y;
        assert(k != j);
        let k2 = if k < j { k } else { k - 1 };
        assert(r[k2] == y);
        assert(r.contains(y));
    }
    assert(r.to_set() =~= s.to_set().remove(s[j]));
}

impl PendingIds {
    /// No identifier occurs twice.
    #[verifier::type_invariant]
    closed spec fn inv(self) -> bool {
        texts_view(self.ids@).no_duplicates()
    }

    /// Awaits the tasks whose identifiers read `ids`.
    pub fn new(ids: &Vec<String>) -> (p: PendingIds)
        ensures
            p@ == texts_view(ids@).to_set(),
    {
        let mut kept: Vec<String> = Vec::new();
        let mut i: usize = 0;
        while i < ids.len()
            invariant
                i <= ids@.len(),
                texts_view(kept@).no_duplicates(),
                texts_view(kept@).to_set() == texts_view(ids@.take(i as int)).to_set(),
            decreases ids@.len() - i,
        {
            let ghost before = kept@;
            assert(texts_view(ids@.take(i + 1)) =~= texts_view(ids@.take(i as int)).push(
                ids@[i as int]@,
            ));
            let x = ids[i].clone();
            proof {
                texts_view(ids@.take(i as int)).lemma_push_to_set_commute(x@);
            }
            match position(&kept, &x) {
                Some(j) => {
                    assert(texts_view(kept@)[j as int] == x@);
                    assert(texts_view(kept@).to_set().contains(x@));
                    assert(texts_view(ids@.take(i + 1)).to_set() =~= texts_view(
                        ids@.take(i as int),
                    ).to_set());
                },
                None => {
                    kept.push(x);
                    assert(texts_view(kept@) =~= texts_view(before).push(ids@[i as int]@));
                    proof {
                        texts_view(before).lemma_push_to_set_commute(ids@[i as int]@);
                    }
                    assert(texts_view(kept@).to_set() =~= texts_view(ids@.take(i + 1)).to_set());
                },
            }
            i = i + 1;
        }
        assert(ids@.take(i as int) =~= ids@);
        PendingIds { ids: kept }
    }

    /// Whether no task is awaited any more.
    pub fn is_empty(&self) -> (b: bool)
        ensures
            b == (self@ == Set::<Seq<char>>::empty()),
    {
        if self.ids.len() == 0 {
            assert(self@ =~= Set::<Seq<char>>::empty());
            true
        } else {
            assert(self@.contains(self.ids@[0]@)) by {
                assert(texts_view(self.ids@)[0] == self.ids@[0]@);
            }
            false
        }
    }

    /// The identifiers of the tasks still awaited, each once.
    pub fn ids(&self) -> (v: Vec<String>)
        ensures
            texts_view(v@).to_set() == self@,
            texts_view(v@).no_duplicates(),
    {
        proof {
            use_type_invariant(self);
        }
        let mut v: Vec<String> = Vec::new();
        let mut i: usize = 0;
        while i < self.ids.len()
            invariant
                i <= self.ids@.len(),
                v@ == self.ids@.take(i as int),
            decreases self.ids@.len() - i,
        {
            v.push(self.ids[i].clone());
            assert(v@ =~= self.ids@.take(i + 1));
            i = i + 1;
        }
        assert(self.ids@.take(i as int) =~= self.ids@);
        v
    }

    /// Records the tasks reported finished: they are no longer awaited.
    /// Gives back whether nothing was reported, in which case the caller
    /// waits before it asks again.
    pub fn record(&mut self, finished: &Vec<String>) -> (wait: bool)
        ensures
            wait == (finished@.len() == 0),
            final(self)@ == old(self)@.difference(texts_view(finished@).to_set()),
    {
        proof {
            use_type_invariant(&*self);
        }
        let mut ids: Vec<String> = Vec::new();
        std::mem::swap(&mut ids, &mut self.ids);
        let ghost start = texts_view(ids@).to_set();
        let mut i: usize = 0;
        while i < finished.len()
            invariant
                i <= finished@.len(),
                texts_view(ids@).no_duplicates(),
                texts_view(ids@).to_set() == start.difference(
                    texts_view(finished@.take(i as int)).to_set(),
                ),
            decreases finished@.len() - i,
        {
            let ghost before = texts_view(ids@);
            assert(texts_view(finished@.take(i + 1)) =~= texts_view(finished@.take(i as int)).push(
                finished@[i as int]@,
            ));
            match position(&ids, &finished[i]) {
                Some(j) => {
                    ids.remove(j);
                    proof {
                        assert(texts_view(ids@) =~= before.remove(j as int));
                        lemma_remove_to_set(before, j as int);
                        texts_view(finished@.take(i as int)).lemma_push_to_set_commute(
                            finished@[i as int]@,
                        );
                        assert(texts_view(ids@).to_set() =~= start.difference(
                            texts_view(finished@.take(i + 1)).to_set(),
                        ));
                    }
                },
                None => {
                    proof {
                        texts_view(finished@.take(i as int)).lemma_push_to_set_commute(
                            finished@[i as int]@,
                        );
                        assert(!texts_view(ids@).to_set().contains(finished@[i as int]@));
                    }
                    assert(texts_view(ids@).to_set() =~= start.difference(
                        texts_view(finished@.take(i + 1)).to_set(),
                    ));
                },
            }
            i = i + 1;
        }
        assert(finished@.take(i as int) =~= finished@);
        self.ids = ids;
        finished.len() == 0
    }
}

/// The key of the metadata of the task whose identifier reads `task_id`.
pub fn task_meta_key(config: &Config, task_id: &str) -> (k: String)
    ensures
        k@ == queue_key(config.queue@, ":meta"@) + ":"@ + task_id@,
{
    let mut k = config.job_meta_hash();
    k.append(":");
    k.append(task_id);
    k
}

/// What a task's stored state says: no state yet means that the task has not
/// finished; a state is read by its name, and a name of no state is an
/// error.
pub fn status_of_reply(status: Option<String>) -> (r: Result<Option<TaskStatus>, Error>)
    ensures
        match status {
            None => r == Ok::<Option<TaskStatus>, Error>(None),
            Some(s) => match status_named(s@) {
                Some(st) => r == Ok::<Option<TaskStatus>, Error>(Some(st)),
                None => r matches Err(Error::Decode(DecodeError::UnknownStatus(t))) && t@ == s@,
            },
        },
{
    match status {
        None => Ok(None),
        Some(s) => match parse_status(s.as_str()) {
            Some(st) => Ok(Some(st)),
            None => Err(Error::Decode(DecodeError::UnknownStatus(s))),
        },
    }
}

/// The attempt a stored result reports: the stored count, or 1 when none
/// is stored.
pub fn reported_attempt(attempts: Option<usize>) -> (n: usize)
    ensures
        n == match attempts {
            Some(a) => a,
            None => 1,
        },
{
    match attempts {
        Some(a) => a,
        None => 1,
    }
}

/// The stored outcome of a finished task: its state, its encoded result and
/// the attempt that produced it.
#[derive(Clone, Debug)]
pub struct StoredResult {
    /// The state the task finished in.
    pub status: TaskStatus,
    /// The task's result, encoded.
    pub data: Vec<u8>,
    /// The attempt that produced the result.
    pub attempt: usize,
}

/// What a task's stored fields report: a finished task only when both a
/// state and a result are stored, with the stored attempt count, or 1 when
/// none is stored.
pub fn stored_result(status: Option<TaskStatus>, result: Option<Vec<u8>>, attempts: Option<
    usize,
>) -> (r: Option<StoredResult>)
    ensures
        match (status, result) {
            (Some(st), Some(data)) => r matches Some(s) && s.status == st && s.data@ == data@
                && s.attempt == match attempts {
                Some(a) => a,
                None => 1,
            },
            _ => r is None,
        },
{
    match status {
        Some(st) => match result {
            Some(data) => Some(StoredResult { status: st, data, attempt: reported_attempt(attempts) }),
            None => None,
        },
        None => None,
    }
}

} // verus!
