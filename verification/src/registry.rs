//! The shared ledger of one pipeline run: the task registry keyed by stage
//! name, and the two statistics records.
//!
//! The registry answers the coordinator's one termination question — is any
//! task still `Pending` or `Running`? — without coupling it to stage
//! internals.

use vstd::prelude::*;
use crate::stats::{ReadStatistics, WriteStatistics};
use crate::task::{worktime_derived, Task};

verus! {

/// The per-run shared state: statistics of both directions plus the task
/// registry, a name-keyed collection of lifecycle records.
#[derive(Debug)]
pub struct DdContext {
    pub read_statistics: ReadStatistics,
    pub write_statistics: WriteStatistics,
    pub tasks: Vec<(String, Task)>,
}

impl DdContext {
    /// Registry well-formedness: no stage name occurs twice.
    pub open spec fn unique_names(&self) -> bool {
        forall|i: int, j: int|
            0 <= i < j < self.tasks@.len() ==> self.tasks@[i].0@ != self.tasks@[j].0@
    }

    /// Whether a record is registered under `name`.
    pub open spec fn has_task(&self, name: Seq<char>) -> bool {
        exists|i: int| 0 <= i < self.tasks@.len() && #[trigger] self.tasks@[i].0@ == name
    }

    /// The record registered under `name` (meaningful when `has_task(name)`).
    pub open spec fn task_of(&self, name: Seq<char>) -> Task {
        let i = choose|i: int|
            0 <= i < self.tasks@.len() && #[trigger] self.tasks@[i].0@ == name;
        self.tasks@[i].1
    }

    /// Whether some registered task has not reached a terminal state.
    pub open spec fn any_non_terminal(&self) -> bool {
        exists|i: int|
            0 <= i < self.tasks@.len()
                && !(#[trigger] self.tasks@[i].1).status.is_terminal()
    }

    /// A fresh context: zeroed statistics, no tasks.
    pub fn new() -> (r: Self)
        ensures
            r.tasks@.len() == 0,
            r.unique_names(),
            !r.any_non_terminal(),
            r.read_statistics.total_bytes_read == 0,
            r.read_statistics.total_reads == 0,
            r.read_statistics.total_errors == 0,
            r.write_statistics.total_bytes_written == 0,
            r.write_statistics.total_writes == 0,
            r.write_statistics.total_errors == 0,
    {
        DdContext {
            read_statistics: ReadStatistics::new(),
            write_statistics: WriteStatistics::new(),
            tasks: Vec::new(),
        }
    }

    /// The owning stage publishes its record: stores `task` under `name`,
    /// replacing whatever record was there.  Every other record is
    /// untouched.  Registration with its reuse rule is [`Self::new_task`].
    pub fn set_task(&mut self, name: &str, task: Task)
        requires
            old(self).unique_names(),
        ensures
            final(self).unique_names(),
            final(self).has_task(name@),
            final(self).task_of(name@) == task,
            forall|n: Seq<char>|
                n != name@ ==> (final(self).has_task(n) <==> old(self).has_task(n)),
            forall|n: Seq<char>|
                n != name@ && old(self).has_task(n)
                    ==> final(self).task_of(n) == old(self).task_of(n),
            final(self).read_statistics == old(self).read_statistics,
            final(self).write_statistics == old(self).write_statistics,
            old(self).has_task(name@)
                ==> final(self).tasks@.len() == old(self).tasks@.len(),
            !old(self).has_task(name@)
                ==> final(self).tasks@.len() == old(self).tasks@.len() + 1,
            forall|i: int|
                0 <= i < final(self).tasks@.len() ==> {
                    ||| (#[trigger] final(self).tasks@[i]).0@ == name@
                        && final(self).tasks@[i].1 == task
                    ||| 0 <= i < old(self).tasks@.len() && final(self).tasks@[i]
                        == old(self).tasks@[i]
                },
    {
        let key: String = name.to_owned();
        let n = self.tasks.len();
        let mut i: usize = 0;
        while i < n
            invariant
                *self == *old(self),
                old(self).unique_names(),
                n == self.tasks@.len(),
                0 <= i <= n,
                forall|j: int| 0 <= j < i ==> self.tasks@[j].0@ != name@,
                key@ == name@,
            decreases n - i,
        {
            if self.tasks[i].0 == key {
                self.tasks.set(i, (key, task));
                proof {
                    lemma_replace_at(*old(self), *self, i as int, name@, task);
                }
                return;
            }
            i = i + 1;
        }
        assert(!old(self).has_task(name@));
        self.tasks.push((key, task));
        proof {
            lemma_append_new(*old(self), *self, name@, task);
        }
    }

    /// Registers a fresh `Pending` record under `name`.  Registration is
    /// idempotent by name while the stage is still going, but it never
    /// reuses a name whose record is already terminal: such a registration
    /// is refused and the registry is left untouched.
    pub fn new_task(&mut self, name: &str) -> (registered: bool)
        requires
            old(self).unique_names(),
        ensures
            final(self).unique_names(),
            registered == !(old(self).has_task(name@) && old(self).task_of(
                name@,
            ).status.is_terminal()),
            !registered ==> *final(self) == *old(self),
            registered ==> {
                &&& final(self).has_task(name@)
                &&& final(self).task_of(name@).status is Pending
                &&& final(self).task_of(name@).completed_at is None
                &&& final(self).task_of(name@).worktime == 0
                &&& final(self).task_of(name@).return_code == 0
                &&& final(self).task_of(name@).started_at == final(self).task_of(
                    name@,
                ).last_updated_at
                &&& worktime_derived(final(self).task_of(name@))
                &&& forall|n: Seq<char>|
                    n != name@ ==> (final(self).has_task(n) <==> old(self).has_task(n))
                &&& forall|n: Seq<char>|
                    n != name@ && old(self).has_task(n) ==> final(self).task_of(n) == old(
                        self,
                    ).task_of(n)
                &&& (old(self).has_task(name@) ==> final(self).tasks@.len() == old(
                    self,
                ).tasks@.len())
                &&& (!old(self).has_task(name@) ==> final(self).tasks@.len() == old(
                    self,
                ).tasks@.len() + 1)
            },
            final(self).read_statistics == old(self).read_statistics,
            final(self).write_statistics == old(self).write_statistics,
    {
        let key: String = name.to_owned();
        let n = self.tasks.len();
        let mut i: usize = 0;
        while i < n
            invariant
                *self == *old(self),
                old(self).unique_names(),
                n == self.tasks@.len(),
                0 <= i <= n,
                forall|j: int| 0 <= j < i ==> self.tasks@[j].0@ != name@,
                key@ == name@,
            decreases n - i,
        {
            if self.tasks[i].0 == key {
                proof {
                    assert(self.tasks@[i as int].0@ == name@);
                    assert(self.has_task(name@));
                    let k = choose|k: int|
                        0 <= k < self.tasks@.len() && #[trigger] self.tasks@[k].0@ == name@;
                    assert(k == i);
                }
                if self.tasks[i].1.status.is_terminal() {
                    // never reuse a finished stage's record
                    return false;
                }
                let t = Task::new();
                self.tasks.set(i, (key, t));
                proof {
                    lemma_replace_at(*old(self), *self, i as int, name@, t);
                }
                return true;
            }
            i = i + 1;
        }
        assert(!old(self).has_task(name@));
        let t = Task::new();
        self.tasks.push((key, t));
        proof {
            lemma_append_new(*old(self), *self, name@, t);
        }
        true
    }

    /// True while at least one registered task is `Pending` or `Running`.
    /// This is the coordinator's sole termination predicate.
    pub fn are_tasks_pending(&self) -> (r: bool)
        ensures
            r == self.any_non_terminal(),
    {
        let n = self.tasks.len();
        let mut i: usize = 0;
        while i < n
            invariant
                n == self.tasks@.len(),
                0 <= i <= n,
                forall|j: int|
                    0 <= j < i ==> (#[trigger] self.tasks@[j].1).status.is_terminal(),
            decreases n - i,
        {
            if !self.tasks[i].1.status.is_terminal() {
                return true;
            }
            i = i + 1;
        }
        false
    }

    /// A read-only copy of both statistics records, for reporting.
    pub fn snapshot_statistics(&self) -> (r: (ReadStatistics, WriteStatistics))
        ensures
            r.0 == self.read_statistics,
            r.1 == self.write_statistics,
    {
        (self.read_statistics, self.write_statistics)
    }
}

/// After replacing the record at a matching index, the registry maps `name`
/// to the new record and every other name to its old record.
proof fn lemma_replace_at(pre: DdContext, post: DdContext, i: int, name: Seq<char>, task: Task)
    requires
        pre.unique_names(),
        0 <= i < pre.tasks@.len(),
        pre.tasks@[i].0@ == name,
        post.tasks@.len() == pre.tasks@.len(),
        post.tasks@[i].0@ == name,
        post.tasks@[i].1 == task,
        forall|j: int|
            0 <= j < pre.tasks@.len() && j != i ==> post.tasks@[j] == pre.tasks@[j],
        post.read_statistics == pre.read_statistics,
        post.write_statistics == pre.write_statistics,
    ensures
        post.unique_names(),
        post.has_task(name),
        post.task_of(name) == task,
        forall|n: Seq<char>| n != name ==> (post.has_task(n) <==> pre.has_task(n)),
        forall|n: Seq<char>|
            n != name && pre.has_task(n) ==> post.task_of(n) == pre.task_of(n),
        pre.has_task(name),
{
    assert forall|p: int, q: int| 0 <= p < q < post.tasks@.len() implies post.tasks@[p].0@
        != post.tasks@[q].0@ by {
        assert(post.tasks@[p].0@ == pre.tasks@[p].0@);
        assert(post.tasks@[q].0@ == pre.tasks@[q].0@);
    }
    assert(post.tasks@[i].0@ == name);
    assert(post.has_task(name));
    let k = choose|k: int|
        0 <= k < post.tasks@.len() && #[trigger] post.tasks@[k].0@ == name;
    assert(k == i);
    assert forall|n: Seq<char>| n != name implies (post.has_task(n) <==> pre.has_task(
        n,
    )) by {
        if pre.has_task(n) {
            let j = choose|j: int|
                0 <= j < pre.tasks@.len() && #[trigger] pre.tasks@[j].0@ == n;
            assert(j != i);
            assert(post.tasks@[j].0@ == n);
        }
        if post.has_task(n) {
            let j = choose|j: int|
                0 <= j < post.tasks@.len() && #[trigger] post.tasks@[j].0@ == n;
            assert(j != i);
            assert(pre.tasks@[j].0@ == n);
        }
    }
    assert forall|n: Seq<char>| n != name && pre.has_task(n) implies post.task_of(n)
        == pre.task_of(n) by {
        let j = choose|j: int|
            0 <= j < pre.tasks@.len() && #[trigger] pre.tasks@[j].0@ == n;
        assert(post.tasks@[j].0@ == n);
        let j2 = choose|j2: int|
            0 <= j2 < post.tasks@.len() && #[trigger] post.tasks@[j2].0@ == n;
        assert(j2 == j);
    }
}

/// After appending a record under a new name, the registry maps `name` to it
/// and every other name to its old record.
proof fn lemma_append_new(pre: DdContext, post: DdContext, name: Seq<char>, task: Task)
    requires
        pre.unique_names(),
        !pre.has_task(name),
        post.tasks@.len() == pre.tasks@.len() + 1,
        post.tasks@[pre.tasks@.len() as int].0@ == name,
        post.tasks@[pre.tasks@.len() as int].1 == task,
        forall|j: int| 0 <= j < pre.tasks@.len() ==> post.tasks@[j] == pre.tasks@[j],
        post.read_statistics == pre.read_statistics,
        post.write_statistics == pre.write_statistics,
    ensures
        post.unique_names(),
        post.has_task(name),
        post.task_of(name) == task,
        forall|n: Seq<char>| n != name ==> (post.has_task(n) <==> pre.has_task(n)),
        forall|n: Seq<char>|
            n != name && pre.has_task(n) ==> post.task_of(n) == pre.task_of(n),
{
    let m = pre.tasks@.len() as int;
    assert forall|p: int, q: int| 0 <= p < q < post.tasks@.len() implies post.tasks@[p].0@
        != post.tasks@[q].0@ by {
        if q < m {
            assert(post.tasks@[p].0@ == pre.tasks@[p].0@);
            assert(post.tasks@[q].0@ == pre.tasks@[q].0@);
        } else {
            assert(q == m);
            assert(post.tasks@[p].0@ == pre.tasks@[p].0@);
            assert(!pre.has_task(name));
            assert(pre.tasks@[p].0@ != name);
        }
    }
    assert(post.tasks@[m].0@ == name);
    assert(post.has_task(name));
    let k = choose|k: int|
        0 <= k < post.tasks@.len() && #[trigger] post.tasks@[k].0@ == name;
    assert(k == m);
    assert forall|n: Seq<char>| n != name implies (post.has_task(n) <==> pre.has_task(
        n,
    )) by {
        if pre.has_task(n) {
            let j = choose|j: int|
                0 <= j < pre.tasks@.len() && #[trigger] pre.tasks@[j].0@ == n;
            assert(post.tasks@[j].0@ == n);
        }
        if post.has_task(n) {
            let j = choose|j: int|
                0 <= j < post.tasks@.len() && #[trigger] post.tasks@[j].0@ == n;
            assert(j != m);
            assert(pre.tasks@[j].0@ == n);
        }
    }
    assert forall|n: Seq<char>| n != name && pre.has_task(n) implies post.task_of(n)
        == pre.task_of(n) by {
        let j = choose|j: int|
            0 <= j < pre.tasks@.len() && #[trigger] pre.tasks@[j].0@ == n;
        assert(post.tasks@[j].0@ == n);
        let j2 = choose|j2: int|
            0 <= j2 < post.tasks@.len() && #[trigger] post.tasks@[j2].0@ == n;
        assert(j2 == j);
    }
}

} // verus!
