use vstd::prelude::*;

use crate::event::{event_id, Event, EventModel};
use crate::task::{is_failure, is_terminal, Status, Task, TaskModel};

verus! {

/// What a terminal event makes of the running task it addresses: the exit
/// verdict (or the launch failure) decides the terminal status, and the
/// captured text becomes the task's output.
pub open spec fn applied_task(t: TaskModel, ev: EventModel) -> TaskModel {
    match ev {
        EventModel::Completed { success, stdout, stderr, .. } => (TaskModel {
            status: if success {
                Status::Succeeded
            } else {
                Status::Failed
            },
            output: crate::task::capture_text(
                crate::task::lossy_of(stdout),
                crate::task::lossy_of(stderr),
            ),
            ..t
        }),
        EventModel::LaunchFailed { detail, .. } => (TaskModel {
            status: Status::LaunchError,
            output: detail,
            ..t
        }),
    }
}

/// An event takes effect only when it addresses a known task that is still
/// `Running`; a stray id or a second event for the same task changes
/// nothing.
pub open spec fn event_applies(tasks: Seq<TaskModel>, ev: EventModel) -> bool {
    &&& 0 <= event_id(ev) < tasks.len()
    &&& tasks[event_id(ev)].status == Status::Running
}

/// The registry after one event: the addressed task moves to its terminal
/// state, every other task is untouched; an event that does not apply
/// leaves the registry unchanged.
pub open spec fn apply_event_spec(tasks: Seq<TaskModel>, ev: EventModel) -> Seq<TaskModel> {
    if event_applies(tasks, ev) {
        tasks.update(event_id(ev), applied_task(tasks[event_id(ev)], ev))
    } else {
        tasks
    }
}

/// Every task sits at the index equal to its id, so display order by index
/// is ascending-id order.
pub open spec fn wf_tasks(tasks: Seq<TaskModel>) -> bool {
    forall|i: int| 0 <= i < tasks.len() ==> #[trigger] tasks[i].id == i
}

/// The watch loop stops as soon as any task has failed, or once every task
/// is terminal (vacuously so for an empty registry).
pub open spec fn should_exit_spec(tasks: Seq<TaskModel>) -> bool {
    ||| exists|i: int| 0 <= i < tasks.len() && is_failure(#[trigger] tasks[i].status)
    ||| forall|i: int| 0 <= i < tasks.len() ==> is_terminal(#[trigger] tasks[i].status)
}

/// Once a task is terminal it never changes again: no later event — not
/// even one addressed to it — alters its status or any other field, so in
/// particular no task ever re-enters `Running`.
pub proof fn lemma_terminal_is_final(tasks: Seq<TaskModel>, ev: EventModel, i: int)
    requires
        0 <= i < tasks.len(),
        is_terminal(tasks[i].status),
    ensures
        apply_event_spec(tasks, ev).len() == tasks.len(),
        apply_event_spec(tasks, ev)[i] == tasks[i],
{
}

/// A launch failure moves its task to `LaunchError`, with the error detail
/// as the task's recorded output.
pub proof fn lemma_launch_failure_is_terminal(tasks: Seq<TaskModel>, id: int, detail: Seq<char>)
    requires
        event_applies(tasks, EventModel::LaunchFailed { id, detail }),
    ensures
        apply_event_spec(tasks, EventModel::LaunchFailed { id, detail })[id].status
            == Status::LaunchError,
        is_terminal(apply_event_spec(tasks, EventModel::LaunchFailed { id, detail })[id].status),
{
}

/// The registry after a whole sequence of events, applied in arrival order.
pub open spec fn apply_all(tasks: Seq<TaskModel>, evs: Seq<EventModel>) -> Seq<TaskModel>
    decreases evs.len(),
{
    if evs.len() == 0 {
        tasks
    } else {
        apply_all(apply_event_spec(tasks, evs[0]), evs.drop_first())
    }
}

/// Whether some event in `evs` addresses task `id`.
pub open spec fn has_event_for(evs: Seq<EventModel>, id: int) -> bool {
    exists|j: int| 0 <= j < evs.len() && event_id(#[trigger] evs[j]) == id
}

/// Events act exactly once, in any arrival order: over a batch of events
/// with pairwise distinct ids, each addressing a task still `Running`,
/// every addressed task ends terminal and every other task is untouched —
/// no event is lost, and no task is moved twice.
pub proof fn lemma_events_apply_exactly_once(tasks: Seq<TaskModel>, evs: Seq<EventModel>)
    requires
        forall|j: int, k: int| 0 <= j < k < evs.len() ==> event_id(evs[j]) != event_id(evs[k]),
        forall|j: int| 0 <= j < evs.len() ==> 0 <= event_id(#[trigger] evs[j]) < tasks.len(),
        forall|j: int|
            0 <= j < evs.len() ==> tasks[event_id(#[trigger] evs[j])].status == Status::Running,
    ensures
        apply_all(tasks, evs).len() == tasks.len(),
        forall|i: int|
            0 <= i < tasks.len() && has_event_for(evs, i) ==> is_terminal(
                #[trigger] apply_all(tasks, evs)[i].status,
            ),
        forall|i: int|
            0 <= i < tasks.len() && !has_event_for(evs, i) ==> apply_all(tasks, evs)[i]
                == tasks[i],
    decreases evs.len(),
{
    if evs.len() > 0 {
        let e0 = evs[0];
        let id0 = event_id(e0);
        let rest = evs.drop_first();
        let t1 = apply_event_spec(tasks, e0);
        assert(event_applies(tasks, e0));
        assert(is_terminal(t1[id0].status));
        assert forall|j: int, k: int| 0 <= j < k < rest.len() implies event_id(rest[j])
            != event_id(rest[k]) by {
            assert(rest[j] == evs[j + 1]);
            assert(rest[k] == evs[k + 1]);
        }
        assert forall|j: int| 0 <= j < rest.len() implies 0 <= event_id(#[trigger] rest[j])
            < t1.len() && t1[event_id(rest[j])].status == Status::Running by {
            assert(rest[j] == evs[j + 1]);
            assert(event_id(evs[j + 1]) != id0);
        }
        lemma_events_apply_exactly_once(t1, rest);
        assert forall|i: int| 0 <= i < tasks.len() && has_event_for(evs, i) implies is_terminal(
            #[trigger] apply_all(tasks, evs)[i].status,
        ) by {
            let j = choose|j: int| 0 <= j < evs.len() && event_id(#[trigger] evs[j]) == i;
            if j == 0 {
                assert(!has_event_for(rest, i)) by {
                    if has_event_for(rest, i) {
                        let k = choose|k: int|
                            0 <= k < rest.len() && event_id(#[trigger] rest[k]) == i;
                        assert(rest[k] == evs[k + 1]);
                    }
                }
                assert(apply_all(tasks, evs)[i] == t1[i]);
            } else {
                assert(rest[j - 1] == evs[j]);
                assert(has_event_for(rest, i));
            }
        }
        assert forall|i: int| 0 <= i < tasks.len() && !has_event_for(evs, i) implies apply_all(
            tasks,
            evs,
        )[i] == tasks[i] by {
            assert(event_id(evs[0]) != i);
            assert(t1[i] == tasks[i]);
            assert(!has_event_for(rest, i)) by {
                if has_event_for(rest, i) {
                    let k = choose|k: int| 0 <= k < rest.len() && event_id(#[trigger] rest[k]) == i;
                    assert(rest[k] == evs[k + 1]);
                }
            }
        }
    }
}

/// With exactly one event per launched task — in whatever order the
/// processes happened to finish — the registry reaches all-terminal and
/// the watch loop is told to stop.
pub proof fn lemma_all_events_terminate(tasks: Seq<TaskModel>, evs: Seq<EventModel>)
    requires
        forall|j: int, k: int| 0 <= j < k < evs.len() ==> event_id(evs[j]) != event_id(evs[k]),
        forall|j: int| 0 <= j < evs.len() ==> 0 <= event_id(#[trigger] evs[j]) < tasks.len(),
        forall|j: int|
            0 <= j < evs.len() ==> tasks[event_id(#[trigger] evs[j])].status == Status::Running,
        forall|i: int| 0 <= i < tasks.len() ==> has_event_for(evs, i),
    ensures
        apply_all(tasks, evs).len() == tasks.len(),
        forall|i: int|
            0 <= i < tasks.len() ==> is_terminal(#[trigger] apply_all(tasks, evs)[i].status),
        should_exit_spec(apply_all(tasks, evs)),
{
    lemma_events_apply_exactly_once(tasks, evs);
}

/// The store of all launched tasks, indexed by id. The watch loop is its
/// only writer; workers only send events.
pub struct Registry {
    tasks: Vec<Task>,
}

impl View for Registry {
    type V = Seq<TaskModel>;

    closed spec fn view(&self) -> Seq<TaskModel> {
        self.tasks@.map_values(|t: Task| t@)
    }
}

impl Registry {
    pub open spec fn wf(&self) -> bool {
        wf_tasks(self@)
    }

    /// An empty registry.
    pub fn new() -> (r: Registry)
        ensures
            r@ == Seq::<TaskModel>::empty(),
            r.wf(),
    {
        let r = Registry { tasks: Vec::new() };
        proof {
            assert(r@ =~= Seq::<TaskModel>::empty());
        }
        r
    }

    /// How many tasks have been launched.
    pub fn len(&self) -> (n: usize)
        ensures
            n == self@.len(),
    {
        self.tasks.len()
    }

    /// The task with id `i`.
    pub fn task_at(&self, i: usize) -> (t: &Task)
        requires
            i < self@.len(),
        ensures
            t@ == self@[i as int],
    {
        &self.tasks[i]
    }

    /// Record a newly launched command: it gets the next id in launch
    /// order, starts `Running`, and is stamped with the launch time.
    pub fn launch(&mut self, command: String, now_ms: u64) -> (id: usize)
        ensures
            id == old(self)@.len(),
            final(self)@ == old(self)@.push(
                TaskModel {
                    id: old(self)@.len() as int,
                    command: command@,
                    status: Status::Running,
                    started_at_ms: now_ms,
                    output: Seq::empty(),
                },
            ),
            old(self).wf() ==> final(self).wf(),
    {
        let id = self.tasks.len();
        let ghost old_view = self@;
        let t = Task::new(id, command, now_ms);
        self.tasks.push(t);
        proof {
            assert(self@ =~= old_view.push(t@));
        }
        id
    }

    /// Apply one received event: if it addresses a task still `Running`,
    /// that task alone moves to its terminal state; an unknown id or a
    /// duplicate event is ignored defensively and reported as such.
    pub fn apply_event(&mut self, ev: &Event) -> (applied: bool)
        ensures
            applied == event_applies(old(self)@, ev@),
            final(self)@ == apply_event_spec(old(self)@, ev@),
            old(self).wf() ==> final(self).wf(),
    {
        let ghost old_view = self@;
        let id = ev.id();
        if id >= self.tasks.len() {
            return false;
        }
        let running = matches!(self.tasks[id].status, Status::Running);
        if !running {
            return false;
        }
        match ev {
            Event::Completed { success, stdout, stderr, .. } => {
                let t = &mut self.tasks[id];
                t.status = if *success {
                    Status::Succeeded
                } else {
                    Status::Failed
                };
                t.set_output(stdout, stderr);
            },
            Event::LaunchFailed { detail, .. } => {
                let t = &mut self.tasks[id];
                t.status = Status::LaunchError;
                t.output = detail.clone();
            },
        }
        proof {
            assert(self@ =~= apply_event_spec(old_view, ev@));
        }
        true
    }

    /// Whether the watch loop should stop now.
    pub fn should_exit(&self) -> (r: bool)
        ensures
            r == should_exit_spec(self@),
    {
        let n = self.tasks.len();
        let mut saw_failure = false;
        let mut all_terminal = true;
        let mut i: usize = 0;
        while i < n
            invariant
                n == self@.len(),
                0 <= i <= n,
                saw_failure == exists|j: int|
                    0 <= j < i && is_failure(#[trigger] self@[j].status),
                all_terminal == forall|j: int|
                    0 <= j < i ==> is_terminal(#[trigger] self@[j].status),
            decreases n - i,
        {
            let s = self.tasks[i].status;
            proof {
                assert(self@[i as int].status == s);
            }
            if matches!(s, Status::Failed | Status::LaunchError) {
                saw_failure = true;
            }
            if matches!(s, Status::Running) {
                all_terminal = false;
            }
            i += 1;
        }
        saw_failure || all_terminal
    }
}

} // verus!
