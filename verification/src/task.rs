use vstd::prelude::*;
use vstd::string::StringExecFns;

verus! {

/// What lenient UTF-8 decoding makes of a byte buffer. The exact decoding
/// is not spelled out; the facts the contracts need are stated on the
/// trusted decoder below.
pub uninterp spec fn lossy_of(b: Seq<u8>) -> Seq<char>;

/// The text a task's captured output is shown as: each non-empty stream
/// under its banner, standard output first.
pub open spec fn capture_text(out: Seq<char>, err: Seq<char>) -> Seq<char> {
    (if out.len() > 0 {
        "====STDOUT====\n"@ + out
    } else {
        Seq::<char>::empty()
    }) + (if err.len() > 0 {
        "====STDERR====\n"@ + err
    } else {
        Seq::<char>::empty()
    })
}

/// Lifecycle of one launched command. A task starts `Running` and moves
/// exactly once to one of the three terminal states.
#[derive(Clone, Copy, Debug, PartialEq, Eq, Structural)]
pub enum Status {
    Running,
    Succeeded,
    Failed,
    LaunchError,
}

/// A terminal status: no further transition ever leaves it.
pub open spec fn is_terminal(s: Status) -> bool {
    s != Status::Running
}

/// A failure status: either the process exited nonzero or it never started.
pub open spec fn is_failure(s: Status) -> bool {
    s == Status::Failed || s == Status::LaunchError
}

/// Mathematical model of one task record.
pub ghost struct TaskModel {
    pub id: int,
    pub command: Seq<char>,
    pub status: Status,
    pub started_at_ms: u64,
    pub output: Seq<char>,
}

/// One tracked record per launched command. Created at launch time and
/// mutated only by the watch loop, never by the worker that runs the
/// process.
pub struct Task {
    pub id: usize,
    pub command: String,
    pub status: Status,
    pub started_at_ms: u64,
    pub output: String,
}

impl View for Task {
    type V = TaskModel;

    open spec fn view(&self) -> TaskModel {
        TaskModel {
            id: self.id as int,
            command: self.command@,
            status: self.status,
            started_at_ms: self.started_at_ms,
            output: self.output@,
        }
    }
}

impl Task {
    /// A fresh record: `Running`, stamped with the launch time, no output yet.
    pub fn new(id: usize, command: String, now_ms: u64) -> (t: Task)
        ensures
            t@ == (TaskModel {
                id: id as int,
                command: command@,
                status: Status::Running,
                started_at_ms: now_ms,
                output: Seq::empty(),
            }),
    {
        Task { id, command, status: Status::Running, started_at_ms: now_ms, output: String::new() }
    }

    /// Fill the captured output from the process's raw byte buffers,
    /// decoded leniently, each non-empty stream under its banner. Nothing
    /// else about the task changes.
    pub fn set_output(&mut self, stdout: &Vec<u8>, stderr: &Vec<u8>)
        ensures
            final(self)@ == (TaskModel {
                output: capture_text(lossy_of(stdout@), lossy_of(stderr@)),
                ..old(self)@
            }),
    {
        let mut to = String::new();
        let out_text = lossy_text(stdout);
        let err_text = lossy_text(stderr);
        if stdout.len() > 0 {
            to.append("====STDOUT====\n");
            to.append(out_text.as_str());
        }
        if stderr.len() > 0 {
            to.append("====STDERR====\n");
            to.append(err_text.as_str());
        }
        proof {
            assert(to@ =~= capture_text(lossy_of(stdout@), lossy_of(stderr@)));
        }
        self.output = to;
    }
}

/// Relies on `String::from_utf8_lossy`: decodes the bytes as UTF-8,
/// replacing invalid sequences with the replacement character, so the
/// result is empty exactly when the input is, and plain ASCII input
/// decodes to itself character for character.
#[verifier::external_body]
fn lossy_text(b: &Vec<u8>) -> (r: String)
    ensures
        r@ == lossy_of(b@),
        b@.len() == 0 ==> r@ == Seq::<char>::empty(),
        b@.len() > 0 ==> r@.len() > 0,
        (forall|i: int| 0 <= i < b@.len() ==> b@[i] < 0x80) ==> r@ == b@.map_values(
            (|x: u8| x as char),
        ),
{
    String::from_utf8_lossy(b).into_owned()
}

} // verus!
