use vstd::prelude::*;
use vstd::string::{StrSliceExecFns, StringExecFns};

use crate::numfmt::{dec_spec, u64_to_string};
use crate::registry::{wf_tasks, Registry};
use crate::style::{
    csi, cursor_up, erase_end_line, erase_line_seq, paint_bold_underline_white, paint_green,
    paint_red, paint_white, paint_yellow, painted, sgr_bold_underline_white, sgr_green, sgr_red,
    sgr_white, sgr_yellow,
};
use crate::task::{Status, Task, TaskModel};

verus! {

/// Elapsed whole seconds a task has been running at clock reading
/// `now_ms`, for a clock that has not run backwards past the launch stamp.
pub open spec fn elapsed_secs(t: TaskModel, now_ms: u64) -> nat {
    if t.started_at_ms <= now_ms {
        (((now_ms - t.started_at_ms) as nat) / 1000) as nat
    } else {
        0
    }
}

/// The status prefix of a task's display line: yellow with the elapsed
/// seconds while running, red on any failure, green on success.
pub open spec fn status_prefix(t: TaskModel, now_ms: u64) -> Seq<char> {
    match t.status {
        Status::Running => painted(
            sgr_yellow(),
            "running "@ + dec_spec(elapsed_secs(t, now_ms)) + "s: "@,
        ),
        Status::Succeeded => painted(sgr_green(), "done: "@),
        Status::Failed => painted(sgr_red(), "error: "@),
        Status::LaunchError => painted(sgr_red(), "error: "@),
    }
}

/// One task's display line: the status prefix, then the command in white.
pub open spec fn line_spec(t: TaskModel, now_ms: u64) -> Seq<char> {
    status_prefix(t, now_ms) + painted(sgr_white(), t.command)
}

/// A line as it stands in the frame: the line, erase-to-end, newline.
pub open spec fn line_unit(t: TaskModel, now_ms: u64) -> Seq<char> {
    line_spec(t, now_ms) + erase_line_seq() + "\n"@
}

/// The header as it stands in the frame.
pub open spec fn header_unit() -> Seq<char> {
    painted(sgr_bold_underline_white(), "Running Parallel"@) + erase_line_seq() + "\n"@
}

/// The first `k` task lines of the frame, in ascending index order.
pub open spec fn lines_upto(tasks: Seq<TaskModel>, now_ms: u64, k: int) -> Seq<char>
    decreases k,
{
    if k <= 0 {
        Seq::empty()
    } else {
        lines_upto(tasks, now_ms, k - 1) + line_unit(tasks[k - 1], now_ms)
    }
}

/// What a redraw prepends: nothing on the first frame, else a cursor move
/// up over the previous frame (one row per task, plus the header).
pub open spec fn frame_prefix(first_write: bool, n: nat) -> Seq<char> {
    if first_write {
        Seq::empty()
    } else {
        csi() + dec_spec(n + 1) + "A"@
    }
}

/// The whole frame: the redraw prefix, the header, then one line per task
/// in ascending id order.
pub open spec fn frame_spec(tasks: Seq<TaskModel>, now_ms: u64, first_write: bool) -> Seq<char> {
    frame_prefix(first_write, tasks.len()) + header_unit() + lines_upto(
        tasks,
        now_ms,
        tasks.len() as int,
    )
}

/// The elapsed running time a task is displayed with never decreases as
/// the clock reading advances: successive redraws of a still-`Running`
/// task show monotonically non-decreasing seconds.
pub proof fn lemma_elapsed_monotone(t: TaskModel, now1: u64, now2: u64)
    requires
        now1 <= now2,
    ensures
        elapsed_secs(t, now1) <= elapsed_secs(t, now2),
{
    if t.started_at_ms <= now1 {
        vstd::arithmetic::div_mod::lemma_div_is_ordered(
            (now1 - t.started_at_ms) as int,
            (now2 - t.started_at_ms) as int,
            1000,
        );
    }
}

/// The task lines of the frame from index `k` on.
pub open spec fn lines_from(tasks: Seq<TaskModel>, now_ms: u64, k: int) -> Seq<char>
    decreases tasks.len() - k,
{
    if k < 0 || k >= tasks.len() {
        Seq::empty()
    } else {
        line_unit(tasks[k], now_ms) + lines_from(tasks, now_ms, k + 1)
    }
}

/// The frame's task lines split at any index: first the lines before it,
/// then the lines from it on.
pub proof fn lemma_lines_split(tasks: Seq<TaskModel>, now_ms: u64, k: int)
    requires
        0 <= k <= tasks.len(),
    ensures
        lines_upto(tasks, now_ms, tasks.len() as int) == lines_upto(tasks, now_ms, k)
            + lines_from(tasks, now_ms, k),
    decreases tasks.len() - k,
{
    if k == tasks.len() {
        assert(lines_upto(tasks, now_ms, tasks.len() as int) =~= lines_upto(tasks, now_ms, k)
            + lines_from(tasks, now_ms, k));
    } else {
        lemma_lines_split(tasks, now_ms, k + 1);
        assert((lines_upto(tasks, now_ms, k) + line_unit(tasks[k], now_ms)) + lines_from(
            tasks,
            now_ms,
            k + 1,
        ) =~= lines_upto(tasks, now_ms, k) + (line_unit(tasks[k], now_ms) + lines_from(
            tasks,
            now_ms,
            k + 1,
        )));
    }
}

/// Every frame shows the tasks in ascending id order, whatever order they
/// completed in: after the redraw prefix and the header, the frame is the
/// lines of tasks `0..k`, then the line of the task whose id is `k`, then
/// the lines of the tasks after it.
pub proof fn lemma_display_order(tasks: Seq<TaskModel>, now_ms: u64, first_write: bool, k: int)
    requires
        wf_tasks(tasks),
        0 <= k < tasks.len(),
    ensures
        tasks[k].id == k,
        frame_spec(tasks, now_ms, first_write) == frame_prefix(first_write, tasks.len())
            + header_unit() + (lines_upto(tasks, now_ms, k) + (line_unit(tasks[k], now_ms)
            + lines_from(tasks, now_ms, k + 1))),
{
    lemma_lines_split(tasks, now_ms, k);
    assert(lines_from(tasks, now_ms, k) == line_unit(tasks[k], now_ms) + lines_from(
        tasks,
        now_ms,
        k + 1,
    ));
    assert(lines_upto(tasks, now_ms, k) + (line_unit(tasks[k], now_ms) + lines_from(
        tasks,
        now_ms,
        k + 1,
    )) =~= (lines_upto(tasks, now_ms, k) + line_unit(tasks[k], now_ms)) + lines_from(
        tasks,
        now_ms,
        k + 1,
    ));
}

proof fn lemma_lines_upto_stable(tasks: Seq<TaskModel>, now1: u64, now2: u64, k: int)
    requires
        0 <= k <= tasks.len(),
        forall|i: int|
            0 <= i < tasks.len() && tasks[i].status == Status::Running ==> #[trigger] elapsed_secs(
                tasks[i],
                now1,
            ) == elapsed_secs(tasks[i], now2),
    ensures
        lines_upto(tasks, now1, k) == lines_upto(tasks, now2, k),
    decreases k,
{
    if k > 0 {
        lemma_lines_upto_stable(tasks, now1, now2, k - 1);
        assert(line_unit(tasks[k - 1], now1) == line_unit(tasks[k - 1], now2)) by {
            if tasks[k - 1].status == Status::Running {
                assert(elapsed_secs(tasks[k - 1], now1) == elapsed_secs(tasks[k - 1], now2));
            }
        }
    }
}

/// Redrawing with no new events changes nothing but the elapsed-time
/// fields: two frames of the same registry are byte-identical as long as
/// each still-`Running` task shows the same elapsed seconds; the header
/// and the lines of terminal tasks never depend on the clock at all.
pub proof fn lemma_redraw_stable(tasks: Seq<TaskModel>, now1: u64, now2: u64, first_write: bool)
    requires
        forall|i: int|
            0 <= i < tasks.len() && tasks[i].status == Status::Running ==> #[trigger] elapsed_secs(
                tasks[i],
                now1,
            ) == elapsed_secs(tasks[i], now2),
    ensures
        frame_spec(tasks, now1, first_write) == frame_spec(tasks, now2, first_write),
{
    lemma_lines_upto_stable(tasks, now1, now2, tasks.len() as int);
}

/// Render one task's display line.
pub fn render_line(t: &Task, now_ms: u64) -> (r: String)
    requires
        t.started_at_ms <= now_ms,
    ensures
        r@ == line_spec(t@, now_ms),
{
    let mut r: String = match t.status {
        Status::Running => {
            let secs = (now_ms - t.started_at_ms) / 1000;
            let mut msg = String::new();
            msg.append("running ");
            let digits = u64_to_string(secs);
            msg.append(digits.as_str());
            msg.append("s: ");
            proof {
                assert(msg@ =~= "running "@ + dec_spec(elapsed_secs(t@, now_ms)) + "s: "@);
            }
            paint_yellow(msg.as_str())
        },
        Status::Succeeded => paint_green("done: "),
        Status::Failed => paint_red("error: "),
        Status::LaunchError => paint_red("error: "),
    };
    let painted_cmd = paint_white(t.command.as_str());
    r.append(painted_cmd.as_str());
    proof {
        assert(r@ =~= line_spec(t@, now_ms));
    }
    r
}

/// Render the whole frame for the registry as it stands.
pub fn render_frame(reg: &Registry, now_ms: u64, first_write: bool) -> (r: String)
    requires
        reg@.len() + 1 < 65536,
        forall|i: int| 0 <= i < reg@.len() ==> #[trigger] reg@[i].started_at_ms <= now_ms,
    ensures
        r@ == frame_spec(reg@, now_ms, first_write),
{
    let n = reg.len();
    let mut r: String = if first_write {
        String::new()
    } else {
        cursor_up((n as u16) + 1)
    };
    let header = paint_bold_underline_white("Running Parallel");
    r.append(header.as_str());
    let erase = erase_end_line();
    r.append(erase.as_str());
    r.append("\n");
    proof {
        assert(r@ =~= frame_prefix(first_write, reg@.len()) + header_unit());
    }
    let mut i: usize = 0;
    while i < n
        invariant
            n == reg@.len(),
            n + 1 < 65536,
            forall|j: int| 0 <= j < reg@.len() ==> #[trigger] reg@[j].started_at_ms <= now_ms,
            0 <= i <= n,
            r@ == frame_prefix(first_write, reg@.len()) + header_unit() + lines_upto(
                reg@,
                now_ms,
                i as int,
            ),
        decreases n - i,
    {
        proof {
            assert(reg@[i as int].started_at_ms <= now_ms);
        }
        let line = render_line(reg.task_at(i), now_ms);
        r.append(line.as_str());
        let e = erase_end_line();
        r.append(e.as_str());
        r.append("\n");
        proof {
            assert(r@ =~= frame_prefix(first_write, reg@.len()) + header_unit() + lines_upto(
                reg@,
                now_ms,
                i + 1,
            ));
        }
        i += 1;
    }
    r
}

/// One task's entry in the final report: its captured output under a
/// heading naming the command, or nothing when no output was captured.
pub open spec fn report_unit(t: TaskModel) -> Seq<char> {
    if t.output.len() > 0 {
        "Output for "@ + t.command + ":\n"@ + t.output + "\n\n\n"@
    } else {
        Seq::empty()
    }
}

/// The report entries of the first `k` tasks, in ascending index order.
pub open spec fn report_upto(tasks: Seq<TaskModel>, k: int) -> Seq<char>
    decreases k,
{
    if k <= 0 {
        Seq::empty()
    } else {
        report_upto(tasks, k - 1) + report_unit(tasks[k - 1])
    }
}

/// The final report printed after the watch loop ends.
pub open spec fn report_spec(tasks: Seq<TaskModel>) -> Seq<char> {
    report_upto(tasks, tasks.len() as int)
}

/// Render the final report: every task's captured output, labeled with its
/// command, in ascending id order; tasks with no output are skipped.
pub fn render_report(reg: &Registry) -> (r: String)
    ensures
        r@ == report_spec(reg@),
{
    let n = reg.len();
    let mut r = String::new();
    let mut i: usize = 0;
    while i < n
        invariant
            n == reg@.len(),
            0 <= i <= n,
            r@ == report_upto(reg@, i as int),
        decreases n - i,
    {
        let t = reg.task_at(i);
        if !t.output.as_str().is_empty() {
            r.append("Output for ");
            r.append(t.command.as_str());
            r.append(":\n");
            r.append(t.output.as_str());
            r.append("\n\n\n");
        }
        proof {
            assert(r@ =~= report_upto(reg@, i + 1));
        }
        i += 1;
    }
    r
}

} // verus!
