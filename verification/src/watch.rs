use vstd::prelude::*;

use crate::event::Event;
use crate::registry::{apply_event_spec, should_exit_spec, Registry};
use crate::render::{frame_spec, render_frame};

verus! {

/// One iteration of the watch loop's decisions, the channel receive left
/// to the caller: apply the received event, if any, to the registry,
/// render the frame for the registry as it now stands, and decide whether
/// the loop is done. The caller only prints the returned frame and stops
/// when told to.
pub fn loop_step(reg: &mut Registry, ev: Option<&Event>, now_ms: u64, first_write: bool) -> (r: (
    String,
    bool,
))
    requires
        old(reg)@.len() + 1 < 65536,
        forall|i: int| 0 <= i < old(reg)@.len() ==> #[trigger] old(reg)@[i].started_at_ms <= now_ms,
    ensures
        final(reg)@ == (match ev {
            Some(e) => apply_event_spec(old(reg)@, e@),
            None => old(reg)@,
        }),
        old(reg).wf() ==> final(reg).wf(),
        r.0@ == frame_spec(final(reg)@, now_ms, first_write),
        r.1 == should_exit_spec(final(reg)@),
{
    match ev {
        Some(e) => {
            reg.apply_event(e);
        },
        None => {},
    }
    proof {
        assert(reg@.len() == old(reg)@.len());
        assert forall|i: int| 0 <= i < reg@.len() implies #[trigger] reg@[i].started_at_ms
            <= now_ms by {
            assert(old(reg)@[i].started_at_ms <= now_ms);
        }
    }
    let frame = render_frame(reg, now_ms, first_write);
    let done = reg.should_exit();
    (frame, done)
}

} // verus!
