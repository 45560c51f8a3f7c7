use vstd::prelude::*;

verus! {

/// Mathematical model of a terminal event.
pub ghost enum EventModel {
    /// The process ran to completion; `success` is whether its exit status
    /// was zero, and the two buffers are the raw captured bytes.
    Completed { id: int, success: bool, stdout: Seq<u8>, stderr: Seq<u8> },
    /// The process could not be started at all.
    LaunchFailed { id: int, detail: Seq<char> },
}

/// The immutable message a worker emits exactly once for its task: either
/// the process completed (with its exit verdict and captured bytes), or it
/// could not be started.
pub enum Event {
    Completed { id: usize, success: bool, stdout: Vec<u8>, stderr: Vec<u8> },
    LaunchFailed { id: usize, detail: String },
}

impl View for Event {
    type V = EventModel;

    open spec fn view(&self) -> EventModel {
        match self {
            Event::Completed { id, success, stdout, stderr } => EventModel::Completed {
                id: *id as int,
                success: *success,
                stdout: stdout@,
                stderr: stderr@,
            },
            Event::LaunchFailed { id, detail } => EventModel::LaunchFailed {
                id: *id as int,
                detail: detail@,
            },
        }
    }
}

/// The task a modeled event addresses.
pub open spec fn event_id(ev: EventModel) -> int {
    match ev {
        EventModel::Completed { id, .. } => id,
        EventModel::LaunchFailed { id, .. } => id,
    }
}

impl Event {
    /// The task this event addresses.
    pub fn id(&self) -> (r: usize)
        ensures
            r as int == event_id(self@),
    {
        match self {
            Event::Completed { id, .. } => *id,
            Event::LaunchFailed { id, .. } => *id,
        }
    }
}

} // verus!
