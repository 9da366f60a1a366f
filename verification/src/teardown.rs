//! Releasing an event set: the calls that give a handle back to the counter
//! subsystem, and what follows when one of them is refused.

use crate::error::PAPI_OK;
use crate::facility::{Answer, Call, Confined, Progress, Reply, Request, Stage, PAPI_RUNNING};
use vstd::prelude::*;

verus! {

/// Whether the state bits of an event set say that its counters run.
pub open spec fn counting(state: i32) -> bool {
    state & PAPI_RUNNING != 0
}

/// The release of one event set, waiting for the reply to one call.
#[derive(Debug)]
pub struct Closing {
    event_set: i32,
    stage: Stage,
    confined: Confined,
}

/// The mathematical content of a [`Closing`].
pub struct ClosingModel {
    /// The handle that is being released.
    pub event_set: i32,
    /// The call whose reply is awaited.
    pub stage: Stage,
}

impl ClosingModel {
    /// The release of an event set that never counted, or has stopped.
    pub open spec fn idle(event_set: i32) -> ClosingModel {
        ClosingModel { event_set, stage: Stage::Cleanup }
    }

    /// The release of an event set that may still be counting.
    pub open spec fn active(event_set: i32) -> ClosingModel {
        ClosingModel { event_set, stage: Stage::State }
    }

    /// The call whose reply is awaited.
    pub open spec fn call(self) -> Call {
        match self.stage {
            Stage::State => Call::State { event_set: self.event_set },
            Stage::Halt => Call::Halt { event_set: self.event_set },
            Stage::Cleanup => Call::CleanupEventSet { event_set: self.event_set },
            Stage::Destroy => Call::DestroyEventSet { event_set: self.event_set },
        }
    }

    /// The stage that follows the current one once its call has succeeded,
    /// or `None` after the last.
    pub open spec fn following(self, answer: Answer) -> Option<Stage> {
        match self.stage {
            Stage::State => if counting(answer.number) {
                Some(Stage::Halt)
            } else {
                Some(Stage::Cleanup)
            },
            Stage::Halt => Some(Stage::Cleanup),
            Stage::Cleanup => Some(Stage::Destroy),
            Stage::Destroy => None,
        }
    }

    /// Where the release stands after `answer`: a refused call is fatal, an
    /// accepted one leads to the next stage, and the release is done once the
    /// event set is freed.
    pub open spec fn step(self, answer: Answer) -> Progress<ClosingModel, ()> {
        if answer.status != PAPI_OK {
            Progress::Fatal(self.stage, answer.status)
        } else {
            match self.following(answer) {
                Some(stage) => Progress::Pending(ClosingModel { event_set: self.event_set, stage }),
                None => Progress::Done(()),
            }
        }
    }
}

impl View for Closing {
    type V = ClosingModel;

    closed spec fn view(&self) -> ClosingModel {
        ClosingModel { event_set: self.event_set, stage: self.stage }
    }
}

impl Closing {
    /// Begins the release of an event set that never counted, or has stopped.
    pub(crate) fn idle(event_set: i32) -> (r: Closing)
        ensures
            r@ == ClosingModel::idle(event_set),
    {
        Closing { event_set, stage: Stage::Cleanup, confined: Confined::new() }
    }

    /// Begins the release of an event set that may still be counting.
    pub(crate) fn active(event_set: i32) -> (r: Closing)
        ensures
            r@ == ClosingModel::active(event_set),
    {
        Closing { event_set, stage: Stage::State, confined: Confined::new() }
    }

    /// The call whose reply the release awaits.
    pub fn request(&self) -> (r: Request<'static>)
        ensures
            r@ == self@.call(),
    {
        match self.stage {
            Stage::State => Request::State { event_set: self.event_set },
            Stage::Halt => Request::Halt { event_set: self.event_set },
            Stage::Cleanup => Request::CleanupEventSet { event_set: self.event_set },
            Stage::Destroy => Request::DestroyEventSet { event_set: self.event_set },
        }
    }

    /// Continues the release with the reply to its request.
    pub fn resume(self, reply: Reply) -> (r: Progress<Closing, ()>)
        ensures
            r.viewed() == self@.step(reply@),
    {
        if reply.status != PAPI_OK {
            return Progress::Fatal(self.stage, reply.status);
        }
        let next = match self.stage {
            Stage::State => if reply.number & PAPI_RUNNING != 0 {
                Some(Stage::Halt)
            } else {
                Some(Stage::Cleanup)
            },
            Stage::Halt => Some(Stage::Cleanup),
            Stage::Cleanup => Some(Stage::Destroy),
            Stage::Destroy => None,
        };
        match next {
            Some(stage) => Progress::Pending(
                Closing { event_set: self.event_set, stage, confined: self.confined },
            ),
            None => Progress::Done(()),
        }
    }
}

} // verus!
