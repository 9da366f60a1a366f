//! Stopping a running event set: the counters are written into a sample and
//! the handle is released, whatever the outcome.

use crate::error::{Error, Reason};
use crate::event_set::sample::{Sample, SampleModel};
use crate::event_set::{RunningEventSet, RunningModel};
use crate::facility::{Answer, Call, Progress, Reply, Request};
use crate::teardown::{Closing, ClosingModel};
use vstd::prelude::*;

verus! {

/// The stop of a running event set, waiting for the reply to one call.
#[derive(Debug)]
pub struct Stopping {
    state: State,
}

#[derive(Debug)]
enum State {
    Collecting { session: RunningEventSet, capacity: usize },
    Releasing { result: Result<(), Error>, closing: Closing },
}

/// The mathematical content of a [`Stopping`].
pub enum StoppingModel {
    /// The counters are being stopped and written into a buffer of
    /// `capacity` values.
    Collecting { session: RunningModel, capacity: nat },
    /// The outcome is settled as `result` and the handle is being released.
    Releasing { result: Result<(), Error>, closing: ClosingModel },
}

impl StoppingModel {
    /// The stop of `session` into `sample` before its first call. For a
    /// sample that the event set does not accept the counters are not
    /// written: the
    /// outcome is settled as `InvalidArgument` and the handle is released.
    pub open spec fn begin(session: RunningModel, sample: SampleModel) -> StoppingModel {
        if session.accepts(sample) {
            StoppingModel::Collecting { session, capacity: sample.values.len() }
        } else {
            StoppingModel::Releasing {
                result: Err(Error::InvalidArgument(Reason::SampleNotInitialized)),
                closing: ClosingModel::active(session.event_set),
            }
        }
    }

    /// The call whose reply is awaited.
    pub open spec fn call(self) -> Call {
        match self {
            StoppingModel::Collecting { session, capacity } => Call::Stop {
                event_set: session.event_set,
                capacity,
            },
            StoppingModel::Releasing { result, closing } => closing.call(),
        }
    }

    /// Where the stop stands after `answer`, and what `sample` then holds.
    /// The reply to `Stop` settles the outcome and, on success, gives the
    /// sample its values; from then on the handle is released, the sample
    /// stays as it is, and the stop ends with the settled outcome.
    pub open spec fn step(self, answer: Answer, sample: SampleModel) -> (
        Progress<StoppingModel, Result<(), Error>>,
        SampleModel,
    ) {
        match self {
            StoppingModel::Collecting { session, capacity } => {
                let (result, taken) = session.recorded(sample, answer);
                (
                    Progress::Pending(
                        StoppingModel::Releasing {
                            result,
                            closing: ClosingModel::active(session.event_set),
                        },
                    ),
                    taken,
                )
            },
            StoppingModel::Releasing { result, closing } => (
                match closing.step(answer) {
                    Progress::Pending(closing) => Progress::Pending(
                        StoppingModel::Releasing { result, closing },
                    ),
                    Progress::Done(_) => Progress::Done(result),
                    Progress::Fatal(stage, status) => Progress::Fatal(stage, status),
                },
                sample,
            ),
        }
    }
}

impl View for Stopping {
    type V = StoppingModel;

    closed spec fn view(&self) -> StoppingModel {
        match self.state {
            State::Collecting { session, capacity } => StoppingModel::Collecting {
                session: session@,
                capacity: capacity as nat,
            },
            State::Releasing { result, closing } => StoppingModel::Releasing {
                result,
                closing: closing@,
            },
        }
    }
}

impl Stopping {
    /// The call whose reply the stop awaits.
    pub fn request(&self) -> (r: Request<'static>)
        ensures
            r@ == self@.call(),
    {
        match &self.state {
            State::Collecting { session, capacity } => Request::Stop {
                event_set: session.event_set(),
                capacity: *capacity,
            },
            State::Releasing { result, closing } => closing.request(),
        }
    }

    /// Continues the stop with the reply to its request. `sample` is the
    /// sample that the stop was begun with.
    pub fn resume(self, reply: Reply, sample: &mut Sample) -> (r: Progress<
        Stopping,
        Result<(), Error>,
    >)
        ensures
            (r.viewed(), final(sample)@) == self@.step(reply@, old(sample)@),
    {
        match self.state {
            State::Collecting { session, capacity } => {
                let result = session.record(sample, reply);
                Progress::Pending(
                    Stopping {
                        state: State::Releasing {
                            result,
                            closing: Closing::active(session.event_set()),
                        },
                    },
                )
            },
            State::Releasing { result, closing } => match closing.resume(reply) {
                Progress::Pending(closing) => Progress::Pending(
                    Stopping { state: State::Releasing { result, closing } },
                ),
                Progress::Done(_) => Progress::Done(result),
                Progress::Fatal(stage, status) => Progress::Fatal(stage, status),
            },
        }
    }
}

impl RunningEventSet {
    /// Begins the stop of the event set into `sample`. The event set is used
    /// up: whether the stop succeeds or fails, its handle is released before
    /// the stop ends.
    pub fn stop(self, sample: &Sample) -> (r: Progress<Stopping, Result<(), Error>>)
        ensures
            r.viewed() == Progress::<StoppingModel, Result<(), Error>>::Pending(
                StoppingModel::begin(self@, sample@),
            ),
    {
        match self.screen(sample) {
            Ok(_) => {
                let capacity = sample.values().len();
                Progress::Pending(Stopping { state: State::Collecting { session: self, capacity } })
            },
            Err(error) => Progress::Pending(
                Stopping {
                    state: State::Releasing {
                        result: Err(error),
                        closing: Closing::active(self.event_set()),
                    },
                },
            ),
        }
    }
}

} // verus!
