//! Duplicating a ready event set onto a handle of its own.

use crate::error::{verdict, Error};
use crate::event_set::{ReadyEventSet, ReadyModel};
use crate::facility::{blank_codes, modelled, overlay, Answer, Call, Progress, Reply, Request};
use crate::teardown::{Closing, ClosingModel};
use vstd::prelude::*;

verus! {

/// The duplication of a ready event set, waiting for the reply to one call.
#[derive(Debug)]
pub struct Cloning {
    state: State,
}

#[derive(Debug)]
enum State {
    Listing { source: Source },
    Creating { source: Source, codes: Vec<i32> },
    Registering { source: Source, codes: Vec<i32>, event_set: i32 },
    Releasing { error: Error, closing: Closing },
}

/// The mathematical content of a [`Cloning`].
pub enum CloningModel {
    /// The events of the source are being listed.
    Listing { source: ReadyModel },
    /// A handle for the duplicate is being allocated; `codes` are the events
    /// that the handle of `source` listed.
    Creating { source: ReadyModel, codes: Seq<i32> },
    /// The events are being registered with the duplicate's handle
    /// `event_set`.
    Registering { source: ReadyModel, codes: Seq<i32>, event_set: i32 },
    /// The duplication has failed with `error` and the duplicate's handle is
    /// being released.
    Releasing { error: Error, closing: ClosingModel },
}

impl CloningModel {
    /// The duplication of `source` before its first call.
    pub open spec fn begin(source: ReadyModel) -> CloningModel {
        CloningModel::Listing { source }
    }

    /// The call whose reply is awaited.
    pub open spec fn call(self) -> Call {
        match self {
            CloningModel::Listing { source } => source.listing(),
            CloningModel::Creating { source, codes } => Call::CreateEventSet,
            CloningModel::Registering { source, codes, event_set } => Call::AddEvents {
                event_set,
                codes,
            },
            CloningModel::Releasing { error, closing } => closing.call(),
        }
    }

    /// Where the duplication stands after `answer`.
    ///
    /// A refusal to list the events or to allocate a handle ends the
    /// duplication with the hardware failure. The events registered with
    /// the new handle are those that the source's handle listed, as many as
    /// it listed. A refusal to register them releases the new handle before
    /// the failure is reported. On success the duplicate owns the new handle
    /// and is the source in everything else.
    pub open spec fn step(self, answer: Answer) -> Progress<
        CloningModel,
        Result<ReadyModel, Error>,
    > {
        match self {
            CloningModel::Listing { source } => match verdict(answer.status) {
                Err(error) => Progress::Done(Err(error)),
                Ok(_) => Progress::Pending(
                    CloningModel::Creating { source, codes: source.listed(answer) },
                ),
            },
            CloningModel::Creating { source, codes } => match verdict(answer.status) {
                Err(error) => Progress::Done(Err(error)),
                Ok(_) => Progress::Pending(
                    CloningModel::Registering { source, codes, event_set: answer.number },
                ),
            },
            CloningModel::Registering { source, codes, event_set } => match verdict(
                answer.status,
            ) {
                Err(error) => Progress::Pending(
                    CloningModel::Releasing { error, closing: ClosingModel::idle(event_set) },
                ),
                Ok(_) => Progress::Done(Ok(ReadyModel { event_set, ..source })),
            },
            CloningModel::Releasing { error, closing } => match closing.step(answer) {
                Progress::Pending(closing) => Progress::Pending(
                    CloningModel::Releasing { error, closing },
                ),
                Progress::Done(_) => Progress::Done(Err(error)),
                Progress::Fatal(stage, status) => Progress::Fatal(stage, status),
            },
        }
    }
}

/// The source of a duplication: the handle that is listed, and what the
/// duplicate takes over from its owner.
#[derive(Clone, Copy, Debug)]
struct Source {
    event_set: i32,
    fingerprint: u64,
    num_events: usize,
}

impl View for Source {
    type V = ReadyModel;

    closed spec fn view(&self) -> ReadyModel {
        ReadyModel {
            event_set: self.event_set,
            fingerprint: self.fingerprint,
            num_events: self.num_events as nat,
        }
    }
}

impl View for Cloning {
    type V = CloningModel;

    closed spec fn view(&self) -> CloningModel {
        match self.state {
            State::Listing { source } => CloningModel::Listing { source: source@ },
            State::Creating { source, codes } => CloningModel::Creating {
                source: source@,
                codes: codes@,
            },
            State::Registering { source, codes, event_set } => CloningModel::Registering {
                source: source@,
                codes: codes@,
                event_set,
            },
            State::Releasing { error, closing } => CloningModel::Releasing {
                error,
                closing: closing@,
            },
        }
    }
}

impl Cloning {
    /// The source holds at least one event.
    #[verifier::type_invariant]
    spec fn populated(self) -> bool {
        match self.state {
            State::Listing { source } => source.num_events >= 1,
            State::Creating { source, codes } => source.num_events >= 1,
            State::Registering { source, codes, event_set } => source.num_events >= 1,
            State::Releasing { error, closing } => true,
        }
    }

    /// The call whose reply the duplication awaits.
    pub fn request(&self) -> (r: Request<'_>)
        ensures
            r@ == self@.call(),
    {
        match &self.state {
            State::Listing { source } => Request::ListEvents {
                event_set: source.event_set,
                capacity: source.num_events,
            },
            State::Creating { source, codes } => Request::CreateEventSet,
            State::Registering { source, codes, event_set } => Request::AddEvents {
                event_set: *event_set,
                codes,
            },
            State::Releasing { error, closing } => closing.request(),
        }
    }

    /// The codes that the reply to `ListEvents` lists.
    fn listed(source: &Source, reply: Reply) -> (r: Vec<i32>)
        ensures
            r@ == source@.listed(reply@),
    {
        let mut codes = blank_codes(source.num_events);
        overlay(&mut codes, &reply.codes);
        let count: usize = if reply.number < 0 {
            0
        } else if reply.number as usize > source.num_events {
            source.num_events
        } else {
            reply.number as usize
        };
        codes.truncate(count);
        codes
    }

    /// Continues the duplication with the reply to its request.
    pub fn resume(self, reply: Reply) -> (r: Progress<Cloning, Result<ReadyEventSet, Error>>)
        ensures
            r.lifted(|o: Result<ReadyEventSet, Error>| modelled(o)) == self@.step(reply@),
    {
        proof {
            use_type_invariant(&self);
        }
        match self.state {
            State::Listing { source } => match crate::error::check(reply.status) {
                Err(error) => Progress::Done(Err(error)),
                Ok(_) => {
                    let codes = Self::listed(&source, reply);
                    Progress::Pending(Cloning { state: State::Creating { source, codes } })
                },
            },
            State::Creating { source, codes } => match crate::error::check(reply.status) {
                Err(error) => Progress::Done(Err(error)),
                Ok(_) => Progress::Pending(
                    Cloning { state: State::Registering { source, codes, event_set: reply.number } },
                ),
            },
            State::Registering { source, codes, event_set } => {
                match crate::error::check(reply.status) {
                    Err(error) => Progress::Pending(
                        Cloning { state: State::Releasing { error, closing: Closing::idle(event_set) } },
                    ),
                    Ok(_) => Progress::Done(
                        Ok(ReadyEventSet::assemble(event_set, source.fingerprint, source.num_events)),
                    ),
                }
            },
            State::Releasing { error, closing } => match closing.resume(reply) {
                Progress::Pending(closing) => Progress::Pending(
                    Cloning { state: State::Releasing { error, closing } },
                ),
                Progress::Done(_) => Progress::Done(Err(error)),
                Progress::Fatal(stage, status) => Progress::Fatal(stage, status),
            },
        }
    }
}

impl ReadyEventSet {
    /// Begins the duplication of the event set: a new, distinct event set
    /// with the same events, on a handle of its own.
    pub fn try_clone(&self) -> (r: Progress<Cloning, Result<ReadyEventSet, Error>>)
        ensures
            r.lifted(|o: Result<ReadyEventSet, Error>| modelled(o)) == Progress::<
                CloningModel,
                Result<ReadyModel, Error>,
            >::Pending(CloningModel::begin(self@)),
    {
        Progress::Pending(
            Cloning {
                state: State::Listing {
                    source: Source {
                        event_set: self.event_set(),
                        fingerprint: self.fingerprint(),
                        num_events: self.num_events(),
                    },
                },
            },
        )
    }
}

} // verus!
