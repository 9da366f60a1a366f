//! Event sets: user-defined groups of hardware events that are sampled
//! together.
//!
//! An [`EventSetBuilder`] collects events, a [`ReadyEventSet`] is a finished
//! group that can be started, a [`RunningEventSet`] counts, and a [`Sample`]
//! takes the counter values. Each of the three event-set types owns one
//! handle of the counter subsystem, which moves from one to the next on a
//! transition and is released by `close` or by the operation that fails.
//! None of them can be sent to another thread or shared with one.

pub mod adding;
pub mod cloning;
pub mod preset;
pub mod render;
pub mod sample;
pub mod sampling;
pub mod stopping;

pub use crate::event_set::sample::Sample;

use crate::error::{verdict, Error, Reason};
use crate::facility::{modelled, Answer, Call, Confined, Progress, Reply, Request};
use crate::teardown::{Closing, ClosingModel};
use crate::Papi;
use std::collections::hash_map::DefaultHasher;
use std::hash::Hasher;
use vstd::bytes::{spec_u32_to_le_bytes, u32_to_le_bytes};
use vstd::prelude::*;
use vstd::std_specs::hash::DefaultHasherAdditionalSpecFns;

verus! {

/// The bytes that stand for one event code in a fingerprint.
pub open spec fn code_bytes(code: i32) -> Seq<u8> {
    spec_u32_to_le_bytes(code as u32)
}

/// The fingerprint of an ordered list of event codes: the hash of the codes'
/// bytes, written code by code. Lists that differ in order are fed
/// differently, so the fingerprint depends on the order.
pub open spec fn fingerprint(codes: Seq<i32>) -> u64 {
    DefaultHasher::spec_finish(codes.map_values(|code: i32| code_bytes(code)))
}

/// Computes the fingerprint of an ordered list of event codes.
pub fn fingerprint_of(codes: &Vec<i32>) -> (r: u64)
    ensures
        r == fingerprint(codes@),
{
    let mut hasher = DefaultHasher::new();
    let mut i: usize = 0;
    while i < codes.len()
        invariant
            i <= codes.len(),
            hasher@ == codes@.take(i as int).map_values(|code: i32| code_bytes(code)),
        decreases codes.len() - i,
    {
        let bytes = u32_to_le_bytes(codes[i] as u32);
        hasher.write(bytes.as_slice());
        assert(codes@.take(i + 1).map_values(|code: i32| code_bytes(code)) =~= codes@.take(
            i as int,
        ).map_values(|code: i32| code_bytes(code)).push(code_bytes(codes@[i as int])));
        i += 1;
    }
    assert(codes@.take(codes.len() as int) =~= codes@);
    hasher.finish()
}

/// A builder that collects the hardware events of an event set.
#[derive(Debug)]
pub struct EventSetBuilder<'p> {
    papi: &'p Papi,
    event_set: i32,
    codes: Vec<i32>,
    confined: Confined,
}

/// The mathematical content of an [`EventSetBuilder`].
pub struct BuilderModel {
    /// The facility that the builder was made for.
    pub papi: Papi,
    /// The handle that the builder owns.
    pub event_set: i32,
    /// The codes of the events added so far, in the order of their addition.
    pub codes: Seq<i32>,
}

/// An event set that is ready to sample hardware events.
#[derive(Debug)]
pub struct ReadyEventSet {
    event_set: i32,
    event_set_hash: u64,
    num_events: usize,
    confined: Confined,
}

/// The mathematical content of a [`ReadyEventSet`].
pub struct ReadyModel {
    /// The handle that the event set owns.
    pub event_set: i32,
    /// The fingerprint of the event codes that the event set was built from.
    pub fingerprint: u64,
    /// The number of events in the event set.
    pub num_events: nat,
}

/// An event set whose counters run.
#[derive(Debug)]
pub struct RunningEventSet {
    event_set: i32,
    event_set_hash: u64,
    num_events: usize,
    confined: Confined,
}

/// The mathematical content of a [`RunningEventSet`].
pub struct RunningModel {
    /// The handle that the event set owns.
    pub event_set: i32,
    /// The fingerprint of the event codes that the event set was built from.
    pub fingerprint: u64,
    /// The number of events in the event set.
    pub num_events: nat,
}

impl BuilderModel {
    /// The builder that the reply to `CreateEventSet` gives: an empty one
    /// that owns the new handle, or the hardware failure.
    pub open spec fn created(papi: Papi, answer: Answer) -> Result<BuilderModel, Error> {
        match verdict(answer.status) {
            Ok(_) => Ok(BuilderModel { papi, event_set: answer.number, codes: Seq::empty() }),
            Err(error) => Err(error),
        }
    }

    /// The builder advanced by one event.
    pub open spec fn with_code(self, code: i32) -> BuilderModel {
        BuilderModel { codes: self.codes.push(code), ..self }
    }

    /// The event set that the builder describes. It takes over the handle
    /// and carries the fingerprint of the codes in their order.
    pub open spec fn finished(self) -> ReadyModel {
        ReadyModel {
            event_set: self.event_set,
            fingerprint: fingerprint(self.codes),
            num_events: self.codes.len(),
        }
    }

    /// What finishing the builder leads to: with events, the event set at
    /// once; without, the release of the handle, which ends with the error.
    pub open spec fn built(self) -> Progress<BuildingModel, Result<ReadyModel, Error>> {
        if self.codes.len() == 0 {
            Progress::Pending(BuildingModel { closing: ClosingModel::idle(self.event_set) })
        } else {
            Progress::Done(Ok(self.finished()))
        }
    }
}

impl ReadyModel {
    /// The outcome of starting, given the reply to `Start`: the running
    /// event set with the same handle, or the hardware failure together with
    /// the event set, which keeps its handle.
    pub open spec fn started(self, answer: Answer) -> Result<RunningModel, (Error, ReadyModel)> {
        match verdict(answer.status) {
            Ok(_) => Ok(
                RunningModel {
                    event_set: self.event_set,
                    fingerprint: self.fingerprint,
                    num_events: self.num_events,
                },
            ),
            Err(error) => Err((error, self)),
        }
    }
}

impl<'p> View for EventSetBuilder<'p> {
    type V = BuilderModel;

    closed spec fn view(&self) -> BuilderModel {
        BuilderModel { papi: *self.papi, event_set: self.event_set, codes: self.codes@ }
    }
}

impl View for ReadyEventSet {
    type V = ReadyModel;

    closed spec fn view(&self) -> ReadyModel {
        ReadyModel {
            event_set: self.event_set,
            fingerprint: self.event_set_hash,
            num_events: self.num_events as nat,
        }
    }
}

impl View for RunningEventSet {
    type V = RunningModel;

    closed spec fn view(&self) -> RunningModel {
        RunningModel {
            event_set: self.event_set,
            fingerprint: self.event_set_hash,
            num_events: self.num_events as nat,
        }
    }
}

/// The release of a builder that was finished without events.
#[derive(Debug)]
pub struct Building {
    closing: Closing,
}

/// The mathematical content of a [`Building`].
pub struct BuildingModel {
    /// The release under way.
    pub closing: ClosingModel,
}

impl BuildingModel {
    /// The call whose reply is awaited.
    pub open spec fn call(self) -> Call {
        self.closing.call()
    }

    /// Where the operation stands after `answer`: once the handle is
    /// released, it ends with the error.
    pub open spec fn step(self, answer: Answer) -> Progress<
        BuildingModel,
        Result<ReadyModel, Error>,
    > {
        match self.closing.step(answer) {
            Progress::Pending(closing) => Progress::Pending(BuildingModel { closing }),
            Progress::Done(_) => Progress::Done(Err(Error::InvalidArgument(Reason::NoEvents))),
            Progress::Fatal(stage, status) => Progress::Fatal(stage, status),
        }
    }
}

impl View for Building {
    type V = BuildingModel;

    closed spec fn view(&self) -> BuildingModel {
        BuildingModel { closing: self.closing@ }
    }
}

impl Building {
    /// The call whose reply the operation awaits.
    pub fn request(&self) -> (r: Request<'static>)
        ensures
            r@ == self@.call(),
    {
        self.closing.request()
    }

    /// Continues the operation with the reply to its request.
    pub fn resume(self, reply: Reply) -> (r: Progress<Building, Result<ReadyEventSet, Error>>)
        ensures
            r.lifted(|o: Result<ReadyEventSet, Error>| modelled(o)) == self@.step(reply@),
    {
        match self.closing.resume(reply) {
            Progress::Pending(closing) => Progress::Pending(Building { closing }),
            Progress::Done(_) => Progress::Done(Err(Error::InvalidArgument(Reason::NoEvents))),
            Progress::Fatal(stage, status) => Progress::Fatal(stage, status),
        }
    }
}

impl<'p> EventSetBuilder<'p> {
    /// The call that allocates the handle of a new builder.
    pub fn new_request() -> (r: Request<'static>)
        ensures
            r@ == Call::CreateEventSet,
    {
        Request::CreateEventSet
    }

    /// Creates a builder for `papi` from the reply to
    /// [`new_request`](Self::new_request).
    pub fn new(papi: &'p Papi, reply: Reply) -> (r: Result<Self, Error>)
        ensures
            modelled(r) == BuilderModel::created(*papi, reply@),
    {
        match crate::error::check(reply.status) {
            Ok(_) => Ok(
                EventSetBuilder {
                    papi,
                    event_set: reply.number,
                    codes: Vec::new(),
                    confined: Confined::new(),
                },
            ),
            Err(error) => Err(error),
        }
    }

    /// The handle that the builder owns.
    pub fn event_set(&self) -> (r: i32)
        ensures
            r == self@.event_set,
    {
        self.event_set
    }

    /// The codes of the events added so far, in the order of their addition.
    pub fn codes(&self) -> (r: &Vec<i32>)
        ensures
            r@ == self@.codes,
    {
        &self.codes
    }

    /// The facility that the builder was made for.
    pub fn papi(&self) -> (r: &'p Papi)
        ensures
            *r == self@.papi,
    {
        self.papi
    }

    /// The builder advanced by one event.
    pub(crate) fn with_code(self, code: i32) -> (r: Self)
        ensures
            r@ == self@.with_code(code),
    {
        let mut codes = self.codes;
        codes.push(code);
        EventSetBuilder { papi: self.papi, event_set: self.event_set, codes, confined: self.confined }
    }

    /// Finishes the builder. With at least one event the result is the event
    /// set, which takes over the handle; without, the handle is released and
    /// the operation ends with `InvalidArgument`.
    pub fn build(self) -> (r: Progress<Building, Result<ReadyEventSet, Error>>)
        ensures
            r.lifted(|o: Result<ReadyEventSet, Error>| modelled(o)) == self@.built(),
    {
        if self.codes.len() == 0 {
            Progress::Pending(Building { closing: Closing::idle(self.event_set) })
        } else {
            Progress::Done(
                Ok(
                    ReadyEventSet {
                        event_set: self.event_set,
                        event_set_hash: fingerprint_of(&self.codes),
                        num_events: self.codes.len(),
                        confined: self.confined,
                    },
                ),
            )
        }
    }

    /// Gives the handle back to the counter subsystem.
    pub fn close(self) -> (r: Progress<Closing, ()>)
        ensures
            r.viewed() == Progress::<ClosingModel, ()>::Pending(
                ClosingModel::idle(self@.event_set),
            ),
    {
        Progress::Pending(Closing::idle(self.event_set))
    }

    /// Duplicating a builder is not supported: the call always fails.
    pub fn try_clone(&self) -> (r: Result<Self, Error>)
        ensures
            r matches Err(error) && error == Error::InvalidArgument(Reason::BuilderNotCloneable),
    {
        Err(Error::InvalidArgument(Reason::BuilderNotCloneable))
    }
}

impl ReadyEventSet {
    /// An event set holds at least one event.
    #[verifier::type_invariant]
    spec fn populated(self) -> bool {
        self.num_events >= 1
    }

    /// An event set with the given content.
    pub(crate) fn assemble(event_set: i32, fingerprint: u64, num_events: usize) -> (r: Self)
        requires
            num_events >= 1,
        ensures
            r@ == (ReadyModel { event_set, fingerprint, num_events: num_events as nat }),
    {
        ReadyEventSet { event_set, event_set_hash: fingerprint, num_events, confined: Confined::new() }
    }

    /// The handle that the event set owns.
    pub fn event_set(&self) -> (r: i32)
        ensures
            r == self@.event_set,
    {
        self.event_set
    }

    /// The fingerprint of the event codes that the event set was built from.
    pub fn fingerprint(&self) -> (r: u64)
        ensures
            r == self@.fingerprint,
    {
        self.event_set_hash
    }

    /// The number of events in the event set, which is at least one.
    pub fn num_events(&self) -> (r: usize)
        ensures
            r == self@.num_events,
            r >= 1,
    {
        proof {
            use_type_invariant(self);
        }
        self.num_events
    }

    /// The call that starts the counters.
    pub fn start_request(&self) -> (r: Request<'static>)
        ensures
            r@ == (Call::Start { event_set: self@.event_set }),
    {
        Request::Start { event_set: self.event_set }
    }

    /// Concludes the start from the reply to
    /// [`start_request`](Self::start_request). On success the handle moves
    /// into the running event set; on failure the event set comes back with
    /// the error, still owning the handle, and may be started again or closed.
    pub fn start(self, reply: Reply) -> (r: Result<RunningEventSet, (Error, ReadyEventSet)>)
        ensures
            match r {
                Ok(running) => self@.started(reply@) == Ok::<
                    RunningModel,
                    (Error, ReadyModel),
                >(running@),
                Err((error, ready)) => self@.started(reply@) == Err::<
                    RunningModel,
                    (Error, ReadyModel),
                >((error, ready@)),
            },
    {
        proof {
            use_type_invariant(&self);
        }
        match crate::error::check(reply.status) {
            Ok(_) => Ok(
                RunningEventSet {
                    event_set: self.event_set,
                    event_set_hash: self.event_set_hash,
                    num_events: self.num_events,
                    confined: self.confined,
                },
            ),
            Err(error) => Err((error, self)),
        }
    }

    /// Gives the handle back to the counter subsystem.
    pub fn close(self) -> (r: Progress<Closing, ()>)
        ensures
            r.viewed() == Progress::<ClosingModel, ()>::Pending(
                ClosingModel::idle(self@.event_set),
            ),
    {
        Progress::Pending(Closing::idle(self.event_set))
    }
}

impl RunningEventSet {
    /// An event set holds at least one event.
    #[verifier::type_invariant]
    spec fn populated(self) -> bool {
        self.num_events >= 1
    }

    /// The number of events in the event set, which is at least one.
    pub fn num_events(&self) -> (r: usize)
        ensures
            r == self@.num_events,
            r >= 1,
    {
        proof {
            use_type_invariant(self);
        }
        self.num_events
    }

    /// The handle that the event set owns.
    pub fn event_set(&self) -> (r: i32)
        ensures
            r == self@.event_set,
    {
        self.event_set
    }

    /// The fingerprint of the event codes that the event set was built from.
    pub fn fingerprint(&self) -> (r: u64)
        ensures
            r == self@.fingerprint,
    {
        self.event_set_hash
    }

    /// Gives the handle back to the counter subsystem, after stopping the
    /// counters if they are found running.
    pub fn close(self) -> (r: Progress<Closing, ()>)
        ensures
            r.viewed() == Progress::<ClosingModel, ()>::Pending(
                ClosingModel::active(self@.event_set),
            ),
    {
        Progress::Pending(Closing::active(self.event_set))
    }
}

} // verus!
