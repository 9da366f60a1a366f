//! Adding one event to a builder.
//!
//! The name is resolved first. Before the event is registered, the number of
//! events that the event set holds and the number of physical counter
//! registers are asked for anew, since other event sets may have taken
//! registers in the meantime. A builder that cannot take the event is
//! released.

use crate::error::{Error, PAPI_OK};
use crate::event_set::{BuilderModel, EventSetBuilder};
use crate::facility::{modelled, Answer, Call, Progress, Reply, Request};
use crate::teardown::{Closing, ClosingModel};
use vstd::prelude::*;
use vstd::string::StrSliceExecFns;

verus! {

/// Whether a name can be handed to the counter subsystem: it holds no NUL
/// character.
pub open spec fn presentable(name: Seq<char>) -> bool {
    forall|i: int| 0 <= i < name.len() ==> name[i] != '\0'
}

/// Tests whether a name can be handed to the counter subsystem.
pub fn is_presentable(name: &str) -> (r: bool)
    ensures
        r == presentable(name@),
{
    let len = name.unicode_len();
    let mut i: usize = 0;
    while i < len
        invariant
            len == name@.len(),
            i <= len,
            forall|j: int| 0 <= j < i ==> name@[j] != '\0',
        decreases len - i,
    {
        if name.get_char(i) == '\0' {
            return false;
        }
        i += 1;
    }
    true
}

/// The addition of one event to a builder, waiting for the reply to one call.
#[derive(Debug)]
pub struct AddingEvent<'p, 'a> {
    state: State<'p, 'a>,
}

#[derive(Debug)]
enum State<'p, 'a> {
    Resolving { builder: EventSetBuilder<'p>, name: &'a str },
    Counting { builder: EventSetBuilder<'p>, code: i32 },
    Limiting { builder: EventSetBuilder<'p>, code: i32, registered: i32 },
    Registering { builder: EventSetBuilder<'p>, code: i32 },
    Releasing { error: Error, closing: Closing },
}

/// The mathematical content of an [`AddingEvent`].
pub enum AddingEventModel {
    /// The name is being resolved to a code.
    Resolving { builder: BuilderModel, name: Seq<char> },
    /// The events that the event set holds are being counted.
    Counting { builder: BuilderModel, code: i32 },
    /// The physical counter registers are being counted; the event set holds
    /// `registered` events.
    Limiting { builder: BuilderModel, code: i32, registered: i32 },
    /// The event is being registered with the event set.
    Registering { builder: BuilderModel, code: i32 },
    /// The addition has failed with `error` and the builder is being
    /// released.
    Releasing { error: Error, closing: ClosingModel },
}

impl AddingEventModel {
    /// The addition once it has failed with `error`.
    pub open spec fn failed(builder: BuilderModel, error: Error) -> AddingEventModel {
        AddingEventModel::Releasing { error, closing: ClosingModel::idle(builder.event_set) }
    }

    /// The addition of the event called `name` before its first call. A name
    /// that cannot be handed to the subsystem is an invalid event.
    pub open spec fn begin(builder: BuilderModel, name: Seq<char>) -> AddingEventModel {
        if presentable(name) {
            AddingEventModel::Resolving { builder, name }
        } else {
            Self::failed(builder, Error::InvalidEvent)
        }
    }

    /// The call whose reply is awaited.
    pub open spec fn call(self) -> Call {
        match self {
            AddingEventModel::Resolving { builder, name } => Call::EventNameToCode { name },
            AddingEventModel::Counting { builder, code } => Call::NumEvents {
                event_set: builder.event_set,
            },
            AddingEventModel::Limiting { builder, code, registered } => Call::NumHwCounters,
            AddingEventModel::Registering { builder, code } => Call::AddEvent {
                event_set: builder.event_set,
                code,
            },
            AddingEventModel::Releasing { error, closing } => closing.call(),
        }
    }

    /// Where the addition stands after `answer`.
    ///
    /// A name that the subsystem does not resolve is an invalid event. A
    /// negative count is a hardware failure. An event set that holds as many
    /// events as there are registers, or more, is out of hardware counters.
    /// An event that the subsystem does not register is a hardware failure.
    /// Each failure releases the builder before it is reported; success
    /// yields the builder advanced by the resolved code.
    pub open spec fn step(self, answer: Answer) -> Progress<
        AddingEventModel,
        Result<BuilderModel, Error>,
    > {
        match self {
            AddingEventModel::Resolving { builder, name } => if answer.status != PAPI_OK {
                Progress::Pending(Self::failed(builder, Error::InvalidEvent))
            } else {
                Progress::Pending(AddingEventModel::Counting { builder, code: answer.number })
            },
            AddingEventModel::Counting { builder, code } => if answer.status < 0 {
                Progress::Pending(Self::failed(builder, Error::PapiError(answer.status)))
            } else {
                Progress::Pending(
                    AddingEventModel::Limiting { builder, code, registered: answer.status },
                )
            },
            AddingEventModel::Limiting { builder, code, registered } => if answer.status < 0 {
                Progress::Pending(Self::failed(builder, Error::PapiError(answer.status)))
            } else if registered >= answer.status {
                Progress::Pending(Self::failed(builder, Error::OutOfHardwareCounters))
            } else {
                Progress::Pending(AddingEventModel::Registering { builder, code })
            },
            AddingEventModel::Registering { builder, code } => if answer.status != PAPI_OK {
                Progress::Pending(Self::failed(builder, Error::PapiError(answer.status)))
            } else {
                Progress::Done(Ok(builder.with_code(code)))
            },
            AddingEventModel::Releasing { error, closing } => match closing.step(answer) {
                Progress::Pending(closing) => Progress::Pending(
                    AddingEventModel::Releasing { error, closing },
                ),
                Progress::Done(_) => Progress::Done(Err(error)),
                Progress::Fatal(stage, status) => Progress::Fatal(stage, status),
            },
        }
    }
}

impl<'p, 'a> View for AddingEvent<'p, 'a> {
    type V = AddingEventModel;

    closed spec fn view(&self) -> AddingEventModel {
        match self.state {
            State::Resolving { builder, name } => AddingEventModel::Resolving {
                builder: builder@,
                name: name@,
            },
            State::Counting { builder, code } => AddingEventModel::Counting {
                builder: builder@,
                code,
            },
            State::Limiting { builder, code, registered } => AddingEventModel::Limiting {
                builder: builder@,
                code,
                registered,
            },
            State::Registering { builder, code } => AddingEventModel::Registering {
                builder: builder@,
                code,
            },
            State::Releasing { error, closing } => AddingEventModel::Releasing {
                error,
                closing: closing@,
            },
        }
    }
}

impl<'p, 'a> AddingEvent<'p, 'a> {
    /// The addition once it has failed with `error`.
    fn failed(builder: EventSetBuilder<'p>, error: Error) -> (r: Self)
        ensures
            r@ == AddingEventModel::failed(builder@, error),
    {
        AddingEvent {
            state: State::Releasing { error, closing: Closing::idle(builder.event_set()) },
        }
    }

    /// The addition of the event called `name` before its first call.
    pub(crate) fn begin(builder: EventSetBuilder<'p>, name: &'a str) -> (r: Self)
        ensures
            r@ == AddingEventModel::begin(builder@, name@),
    {
        if is_presentable(name) {
            AddingEvent { state: State::Resolving { builder, name } }
        } else {
            Self::failed(builder, Error::InvalidEvent)
        }
    }

    /// The call whose reply the addition awaits.
    pub fn request(&self) -> (r: Request<'a>)
        ensures
            r@ == self@.call(),
    {
        match &self.state {
            State::Resolving { builder, name } => Request::EventNameToCode { name: *name },
            State::Counting { builder, code } => Request::NumEvents {
                event_set: builder.event_set(),
            },
            State::Limiting { builder, code, registered } => Request::NumHwCounters,
            State::Registering { builder, code } => Request::AddEvent {
                event_set: builder.event_set(),
                code: *code,
            },
            State::Releasing { error, closing } => closing.request(),
        }
    }

    /// Continues the addition with the reply to its request.
    pub fn resume(self, reply: Reply) -> (r: Progress<Self, Result<EventSetBuilder<'p>, Error>>)
        ensures
            r.lifted(|o: Result<EventSetBuilder<'p>, Error>| modelled(o)) == self@.step(reply@),
    {
        match self.state {
            State::Resolving { builder, name } => {
                if reply.status != PAPI_OK {
                    Progress::Pending(Self::failed(builder, Error::InvalidEvent))
                } else {
                    Progress::Pending(
                        AddingEvent { state: State::Counting { builder, code: reply.number } },
                    )
                }
            },
            State::Counting { builder, code } => {
                if reply.status < 0 {
                    Progress::Pending(Self::failed(builder, Error::PapiError(reply.status)))
                } else {
                    Progress::Pending(
                        AddingEvent {
                            state: State::Limiting { builder, code, registered: reply.status },
                        },
                    )
                }
            },
            State::Limiting { builder, code, registered } => {
                if reply.status < 0 {
                    Progress::Pending(Self::failed(builder, Error::PapiError(reply.status)))
                } else if registered >= reply.status {
                    Progress::Pending(Self::failed(builder, Error::OutOfHardwareCounters))
                } else {
                    Progress::Pending(AddingEvent { state: State::Registering { builder, code } })
                }
            },
            State::Registering { builder, code } => {
                if reply.status != PAPI_OK {
                    Progress::Pending(Self::failed(builder, Error::PapiError(reply.status)))
                } else {
                    Progress::Done(Ok(builder.with_code(code)))
                }
            },
            State::Releasing { error, closing } => match closing.resume(reply) {
                Progress::Pending(closing) => Progress::Pending(
                    AddingEvent { state: State::Releasing { error, closing } },
                ),
                Progress::Done(_) => Progress::Done(Err(error)),
                Progress::Fatal(stage, status) => Progress::Fatal(stage, status),
            },
        }
    }
}

impl<'p> EventSetBuilder<'p> {
    /// Begins the addition of the hardware event called `name`. The builder
    /// is used up: the addition ends with the builder advanced by one event,
    /// or with an error after the builder's handle was released.
    pub fn add_event_by_name<'a>(self, name: &'a str) -> (r: Progress<
        AddingEvent<'p, 'a>,
        Result<EventSetBuilder<'p>, Error>,
    >)
        ensures
            r.lifted(|o: Result<EventSetBuilder<'p>, Error>| modelled(o)) == Progress::<
                AddingEventModel,
                Result<BuilderModel, Error>,
            >::Pending(AddingEventModel::begin(self@, name@)),
    {
        Progress::Pending(AddingEvent::begin(self, name))
    }
}

} // verus!
