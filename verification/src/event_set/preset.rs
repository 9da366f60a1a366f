//! Adding the events of a configured preset to a builder.

use crate::error::Error;
use crate::event_set::adding::{AddingEvent, AddingEventModel};
use crate::event_set::{BuilderModel, EventSetBuilder};
use crate::facility::{modelled, Answer, Call, Progress, Reply, Request};
use crate::teardown::{Closing, ClosingModel};
use vstd::prelude::*;

verus! {

/// The addition of a preset's events to a builder, waiting for the reply to
/// one call.
#[derive(Debug)]
pub struct UsingPreset<'p> {
    state: State<'p>,
}

#[derive(Debug)]
enum State<'p> {
    Adding { names: &'p Vec<String>, next: usize, adding: AddingEvent<'p, 'p> },
    Releasing { error: Error, closing: Closing },
}

/// The mathematical content of a [`UsingPreset`].
pub enum UsingPresetModel {
    /// The event `names[next]` is being added; those before it have been.
    Adding { names: Seq<Seq<char>>, next: nat, adding: AddingEventModel },
    /// The preset was not found and the builder is being released.
    Releasing { error: Error, closing: ClosingModel },
}

impl UsingPresetModel {
    /// What follows once the events before `names[next]` have been added:
    /// the addition of the next event, or the builder when none is left.
    pub open spec fn proceed(builder: BuilderModel, names: Seq<Seq<char>>, next: nat) -> Progress<
        UsingPresetModel,
        Result<BuilderModel, Error>,
    > {
        if next >= names.len() {
            Progress::Done(Ok(builder))
        } else {
            Progress::Pending(
                UsingPresetModel::Adding {
                    names,
                    next,
                    adding: AddingEventModel::begin(builder, names[next as int]),
                },
            )
        }
    }

    /// What using the preset called `name` begins with. Without a
    /// configuration, without a preset table or without an entry of that
    /// name, the builder is released and the operation ends with
    /// `InvalidArgument`; else the events are added in their order.
    pub open spec fn begin(builder: BuilderModel, name: Seq<char>) -> Progress<
        UsingPresetModel,
        Result<BuilderModel, Error>,
    > {
        match builder.papi.preset(name) {
            Err(reason) => Progress::Pending(
                UsingPresetModel::Releasing {
                    error: Error::InvalidArgument(reason),
                    closing: ClosingModel::idle(builder.event_set),
                },
            ),
            Ok(names) => Self::proceed(builder, names, 0),
        }
    }

    /// The call whose reply is awaited.
    pub open spec fn call(self) -> Call {
        match self {
            UsingPresetModel::Adding { names, next, adding } => adding.call(),
            UsingPresetModel::Releasing { error, closing } => closing.call(),
        }
    }

    /// Where the operation stands after `answer`: an event that was added
    /// leads to the next one, and the first that fails ends the operation
    /// with its error.
    pub open spec fn step(self, answer: Answer) -> Progress<
        UsingPresetModel,
        Result<BuilderModel, Error>,
    > {
        match self {
            UsingPresetModel::Adding { names, next, adding } => match adding.step(answer) {
                Progress::Pending(adding) => Progress::Pending(
                    UsingPresetModel::Adding { names, next, adding },
                ),
                Progress::Done(Ok(builder)) => Self::proceed(builder, names, next + 1),
                Progress::Done(Err(error)) => Progress::Done(Err(error)),
                Progress::Fatal(stage, status) => Progress::Fatal(stage, status),
            },
            UsingPresetModel::Releasing { error, closing } => match closing.step(answer) {
                Progress::Pending(closing) => Progress::Pending(
                    UsingPresetModel::Releasing { error, closing },
                ),
                Progress::Done(_) => Progress::Done(Err(error)),
                Progress::Fatal(stage, status) => Progress::Fatal(stage, status),
            },
        }
    }
}

impl<'p> View for UsingPreset<'p> {
    type V = UsingPresetModel;

    closed spec fn view(&self) -> UsingPresetModel {
        match self.state {
            State::Adding { names, next, adding } => UsingPresetModel::Adding {
                names: names.deep_view(),
                next: next as nat,
                adding: adding@,
            },
            State::Releasing { error, closing } => UsingPresetModel::Releasing {
                error,
                closing: closing@,
            },
        }
    }
}

impl<'p> UsingPreset<'p> {
    /// The event that is being added is one of the preset's.
    #[verifier::type_invariant]
    spec fn within(self) -> bool {
        match self.state {
            State::Adding { names, next, adding } => next < names.len(),
            State::Releasing { error, closing } => true,
        }
    }

    /// What follows once the events before `names[next]` have been added.
    fn proceed(builder: EventSetBuilder<'p>, names: &'p Vec<String>, next: usize) -> (r: Progress<
        Self,
        Result<EventSetBuilder<'p>, Error>,
    >)
        ensures
            r.lifted(|o: Result<EventSetBuilder<'p>, Error>| modelled(o))
                == UsingPresetModel::proceed(builder@, names.deep_view(), next as nat),
    {
        if next >= names.len() {
            Progress::Done(Ok(builder))
        } else {
            let name: &'p str = names[next].as_str();
            assert(name@ == names.deep_view()[next as int]);
            Progress::Pending(
                UsingPreset {
                    state: State::Adding { names, next, adding: AddingEvent::begin(builder, name) },
                },
            )
        }
    }

    /// The call whose reply the operation awaits.
    pub fn request(&self) -> (r: Request<'p>)
        ensures
            r@ == self@.call(),
    {
        match &self.state {
            State::Adding { names, next, adding } => adding.request(),
            State::Releasing { error, closing } => closing.request(),
        }
    }

    /// Continues the operation with the reply to its request.
    pub fn resume(self, reply: Reply) -> (r: Progress<Self, Result<EventSetBuilder<'p>, Error>>)
        ensures
            r.lifted(|o: Result<EventSetBuilder<'p>, Error>| modelled(o)) == self@.step(reply@),
    {
        proof {
            use_type_invariant(&self);
        }
        match self.state {
            State::Adding { names, next, adding } => match adding.resume(reply) {
                Progress::Pending(adding) => Progress::Pending(
                    UsingPreset { state: State::Adding { names, next, adding } },
                ),
                Progress::Done(Ok(builder)) => Self::proceed(builder, names, next + 1),
                Progress::Done(Err(error)) => Progress::Done(Err(error)),
                Progress::Fatal(stage, status) => Progress::Fatal(stage, status),
            },
            State::Releasing { error, closing } => match closing.resume(reply) {
                Progress::Pending(closing) => Progress::Pending(
                    UsingPreset { state: State::Releasing { error, closing } },
                ),
                Progress::Done(_) => Progress::Done(Err(error)),
                Progress::Fatal(stage, status) => Progress::Fatal(stage, status),
            },
        }
    }
}

impl<'p> EventSetBuilder<'p> {
    /// Begins the addition of the events of the preset called `name`, in
    /// their order. The builder is used up: the operation ends with the
    /// builder advanced by every event of the preset, or with an error after
    /// the builder's handle was released.
    pub fn use_preset(self, name: &str) -> (r: Progress<
        UsingPreset<'p>,
        Result<EventSetBuilder<'p>, Error>,
    >)
        ensures
            r.lifted(|o: Result<EventSetBuilder<'p>, Error>| modelled(o))
                == UsingPresetModel::begin(self@, name@),
    {
        let papi: &'p crate::Papi = self.papi();
        match papi.find_preset(name) {
            Err(reason) => Progress::Pending(
                UsingPreset {
                    state: State::Releasing {
                        error: Error::InvalidArgument(reason),
                        closing: Closing::idle(self.event_set()),
                    },
                },
            ),
            Ok(names) => UsingPreset::proceed(self, names, 0),
        }
    }
}

} // verus!
