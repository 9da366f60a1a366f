//! What holds of the operations whatever the counter subsystem replies.
//!
//! A run of an operation is the operation resumed with a sequence of
//! replies, one after the other, until it ends or the replies are used up.

use crate::error::{Error, Reason, PAPI_OK};
use crate::event_set::adding::{presentable, AddingEventModel};
use crate::event_set::cloning::CloningModel;
use crate::event_set::preset::UsingPresetModel;
use crate::event_set::sample::SampleModel;
use crate::event_set::stopping::StoppingModel;
use crate::event_set::{BuilderModel, ReadyModel, RunningModel};
use crate::facility::{
    blank, overlaid, Answer, Call, Progress, Stage, PAPI_LOW_LEVEL_INITED,
};
use crate::teardown::{counting, ClosingModel};
use crate::{absorbed, holds, Config, Entries, InitStage, InitializingModel, Presets};
use vstd::prelude::*;

verus! {

/// A reply that reports success and writes nothing.
pub open spec fn accepted() -> Answer {
    Answer { status: PAPI_OK, number: 0, codes: Seq::empty(), values: Seq::empty(), name: Seq::empty() }
}

impl ClosingModel {
    /// Where the release stands after the replies `answers`.
    pub open spec fn run(self, answers: Seq<Answer>) -> Progress<ClosingModel, ()>
        decreases answers.len(),
    {
        if answers.len() == 0 {
            Progress::Pending(self)
        } else {
            match self.step(answers[0]) {
                Progress::Pending(next) => next.run(answers.subrange(1, answers.len() as int)),
                ended => ended,
            }
        }
    }
}

impl AddingEventModel {
    /// The handle of the builder that the addition owns.
    pub open spec fn handle(self) -> i32 {
        match self {
            AddingEventModel::Resolving { builder, name } => builder.event_set,
            AddingEventModel::Counting { builder, code } => builder.event_set,
            AddingEventModel::Limiting { builder, code, registered } => builder.event_set,
            AddingEventModel::Registering { builder, code } => builder.event_set,
            AddingEventModel::Releasing { error, closing } => closing.event_set,
        }
    }

    /// Where the addition stands after the replies `answers`.
    pub open spec fn run(self, answers: Seq<Answer>) -> Progress<
        AddingEventModel,
        Result<BuilderModel, Error>,
    >
        decreases answers.len(),
    {
        if answers.len() == 0 {
            Progress::Pending(self)
        } else {
            match self.step(answers[0]) {
                Progress::Pending(next) => next.run(answers.subrange(1, answers.len() as int)),
                ended => ended,
            }
        }
    }
}

impl StoppingModel {
    /// Where the stop stands after the replies `answers`, and what the
    /// sample then holds.
    pub open spec fn run(self, answers: Seq<Answer>, sample: SampleModel) -> (
        Progress<StoppingModel, Result<(), Error>>,
        SampleModel,
    )
        decreases answers.len(),
    {
        if answers.len() == 0 {
            (Progress::Pending(self), sample)
        } else {
            match self.step(answers[0], sample) {
                (Progress::Pending(next), taken) => next.run(
                    answers.subrange(1, answers.len() as int),
                    taken,
                ),
                ended => ended,
            }
        }
    }

    /// Whether the stop has settled on `result` and only releases the
    /// handle.
    pub open spec fn settled(self, result: Result<(), Error>) -> bool {
        self matches StoppingModel::Releasing { result: r, closing } && r == result
    }
}

/// Initialisation can be repeated: a subsystem that reports itself
/// initialised is not initialised again, only its thread support is set up;
/// any other is initialised for the caller's version first. The handle comes
/// out only if the subsystem reports that version and accepts the thread
/// support, and it carries the configuration that the initialisation began
/// with.
pub proof fn law_initialisation_is_repeatable(
    version: i32,
    config: Option<Config>,
    state: Answer,
    loaded: Answer,
    threads: Answer,
)
    ensures
        ({
            let querying = InitializingModel::begin(version, config);
            let loading = querying.at(InitStage::Loading);
            let threading = querying.at(InitStage::Threading);
            &&& querying.call() == Call::LibraryState
            &&& querying.step(state) == Progress::<
                InitializingModel,
                Result<Option<Config>, Error>,
            >::Pending(if state.status == PAPI_LOW_LEVEL_INITED {
                threading
            } else {
                loading
            })
            &&& loading.call() == (Call::LibraryInit { version })
            &&& loading.step(loaded) == if loaded.status == version {
                Progress::<InitializingModel, Result<Option<Config>, Error>>::Pending(threading)
            } else {
                Progress::<InitializingModel, Result<Option<Config>, Error>>::Done(
                    Err(Error::VersionMismatch),
                )
            }
            &&& threading.call() == Call::ThreadInit
            &&& threading.step(threads) == Progress::<
                InitializingModel,
                Result<Option<Config>, Error>,
            >::Done(if threads.status == PAPI_OK {
                Ok(config)
            } else {
                Err(Error::ThreadSupport)
            })
        }),
{
}

/// A release ends well only with the call that frees its event set, and only
/// if the subsystem accepted that call: no handle is dropped unfreed.
pub proof fn law_release_ends_with_destroy(closing: ClosingModel, answer: Answer)
    requires
        closing.step(answer) is Done,
    ensures
        closing.call() == (Call::DestroyEventSet { event_set: closing.event_set }),
        answer.status == PAPI_OK,
{
}

/// A release never changes the event set that it releases, and every call
/// that the subsystem refuses ends it as fatal at that call.
pub proof fn law_release_stays_on_handle(closing: ClosingModel, answer: Answer)
    ensures
        closing.step(answer) matches Progress::Pending(next) ==> next.event_set
            == closing.event_set,
        answer.status != PAPI_OK ==> closing.step(answer) == Progress::<
            ClosingModel,
            (),
        >::Fatal(closing.stage, answer.status),
{
}

/// Releasing an event set whose counters still run, with a subsystem that
/// accepts every call: the counters are stopped, the events removed, the
/// event set freed, and the release ends well.
pub proof fn law_running_event_set_is_released(event_set: i32, state: Answer)
    requires
        state.status == PAPI_OK,
        counting(state.number),
    ensures
        ({
            let probing = ClosingModel::active(event_set);
            let halting = ClosingModel { event_set, stage: Stage::Halt };
            let cleaning = ClosingModel { event_set, stage: Stage::Cleanup };
            let freeing = ClosingModel { event_set, stage: Stage::Destroy };
            &&& probing.call() == (Call::State { event_set })
            &&& probing.step(state) == Progress::<ClosingModel, ()>::Pending(halting)
            &&& halting.call() == (Call::Halt { event_set })
            &&& halting.step(accepted()) == Progress::<ClosingModel, ()>::Pending(cleaning)
            &&& cleaning.call() == (Call::CleanupEventSet { event_set })
            &&& cleaning.step(accepted()) == Progress::<ClosingModel, ()>::Pending(freeing)
            &&& freeing.call() == (Call::DestroyEventSet { event_set })
            &&& freeing.step(accepted()) == Progress::<ClosingModel, ()>::Done(())
            &&& probing.run(seq![state, accepted(), accepted(), accepted()]) == Progress::<
                ClosingModel,
                (),
            >::Done(())
        }),
{
    let probing = ClosingModel::active(event_set);
    let halting = ClosingModel { event_set, stage: Stage::Halt };
    let cleaning = ClosingModel { event_set, stage: Stage::Cleanup };
    let freeing = ClosingModel { event_set, stage: Stage::Destroy };
    let a3 = seq![state, accepted(), accepted(), accepted()];
    let a2 = a3.subrange(1, 4);
    let a1 = a2.subrange(1, 3);
    let a0 = a1.subrange(1, 2);
    assert(a3[0] == state);
    assert(a2[0] == accepted());
    assert(a1[0] == accepted());
    assert(a0[0] == accepted());
    assert(freeing.run(a0) == Progress::<ClosingModel, ()>::Done(()));
    assert(cleaning.run(a1) == freeing.run(a0));
    assert(halting.run(a2) == cleaning.run(a1));
    assert(probing.run(a3) == halting.run(a2));
}

/// An addition owns the same handle from its first step to its last: a
/// pending addition keeps it, and the builder that a successful addition
/// yields holds it.
pub proof fn law_addition_keeps_handle(adding: AddingEventModel, answer: Answer)
    ensures
        match adding.step(answer) {
            Progress::Pending(next) => next.handle() == adding.handle(),
            Progress::Done(Ok(builder)) => builder.event_set == adding.handle(),
            _ => true,
        },
{
}

/// An addition reports an error only in the step in which the subsystem
/// frees the builder's handle: no failed addition leaves a handle behind.
pub proof fn law_failed_addition_is_released(adding: AddingEventModel, answer: Answer)
    requires
        adding.step(answer) matches Progress::Done(Err(_)),
    ensures
        adding.call() == (Call::DestroyEventSet { event_set: adding.handle() }),
        answer.status == PAPI_OK,
{
}

/// While registers are left, an addition succeeds: if the subsystem resolves
/// the name to `code`, reports fewer events in the event set than physical
/// registers, and registers the event, the addition ends with the builder
/// advanced by `code`.
pub proof fn law_addition_within_limit(
    builder: BuilderModel,
    name: Seq<char>,
    resolved: Answer,
    registered: Answer,
    limit: Answer,
    added: Answer,
)
    requires
        presentable(name),
        resolved.status == PAPI_OK,
        0 <= registered.status < limit.status,
        added.status == PAPI_OK,
    ensures
        AddingEventModel::begin(builder, name).run(seq![resolved, registered, limit, added])
            == Progress::<AddingEventModel, Result<BuilderModel, Error>>::Done(
            Ok(builder.with_code(resolved.number)),
        ),
{
    let a3 = seq![resolved, registered, limit, added];
    let a2 = a3.subrange(1, 4);
    let a1 = a2.subrange(1, 3);
    let a0 = a1.subrange(1, 2);
    assert(a3[0] == resolved);
    assert(a2[0] == registered);
    assert(a1[0] == limit);
    assert(a0[0] == added);
    let code = resolved.number;
    let m0 = AddingEventModel::begin(builder, name);
    let m1 = AddingEventModel::Counting { builder, code };
    let m2 = AddingEventModel::Limiting { builder, code, registered: registered.status };
    let m3 = AddingEventModel::Registering { builder, code };
    assert(m3.run(a0) == m3.step(added));
    assert(m2.run(a1) == m3.run(a0));
    assert(m1.run(a2) == m2.run(a1));
    assert(m0.run(a3) == m1.run(a2));
}

/// Once every register is taken, an addition fails: if the subsystem
/// reports as many events in the event set as physical registers, or more,
/// no event is registered, the builder is released, and the addition ends
/// with `OutOfHardwareCounters`.
pub proof fn law_addition_beyond_limit(
    builder: BuilderModel,
    name: Seq<char>,
    resolved: Answer,
    registered: Answer,
    limit: Answer,
)
    requires
        presentable(name),
        resolved.status == PAPI_OK,
        0 <= limit.status <= registered.status,
    ensures
        ({
            let refused = AddingEventModel::failed(builder, Error::OutOfHardwareCounters);
            &&& AddingEventModel::begin(builder, name).run(seq![resolved, registered, limit])
                == Progress::<AddingEventModel, Result<BuilderModel, Error>>::Pending(refused)
            &&& refused.call() == (Call::CleanupEventSet { event_set: builder.event_set })
            &&& AddingEventModel::begin(builder, name).run(
                seq![resolved, registered, limit, accepted(), accepted()],
            ) == Progress::<AddingEventModel, Result<BuilderModel, Error>>::Done(
                Err(Error::OutOfHardwareCounters),
            )
        }),
{
    let code = resolved.number;
    let m0 = AddingEventModel::begin(builder, name);
    let m1 = AddingEventModel::Counting { builder, code };
    let m2 = AddingEventModel::Limiting { builder, code, registered: registered.status };
    let m3 = AddingEventModel::failed(builder, Error::OutOfHardwareCounters);
    let m4 = AddingEventModel::Releasing {
        error: Error::OutOfHardwareCounters,
        closing: ClosingModel { event_set: builder.event_set, stage: Stage::Destroy },
    };
    let a2 = seq![resolved, registered, limit];
    let a1 = a2.subrange(1, 3);
    let a0 = a1.subrange(1, 2);
    let none = a0.subrange(1, 1);
    assert(a2[0] == resolved);
    assert(a1[0] == registered);
    assert(a0[0] == limit);
    assert(m3.run(none) == Progress::<AddingEventModel, Result<BuilderModel, Error>>::Pending(m3));
    assert(m2.run(a0) == m3.run(none));
    assert(m1.run(a1) == m2.run(a0));
    assert(m0.run(a2) == m1.run(a1));
    let b4 = seq![resolved, registered, limit, accepted(), accepted()];
    let b3 = b4.subrange(1, 5);
    let b2 = b3.subrange(1, 4);
    let b1 = b2.subrange(1, 3);
    let b0 = b1.subrange(1, 2);
    assert(b4[0] == resolved);
    assert(b3[0] == registered);
    assert(b2[0] == limit);
    assert(b1[0] == accepted());
    assert(b0[0] == accepted());
    assert(m4.run(b0) == m4.step(accepted()));
    assert(m3.step(accepted()) == Progress::<
        AddingEventModel,
        Result<BuilderModel, Error>,
    >::Pending(m4));
    assert(m3.run(b1) == m4.run(b0));
    assert(m2.run(b2) == m3.run(b1));
    assert(m1.run(b3) == m2.run(b2));
    assert(m0.run(b4) == m1.run(b3));
}

/// A builder without events yields no event set: finishing it releases the
/// handle, and the release can end well only with `InvalidArgument`. A
/// builder with events yields its event set at once, which holds at least
/// one event.
pub proof fn law_build_needs_events(builder: BuilderModel, answer: Answer)
    ensures
        builder.codes.len() == 0 ==> (builder.built() matches Progress::Pending(building)
            && building.call() == (Call::CleanupEventSet { event_set: builder.event_set }) && (
        building.step(answer) is Done ==> building.step(answer) == Progress::<
            crate::event_set::BuildingModel,
            Result<ReadyModel, Error>,
        >::Done(Err(Error::InvalidArgument(Reason::NoEvents))))),
        builder.codes.len() > 0 ==> (builder.built() matches Progress::Done(Ok(ready))
            && ready.event_set == builder.event_set && ready.num_events >= 1),
{
}

/// A builder with events yields an event set that starts whenever the
/// subsystem accepts the start: the running event set owns the builder's
/// handle and carries the fingerprint of the builder's codes. If the
/// subsystem refuses, the event set comes back unchanged with the hardware
/// failure.
pub proof fn law_built_event_set_starts(builder: BuilderModel, started: Answer)
    requires
        builder.codes.len() >= 1,
    ensures
        builder.built() == Progress::<
            crate::event_set::BuildingModel,
            Result<ReadyModel, Error>,
        >::Done(Ok(builder.finished())),
        started.status == PAPI_OK ==> builder.finished().started(started) == Ok::<
            RunningModel,
            (Error, ReadyModel),
        >(
            RunningModel {
                event_set: builder.event_set,
                fingerprint: crate::event_set::fingerprint(builder.codes),
                num_events: builder.codes.len(),
            },
        ),
        started.status != PAPI_OK ==> builder.finished().started(started) == Err::<
            RunningModel,
            (Error, ReadyModel),
        >((Error::PapiError(started.status), builder.finished())),
{
}

/// A sample carries the fingerprint of an event set only together with the
/// codes that the event set's handle listed: an initialisation that the
/// subsystem refuses leaves the sample as it was, so that whoever refused
/// the sample before refuses it still.
pub proof fn law_refused_initialisation_leaves_sample(
    ready: ReadyModel,
    session: RunningModel,
    sample: SampleModel,
    answer: Answer,
)
    ensures
        answer.status != PAPI_OK ==> ready.sampled(sample, answer) == sample,
        answer.status != PAPI_OK ==> session.accepts(ready.sampled(sample, answer))
            == session.accepts(sample),
        answer.status == PAPI_OK ==> ready.sampled(sample, answer) == (SampleModel {
            fingerprint: Some(ready.fingerprint),
            codes: overlaid(blank(ready.num_events, 0i32), answer.codes),
            values: blank(ready.num_events, 0i64),
        }),
        ready.sampled(sample, answer).fingerprint == Some(ready.fingerprint) ==> sample.fingerprint
            == Some(ready.fingerprint) || ready.sampled(sample, answer).codes == overlaid(
            blank(ready.num_events, 0i32),
            answer.codes,
        ),
{
}

/// A sample that was never initialised is accepted by no event set,
/// whatever its fingerprint: taking values into it is refused with
/// `InvalidArgument` and leaves it empty, and a stop into it never asks for
/// the counters.
pub proof fn law_uninitialised_sample_is_refused(session: RunningModel, answer: Answer)
    ensures
        !session.accepts(SampleModel::empty()),
        session.recorded(SampleModel::empty(), answer) == (
            Err::<(), Error>(Error::InvalidArgument(Reason::SampleNotInitialized)),
            SampleModel::empty(),
        ),
        StoppingModel::begin(session, SampleModel::empty()).settled(
            Err(Error::InvalidArgument(Reason::SampleNotInitialized)),
        ),
{
}

/// What a subsystem that adds the counts `delta` onto `buffer` leaves in
/// it.
pub open spec fn added(buffer: Seq<i64>, delta: Seq<i64>) -> Seq<i64> {
    Seq::new(buffer.len(), |i: int| (buffer[i] + delta[i]) as i64)
}

/// Accumulating yields the delta: the subsystem is asked to add the counters
/// onto a blank buffer, so the sample then holds what was counted since the
/// counters were last reset, whatever it held before. A second accumulation
/// before anything was counted leaves every value zero.
pub proof fn law_accumulate_yields_delta(
    session: RunningModel,
    sample: SampleModel,
    delta: Seq<i64>,
    first: Answer,
    second: Answer,
)
    requires
        session.accepts(sample),
        delta.len() == sample.values.len(),
        first.status == PAPI_OK,
        first.values == added(blank(sample.values.len(), 0i64), delta),
        second.status == PAPI_OK,
        second.values == added(
            blank(sample.values.len(), 0i64),
            blank(sample.values.len(), 0i64),
        ),
    ensures
        ({
            let once = session.recorded(sample, first).1;
            &&& session.accumulating(sample) == (Call::Accum {
                event_set: session.event_set,
                capacity: sample.values.len(),
            })
            &&& session.recorded(sample, first) == (
                Ok::<(), Error>(()),
                SampleModel { values: delta, ..sample },
            )
            &&& session.accepts(once)
            &&& session.accumulating(once) == session.accumulating(sample)
            &&& session.recorded(once, second) == (
                Ok::<(), Error>(()),
                SampleModel { values: blank(sample.values.len(), 0i64), ..sample },
            )
        }),
{
    let len = sample.values.len();
    assert(added(blank(len, 0i64), delta) =~= delta);
    assert(overlaid(sample.values, delta) =~= delta);
    assert(added(blank(len, 0i64), blank(len, 0i64)) =~= blank(len, 0i64));
    assert(overlaid(delta, blank(len, 0i64)) =~= blank(len, 0i64));
}

/// Taking counter values never changes which events a sample describes: its
/// codes and its fingerprint stay, and so does the number of its values.
pub proof fn law_sample_keeps_codes(session: RunningModel, sample: SampleModel, answer: Answer)
    ensures
        session.recorded(sample, answer).1.codes == sample.codes,
        session.recorded(sample, answer).1.fingerprint == sample.fingerprint,
        session.recorded(sample, answer).1.values.len() == sample.values.len(),
{
}

/// Round trip: a sample initialised for an event set whose handle lists the
/// codes `listed.codes` holds those codes in that order, whatever it held
/// before; once the event set
/// is started, a stop into the sample is not refused, gives the sample the
/// values that the subsystem wrote, and leaves the codes as they are.
pub proof fn law_round_trip(
    ready: ReadyModel,
    before: SampleModel,
    listed: Answer,
    started: Answer,
    stopped: Answer,
)
    requires
        listed.status == PAPI_OK,
        listed.codes.len() == ready.num_events,
        started.status == PAPI_OK,
        stopped.status == PAPI_OK,
        stopped.values.len() == ready.num_events,
    ensures
        ({
            let sample = ready.sampled(before, listed);
            &&& sample.codes == listed.codes
            &&& sample.aligned()
            &&& ready.started(started) matches Ok(running)
            &&& StoppingModel::begin(running, sample) matches StoppingModel::Collecting {
                session,
                capacity,
            }
            &&& StoppingModel::begin(running, sample).call() == (Call::Stop {
                event_set: ready.event_set,
                capacity: ready.num_events,
            })
            &&& StoppingModel::begin(running, sample).step(stopped, sample).0
                matches Progress::Pending(releasing)
            &&& releasing.settled(Ok(()))
            &&& StoppingModel::begin(running, sample).step(stopped, sample).1 == (SampleModel {
                fingerprint: Some(ready.fingerprint),
                codes: listed.codes,
                values: stopped.values,
            })
        }),
{
    let sample = ready.sampled(before, listed);
    assert(sample.codes =~= listed.codes);
    assert(overlaid(sample.values, stopped.values) =~= stopped.values);
}

/// What a stop that has settled on `result` comes to, whatever the
/// subsystem replies: the sample stays as it is, and the stop either still
/// releases the handle, or has ended with `result`, or is fatal.
proof fn lemma_settled_stop(
    stopping: StoppingModel,
    result: Result<(), Error>,
    answers: Seq<Answer>,
    sample: SampleModel,
)
    requires
        stopping.settled(result),
    ensures
        stopping.run(answers, sample).1 == sample,
        match stopping.run(answers, sample).0 {
            Progress::Pending(rest) => rest.settled(result),
            Progress::Done(outcome) => outcome == result,
            Progress::Fatal(_, _) => true,
        },
    decreases answers.len(),
{
    if answers.len() > 0 {
        match stopping.step(answers[0], sample) {
            (Progress::Pending(next), taken) => {
                lemma_settled_stop(
                    next,
                    result,
                    answers.subrange(1, answers.len() as int),
                    taken,
                );
            },
            _ => {},
        }
    }
}

/// Fingerprint isolation: a stop into a sample that was never initialised,
/// or that carries another fingerprint than the event set, never asks for
/// the counters, leaves the sample untouched whatever the subsystem replies,
/// and can end well only with `InvalidArgument`. The event set is released
/// all the same.
pub proof fn law_fingerprint_isolation(
    session: RunningModel,
    sample: SampleModel,
    answers: Seq<Answer>,
)
    requires
        sample.fingerprint != Some(session.fingerprint),
    ensures
        ({
            let refused = Err::<(), Error>(Error::InvalidArgument(Reason::SampleNotInitialized));
            let stopping = StoppingModel::begin(session, sample);
            &&& stopping.settled(refused)
            &&& stopping.call() == (Call::State { event_set: session.event_set })
            &&& stopping.run(answers, sample).1 == sample
            &&& match stopping.run(answers, sample).0 {
                Progress::Pending(rest) => rest.settled(refused),
                Progress::Done(outcome) => outcome == refused,
                Progress::Fatal(_, _) => true,
            }
        }),
{
    let refused = Err::<(), Error>(Error::InvalidArgument(Reason::SampleNotInitialized));
    lemma_settled_stop(StoppingModel::begin(session, sample), refused, answers, sample);
}

/// The same holds of taking values while the counters run: a sample that
/// was never initialised, or that carries another fingerprint, is refused
/// with `InvalidArgument` and stays untouched, whatever the subsystem
/// replied.
pub proof fn law_foreign_sample_is_refused(
    session: RunningModel,
    sample: SampleModel,
    answer: Answer,
)
    requires
        sample.fingerprint != Some(session.fingerprint),
    ensures
        session.recorded(sample, answer) == (
            Err::<(), Error>(Error::InvalidArgument(Reason::SampleNotInitialized)),
            sample,
        ),
{
}

/// A stop ends, with whatever outcome, only in the step in which the
/// subsystem frees the handle of the event set.
pub proof fn law_stop_releases(stopping: StoppingModel, answer: Answer, sample: SampleModel)
    requires
        stopping.step(answer, sample).0 is Done,
    ensures
        stopping matches StoppingModel::Releasing { result, closing } && stopping.call() == (
        Call::DestroyEventSet { event_set: closing.event_set }),
        answer.status == PAPI_OK,
{
}

/// Clone independence: with a subsystem that accepts every call, the
/// duplicate of an event set gets a handle of its own, on which exactly the
/// codes that the source's handle lists are registered, in their order and
/// as many as were listed, and it carries the fingerprint and the number of
/// events of the source. So a sample initialised for one of the two is
/// accepted by the other.
pub proof fn law_clone_carries_events(
    source: ReadyModel,
    before: SampleModel,
    listed: Answer,
    created: Answer,
    registered: Answer,
    started: Answer,
)
    requires
        listed.status == PAPI_OK,
        listed.codes.len() == source.num_events,
        0 <= listed.number <= source.num_events,
        created.status == PAPI_OK,
        registered.status == PAPI_OK,
        started.status == PAPI_OK,
    ensures
        ({
            let codes = listed.codes.take(listed.number as int);
            let listing = CloningModel::begin(source);
            let creating = CloningModel::Creating { source, codes };
            let registering = CloningModel::Registering {
                source,
                codes,
                event_set: created.number,
            };
            let duplicate = ReadyModel { event_set: created.number, ..source };
            &&& listing.call() == source.listing()
            &&& listing.step(listed) == Progress::<
                CloningModel,
                Result<ReadyModel, Error>,
            >::Pending(creating)
            &&& creating.call() == Call::CreateEventSet
            &&& creating.step(created) == Progress::<
                CloningModel,
                Result<ReadyModel, Error>,
            >::Pending(registering)
            &&& registering.call() == (Call::AddEvents { event_set: created.number, codes })
            &&& registering.step(registered) == Progress::<
                CloningModel,
                Result<ReadyModel, Error>,
            >::Done(Ok(duplicate))
            &&& duplicate.started(started) matches Ok(running)
            &&& running.accepts(source.sampled(before, listed))
            &&& duplicate.sampled(before, listed) == source.sampled(before, listed)
        }),
{
    assert(overlaid(blank(source.num_events, 0i32), listed.codes) =~= listed.codes);
}

/// A duplication that has allocated a handle reports an error only in the
/// step in which the subsystem frees that handle.
pub proof fn law_failed_clone_is_released(cloning: CloningModel, answer: Answer)
    requires
        cloning is Registering || cloning is Releasing,
        cloning.step(answer) matches Progress::Done(Err(_)),
    ensures
        cloning matches CloningModel::Releasing { error, closing } && cloning.call() == (
        Call::DestroyEventSet { event_set: closing.event_set }),
        answer.status == PAPI_OK,
{
}

/// Using a preset reports an error only in the step in which the subsystem
/// frees the builder's handle.
pub proof fn law_failed_preset_is_released(using: UsingPresetModel, answer: Answer)
    requires
        using.step(answer) matches Progress::Done(Err(_)),
    ensures
        using.call() matches Call::DestroyEventSet { event_set },
        answer.status == PAPI_OK,
{
}

/// A preset that is not configured adds nothing: the builder is released
/// and the operation can end well only with `InvalidArgument`.
pub proof fn law_unknown_preset_is_refused(builder: BuilderModel, name: Seq<char>, answer: Answer)
    requires
        builder.papi.preset(name) is Err,
    ensures
        UsingPresetModel::begin(builder, name) matches Progress::Pending(using) && using.call() == (
        Call::CleanupEventSet { event_set: builder.event_set }) && (using.step(answer)
            matches Progress::Done(outcome) ==> outcome matches Err(Error::InvalidArgument(_))),
{
}

impl UsingPresetModel {
    /// Where the operation stands after the replies `answers`.
    pub open spec fn run(self, answers: Seq<Answer>) -> Progress<
        UsingPresetModel,
        Result<BuilderModel, Error>,
    >
        decreases answers.len(),
    {
        if answers.len() == 0 {
            Progress::Pending(self)
        } else {
            match self.step(answers[0]) {
                Progress::Pending(next) => next.run(answers.subrange(1, answers.len() as int)),
                ended => ended,
            }
        }
    }
}

/// Where an operation that stands at `progress` stands after the replies
/// `answers`.
pub open spec fn continued(
    progress: Progress<UsingPresetModel, Result<BuilderModel, Error>>,
    answers: Seq<Answer>,
) -> Progress<UsingPresetModel, Result<BuilderModel, Error>> {
    match progress {
        Progress::Pending(using) => using.run(answers),
        ended => ended,
    }
}

/// Whether `answers` are the replies of a subsystem that takes the events
/// `codes` one after the other: four replies for each event, which resolve
/// its name to its code, report fewer events in the event set than physical
/// registers, and register the event.
pub open spec fn favourable(answers: Seq<Answer>, codes: Seq<i32>) -> bool {
    &&& answers.len() == 4 * codes.len()
    &&& forall|i: int|
        0 <= i < codes.len() ==> {
            &&& (#[trigger] answers[4 * i]).status == PAPI_OK
            &&& answers[4 * i].number == codes[i]
            &&& 0 <= answers[4 * i + 1].status < answers[4 * i + 2].status
            &&& answers[4 * i + 3].status == PAPI_OK
        }
}

/// The events of a preset from `names[next]` on are added in their order.
proof fn lemma_preset_adds_in_order(
    builder: BuilderModel,
    names: Seq<Seq<char>>,
    next: nat,
    codes: Seq<i32>,
    answers: Seq<Answer>,
)
    requires
        next <= names.len(),
        codes.len() == names.len() - next,
        forall|i: int| next <= i < names.len() ==> presentable(#[trigger] names[i]),
        favourable(answers, codes),
    ensures
        continued(UsingPresetModel::proceed(builder, names, next), answers) == Progress::<
            UsingPresetModel,
            Result<BuilderModel, Error>,
        >::Done(Ok(BuilderModel { codes: builder.codes + codes, ..builder })),
    decreases names.len() - next,
{
    if next >= names.len() {
        assert(builder.codes + codes =~= builder.codes);
    } else {
        let code = codes[0];
        let a0 = answers;
        let a1 = a0.subrange(1, a0.len() as int);
        let a2 = a1.subrange(1, a1.len() as int);
        let a3 = a2.subrange(1, a2.len() as int);
        let rest = a3.subrange(1, a3.len() as int);
        assert(a0[4 * 0int].status == PAPI_OK);
        assert(a1[0] == answers[1]);
        assert(a2[0] == answers[2]);
        assert(a3[0] == answers[3]);
        assert(presentable(names[next as int]));
        let u0 = UsingPresetModel::Adding {
            names,
            next,
            adding: AddingEventModel::begin(builder, names[next as int]),
        };
        let u1 = UsingPresetModel::Adding {
            names,
            next,
            adding: AddingEventModel::Counting { builder, code },
        };
        let u2 = UsingPresetModel::Adding {
            names,
            next,
            adding: AddingEventModel::Limiting { builder, code, registered: answers[1].status },
        };
        let u3 = UsingPresetModel::Adding {
            names,
            next,
            adding: AddingEventModel::Registering { builder, code },
        };
        let advanced = builder.with_code(code);
        let later = codes.subrange(1, codes.len() as int);
        assert(favourable(rest, later)) by {
            assert forall|i: int| 0 <= i < later.len() implies {
                &&& (#[trigger] rest[4 * i]).status == PAPI_OK
                &&& rest[4 * i].number == later[i]
                &&& 0 <= rest[4 * i + 1].status < rest[4 * i + 2].status
                &&& rest[4 * i + 3].status == PAPI_OK
            } by {
                assert(rest[4 * i] == answers[4 * (i + 1)]);
                assert(rest[4 * i + 1] == answers[4 * (i + 1) + 1]);
                assert(rest[4 * i + 2] == answers[4 * (i + 1) + 2]);
                assert(rest[4 * i + 3] == answers[4 * (i + 1) + 3]);
                assert(later[i] == codes[i + 1]);
            }
        }
        lemma_preset_adds_in_order(advanced, names, next + 1, later, rest);
        assert(advanced.codes + later =~= builder.codes + codes);
        let onward = UsingPresetModel::proceed(advanced, names, next + 1);
        assert(u3.step(a3[0]) == onward);
        assert(u3.run(a3) == continued(onward, rest));
        assert(u2.run(a2) == u3.run(a3));
        assert(u1.run(a1) == u2.run(a2));
        assert(u0.run(a0) == u1.run(a1));
    }
}

/// Using a preset adds its events in their order: with a subsystem that
/// takes every event of the preset, the operation ends with the builder
/// advanced by the codes that the names were resolved to, one after the
/// other.
pub proof fn law_preset_adds_in_order(
    builder: BuilderModel,
    name: Seq<char>,
    codes: Seq<i32>,
    answers: Seq<Answer>,
)
    requires
        builder.papi.preset(name) matches Ok(names) && names.len() == codes.len() && forall|
            i: int,
        |
            0 <= i < names.len() ==> presentable(#[trigger] names[i]),
        favourable(answers, codes),
    ensures
        continued(UsingPresetModel::begin(builder, name), answers) == Progress::<
            UsingPresetModel,
            Result<BuilderModel, Error>,
        >::Done(Ok(BuilderModel { codes: builder.codes + codes, ..builder })),
{
    let names = builder.papi.preset(name).unwrap();
    lemma_preset_adds_in_order(builder, names, 0, codes, answers);
}

/// Taking one more preset is putting it into the table that took the
/// others.
proof fn lemma_absorbed_push(
    table: Presets,
    entries: Entries,
    entry: (Seq<char>, Seq<Seq<char>>),
)
    ensures
        absorbed(table, entries.push(entry)) == absorbed(table, entries).insert(entry.0, entry.1),
    decreases entries.len(),
{
    let longer = entries.push(entry);
    if entries.len() == 0 {
        assert(longer.subrange(1, longer.len() as int) =~= Seq::<
            (Seq<char>, Seq<Seq<char>>),
        >::empty());
        assert(absorbed(table.insert(entry.0, entry.1), Seq::empty()) == table.insert(
            entry.0,
            entry.1,
        ));
    } else {
        assert(longer.subrange(1, longer.len() as int) =~= entries.subrange(
            1,
            entries.len() as int,
        ).push(entry));
        lemma_absorbed_push(
            table.insert(entries[0].0, entries[0].1),
            entries.subrange(1, entries.len() as int),
            entry,
        );
    }
}

/// The table of a configuration holds exactly the names of the presets it
/// was made from, and under each name the events of the last preset of that
/// name.
pub proof fn law_table_holds_last_of_each_name(entries: Entries, name: Seq<char>)
    ensures
        absorbed(Map::empty(), entries).contains_key(name) == holds(entries, name),
        forall|i: int|
            0 <= i < entries.len() && #[trigger] entries[i].0 == name && (forall|j: int|
                i < j < entries.len() ==> entries[j].0 != name) ==> absorbed(
                Map::empty(),
                entries,
            )[name] == entries[i].1,
    decreases entries.len(),
{
    if entries.len() > 0 {
        let init = entries.drop_last();
        let last = entries.last();
        assert(init.push(last) =~= entries);
        lemma_absorbed_push(Map::empty(), init, last);
        law_table_holds_last_of_each_name(init, name);
        if holds(init, name) {
            let i = choose|i: int| 0 <= i < init.len() && #[trigger] init[i].0 == name;
            assert(entries[i].0 == name);
        }
        if holds(entries, name) && last.0 != name {
            let i = choose|i: int| 0 <= i < entries.len() && #[trigger] entries[i].0 == name;
            assert(init[i].0 == name);
        }
        if last.0 == name {
            assert(entries[entries.len() - 1].0 == name);
        }
        assert forall|i: int|
            0 <= i < entries.len() && #[trigger] entries[i].0 == name && (forall|j: int|
                i < j < entries.len() ==> entries[j].0 != name) implies absorbed(
            Map::empty(),
            entries,
        )[name] == entries[i].1 by {
            if i < entries.len() - 1 {
                assert(entries[entries.len() - 1].0 != name);
                assert(init[i].0 == name);
                assert forall|j: int| i < j < init.len() implies init[j].0 != name by {
                    assert(init[j] == entries[j]);
                }
            }
        }
    }
}

} // verus!
