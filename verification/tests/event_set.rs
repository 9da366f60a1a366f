//! The event-set lifecycle, driven against a simulated counter subsystem.

use papi::error::{Error, Reason};
use papi::event_set::adding::AddingEvent;
use papi::event_set::cloning::Cloning;
use papi::event_set::preset::UsingPreset;
use papi::event_set::sample::{Naming, Sample};
use papi::event_set::stopping::Stopping;
use papi::event_set::{Building, EventSetBuilder, ReadyEventSet, RunningEventSet};
use papi::facility::{Progress, Reply, Request, Stage};
use papi::teardown::Closing;
use papi::{Config, Initializing, Papi};

const VERSION: i32 = 0x0507_0000;
const EINVAL: i32 = -1;
const ENOEVNT: i32 = -7;
const ECNFLCT: i32 = -8;
const EISRUN: i32 = -10;
const ENOEVST: i32 = -11;

struct EventSet {
    handle: i32,
    codes: Vec<i32>,
    counts: Vec<i64>,
    running: bool,
}

/// A counter subsystem in software: a few named events, a fixed number of
/// registers, and counters that advance only when `work` is called.
struct Subsystem {
    initialized: bool,
    limit: i32,
    next_handle: i32,
    sets: Vec<EventSet>,
    events: Vec<(&'static str, i32)>,
    calls: Vec<String>,
}

impl Subsystem {
    fn new(limit: i32) -> Subsystem {
        Subsystem {
            initialized: false,
            limit,
            next_handle: 1,
            sets: Vec::new(),
            events: vec![
                ("CPU_CLK_UNHALTED", 0x4000_0000),
                ("EVT_A", 0x4000_0001),
                ("EVT_B", 0x4000_0002),
                ("EVT_C", 0x4000_0003),
                ("EVT_D", 0x4000_0004),
            ],
            calls: Vec::new(),
        }
    }

    fn live_handles(&self) -> usize {
        self.sets.len()
    }

    fn find(&mut self, handle: i32) -> Option<&mut EventSet> {
        self.sets.iter_mut().find(|set| set.handle == handle)
    }

    fn codes_of(&self, handle: i32) -> Vec<i32> {
        self.sets.iter().find(|set| set.handle == handle).unwrap().codes.clone()
    }

    /// Lets every running counter advance: the counter at index `i` by
    /// `amount * (i + 1)`.
    fn work(&mut self, amount: i64) {
        for set in self.sets.iter_mut().filter(|set| set.running) {
            for (i, count) in set.counts.iter_mut().enumerate() {
                *count += amount * (i as i64 + 1);
            }
        }
    }

    fn registers_in_use(&self) -> usize {
        self.sets.iter().filter(|set| set.running).map(|set| set.codes.len()).sum()
    }

    fn perform(&mut self, request: &Request) -> Reply {
        self.calls.push(format!("{:?}", request));
        match request {
            Request::LibraryState => Reply::status(if self.initialized { 1 } else { 0 }),
            Request::LibraryInit { version: _ } => {
                self.initialized = true;
                Reply::status(VERSION)
            }
            Request::ThreadInit => Reply::status(0),
            Request::CreateEventSet => {
                let handle = self.next_handle;
                self.next_handle += 1;
                self.sets.push(EventSet {
                    handle,
                    codes: Vec::new(),
                    counts: Vec::new(),
                    running: false,
                });
                Reply::number(0, handle)
            }
            Request::EventNameToCode { name } => {
                match self.events.iter().find(|(known, _)| known == name) {
                    Some((_, code)) => Reply::number(0, *code),
                    None => Reply::status(ENOEVNT),
                }
            }
            Request::EventCodeToName { code } => {
                match self.events.iter().find(|(_, known)| known == code) {
                    Some((name, _)) => Reply::name(0, name.to_string()),
                    None => Reply::status(ENOEVNT),
                }
            }
            Request::NumEvents { event_set } => match self.find(*event_set) {
                Some(set) => Reply::status(set.codes.len() as i32),
                None => Reply::status(ENOEVST),
            },
            Request::NumHwCounters => Reply::status(self.limit),
            Request::AddEvent { event_set, code } => match self.find(*event_set) {
                Some(set) => {
                    set.codes.push(*code);
                    set.counts.push(0);
                    Reply::status(0)
                }
                None => Reply::status(ENOEVST),
            },
            Request::AddEvents { event_set, codes } => {
                let limit = self.limit as usize;
                match self.find(*event_set) {
                    Some(_) if codes.len() > limit => Reply::status(ECNFLCT),
                    Some(set) => {
                        for code in codes.iter() {
                            set.codes.push(*code);
                            set.counts.push(0);
                        }
                        Reply::status(0)
                    }
                    None => Reply::status(ENOEVST),
                }
            }
            Request::ListEvents { event_set, capacity } => match self.find(*event_set) {
                Some(set) => {
                    let mut buffer = vec![0; *capacity];
                    for (slot, code) in buffer.iter_mut().zip(set.codes.iter()) {
                        *slot = *code;
                    }
                    Reply::codes(0, set.codes.len() as i32, buffer)
                }
                None => Reply::status(ENOEVST),
            },
            Request::Start { event_set } => {
                let in_use = self.registers_in_use();
                let limit = self.limit as usize;
                match self.find(*event_set) {
                    Some(set) if set.running => Reply::status(EISRUN),
                    Some(set) if in_use + set.codes.len() > limit => Reply::status(ECNFLCT),
                    Some(set) => {
                        set.running = true;
                        for count in set.counts.iter_mut() {
                            *count = 0;
                        }
                        Reply::status(0)
                    }
                    None => Reply::status(ENOEVST),
                }
            }
            Request::Stop { event_set, capacity } => match self.find(*event_set) {
                Some(set) if set.running => {
                    set.running = false;
                    let mut buffer = vec![0; *capacity];
                    for (slot, count) in buffer.iter_mut().zip(set.counts.iter()) {
                        *slot = *count;
                    }
                    Reply::values(0, buffer)
                }
                Some(_) => Reply::status(EINVAL),
                None => Reply::status(ENOEVST),
            },
            Request::Halt { event_set } => match self.find(*event_set) {
                Some(set) if set.running => {
                    set.running = false;
                    Reply::status(0)
                }
                Some(_) => Reply::status(EINVAL),
                None => Reply::status(ENOEVST),
            },
            Request::Read { event_set, capacity } => match self.find(*event_set) {
                Some(set) if set.running => {
                    let mut buffer = vec![0; *capacity];
                    for (slot, count) in buffer.iter_mut().zip(set.counts.iter()) {
                        *slot = *count;
                    }
                    Reply::values(0, buffer)
                }
                Some(_) => Reply::status(EINVAL),
                None => Reply::status(ENOEVST),
            },
            Request::Accum { event_set, capacity } => match self.find(*event_set) {
                Some(set) if set.running => {
                    let mut buffer: Vec<i64> = vec![0; *capacity];
                    for (slot, count) in buffer.iter_mut().zip(set.counts.iter_mut()) {
                        *slot += *count;
                        *count = 0;
                    }
                    Reply::values(0, buffer)
                }
                Some(_) => Reply::status(EINVAL),
                None => Reply::status(ENOEVST),
            },
            Request::State { event_set } => match self.find(*event_set) {
                Some(set) => Reply::number(0, if set.running { 2 } else { 1 }),
                None => Reply::status(ENOEVST),
            },
            Request::CleanupEventSet { event_set } => match self.find(*event_set) {
                Some(set) if set.running => Reply::status(EISRUN),
                Some(set) => {
                    set.codes.clear();
                    set.counts.clear();
                    Reply::status(0)
                }
                None => Reply::status(ENOEVST),
            },
            Request::DestroyEventSet { event_set } => {
                match self.sets.iter().position(|set| set.handle == *event_set) {
                    Some(at) if self.sets[at].codes.is_empty() => {
                        self.sets.remove(at);
                        Reply::status(0)
                    }
                    Some(_) => Reply::status(EINVAL),
                    None => Reply::status(ENOEVST),
                }
            }
        }
    }
}

/// An operation that is resumed once per reply.
trait Operation: Sized {
    type Output;
    fn next(&self) -> Request<'_>;
    fn advance(self, reply: Reply) -> Progress<Self, Self::Output>;
}

impl Operation for Initializing {
    type Output = Result<Papi, Error>;
    fn next(&self) -> Request<'_> {
        self.request()
    }
    fn advance(self, reply: Reply) -> Progress<Self, Self::Output> {
        self.resume(reply)
    }
}

impl Operation for Closing {
    type Output = ();
    fn next(&self) -> Request<'_> {
        self.request()
    }
    fn advance(self, reply: Reply) -> Progress<Self, Self::Output> {
        self.resume(reply)
    }
}

impl<'p, 'a> Operation for AddingEvent<'p, 'a> {
    type Output = Result<EventSetBuilder<'p>, Error>;
    fn next(&self) -> Request<'_> {
        self.request()
    }
    fn advance(self, reply: Reply) -> Progress<Self, Self::Output> {
        self.resume(reply)
    }
}

impl<'p> Operation for UsingPreset<'p> {
    type Output = Result<EventSetBuilder<'p>, Error>;
    fn next(&self) -> Request<'_> {
        self.request()
    }
    fn advance(self, reply: Reply) -> Progress<Self, Self::Output> {
        self.resume(reply)
    }
}

impl Operation for Building {
    type Output = Result<ReadyEventSet, Error>;
    fn next(&self) -> Request<'_> {
        self.request()
    }
    fn advance(self, reply: Reply) -> Progress<Self, Self::Output> {
        self.resume(reply)
    }
}

impl Operation for Cloning {
    type Output = Result<ReadyEventSet, Error>;
    fn next(&self) -> Request<'_> {
        self.request()
    }
    fn advance(self, reply: Reply) -> Progress<Self, Self::Output> {
        self.resume(reply)
    }
}

impl Operation for Naming {
    type Output = Result<Vec<String>, Error>;
    fn next(&self) -> Request<'_> {
        self.request()
    }
    fn advance(self, reply: Reply) -> Progress<Self, Self::Output> {
        self.resume(reply)
    }
}

/// Runs an operation to its end and says how it ended.
fn finish<M: Operation>(
    hw: &mut Subsystem,
    progress: Progress<M, M::Output>,
) -> Result<M::Output, (Stage, i32)> {
    let mut progress = progress;
    loop {
        match progress {
            Progress::Pending(operation) => {
                let reply = hw.perform(&operation.next());
                progress = operation.advance(reply);
            }
            Progress::Done(output) => return Ok(output),
            Progress::Fatal(stage, status) => return Err((stage, status)),
        }
    }
}

/// Runs an operation to its end; a release that the subsystem refuses is a
/// panic.
fn run<M: Operation>(hw: &mut Subsystem, progress: Progress<M, M::Output>) -> M::Output {
    match finish(hw, progress) {
        Ok(output) => output,
        Err((stage, status)) => panic!("release failed at {:?} with {}", stage, status),
    }
}

fn run_stop(
    hw: &mut Subsystem,
    progress: Progress<Stopping, Result<(), Error>>,
    sample: &mut Sample,
) -> Result<(), Error> {
    let mut progress = progress;
    loop {
        match progress {
            Progress::Pending(operation) => {
                let reply = hw.perform(&operation.request());
                progress = operation.resume(reply, sample);
            }
            Progress::Done(output) => return output,
            Progress::Fatal(stage, status) => {
                panic!("release failed at {:?} with {}", stage, status)
            }
        }
    }
}

fn init(hw: &mut Subsystem) -> Papi {
    run(hw, Papi::init(VERSION)).unwrap()
}

fn new_builder<'p>(hw: &mut Subsystem, papi: &'p Papi) -> Result<EventSetBuilder<'p>, Error> {
    let reply = hw.perform(&EventSetBuilder::new_request());
    EventSetBuilder::new(papi, reply)
}

fn init_sample(hw: &mut Subsystem, ready: &ReadyEventSet, sample: &mut Sample) -> Result<(), Error> {
    let reply = hw.perform(&ready.init_sample_request());
    ready.init_sample(sample, reply)
}

fn start(hw: &mut Subsystem, ready: ReadyEventSet) -> Result<RunningEventSet, (Error, ReadyEventSet)> {
    let reply = hw.perform(&ready.start_request());
    ready.start(reply)
}

fn accum(hw: &mut Subsystem, running: &RunningEventSet, sample: &mut Sample) -> Result<(), Error> {
    let reply = hw.perform(&running.accum_request(sample)?);
    running.accum(sample, reply)
}

fn read(hw: &mut Subsystem, running: &RunningEventSet, sample: &mut Sample) -> Result<(), Error> {
    let reply = hw.perform(&running.read_request(sample)?);
    running.read(sample, reply)
}

fn stop(hw: &mut Subsystem, running: RunningEventSet, sample: &mut Sample) -> Result<(), Error> {
    let progress = running.stop(sample);
    run_stop(hw, progress, sample)
}

fn ready_with<'p>(hw: &mut Subsystem, papi: &'p Papi, names: &[&str]) -> ReadyEventSet {
    let mut builder = new_builder(hw, papi).unwrap();
    for name in names {
        builder = run(hw, builder.add_event_by_name(name)).unwrap();
    }
    run(hw, builder.build()).unwrap()
}

#[test]
fn event_set_complete_pipeline() {
    let mut hw = Subsystem::new(4);
    let papi = init(&mut hw);
    let builder = new_builder(&mut hw, &papi).unwrap();
    let event_added = run(&mut hw, builder.add_event_by_name("CPU_CLK_UNHALTED"));
    assert!(event_added.is_ok());

    let builder = event_added.unwrap();
    let ready_event_set = run(&mut hw, builder.build()).unwrap();
    let mut sample = Sample::default();
    init_sample(&mut hw, &ready_event_set, &mut sample).unwrap();
    let running = start(&mut hw, ready_event_set).unwrap();
    hw.work(21);
    stop(&mut hw, running, &mut sample).unwrap();

    let names = run(&mut hw, sample.names()).unwrap();
    let buffer = sample.render(&names);
    assert_eq!(buffer, "CPU_CLK_UNHALTED: 21 ");

    let all: Vec<(String, i64)> = sample.into_pairs(&names);
    assert_eq!(all, vec![("CPU_CLK_UNHALTED".to_string(), 21)]);
    assert_eq!(hw.live_handles(), 0);
}

#[test]
fn run_two_event_set_instances() {
    let mut hw = Subsystem::new(4);
    let papi = init(&mut hw);
    let builder = new_builder(&mut hw, &papi).unwrap();
    let event_added = run(&mut hw, builder.add_event_by_name("CPU_CLK_UNHALTED"));
    assert!(event_added.is_ok());

    let builder = event_added.unwrap();
    let ready_event_set = run(&mut hw, builder.build()).unwrap();
    let cloned_event_set = run(&mut hw, ready_event_set.try_clone()).unwrap();

    let mut sample_1 = Sample::default();
    let mut sample_2 = Sample::default();
    init_sample(&mut hw, &ready_event_set, &mut sample_1).unwrap();
    init_sample(&mut hw, &cloned_event_set, &mut sample_2).unwrap();

    let running = start(&mut hw, ready_event_set).unwrap();
    let running_cloned = start(&mut hw, cloned_event_set).unwrap();

    stop(&mut hw, running, &mut sample_1).unwrap();
    stop(&mut hw, running_cloned, &mut sample_1).unwrap();
    assert_eq!(hw.live_handles(), 0);
}

#[test]
fn drop_unbuilt_event_set_builder() {
    let mut hw = Subsystem::new(4);
    let papi = init(&mut hw);
    let builder = new_builder(&mut hw, &papi).unwrap();
    let event_added = run(&mut hw, builder.add_event_by_name("CPU_CLK_UNHALTED"));
    assert!(event_added.is_ok());
    assert_eq!(hw.live_handles(), 1);
    run(&mut hw, event_added.unwrap().close());
    assert_eq!(hw.live_handles(), 0);
}

#[test]
fn drop_unrun_ready_event_set() {
    let mut hw = Subsystem::new(4);
    let papi = init(&mut hw);
    let builder = new_builder(&mut hw, &papi).unwrap();
    let event_added = run(&mut hw, builder.add_event_by_name("CPU_CLK_UNHALTED"));
    assert!(event_added.is_ok());

    let builder = event_added.unwrap();
    let built = run(&mut hw, builder.build());
    assert!(built.is_ok());
    run(&mut hw, built.unwrap().close());
    assert_eq!(hw.live_handles(), 0);
}

#[test]
fn drop_unstopped_running_event_set() {
    let mut hw = Subsystem::new(4);
    let papi = init(&mut hw);
    let builder = new_builder(&mut hw, &papi).unwrap();
    let event_added = run(&mut hw, builder.add_event_by_name("CPU_CLK_UNHALTED"));
    assert!(event_added.is_ok());

    let builder = event_added.unwrap();
    let ready_event_set = run(&mut hw, builder.build()).unwrap();
    let mut sample = Sample::default();
    init_sample(&mut hw, &ready_event_set, &mut sample).unwrap();
    let started = start(&mut hw, ready_event_set);
    assert!(started.is_ok());

    let calls_before = hw.calls.len();
    run(&mut hw, started.unwrap().close());
    assert_eq!(hw.live_handles(), 0);
    assert_eq!(
        hw.calls[calls_before..],
        [
            "State { event_set: 1 }",
            "Halt { event_set: 1 }",
            "CleanupEventSet { event_set: 1 }",
            "DestroyEventSet { event_set: 1 }",
        ]
    );
}

#[test]
fn init_skips_library_init_when_initialized() {
    let mut hw = Subsystem::new(4);
    init(&mut hw);
    assert_eq!(hw.calls, ["LibraryState", "LibraryInit { version: 84344832 }", "ThreadInit"]);
    hw.calls.clear();
    init(&mut hw);
    assert_eq!(hw.calls, ["LibraryState", "ThreadInit"]);
}

#[test]
fn init_reports_version_mismatch() {
    let mut hw = Subsystem::new(4);
    let outcome = run(&mut hw, Papi::init(VERSION + 1));
    assert_eq!(outcome.err(), Some(Error::VersionMismatch));
}

#[test]
fn init_reports_thread_failure() {
    let papi = Papi::init(VERSION);
    let Progress::Pending(op) = papi else { panic!("no call awaited") };
    let Progress::Pending(op) = op.resume(Reply::status(1)) else { panic!("ended early") };
    assert!(matches!(op.request(), Request::ThreadInit));
    match op.resume(Reply::status(-4)) {
        Progress::Done(Err(error)) => assert_eq!(error, Error::ThreadSupport),
        _ => panic!("thread failure not reported"),
    }
}

#[test]
fn new_builder_reports_hardware_failure() {
    let papi = run(&mut Subsystem::new(4), Papi::init(VERSION)).unwrap();
    let refused = EventSetBuilder::new(&papi, Reply::status(-2));
    assert_eq!(refused.err(), Some(Error::PapiError(-2)));
    let builder = EventSetBuilder::new(&papi, Reply::number(0, 17)).unwrap();
    assert_eq!(builder.event_set(), 17);
    assert!(builder.codes().is_empty());
}

#[test]
fn sessions_up_to_the_register_limit_build_and_start() {
    for n in 1..=4usize {
        let mut hw = Subsystem::new(4);
        let papi = init(&mut hw);
        let names = ["EVT_A", "EVT_B", "EVT_C", "EVT_D"];
        let ready = ready_with(&mut hw, &papi, &names[..n]);
        assert_eq!(ready.num_events(), n);
        let running = start(&mut hw, ready);
        assert!(running.is_ok());
        run(&mut hw, running.unwrap().close());
        assert_eq!(hw.live_handles(), 0);
    }
}

#[test]
fn build_without_events_is_invalid_argument() {
    let mut hw = Subsystem::new(4);
    let papi = init(&mut hw);
    let builder = new_builder(&mut hw, &papi).unwrap();
    let built = run(&mut hw, builder.build());
    assert_eq!(built.err(), Some(Error::InvalidArgument(Reason::NoEvents)));
    assert_eq!(hw.live_handles(), 0);
}

#[test]
fn add_beyond_register_limit_is_out_of_hardware_counters() {
    let mut hw = Subsystem::new(2);
    let papi = init(&mut hw);
    let builder = new_builder(&mut hw, &papi).unwrap();
    let builder = run(&mut hw, builder.add_event_by_name("EVT_A")).unwrap();
    let builder = run(&mut hw, builder.add_event_by_name("EVT_B")).unwrap();
    assert_eq!(builder.codes(), &vec![0x4000_0001, 0x4000_0002]);
    let third = run(&mut hw, builder.add_event_by_name("EVT_C"));
    assert_eq!(third.err(), Some(Error::OutOfHardwareCounters));
    assert_eq!(hw.live_handles(), 0);
}

#[test]
fn add_unknown_event_is_invalid_event() {
    let mut hw = Subsystem::new(2);
    let papi = init(&mut hw);
    let builder = new_builder(&mut hw, &papi).unwrap();
    let added = run(&mut hw, builder.add_event_by_name("NO_SUCH_EVENT"));
    assert_eq!(added.err(), Some(Error::InvalidEvent));
    assert_eq!(hw.live_handles(), 0);
}

#[test]
fn add_name_with_nul_is_invalid_event_without_resolving() {
    let mut hw = Subsystem::new(2);
    let papi = init(&mut hw);
    let builder = new_builder(&mut hw, &papi).unwrap();
    hw.calls.clear();
    let added = run(&mut hw, builder.add_event_by_name("EVT\0A"));
    assert_eq!(added.err(), Some(Error::InvalidEvent));
    assert_eq!(hw.calls, ["CleanupEventSet { event_set: 1 }", "DestroyEventSet { event_set: 1 }"]);
}

#[test]
fn add_asks_in_order_and_reports_register_failure() {
    let papi = run(&mut Subsystem::new(4), Papi::init(VERSION)).unwrap();
    let builder = EventSetBuilder::new(&papi, Reply::number(0, 9)).unwrap();
    let Progress::Pending(op) = builder.add_event_by_name("EVT_A") else { panic!() };
    assert!(matches!(op.request(), Request::EventNameToCode { name: "EVT_A" }));
    let Progress::Pending(op) = op.resume(Reply::number(0, 77)) else { panic!() };
    assert!(matches!(op.request(), Request::NumEvents { event_set: 9 }));
    let Progress::Pending(op) = op.resume(Reply::status(0)) else { panic!() };
    assert!(matches!(op.request(), Request::NumHwCounters));
    let Progress::Pending(op) = op.resume(Reply::status(1)) else { panic!() };
    assert!(matches!(op.request(), Request::AddEvent { event_set: 9, code: 77 }));
    let Progress::Pending(op) = op.resume(Reply::status(-8)) else { panic!() };
    assert!(matches!(op.request(), Request::CleanupEventSet { event_set: 9 }));
    let Progress::Pending(op) = op.resume(Reply::status(0)) else { panic!() };
    assert!(matches!(op.request(), Request::DestroyEventSet { event_set: 9 }));
    match op.resume(Reply::status(0)) {
        Progress::Done(Err(error)) => assert_eq!(error, Error::PapiError(-8)),
        _ => panic!("the failure was not reported"),
    }
}

#[test]
fn add_reports_negative_counts_as_hardware_failure() {
    let papi = run(&mut Subsystem::new(4), Papi::init(VERSION)).unwrap();
    let builder = EventSetBuilder::new(&papi, Reply::number(0, 9)).unwrap();
    let Progress::Pending(op) = builder.add_event_by_name("EVT_A") else { panic!() };
    let Progress::Pending(op) = op.resume(Reply::number(0, 77)) else { panic!() };
    let Progress::Pending(op) = op.resume(Reply::status(-11)) else { panic!() };
    let Progress::Pending(op) = op.resume(Reply::status(0)) else { panic!() };
    match op.resume(Reply::status(0)) {
        Progress::Done(Err(error)) => assert_eq!(error, Error::PapiError(-11)),
        _ => panic!("the failure was not reported"),
    }

    let builder = EventSetBuilder::new(&papi, Reply::number(0, 9)).unwrap();
    let Progress::Pending(op) = builder.add_event_by_name("EVT_A") else { panic!() };
    let Progress::Pending(op) = op.resume(Reply::number(0, 77)) else { panic!() };
    let Progress::Pending(op) = op.resume(Reply::status(0)) else { panic!() };
    let Progress::Pending(op) = op.resume(Reply::status(-3)) else { panic!() };
    let Progress::Pending(op) = op.resume(Reply::status(0)) else { panic!() };
    match op.resume(Reply::status(0)) {
        Progress::Done(Err(error)) => assert_eq!(error, Error::PapiError(-3)),
        _ => panic!("the failure was not reported"),
    }
}

#[test]
fn refused_release_is_fatal() {
    let papi = run(&mut Subsystem::new(4), Papi::init(VERSION)).unwrap();
    let builder = EventSetBuilder::new(&papi, Reply::number(0, 9)).unwrap();
    let Progress::Pending(op) = builder.close() else { panic!() };
    assert!(matches!(op.request(), Request::CleanupEventSet { event_set: 9 }));
    let Progress::Pending(op) = op.resume(Reply::status(0)) else { panic!() };
    match op.resume(Reply::status(-1)) {
        Progress::Fatal(stage, status) => {
            assert_eq!(stage, Stage::Destroy);
            assert_eq!(status, -1);
        }
        _ => panic!("the refusal was not fatal"),
    }
}

#[test]
fn builder_cannot_be_cloned() {
    let mut hw = Subsystem::new(4);
    let papi = init(&mut hw);
    let builder = new_builder(&mut hw, &papi).unwrap();
    let cloned = builder.try_clone();
    assert_eq!(cloned.err(), Some(Error::InvalidArgument(Reason::BuilderNotCloneable)));
    assert_eq!(hw.live_handles(), 1);
}

fn configured(hw: &mut Subsystem) -> Papi {
    let config = Config::new(Some(vec![(
        "Test1".to_string(),
        vec!["EVT_A".to_string(), "EVT_B".to_string()],
    )]));
    run(hw, Papi::init_with_config(config, VERSION)).unwrap()
}

#[test]
fn use_preset_adds_events_in_order() {
    let mut hw = Subsystem::new(4);
    let papi = configured(&mut hw);
    let builder = new_builder(&mut hw, &papi).unwrap();
    let builder = run(&mut hw, builder.use_preset("Test1")).unwrap();
    assert_eq!(builder.codes(), &vec![0x4000_0001, 0x4000_0002]);
    assert_eq!(hw.codes_of(builder.event_set()), vec![0x4000_0001, 0x4000_0002]);
}

#[test]
fn use_preset_missing_is_invalid_argument() {
    let mut hw = Subsystem::new(4);
    let papi = configured(&mut hw);
    let builder = new_builder(&mut hw, &papi).unwrap();
    let used = run(&mut hw, builder.use_preset("Missing"));
    assert_eq!(used.err(), Some(Error::InvalidArgument(Reason::UnknownPreset)));
    assert_eq!(hw.live_handles(), 0);
}

#[test]
fn use_preset_without_configuration_is_invalid_argument() {
    let mut hw = Subsystem::new(4);
    let papi = init(&mut hw);
    let builder = new_builder(&mut hw, &papi).unwrap();
    let used = run(&mut hw, builder.use_preset("Test1"));
    assert_eq!(used.err(), Some(Error::InvalidArgument(Reason::NoConfiguration)));

    let papi = run(&mut hw, Papi::init_with_config(Config::new(None), VERSION)).unwrap();
    let builder = new_builder(&mut hw, &papi).unwrap();
    let used = run(&mut hw, builder.use_preset("Test1"));
    assert_eq!(used.err(), Some(Error::InvalidArgument(Reason::NoPresets)));
    assert_eq!(hw.live_handles(), 0);
}

#[test]
fn use_preset_stops_at_first_failing_event() {
    let mut hw = Subsystem::new(4);
    let config = Config::new(Some(vec![
        ("Empty".to_string(), vec![]),
        ("Broken".to_string(), vec!["EVT_A".to_string(), "NOPE".to_string(), "EVT_B".to_string()]),
    ]));
    let papi = run(&mut hw, Papi::init_with_config(config, VERSION)).unwrap();
    let builder = new_builder(&mut hw, &papi).unwrap();
    let builder = run(&mut hw, builder.use_preset("Empty")).unwrap();
    assert!(builder.codes().is_empty());
    let used = run(&mut hw, builder.use_preset("Broken"));
    assert_eq!(used.err(), Some(Error::InvalidEvent));
    assert_eq!(hw.live_handles(), 0);
    assert!(!hw.calls.iter().any(|call| call.contains("EVT_B")));
}

#[test]
fn round_trip_keeps_codes_in_order() {
    let mut hw = Subsystem::new(4);
    let papi = init(&mut hw);
    let ready = ready_with(&mut hw, &papi, &["EVT_B", "EVT_A"]);
    let mut sample = Sample::default();
    init_sample(&mut hw, &ready, &mut sample).unwrap();
    assert_eq!(sample.codes(), &vec![0x4000_0002, 0x4000_0001]);
    assert_eq!(sample.values(), &vec![0, 0]);
    assert_eq!(sample.fingerprint(), Some(ready.fingerprint()));

    for cycle in 1..=3 {
        let clone = run(&mut hw, ready.try_clone()).unwrap();
        let running = start(&mut hw, clone).unwrap();
        hw.work(cycle);
        stop(&mut hw, running, &mut sample).unwrap();
        assert_eq!(sample.codes(), &vec![0x4000_0002, 0x4000_0001]);
        assert_eq!(sample.values(), &vec![cycle, 2 * cycle]);
    }
    run(&mut hw, ready.close());
    assert_eq!(hw.live_handles(), 0);
}

#[test]
fn foreign_sample_is_refused_and_untouched() {
    let mut hw = Subsystem::new(4);
    let papi = init(&mut hw);
    let a = ready_with(&mut hw, &papi, &["EVT_A", "EVT_B"]);
    let b = ready_with(&mut hw, &papi, &["EVT_C"]);
    let mut sample = Sample::default();
    init_sample(&mut hw, &a, &mut sample).unwrap();
    let running_a = start(&mut hw, a).unwrap();
    hw.work(5);
    read(&mut hw, &running_a, &mut sample).unwrap();
    assert_eq!(sample.values(), &vec![5, 10]);
    let before = sample.clone();

    let running_b = start(&mut hw, b).unwrap();
    hw.work(1);
    assert_eq!(
        read(&mut hw, &running_b, &mut sample).err(),
        Some(Error::InvalidArgument(Reason::SampleNotInitialized))
    );
    assert_eq!(
        accum(&mut hw, &running_b, &mut sample).err(),
        Some(Error::InvalidArgument(Reason::SampleNotInitialized))
    );
    hw.calls.clear();
    assert_eq!(
        stop(&mut hw, running_b, &mut sample).err(),
        Some(Error::InvalidArgument(Reason::SampleNotInitialized))
    );
    assert_eq!(
        hw.calls,
        [
            "State { event_set: 2 }",
            "Halt { event_set: 2 }",
            "CleanupEventSet { event_set: 2 }",
            "DestroyEventSet { event_set: 2 }",
        ]
    );
    assert_eq!(sample.codes(), before.codes());
    assert_eq!(sample.values(), before.values());
    assert_eq!(sample.fingerprint(), before.fingerprint());

    stop(&mut hw, running_a, &mut sample).unwrap();
    assert_eq!(hw.live_handles(), 0);
}

#[test]
fn uninitialized_sample_is_refused() {
    let mut hw = Subsystem::new(4);
    let papi = init(&mut hw);
    let ready = ready_with(&mut hw, &papi, &["EVT_A"]);
    let running = start(&mut hw, ready).unwrap();
    let mut sample = Sample::default();
    assert_eq!(
        stop(&mut hw, running, &mut sample).err(),
        Some(Error::InvalidArgument(Reason::SampleNotInitialized))
    );
    assert_eq!(sample.fingerprint(), None);
    assert!(sample.codes().is_empty());
    assert!(sample.values().is_empty());
    assert_eq!(hw.live_handles(), 0);
    assert!(!hw.calls.iter().any(|call| call.starts_with("Stop")));
}

#[test]
fn accum_yields_delta_and_read_yields_total() {
    let mut hw = Subsystem::new(4);
    let papi = init(&mut hw);
    let ready = ready_with(&mut hw, &papi, &["EVT_A", "EVT_B"]);
    let mut total = Sample::default();
    let mut delta = Sample::default();
    init_sample(&mut hw, &ready, &mut total).unwrap();
    init_sample(&mut hw, &ready, &mut delta).unwrap();
    let clone = run(&mut hw, ready.try_clone()).unwrap();
    let running = start(&mut hw, clone).unwrap();

    hw.work(3);
    read(&mut hw, &running, &mut total).unwrap();
    assert_eq!(total.values(), &vec![3, 6]);
    hw.work(4);
    read(&mut hw, &running, &mut total).unwrap();
    assert_eq!(total.values(), &vec![7, 14]);

    accum(&mut hw, &running, &mut delta).unwrap();
    assert_eq!(delta.values(), &vec![7, 14]);
    accum(&mut hw, &running, &mut delta).unwrap();
    assert_eq!(delta.values(), &vec![0, 0]);
    hw.work(2);
    accum(&mut hw, &running, &mut delta).unwrap();
    assert_eq!(delta.values(), &vec![2, 4]);
    accum(&mut hw, &running, &mut total).unwrap();
    assert_eq!(total.values(), &vec![0, 0]);
    assert_eq!(delta.codes(), &vec![0x4000_0001, 0x4000_0002]);

    stop(&mut hw, running, &mut total).unwrap();
    run(&mut hw, ready.close());
    assert_eq!(hw.live_handles(), 0);
}

#[test]
fn accum_asks_for_a_blank_buffer_of_the_sample() {
    let mut hw = Subsystem::new(4);
    let papi = init(&mut hw);
    let ready = ready_with(&mut hw, &papi, &["EVT_A", "EVT_B"]);
    let mut sample = Sample::default();
    init_sample(&mut hw, &ready, &mut sample).unwrap();
    let running = start(&mut hw, ready).unwrap();
    running.read(&mut sample, Reply::values(0, vec![40, 50])).unwrap();
    assert!(matches!(
        running.accum_request(&sample),
        Ok(Request::Accum { event_set: 1, capacity: 2 })
    ));
    assert!(matches!(
        running.read_request(&sample),
        Ok(Request::Read { event_set: 1, capacity: 2 })
    ));
    running.accum(&mut sample, Reply::values(0, vec![1, 2])).unwrap();
    assert_eq!(sample.values(), &vec![1, 2]);
    let refused = running.accum(&mut sample, Reply::values(-1, vec![7, 7]));
    assert_eq!(refused.err(), Some(Error::PapiError(-1)));
    assert_eq!(sample.values(), &vec![1, 2]);
    run(&mut hw, running.close());
}

#[test]
fn clone_holds_the_same_events_on_its_own_handle() {
    let mut hw = Subsystem::new(4);
    let papi = init(&mut hw);
    let ready = ready_with(&mut hw, &papi, &["EVT_A", "EVT_B"]);
    let clone = run(&mut hw, ready.try_clone()).unwrap();
    assert_ne!(clone.event_set(), ready.event_set());
    assert_eq!(hw.codes_of(clone.event_set()), vec![0x4000_0001, 0x4000_0002]);
    assert_eq!(clone.fingerprint(), ready.fingerprint());
    assert_eq!(clone.num_events(), 2);

    let first = start(&mut hw, ready).unwrap();
    let second = start(&mut hw, clone).unwrap();
    run(&mut hw, first.close());
    run(&mut hw, second.close());
    assert_eq!(hw.live_handles(), 0);
}

#[test]
fn second_start_fails_when_registers_run_out_and_keeps_the_handle() {
    let mut hw = Subsystem::new(3);
    let papi = init(&mut hw);
    let ready = ready_with(&mut hw, &papi, &["EVT_A", "EVT_B"]);
    let clone = run(&mut hw, ready.try_clone()).unwrap();
    let first = start(&mut hw, ready).unwrap();
    let (error, clone) = start(&mut hw, clone).err().unwrap();
    assert_eq!(error, Error::PapiError(ECNFLCT));
    run(&mut hw, first.close());
    let second = start(&mut hw, clone);
    assert!(second.is_ok());
    run(&mut hw, second.unwrap().close());
    assert_eq!(hw.live_handles(), 0);
}

#[test]
fn failed_clone_releases_the_new_handle() {
    let mut hw = Subsystem::new(2);
    let papi = init(&mut hw);
    let ready = ready_with(&mut hw, &papi, &["EVT_A", "EVT_B"]);
    hw.limit = 1;
    let clone = run(&mut hw, ready.try_clone());
    assert_eq!(clone.err(), Some(Error::PapiError(ECNFLCT)));
    assert_eq!(hw.live_handles(), 1);

    let Progress::Pending(op) = ready.try_clone() else { panic!() };
    match op.resume(Reply::status(ENOEVST)) {
        Progress::Done(Err(error)) => assert_eq!(error, Error::PapiError(ENOEVST)),
        _ => panic!("the failure was not reported"),
    }
    let Progress::Pending(op) = ready.try_clone() else { panic!() };
    let Progress::Pending(op) = op.resume(Reply::codes(0, 2, vec![1, 2])) else { panic!() };
    assert!(matches!(op.request(), Request::CreateEventSet));
    match op.resume(Reply::status(-2)) {
        Progress::Done(Err(error)) => assert_eq!(error, Error::PapiError(-2)),
        _ => panic!("the failure was not reported"),
    }
}

#[test]
fn init_sample_failure_leaves_sample_untouched() {
    let mut hw = Subsystem::new(4);
    let papi = init(&mut hw);
    let ready = ready_with(&mut hw, &papi, &["EVT_A", "EVT_B"]);
    let other = ready_with(&mut hw, &papi, &["EVT_C"]);

    let mut sample = Sample::default();
    let refused = ready.init_sample(&mut sample, Reply::codes(ENOEVST, 2, vec![5, 6]));
    assert_eq!(refused.err(), Some(Error::PapiError(ENOEVST)));
    assert_eq!(sample.fingerprint(), None);
    assert!(sample.codes().is_empty());
    assert!(sample.values().is_empty());

    init_sample(&mut hw, &other, &mut sample).unwrap();
    let running_other = start(&mut hw, other).unwrap();
    running_other.read(&mut sample, Reply::values(0, vec![9])).unwrap();
    let refused = ready.init_sample(&mut sample, Reply::codes(ENOEVST, 2, vec![5, 6]));
    assert_eq!(refused.err(), Some(Error::PapiError(ENOEVST)));
    assert_eq!(sample.fingerprint(), Some(running_other.fingerprint()));
    assert_eq!(sample.codes(), &vec![0x4000_0003]);
    assert_eq!(sample.values(), &vec![9]);

    let running = start(&mut hw, ready).unwrap();
    assert_eq!(
        read(&mut hw, &running, &mut sample).err(),
        Some(Error::InvalidArgument(Reason::SampleNotInitialized))
    );
    assert!(read(&mut hw, &running_other, &mut sample).is_ok());
    run(&mut hw, running.close());
    run(&mut hw, running_other.close());
    assert_eq!(hw.live_handles(), 0);
}

#[test]
fn clone_registers_as_many_codes_as_were_listed() {
    let mut hw = Subsystem::new(4);
    let papi = init(&mut hw);
    let ready = ready_with(&mut hw, &papi, &["EVT_A", "EVT_B"]);
    for (number, expected) in
        [(2, vec![5, 6]), (1, vec![5]), (0, vec![]), (-3, vec![]), (9, vec![5, 6])]
    {
        let Progress::Pending(op) = ready.try_clone() else { panic!() };
        assert!(matches!(op.request(), Request::ListEvents { event_set: 1, capacity: 2 }));
        let Progress::Pending(op) = op.resume(Reply::codes(0, number, vec![5, 6, 7])) else {
            panic!()
        };
        let Progress::Pending(op) = op.resume(Reply::number(0, 8)) else { panic!() };
        match op.request() {
            Request::AddEvents { event_set, codes } => {
                assert_eq!(event_set, 8);
                assert_eq!(codes, &expected);
            }
            _ => panic!("the events are not registered"),
        }
        let Progress::Done(Ok(clone)) = op.resume(Reply::status(0)) else { panic!() };
        assert_eq!(clone.event_set(), 8);
        assert_eq!(clone.num_events(), 2);
        assert_eq!(clone.fingerprint(), ready.fingerprint());
    }
    run(&mut hw, ready.close());
}

#[test]
fn replies_are_fitted_to_the_buffers() {
    let mut hw = Subsystem::new(4);
    let papi = init(&mut hw);
    let ready = ready_with(&mut hw, &papi, &["EVT_A", "EVT_B"]);
    let mut sample = Sample::default();
    ready.init_sample(&mut sample, Reply::codes(0, 2, vec![5, 6, 7])).unwrap();
    assert_eq!(sample.codes(), &vec![5, 6]);
    ready.init_sample(&mut sample, Reply::codes(0, 1, vec![5])).unwrap();
    assert_eq!(sample.codes(), &vec![5, 0]);

    let running = start(&mut hw, ready).unwrap();
    running.read(&mut sample, Reply::values(0, vec![1, 2, 3])).unwrap();
    assert_eq!(sample.values(), &vec![1, 2]);
    running.read(&mut sample, Reply::values(0, vec![9])).unwrap();
    assert_eq!(sample.values(), &vec![9, 2]);
    let refused = running.read(&mut sample, Reply::values(-1, vec![4, 4]));
    assert_eq!(refused.err(), Some(Error::PapiError(-1)));
    assert_eq!(sample.values(), &vec![9, 2]);
    run(&mut hw, running.close());
}

#[test]
fn hardware_failure_on_stop_is_reported_after_release() {
    let mut hw = Subsystem::new(4);
    let papi = init(&mut hw);
    let ready = ready_with(&mut hw, &papi, &["EVT_A"]);
    let mut sample = Sample::default();
    init_sample(&mut hw, &ready, &mut sample).unwrap();
    let running = start(&mut hw, ready).unwrap();
    let Progress::Pending(op) = running.stop(&sample) else { panic!() };
    assert!(matches!(op.request(), Request::Stop { event_set: 1, capacity: 1 }));
    let Progress::Pending(op) = op.resume(Reply::values(-1, vec![99]), &mut sample) else {
        panic!()
    };
    assert_eq!(sample.values(), &vec![0]);
    let outcome = run_stop(&mut hw, Progress::Pending(op), &mut sample);
    assert_eq!(outcome.err(), Some(Error::PapiError(-1)));
    assert_eq!(hw.live_handles(), 0);
}

#[test]
fn names_fail_with_hardware_failure() {
    let mut hw = Subsystem::new(4);
    let papi = init(&mut hw);
    let ready = ready_with(&mut hw, &papi, &["EVT_A", "EVT_B"]);
    let mut sample = Sample::default();
    ready.init_sample(&mut sample, Reply::codes(0, 2, vec![0x4000_0001, 12345])).unwrap();
    let names = run(&mut hw, sample.names());
    assert_eq!(names.err(), Some(Error::PapiError(ENOEVNT)));
    assert!(matches!(Sample::default().names(), Progress::Done(Ok(names)) if names.is_empty()));
    run(&mut hw, ready.close());
}
