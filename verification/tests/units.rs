//! The parts of the library that need no counter subsystem.

use papi::error::{check, Error, Reason, PAPI_OK};
use papi::event_set::adding::is_presentable;
use papi::event_set::fingerprint_of;
use papi::event_set::sample::Sample;
use papi::event_set::EventSetBuilder;
use papi::facility::{blank_codes, blank_values, overlay, Progress, Reply, Request};
use papi::{Config, Papi};
use std::collections::hash_map::DefaultHasher;
use papi::event_set::adding::AddingEvent;
use papi::event_set::cloning::Cloning;
use papi::event_set::preset::UsingPreset;
use papi::event_set::stopping::Stopping;
use papi::event_set::{Building, ReadyEventSet, RunningEventSet};
use papi::teardown::Closing;
use std::hash::{Hash, Hasher};
use std::marker::PhantomData;

/// Tells at run time whether a type can be sent to another thread: the
/// method of `Probe` itself exists only for such a type, and hides the one
/// of `Bound`.
struct Probe<T>(PhantomData<T>);

trait Bound {
    fn crosses_threads(&self) -> bool {
        false
    }
}

impl<T> Bound for Probe<T> {}

impl<T: Send> Probe<T> {
    fn crosses_threads(&self) -> bool {
        true
    }
}

struct Shared<T>(PhantomData<T>);

trait Alone {
    fn is_shared(&self) -> bool {
        false
    }
}

impl<T> Alone for Shared<T> {}

impl<T: Sync> Shared<T> {
    fn is_shared(&self) -> bool {
        true
    }
}

#[test]
fn event_sets_stay_on_their_thread() {
    assert!(Probe::<Sample>(PhantomData).crosses_threads());
    assert!(Probe::<Reply>(PhantomData).crosses_threads());
    assert!(!Probe::<EventSetBuilder<'static>>(PhantomData).crosses_threads());
    assert!(!Probe::<ReadyEventSet>(PhantomData).crosses_threads());
    assert!(!Probe::<RunningEventSet>(PhantomData).crosses_threads());
    assert!(!Probe::<Closing>(PhantomData).crosses_threads());
    assert!(!Probe::<Building>(PhantomData).crosses_threads());
    assert!(!Probe::<AddingEvent<'static, 'static>>(PhantomData).crosses_threads());
    assert!(!Probe::<UsingPreset<'static>>(PhantomData).crosses_threads());
    assert!(!Probe::<Cloning>(PhantomData).crosses_threads());
    assert!(!Probe::<Stopping>(PhantomData).crosses_threads());
    assert!(Shared::<Sample>(PhantomData).is_shared());
    assert!(!Shared::<EventSetBuilder<'static>>(PhantomData).is_shared());
    assert!(!Shared::<ReadyEventSet>(PhantomData).is_shared());
    assert!(!Shared::<RunningEventSet>(PhantomData).is_shared());
}

#[test]
fn check_accepts_only_ok() {
    assert_eq!(PAPI_OK, 0);
    assert_eq!(check(0), Ok(()));
    assert_eq!(check(-1), Err(Error::PapiError(-1)));
    assert_eq!(check(1), Err(Error::PapiError(1)));
    assert_eq!(check(i32::MIN), Err(Error::PapiError(i32::MIN)));
}

#[test]
fn errors_describe_themselves() {
    assert_eq!(Error::PapiError(-1).description(), "PAPI command failed");
    assert_eq!(Error::InvalidEvent.description(), "invalid event name");
    assert_eq!(Error::InvalidArgument(Reason::NoEvents).description(), "invalid argument");
    assert_eq!(Error::OutOfHardwareCounters.description(), "out of hardware counters");
    assert_eq!(Error::VersionMismatch.description(), "PAPI library version mismatch!");
    assert_eq!(Error::ThreadSupport.description(), "Unable to initialize PAPI threads");
    assert_eq!(Reason::NoConfiguration.text(), "No configuration set");
    assert_eq!(Reason::NoPresets.text(), "No presets configured");
    assert_eq!(Reason::UnknownPreset.text(), "Preset doesn't exist");
    assert_eq!(Reason::NoEvents.text(), "Cannot create EventSet without events!");
    assert_eq!(Reason::SampleNotInitialized.text(), "Sample is not initialized");
    assert_eq!(Reason::BuilderNotCloneable.text(), "EventSetBuilder cannot be cloned");
}

#[test]
fn fingerprint_hashes_the_codes_in_order() {
    let codes = vec![0x4000_0001, -7, 0, i32::MAX, i32::MIN];
    let mut hasher = DefaultHasher::new();
    for code in codes.iter() {
        hasher.write(&code.to_le_bytes());
    }
    assert_eq!(fingerprint_of(&codes), hasher.finish());
    assert_eq!(fingerprint_of(&Vec::new()), DefaultHasher::new().finish());
    assert_eq!(fingerprint_of(&vec![1, 2]), fingerprint_of(&vec![1, 2]));
    assert_ne!(fingerprint_of(&vec![1, 2]), fingerprint_of(&vec![2, 1]));
    assert_ne!(fingerprint_of(&vec![1]), fingerprint_of(&vec![1, 0]));
}

#[test]
fn fingerprint_is_the_hash_of_the_codes_on_little_endian() {
    if u16::from_ne_bytes([1, 0]) == 1 {
        let codes = vec![0x4000_0001, -7, 0, i32::MAX, i32::MIN];
        let mut hasher = DefaultHasher::new();
        codes.iter().for_each(|code| code.hash(&mut hasher));
        assert_eq!(fingerprint_of(&codes), hasher.finish());
    }
}

#[test]
fn fingerprint_of_built_event_set() {
    let Progress::Pending(op) = Papi::init(5) else { panic!() };
    let Progress::Pending(op) = op.resume(Reply::status(1)) else { panic!() };
    let Progress::Done(Ok(papi)) = op.resume(Reply::status(0)) else { panic!() };
    let builder = EventSetBuilder::new(&papi, Reply::number(0, 3)).unwrap();
    let Progress::Pending(op) = builder.add_event_by_name("X") else { panic!() };
    let Progress::Pending(op) = op.resume(Reply::number(0, 41)) else { panic!() };
    let Progress::Pending(op) = op.resume(Reply::status(0)) else { panic!() };
    let Progress::Pending(op) = op.resume(Reply::status(8)) else { panic!() };
    let Progress::Done(Ok(builder)) = op.resume(Reply::status(0)) else { panic!() };
    let Progress::Pending(op) = builder.add_event_by_name("Y") else { panic!() };
    let Progress::Pending(op) = op.resume(Reply::number(0, 40)) else { panic!() };
    let Progress::Pending(op) = op.resume(Reply::status(1)) else { panic!() };
    let Progress::Pending(op) = op.resume(Reply::status(8)) else { panic!() };
    let Progress::Done(Ok(builder)) = op.resume(Reply::status(0)) else { panic!() };
    assert_eq!(builder.codes(), &vec![41, 40]);
    let Progress::Done(Ok(ready)) = builder.build() else { panic!() };
    assert_eq!(ready.fingerprint(), fingerprint_of(&vec![41, 40]));
    assert_eq!(ready.num_events(), 2);
    assert_eq!(ready.event_set(), 3);
    assert!(matches!(ready.start_request(), Request::Start { event_set: 3 }));
    assert!(matches!(
        ready.init_sample_request(),
        Request::ListEvents { event_set: 3, capacity: 2 }
    ));
}

#[test]
fn overlay_keeps_the_length_of_the_buffer() {
    let mut buffer = vec![1, 2, 3];
    overlay(&mut buffer, &vec![9, 8]);
    assert_eq!(buffer, vec![9, 8, 3]);
    overlay(&mut buffer, &vec![4, 5, 6, 7]);
    assert_eq!(buffer, vec![4, 5, 6]);
    overlay(&mut buffer, &Vec::new());
    assert_eq!(buffer, vec![4, 5, 6]);
    let mut empty: Vec<i64> = Vec::new();
    overlay(&mut empty, &vec![1]);
    assert!(empty.is_empty());
    assert_eq!(blank_codes(3), vec![0, 0, 0]);
    assert_eq!(blank_values(2), vec![0, 0]);
    assert!(blank_codes(0).is_empty());
}

#[test]
fn names_with_nul_are_not_presentable() {
    assert!(is_presentable("CPU_CLK_UNHALTED"));
    assert!(is_presentable(""));
    assert!(is_presentable("UOPS_RETIRED:ALL"));
    assert!(is_presentable("événement"));
    assert!(!is_presentable("\0"));
    assert!(!is_presentable("EVT\0"));
    assert!(!is_presentable("é\0é"));
}

#[test]
fn config_holds_each_preset_once() {
    let config = Config::new(Some(vec![
        ("Test1".to_string(), vec!["A".to_string(), "B".to_string()]),
        ("Test2".to_string(), vec![]),
        ("Test1".to_string(), vec!["C".to_string()]),
    ]));
    assert_eq!(config.preset("Test1"), Ok(&vec!["C".to_string()]));
    assert_eq!(config.preset("Test2"), Ok(&Vec::new()));
    assert_eq!(config.preset("test1"), Err(Reason::UnknownPreset));
    assert_eq!(config.preset(""), Err(Reason::UnknownPreset));
    assert_eq!(
        config.into_presets(),
        Some(vec![("Test1".to_string(), vec!["C".to_string()]), ("Test2".to_string(), vec![])])
    );
    assert_eq!(Config::new(None).preset("Test1"), Err(Reason::NoPresets));
    assert_eq!(Config::new(None).into_presets(), None);
    assert_eq!(Config::new(Some(Vec::new())).preset("Test1"), Err(Reason::UnknownPreset));
    let config = Config::new(Some(vec![
        ("B".to_string(), vec!["x".to_string()]),
        ("A".to_string(), vec!["y".to_string(), "z".to_string()]),
    ]));
    assert_eq!(config.preset("A"), Ok(&vec!["y".to_string(), "z".to_string()]));
    assert_eq!(config.preset("B"), Ok(&vec!["x".to_string()]));
}

#[test]
fn default_sample_is_empty() {
    let sample = Sample::default();
    assert_eq!(sample.fingerprint(), None);
    assert!(sample.codes().is_empty());
    assert!(sample.values().is_empty());
    assert_eq!(sample.render(&Vec::new()), "");
    assert!(sample.into_pairs(&vec!["A".to_string()]).is_empty());
}

fn sample_of(codes: Vec<i32>, values: Vec<i64>) -> Sample {
    let Progress::Pending(op) = Papi::init(5) else { panic!() };
    let Progress::Pending(op) = op.resume(Reply::status(1)) else { panic!() };
    let Progress::Done(Ok(papi)) = op.resume(Reply::status(0)) else { panic!() };
    let mut builder = EventSetBuilder::new(&papi, Reply::number(0, 3)).unwrap();
    for code in codes.iter() {
        let Progress::Pending(op) = builder.add_event_by_name("X") else { panic!() };
        let Progress::Pending(op) = op.resume(Reply::number(0, *code)) else { panic!() };
        let Progress::Pending(op) = op.resume(Reply::status(0)) else { panic!() };
        let Progress::Pending(op) = op.resume(Reply::status(i32::MAX)) else { panic!() };
        let Progress::Done(Ok(next)) = op.resume(Reply::status(0)) else { panic!() };
        builder = next;
    }
    let Progress::Done(Ok(ready)) = builder.build() else { panic!() };
    let mut sample = Sample::default();
    ready.init_sample(&mut sample, Reply::codes(0, codes.len() as i32, codes)).unwrap();
    let running = ready.start(Reply::status(0)).ok().unwrap();
    running.read(&mut sample, Reply::values(0, values)).unwrap();
    sample
}

#[test]
fn render_writes_name_colon_value_space() {
    let sample = sample_of(vec![1, 2, 3, 4], vec![0, -1, i64::MAX, i64::MIN]);
    let names =
        vec!["zero".to_string(), "minus".to_string(), "max".to_string(), "min".to_string()];
    assert_eq!(
        sample.render(&names),
        "zero: 0 minus: -1 max: 9223372036854775807 min: -9223372036854775808 "
    );
    assert_eq!(
        sample.render(&names),
        format!("zero: {} minus: {} max: {} min: {} ", 0, -1, i64::MAX, i64::MIN)
    );
    let sample = sample_of(vec![1, 2], vec![10, 1234567890]);
    assert_eq!(sample.render(&vec!["a".to_string()]), "a: 10 ");
    assert_eq!(
        sample.render(&vec!["a".to_string(), "b".to_string(), "c".to_string()]),
        "a: 10 b: 1234567890 "
    );
}

#[test]
fn into_pairs_zips_names_and_values() {
    let sample = sample_of(vec![1, 2], vec![10, 20]);
    let copy = sample.clone();
    assert_eq!(copy.codes(), &vec![1, 2]);
    assert_eq!(copy.values(), &vec![10, 20]);
    assert_eq!(copy.fingerprint(), sample.fingerprint());
    assert_eq!(
        sample.into_pairs(&vec!["a".to_string(), "b".to_string(), "c".to_string()]),
        vec![("a".to_string(), 10), ("b".to_string(), 20)]
    );
    assert_eq!(copy.into_pairs(&vec!["a".to_string()]), vec![("a".to_string(), 10)]);
}

#[test]
fn replies_carry_what_they_are_made_of() {
    let reply = Reply::status(-3);
    assert_eq!((reply.status, reply.number), (-3, 0));
    assert!(reply.codes.is_empty() && reply.values.is_empty() && reply.name.is_empty());
    let reply = Reply::number(0, 12);
    assert_eq!((reply.status, reply.number), (0, 12));
    let reply = Reply::codes(0, 2, vec![1, 2]);
    assert_eq!((reply.number, reply.codes), (2, vec![1, 2]));
    let reply = Reply::values(0, vec![3, 4]);
    assert_eq!(reply.values, vec![3, 4]);
    let reply = Reply::name(0, "EVT".to_string());
    assert_eq!(reply.name, "EVT");
}
