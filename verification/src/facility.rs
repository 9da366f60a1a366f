//! The interface to the counter subsystem: what the library asks of it and
//! what it takes back.

use crate::error::Error;
use std::marker::PhantomData;
use std::rc::Rc;
use vstd::prelude::*;

verus! {

/// State that the subsystem reports once its low-level interface is set up.
pub const PAPI_LOW_LEVEL_INITED: i32 = 1;

/// Bit of an event set's state that is set while its counters run.
pub const PAPI_RUNNING: i32 = 2;

/// One call that the library wants made on the counter subsystem.
///
/// `number`, `codes`, `values` and `name` in the comments below are the
/// fields of the [`Reply`] in which the caller hands back what the call wrote
/// through its out-parameters; `status` is always what the call returned.
#[derive(Debug)]
pub enum Request<'a> {
    /// Ask whether the subsystem is initialised.
    LibraryState,
    /// Initialise the subsystem for callers built against `version`.
    LibraryInit { version: i32 },
    /// Set up thread support.
    ThreadInit,
    /// Allocate an empty event set; its handle comes back in `number`.
    CreateEventSet,
    /// Resolve an event name; the code comes back in `number`.
    EventNameToCode { name: &'a str },
    /// Resolve an event code; the name comes back in `name`.
    EventCodeToName { code: i32 },
    /// Ask how many events the event set holds; the count is the status.
    NumEvents { event_set: i32 },
    /// Ask how many physical counter registers exist; the count is the status.
    NumHwCounters,
    /// Register one event with the event set.
    AddEvent { event_set: i32, code: i32 },
    /// Register the events, in order, with the event set.
    AddEvents { event_set: i32, codes: &'a Vec<i32> },
    /// List the events of the event set into a buffer of `capacity` codes,
    /// which comes back in `codes`; how many were listed comes back in
    /// `number`.
    ListEvents { event_set: i32, capacity: usize },
    /// Start counting.
    Start { event_set: i32 },
    /// Stop counting and write the counters into a buffer of `capacity`
    /// values, which comes back in `values`.
    Stop { event_set: i32, capacity: usize },
    /// Stop counting and discard the counters.
    Halt { event_set: i32 },
    /// Write the counters into a buffer of `capacity` values, which comes
    /// back in `values`, and keep counting.
    Read { event_set: i32, capacity: usize },
    /// Add the counters onto a buffer of `capacity` zeros, which comes back
    /// in `values`, reset them and keep counting.
    Accum { event_set: i32, capacity: usize },
    /// Ask for the state of the event set; its bits come back in `number`.
    State { event_set: i32 },
    /// Remove every event from the event set.
    CleanupEventSet { event_set: i32 },
    /// Free the event set.
    DestroyEventSet { event_set: i32 },
}

/// The mathematical content of a [`Request`].
pub enum Call {
    LibraryState,
    LibraryInit { version: i32 },
    ThreadInit,
    CreateEventSet,
    EventNameToCode { name: Seq<char> },
    EventCodeToName { code: i32 },
    NumEvents { event_set: i32 },
    NumHwCounters,
    AddEvent { event_set: i32, code: i32 },
    AddEvents { event_set: i32, codes: Seq<i32> },
    ListEvents { event_set: i32, capacity: nat },
    Start { event_set: i32 },
    Stop { event_set: i32, capacity: nat },
    Halt { event_set: i32 },
    Read { event_set: i32, capacity: nat },
    Accum { event_set: i32, capacity: nat },
    State { event_set: i32 },
    CleanupEventSet { event_set: i32 },
    DestroyEventSet { event_set: i32 },
}

impl<'a> View for Request<'a> {
    type V = Call;

    open spec fn view(&self) -> Call {
        match *self {
            Request::LibraryState => Call::LibraryState,
            Request::LibraryInit { version } => Call::LibraryInit { version },
            Request::ThreadInit => Call::ThreadInit,
            Request::CreateEventSet => Call::CreateEventSet,
            Request::EventNameToCode { name } => Call::EventNameToCode { name: name@ },
            Request::EventCodeToName { code } => Call::EventCodeToName { code },
            Request::NumEvents { event_set } => Call::NumEvents { event_set },
            Request::NumHwCounters => Call::NumHwCounters,
            Request::AddEvent { event_set, code } => Call::AddEvent { event_set, code },
            Request::AddEvents { event_set, codes } => Call::AddEvents { event_set, codes: codes@ },
            Request::ListEvents { event_set, capacity } => Call::ListEvents {
                event_set,
                capacity: capacity as nat,
            },
            Request::Start { event_set } => Call::Start { event_set },
            Request::Stop { event_set, capacity } => Call::Stop {
                event_set,
                capacity: capacity as nat,
            },
            Request::Halt { event_set } => Call::Halt { event_set },
            Request::Read { event_set, capacity } => Call::Read {
                event_set,
                capacity: capacity as nat,
            },
            Request::Accum { event_set, capacity } => Call::Accum {
                event_set,
                capacity: capacity as nat,
            },
            Request::State { event_set } => Call::State { event_set },
            Request::CleanupEventSet { event_set } => Call::CleanupEventSet { event_set },
            Request::DestroyEventSet { event_set } => Call::DestroyEventSet { event_set },
        }
    }
}

/// What the counter subsystem handed back for one [`Request`].
///
/// A field that the call does not write may hold anything; the library reads
/// only the fields that the request names.
#[derive(Debug)]
pub struct Reply {
    /// What the call returned.
    pub status: i32,
    /// The integer that the call wrote, if it writes one.
    pub number: i32,
    /// The buffer of event codes after the call, if it fills one.
    pub codes: Vec<i32>,
    /// The buffer of counter values after the call, if it fills one.
    pub values: Vec<i64>,
    /// The event name that the call wrote, if it writes one.
    pub name: String,
}

/// The mathematical content of a [`Reply`].
pub struct Answer {
    pub status: i32,
    pub number: i32,
    pub codes: Seq<i32>,
    pub values: Seq<i64>,
    pub name: Seq<char>,
}

impl View for Reply {
    type V = Answer;

    open spec fn view(&self) -> Answer {
        Answer {
            status: self.status,
            number: self.number,
            codes: self.codes@,
            values: self.values@,
            name: self.name@,
        }
    }
}

impl Reply {
    /// The reply of a call that only returns a status.
    pub fn status(status: i32) -> (r: Reply)
        ensures
            r@ == (Answer { status, number: 0, codes: seq![], values: seq![], name: seq![] }),
    {
        Reply { status, number: 0, codes: Vec::new(), values: Vec::new(), name: String::new() }
    }

    /// The reply of a call that writes an integer.
    pub fn number(status: i32, number: i32) -> (r: Reply)
        ensures
            r@ == (Answer { status, number, codes: seq![], values: seq![], name: seq![] }),
    {
        Reply { status, number, codes: Vec::new(), values: Vec::new(), name: String::new() }
    }

    /// The reply of a call that fills a buffer of event codes and reports
    /// how many it wrote.
    pub fn codes(status: i32, number: i32, codes: Vec<i32>) -> (r: Reply)
        ensures
            r@ == (Answer { status, number, codes: codes@, values: seq![], name: seq![] }),
    {
        Reply { status, number, codes, values: Vec::new(), name: String::new() }
    }

    /// The reply of a call that fills a buffer of counter values.
    pub fn values(status: i32, values: Vec<i64>) -> (r: Reply)
        ensures
            r@ == (Answer { status, number: 0, codes: seq![], values: values@, name: seq![] }),
    {
        Reply { status, number: 0, codes: Vec::new(), values, name: String::new() }
    }

    /// The reply of a call that writes an event name.
    pub fn name(status: i32, name: String) -> (r: Reply)
        ensures
            r@ == (Answer { status, number: 0, codes: seq![], values: seq![], name: name@ }),
    {
        Reply { status, number: 0, codes: Vec::new(), values: Vec::new(), name }
    }
}

/// The teardown call that the subsystem refused.
#[derive(Clone, Copy, Debug, PartialEq, Eq, Structural)]
pub enum Stage {
    /// Asking for the state of the event set.
    State,
    /// Stopping counters that were found running.
    Halt,
    /// Removing the events from the event set.
    Cleanup,
    /// Freeing the event set.
    Destroy,
}

/// Where an operation stands after a step.
#[derive(Debug)]
pub enum Progress<M, T> {
    /// The operation waits for the reply to the request of `M`.
    Pending(M),
    /// The operation is over and this is its result.
    Done(T),
    /// The subsystem refused to release an event set, at the given stage and
    /// with the given status. The operation is over, the handle is lost, and
    /// the process cannot safely go on using the subsystem.
    Fatal(Stage, i32),
}

impl<M: View, T> Progress<M, T> {
    /// The same progress over the mathematical content of the operation, with
    /// the result carried over by `f`.
    pub open spec fn lifted<U>(self, f: spec_fn(T) -> U) -> Progress<M::V, U> {
        match self {
            Progress::Pending(m) => Progress::Pending(m@),
            Progress::Done(t) => Progress::Done(f(t)),
            Progress::Fatal(stage, status) => Progress::Fatal(stage, status),
        }
    }

    /// The same progress over the mathematical content of the operation, for
    /// a result that is its own content.
    pub open spec fn viewed(self) -> Progress<M::V, T> {
        self.lifted(|t: T| t)
    }
}

/// The result of an operation over the mathematical content of what it
/// yields.
pub open spec fn modelled<T: View>(outcome: Result<T, Error>) -> Result<T::V, Error> {
    match outcome {
        Ok(value) => Ok(value@),
        Err(error) => Err(error),
    }
}

/// The content of `buffer` after `written` was laid over it from the front:
/// the buffer keeps its length, what does not fit is cut off, and what is
/// not covered stays as it was.
pub open spec fn overlaid<T>(buffer: Seq<T>, written: Seq<T>) -> Seq<T> {
    Seq::new(buffer.len(), |i: int| if i < written.len() { written[i] } else { buffer[i] })
}

/// A buffer of `len` slots that each hold `fill`.
pub open spec fn blank<T>(len: nat, fill: T) -> Seq<T> {
    Seq::new(len, |i: int| fill)
}

/// Lays `written` over `buffer` from the front.
pub fn overlay<T: Copy>(buffer: &mut Vec<T>, written: &Vec<T>)
    ensures
        final(buffer)@ == overlaid(old(buffer)@, written@),
{
    let mut i: usize = 0;
    while i < buffer.len() && i < written.len()
        invariant
            buffer@.len() == old(buffer)@.len(),
            i <= buffer@.len(),
            i <= written@.len(),
            forall|j: int| 0 <= j < i ==> buffer@[j] == written@[j],
            forall|j: int| i <= j < buffer@.len() ==> buffer@[j] == old(buffer)@[j],
        decreases buffer.len() - i,
    {
        buffer.set(i, written[i]);
        i += 1;
    }
    assert(buffer@ =~= overlaid(old(buffer)@, written@));
}

/// A buffer of `len` event codes that are all zero.
pub fn blank_codes(len: usize) -> (r: Vec<i32>)
    ensures
        r@ == blank(len as nat, 0i32),
{
    let mut buffer: Vec<i32> = Vec::new();
    buffer.resize(len, 0);
    assert(buffer@ =~= blank(len as nat, 0i32));
    buffer
}

/// A buffer of `len` counter values that are all zero.
pub fn blank_values(len: usize) -> (r: Vec<i64>)
    ensures
        r@ == blank(len as nat, 0i64),
{
    let mut buffer: Vec<i64> = Vec::new();
    buffer.resize(len, 0);
    assert(buffer@ =~= blank(len as nat, 0i64));
    buffer
}

/// Marks a value as bound to the thread that made it: a type that holds one
/// can neither be sent to another thread nor shared with one.
#[derive(Debug)]
pub struct Confined {
    marker: PhantomData<Rc<()>>,
}

impl Confined {
    /// A marker for the current thread.
    pub(crate) fn new() -> Confined {
        Confined { marker: PhantomData }
    }
}

} // verus!
