//! Binding a sample to an event set, and taking counter values while the
//! counters run.

use crate::error::{check, verdict, Error, Reason};
use crate::event_set::sample::{Sample, SampleModel};
use crate::event_set::{ReadyEventSet, ReadyModel, RunningEventSet, RunningModel};
use crate::facility::{
    blank, blank_codes, blank_values, overlaid, overlay, Answer, Call, Reply, Request,
};
use vstd::prelude::*;

verus! {

impl ReadyModel {
    /// The call that lists the events of the event set.
    pub open spec fn listing(self) -> Call {
        Call::ListEvents { event_set: self.event_set, capacity: self.num_events }
    }

    /// The codes that the reply to `ListEvents` lists: of the buffer that the
    /// subsystem filled, as many from the front as it says it listed.
    pub open spec fn listed(self, answer: Answer) -> Seq<i32> {
        overlaid(blank(self.num_events, 0i32), answer.codes).take(
            if answer.number < 0 {
                0
            } else if answer.number > self.num_events {
                self.num_events as int
            } else {
                answer.number as int
            },
        )
    }

    /// The sample after its initialisation for the event set, given the
    /// reply to `ListEvents`. If the subsystem listed the events, the sample
    /// carries the fingerprint of the event set, one code and one value for
    /// each of its events, the codes that the subsystem listed and every
    /// value zero; what it held before is gone. If the subsystem refused,
    /// the sample stays as it was.
    pub open spec fn sampled(self, sample: SampleModel, answer: Answer) -> SampleModel {
        if verdict(answer.status).is_ok() {
            SampleModel {
                fingerprint: Some(self.fingerprint),
                codes: overlaid(blank(self.num_events, 0i32), answer.codes),
                values: blank(self.num_events, 0i64),
            }
        } else {
            sample
        }
    }
}

impl RunningModel {
    /// Whether the sample was initialised for this event set or one with the
    /// same fingerprint. A sample that was never initialised is accepted by
    /// no event set.
    pub open spec fn accepts(self, sample: SampleModel) -> bool {
        sample.fingerprint == Some(self.fingerprint)
    }

    /// The call that accumulates the counters into a sample with as many
    /// values as `sample`. The buffer that the subsystem adds the counters
    /// onto is blank, so that what it leaves there is what was counted since
    /// the counters were last reset, whatever the sample holds.
    pub open spec fn accumulating(self, sample: SampleModel) -> Call {
        Call::Accum { event_set: self.event_set, capacity: sample.values.len() }
    }

    /// The call that reads the counters into a sample with as many values
    /// as `sample`.
    pub open spec fn reading(self, sample: SampleModel) -> Call {
        Call::Read { event_set: self.event_set, capacity: sample.values.len() }
    }

    /// The outcome of taking counter values into `sample`, given the reply
    /// to the call that wrote them. A sample that the event set does not
    /// accept is an invalid argument and a refusal of the subsystem a
    /// hardware failure; both leave the sample as it was. Else the values are those that the
    /// subsystem wrote.
    pub open spec fn recorded(self, sample: SampleModel, answer: Answer) -> (
        Result<(), Error>,
        SampleModel,
    ) {
        if !self.accepts(sample) {
            (Err(Error::InvalidArgument(Reason::SampleNotInitialized)), sample)
        } else if verdict(answer.status).is_err() {
            (verdict(answer.status), sample)
        } else {
            (Ok(()), sample.filled(answer))
        }
    }
}

impl ReadyEventSet {
    /// The call that lists the events of the event set for a sample.
    pub fn init_sample_request(&self) -> (r: Request<'static>)
        ensures
            r@ == self@.listing(),
    {
        Request::ListEvents { event_set: self.event_set(), capacity: self.num_events() }
    }

    /// Initialises `sample` for use with the event set, from the reply to
    /// [`init_sample_request`](Self::init_sample_request). On success, what
    /// the sample held before is dropped; on failure, the sample is left as
    /// it was.
    pub fn init_sample(&self, sample: &mut Sample, reply: Reply) -> (r: Result<(), Error>)
        ensures
            r == verdict(reply@.status),
            final(sample)@ == self@.sampled(old(sample)@, reply@),
    {
        match check(reply.status) {
            Err(error) => Err(error),
            Ok(_) => {
                let len = self.num_events();
                let mut codes = blank_codes(len);
                let values = blank_values(len);
                overlay(&mut codes, &reply.codes);
                *sample = Sample::assemble(self.fingerprint(), codes, values);
                Ok(())
            },
        }
    }
}

impl RunningEventSet {
    /// Tests whether `sample` may take the values of this event set.
    pub(crate) fn screen(&self, sample: &Sample) -> (r: Result<(), Error>)
        ensures
            r == if self@.accepts(sample@) {
                Ok::<(), Error>(())
            } else {
                Err::<(), Error>(Error::InvalidArgument(Reason::SampleNotInitialized))
            },
    {
        match sample.fingerprint() {
            Some(fingerprint) => if fingerprint == self.fingerprint() {
                Ok(())
            } else {
                Err(Error::InvalidArgument(Reason::SampleNotInitialized))
            },
            None => Err(Error::InvalidArgument(Reason::SampleNotInitialized)),
        }
    }

    /// Concludes a call that wrote counter values.
    pub(crate) fn record(&self, sample: &mut Sample, reply: Reply) -> (r: Result<(), Error>)
        ensures
            (r, final(sample)@) == self@.recorded(old(sample)@, reply@),
    {
        match self.screen(sample) {
            Err(error) => Err(error),
            Ok(_) => match check(reply.status) {
                Err(error) => Err(error),
                Ok(_) => {
                    sample.fill(reply.values);
                    Ok(())
                },
            },
        }
    }

    /// The call that accumulates the counters for `sample`, resets them and
    /// lets them run on; or `InvalidArgument` for a sample that this event
    /// set does not accept, for which no call is made.
    pub fn accum_request(&self, sample: &Sample) -> (r: Result<Request<'static>, Error>)
        ensures
            match r {
                Ok(request) => self@.accepts(sample@) && request@ == self@.accumulating(sample@),
                Err(error) => !self@.accepts(sample@) && error == Error::InvalidArgument(
                    Reason::SampleNotInitialized,
                ),
            },
    {
        match self.screen(sample) {
            Err(error) => Err(error),
            Ok(_) => Ok(
                Request::Accum { event_set: self.event_set(), capacity: sample.values().len() },
            ),
        }
    }

    /// Concludes an accumulation from the reply to
    /// [`accum_request`](Self::accum_request): the sample holds what the
    /// subsystem left in the blank buffer, which is what was counted since
    /// the counters were last reset.
    pub fn accum(&self, sample: &mut Sample, reply: Reply) -> (r: Result<(), Error>)
        ensures
            (r, final(sample)@) == self@.recorded(old(sample)@, reply@),
    {
        self.record(sample, reply)
    }

    /// The call that reads the counters for `sample` and lets them run on;
    /// or `InvalidArgument` for a sample that this event set does not
    /// accept, for which no call is made.
    pub fn read_request(&self, sample: &Sample) -> (r: Result<Request<'static>, Error>)
        ensures
            match r {
                Ok(request) => self@.accepts(sample@) && request@ == self@.reading(sample@),
                Err(error) => !self@.accepts(sample@) && error == Error::InvalidArgument(
                    Reason::SampleNotInitialized,
                ),
            },
    {
        match self.screen(sample) {
            Err(error) => Err(error),
            Ok(_) => Ok(
                Request::Read { event_set: self.event_set(), capacity: sample.values().len() },
            ),
        }
    }

    /// Concludes a read from the reply to
    /// [`read_request`](Self::read_request): the sample holds what the
    /// subsystem wrote.
    pub fn read(&self, sample: &mut Sample, reply: Reply) -> (r: Result<(), Error>)
        ensures
            (r, final(sample)@) == self@.recorded(old(sample)@, reply@),
    {
        self.record(sample, reply)
    }
}

} // verus!
