//! Samples: buffers that take the counter values of an event set.

use crate::error::{Error, PAPI_OK};
use crate::facility::{overlaid, Answer, Call, Progress, Reply, Request};
use vstd::prelude::*;

verus! {

/// A collection of sampled hardware event values.
///
/// A sample holds one value for each event code, at the same index. Once it
/// is initialised, it is bound to the event sets that carry its fingerprint;
/// before that it is bound to none.
#[derive(Debug)]
pub struct Sample {
    event_set_hash: Option<u64>,
    event_codes: Vec<i32>,
    values: Vec<i64>,
}

/// The mathematical content of a [`Sample`].
pub struct SampleModel {
    /// The fingerprint of the event sets that the sample was initialised
    /// for, or `None` for a sample that was never initialised.
    pub fingerprint: Option<u64>,
    /// The codes of the sampled events.
    pub codes: Seq<i32>,
    /// The value sampled for each code.
    pub values: Seq<i64>,
}

impl SampleModel {
    /// The sample that was never initialised: no fingerprint and no events.
    pub open spec fn empty() -> SampleModel {
        SampleModel { fingerprint: None, codes: Seq::empty(), values: Seq::empty() }
    }

    /// Whether the sample holds one value for each code.
    pub open spec fn aligned(self) -> bool {
        self.codes.len() == self.values.len()
    }

    /// The sample after the counter subsystem wrote `answer`'s values into
    /// its buffer: the codes and the fingerprint stay.
    pub open spec fn filled(self, answer: Answer) -> SampleModel {
        SampleModel { values: overlaid(self.values, answer.values), ..self }
    }

    /// The events of the sample by name: each of the first `names` with the
    /// value at its index.
    pub open spec fn pairs(self, names: Seq<Seq<char>>) -> Seq<(Seq<char>, i64)> {
        Seq::new(
            if names.len() <= self.values.len() {
                names.len()
            } else {
                self.values.len()
            },
            |i: int| (names[i], self.values[i]),
        )
    }
}

impl View for Sample {
    type V = SampleModel;

    closed spec fn view(&self) -> SampleModel {
        SampleModel {
            fingerprint: self.event_set_hash,
            codes: self.event_codes@,
            values: self.values@,
        }
    }
}

impl Default for Sample {
    fn default() -> (r: Sample)
        ensures
            r@ == SampleModel::empty(),
    {
        Sample { event_set_hash: None, event_codes: Vec::new(), values: Vec::new() }
    }
}

impl Clone for Sample {
    fn clone(&self) -> (r: Sample)
        ensures
            r@ == self@,
    {
        proof {
            use_type_invariant(self);
        }
        Sample {
            event_set_hash: self.event_set_hash,
            event_codes: self.event_codes.clone(),
            values: self.values.clone(),
        }
    }
}

impl Sample {
    #[verifier::type_invariant]
    spec fn aligned(self) -> bool {
        self.event_codes.len() == self.values.len()
    }

    /// A sample initialised for the event sets of the given fingerprint.
    pub(crate) fn assemble(fingerprint: u64, codes: Vec<i32>, values: Vec<i64>) -> (r: Sample)
        requires
            codes.len() == values.len(),
        ensures
            r@ == (SampleModel { fingerprint: Some(fingerprint), codes: codes@, values: values@ }),
    {
        Sample { event_set_hash: Some(fingerprint), event_codes: codes, values }
    }

    /// The fingerprint of the event sets that the sample was initialised
    /// for, or `None` for a sample that was never initialised.
    pub fn fingerprint(&self) -> (r: Option<u64>)
        ensures
            r == self@.fingerprint,
    {
        self.event_set_hash
    }

    /// The codes of the sampled events.
    pub fn codes(&self) -> (r: &Vec<i32>)
        ensures
            r@ == self@.codes,
            self@.aligned(),
    {
        proof {
            use_type_invariant(self);
        }
        &self.event_codes
    }

    /// The value sampled for each code.
    pub fn values(&self) -> (r: &Vec<i64>)
        ensures
            r@ == self@.values,
            self@.aligned(),
    {
        proof {
            use_type_invariant(self);
        }
        &self.values
    }

    /// Takes the values that the counter subsystem wrote into the sample's
    /// buffer.
    pub(crate) fn fill(&mut self, values: Vec<i64>)
        ensures
            final(self)@ == (SampleModel {
                values: overlaid(old(self)@.values, values@),
                ..old(self)@
            }),
    {
        proof {
            use_type_invariant(&*self);
        }
        if values.len() == self.values.len() {
            assert(values@ =~= overlaid(self.values@, values@));
            self.values = values;
        } else {
            let mut buffer = self.values.clone();
            assert(buffer@ =~= self.values@);
            crate::facility::overlay(&mut buffer, &values);
            self.values = buffer;
        }
    }
}

/// The resolution of a sample's event codes to names, waiting for the reply
/// to one call.
#[derive(Debug)]
pub struct Naming {
    codes: Vec<i32>,
    names: Vec<String>,
}

/// The mathematical content of a [`Naming`].
pub struct NamingModel {
    /// The codes to resolve.
    pub codes: Seq<i32>,
    /// The names of the codes resolved so far, in the order of the codes.
    pub names: Seq<Seq<char>>,
}

/// The result of a resolution over the content of the names.
pub open spec fn named(outcome: Result<Vec<String>, Error>) -> Result<Seq<Seq<char>>, Error> {
    match outcome {
        Ok(names) => Ok(names.deep_view()),
        Err(error) => Err(error),
    }
}

impl NamingModel {
    /// What follows once `names` are resolved: the resolution of the next
    /// code, or the names when no code is left.
    pub open spec fn proceed(codes: Seq<i32>, names: Seq<Seq<char>>) -> Progress<
        NamingModel,
        Result<Seq<Seq<char>>, Error>,
    > {
        if names.len() >= codes.len() {
            Progress::Done(Ok(names))
        } else {
            Progress::Pending(NamingModel { codes, names })
        }
    }

    /// The call whose reply is awaited.
    pub open spec fn call(self) -> Call {
        Call::EventCodeToName { code: self.codes[self.names.len() as int] }
    }

    /// Where the resolution stands after `answer`: a code that the
    /// subsystem does not resolve ends it with the hardware failure.
    pub open spec fn step(self, answer: Answer) -> Progress<
        NamingModel,
        Result<Seq<Seq<char>>, Error>,
    > {
        if answer.status != PAPI_OK {
            Progress::Done(Err(Error::PapiError(answer.status)))
        } else {
            Self::proceed(self.codes, self.names.push(answer.name))
        }
    }
}

impl View for Naming {
    type V = NamingModel;

    closed spec fn view(&self) -> NamingModel {
        NamingModel { codes: self.codes@, names: self.names.deep_view() }
    }
}

impl Naming {
    /// A code is left to resolve.
    #[verifier::type_invariant]
    spec fn unfinished(self) -> bool {
        self.names.len() < self.codes.len()
    }

    /// What follows once `names` are resolved.
    fn proceed(codes: Vec<i32>, names: Vec<String>) -> (r: Progress<
        Naming,
        Result<Vec<String>, Error>,
    >)
        ensures
            r.lifted(|o: Result<Vec<String>, Error>| named(o)) == NamingModel::proceed(
                codes@,
                names.deep_view(),
            ),
    {
        if names.len() >= codes.len() {
            Progress::Done(Ok(names))
        } else {
            Progress::Pending(Naming { codes, names })
        }
    }

    /// The call whose reply the resolution awaits.
    pub fn request(&self) -> (r: Request<'static>)
        ensures
            r@ == self@.call(),
    {
        proof {
            use_type_invariant(self);
        }
        Request::EventCodeToName { code: self.codes[self.names.len()] }
    }

    /// Continues the resolution with the reply to its request.
    pub fn resume(self, reply: Reply) -> (r: Progress<Naming, Result<Vec<String>, Error>>)
        ensures
            r.lifted(|o: Result<Vec<String>, Error>| named(o)) == self@.step(reply@),
    {
        if reply.status != PAPI_OK {
            Progress::Done(Err(Error::PapiError(reply.status)))
        } else {
            let mut names = self.names;
            names.push(reply.name);
            assert(names.deep_view() =~= self.names.deep_view().push(reply.name@));
            Self::proceed(self.codes, names)
        }
    }
}

impl Sample {
    /// Begins the resolution of the sample's event codes to names, in the
    /// order of the codes.
    pub fn names(&self) -> (r: Progress<Naming, Result<Vec<String>, Error>>)
        ensures
            r.lifted(|o: Result<Vec<String>, Error>| named(o)) == NamingModel::proceed(
                self@.codes,
                Seq::empty(),
            ),
    {
        let codes = self.event_codes.clone();
        let names: Vec<String> = Vec::new();
        assert(names.deep_view() =~= Seq::<Seq<char>>::empty());
        Naming::proceed(codes, names)
    }

    /// Turns the sample into its events by name: each of `names`, in order,
    /// with the value at its index.
    pub fn into_pairs(self, names: &Vec<String>) -> (r: Vec<(String, i64)>)
        ensures
            r.deep_view() == self@.pairs(names.deep_view()),
    {
        let ghost wanted = self@.pairs(names.deep_view());
        let mut pairs: Vec<(String, i64)> = Vec::new();
        let mut i: usize = 0;
        while i < names.len() && i < self.values.len()
            invariant
                i <= names.len(),
                i <= self.values.len(),
                wanted == self@.pairs(names.deep_view()),
                pairs.len() == i,
                forall|j: int| 0 <= j < i ==> (#[trigger] pairs[j]).deep_view() == wanted[j],
            decreases names.len() - i,
        {
            let name = names[i].clone();
            let value = self.values[i];
            pairs.push((name, value));
            i += 1;
        }
        assert(pairs.deep_view() =~= wanted);
        pairs
    }
}

} // verus!
