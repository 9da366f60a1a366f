//! Session lifecycle for sampling hardware performance counters.
//!
//! The library decides; it never touches the counter subsystem itself.
//! Every operation that needs the subsystem names the call it wants as a
//! [`facility::Request`] and continues from the [`facility::Reply`] that the
//! caller hands back. An operation that needs exactly one call is a pair of
//! functions (the request, then the conclusion); one that needs several is a
//! small state machine that is resumed once per reply.

pub mod error;
pub mod event_set;
pub mod facility;
pub mod laws;
pub mod teardown;

use crate::error::{Error, Reason, PAPI_OK};
use crate::facility::{Answer, Call, Progress, Reply, Request, PAPI_LOW_LEVEL_INITED};
use vstd::prelude::*;

verus! {

/// The content of a preset table: for each preset name, its ordered list of
/// event names.
pub type Presets = Map<Seq<char>, Seq<Seq<char>>>;

/// The content of a list of presets: names, each with its list of event
/// names.
pub type Entries = Seq<(Seq<char>, Seq<Seq<char>>)>;

/// Whether no name occurs twice in a list of presets.
pub open spec fn distinct(entries: Entries) -> bool {
    forall|i: int, j: int| 0 <= i < j < entries.len() ==> entries[i].0 != entries[j].0
}

/// Whether a list of presets holds one called `name`.
pub open spec fn holds(entries: Entries, name: Seq<char>) -> bool {
    exists|i: int| 0 <= i < entries.len() && #[trigger] entries[i].0 == name
}

/// The table that a list of presets stands for: each name that occurs in it,
/// with the events listed under that name.
pub open spec fn table_of(entries: Entries) -> Presets {
    Map::new(
        |name: Seq<char>| holds(entries, name),
        |name: Seq<char>|
            entries[choose|i: int| 0 <= i < entries.len() && #[trigger] entries[i].0 == name].1,
    )
}

/// The table after it took the presets of a list one after the other, a
/// later preset replacing an earlier one of the same name.
pub open spec fn absorbed(table: Presets, entries: Entries) -> Presets
    decreases entries.len(),
{
    if entries.len() == 0 {
        table
    } else {
        absorbed(
            table.insert(entries[0].0, entries[0].1),
            entries.subrange(1, entries.len() as int),
        )
    }
}

/// In a list without a repeated name, the table holds under each name the
/// events of the one entry of that name.
pub proof fn lemma_table_at(entries: Entries, i: int)
    requires
        distinct(entries),
        0 <= i < entries.len(),
    ensures
        table_of(entries).contains_key(entries[i].0),
        table_of(entries)[entries[i].0] == entries[i].1,
{
    let name = entries[i].0;
    let j = choose|j: int| 0 <= j < entries.len() && #[trigger] entries[j].0 == name;
    assert(i == j);
}

/// The content of what a search for a preset found.
pub open spec fn found(outcome: Result<&Vec<String>, Reason>) -> Result<Seq<Seq<char>>, Reason> {
    match outcome {
        Ok(events) => Ok(events.deep_view()),
        Err(reason) => Err(reason),
    }
}

/// Puts a preset into a list in which no name occurs twice: in the place of
/// the preset of that name, or at the end if there is none.
fn insert(table: &mut Vec<(String, Vec<String>)>, name: String, events: Vec<String>)
    requires
        distinct(old(table).deep_view()),
    ensures
        distinct(final(table).deep_view()),
        table_of(final(table).deep_view()) == table_of(old(table).deep_view()).insert(
            name@,
            events.deep_view(),
        ),
{
    let ghost before = table.deep_view();
    let ghost wanted = table_of(before).insert(name@, events.deep_view());
    let mut i: usize = 0;
    while i < table.len()
        invariant
            i <= table.len(),
            table.deep_view() == before,
            before == old(table).deep_view(),
            distinct(before),
            wanted == table_of(before).insert(name@, events.deep_view()),
            forall|j: int| 0 <= j < i ==> before[j].0 != name@,
        decreases table.len() - i,
    {
        assert(before[i as int] == table[i as int].deep_view());
        if table[i].0 == name {
            table.set(i, (name, events));
            let ghost after = table.deep_view();
            proof {
                assert(after =~= before.update(i as int, (name@, events.deep_view())));
                assert forall|j: int| 0 <= j < after.len() implies #[trigger] after[j].0
                    == before[j].0 by {}
                assert(distinct(after));
                assert forall|key: Seq<char>| #[trigger]
                    table_of(after).contains_key(key) == wanted.contains_key(key) by {
                    if holds(before, key) {
                        let j = choose|j: int| 0 <= j < before.len() && #[trigger] before[j].0 == key;
                        assert(after[j].0 == key);
                    }
                    if holds(after, key) {
                        let j = choose|j: int| 0 <= j < after.len() && #[trigger] after[j].0 == key;
                        assert(before[j].0 == key);
                    }
                    assert(after[i as int].0 == name@);
                }
                assert forall|key: Seq<char>| #[trigger]
                    table_of(after).contains_key(key) implies table_of(after)[key]
                    == wanted[key] by {
                    let j = choose|j: int| 0 <= j < after.len() && #[trigger] after[j].0 == key;
                    lemma_table_at(after, j);
                    if j != i {
                        lemma_table_at(before, j);
                    }
                }
                assert(table_of(after) =~= wanted);
            }
            return ;
        }
        i += 1;
    }
    table.push((name, events));
    let ghost after = table.deep_view();
    proof {
        assert(after =~= before.push((name@, events.deep_view())));
        assert(distinct(after));
        assert forall|key: Seq<char>| #[trigger]
            table_of(after).contains_key(key) == wanted.contains_key(key) by {
            if holds(before, key) {
                let j = choose|j: int| 0 <= j < before.len() && #[trigger] before[j].0 == key;
                assert(after[j].0 == key);
            }
            if holds(after, key) {
                let j = choose|j: int| 0 <= j < after.len() && #[trigger] after[j].0 == key;
                if j < before.len() {
                    assert(before[j].0 == key);
                }
            }
            assert(after[before.len() as int].0 == name@);
        }
        assert forall|key: Seq<char>| #[trigger]
            table_of(after).contains_key(key) implies table_of(after)[key] == wanted[key] by {
            let j = choose|j: int| 0 <= j < after.len() && #[trigger] after[j].0 == key;
            lemma_table_at(after, j);
            if j < before.len() {
                lemma_table_at(before, j);
            }
        }
        assert(table_of(after) =~= wanted);
    }
}

/// What the user configured: an optional table of presets, which holds for
/// each preset name an ordered list of event names. No name occurs twice.
#[derive(Debug)]
pub struct Config {
    presets: Option<Vec<(String, Vec<String>)>>,
}

impl Config {
    /// No name occurs twice in the table.
    #[verifier::type_invariant]
    spec fn unique(self) -> bool {
        match self.presets {
            Some(entries) => distinct(entries.deep_view()),
            None => true,
        }
    }

    /// The content of the preset table, if there is one.
    pub closed spec fn presets(&self) -> Option<Presets> {
        match self.presets {
            Some(entries) => Some(table_of(entries.deep_view())),
            None => None,
        }
    }

    /// A configuration with the table that takes the given presets one after
    /// the other, a later preset replacing an earlier one of the same name;
    /// or without a table, if none is given.
    pub fn new(presets: Option<Vec<(String, Vec<String>)>>) -> (r: Config)
        ensures
            r.presets() == match presets {
                Some(entries) => Some(absorbed(Map::empty(), entries.deep_view())),
                None => None,
            },
    {
        let mut rest = match presets {
            Some(entries) => entries,
            None => return Config { presets: None },
        };
        let ghost all = rest.deep_view();
        let mut table: Vec<(String, Vec<String>)> = Vec::new();
        assert(table_of(table.deep_view()) =~= Map::empty());
        while rest.len() > 0
            invariant
                distinct(table.deep_view()),
                absorbed(table_of(table.deep_view()), rest.deep_view()) == absorbed(
                    Map::empty(),
                    all,
                ),
            decreases rest.len(),
        {
            let ghost pending = rest.deep_view();
            let entry = rest.remove(0);
            assert(entry.deep_view() == pending[0]);
            assert(rest.deep_view() =~= pending.subrange(1, pending.len() as int));
            insert(&mut table, entry.0, entry.1);
        }
        Config { presets: Some(table) }
    }

    /// Takes the configuration apart into the presets of its table, none of
    /// them twice.
    pub fn into_presets(self) -> (r: Option<Vec<(String, Vec<String>)>>)
        ensures
            match r {
                Some(entries) => distinct(entries.deep_view()) && self.presets() == Some(
                    table_of(entries.deep_view()),
                ),
                None => self.presets() is None,
            },
    {
        proof {
            use_type_invariant(&self);
        }
        self.presets
    }

    /// The events of the preset called `name`, or why there are none.
    pub open spec fn events_of(&self, name: Seq<char>) -> Result<Seq<Seq<char>>, Reason> {
        match self.presets() {
            None => Err(Reason::NoPresets),
            Some(table) => if table.contains_key(name) {
                Ok(table[name])
            } else {
                Err(Reason::UnknownPreset)
            },
        }
    }

    /// Finds the events of the preset called `name`.
    pub fn preset(&self, name: &str) -> (r: Result<&Vec<String>, Reason>)
        ensures
            found(r) == self.events_of(name@),
    {
        proof {
            use_type_invariant(self);
        }
        let table = match &self.presets {
            Some(table) => table,
            None => return Err(Reason::NoPresets),
        };
        let wanted = name.to_owned();
        let ghost all = table.deep_view();
        let mut i: usize = 0;
        while i < table.len()
            invariant
                i <= table.len(),
                wanted@ == name@,
                all == table.deep_view(),
                distinct(all),
                self.presets() == Some(table_of(all)),
                forall|j: int| 0 <= j < i ==> all[j].0 != name@,
            decreases table.len() - i,
        {
            assert(all[i as int] == table[i as int].deep_view());
            if table[i].0 == wanted {
                proof {
                    lemma_table_at(all, i as int);
                }
                return Ok(&table[i].1);
            }
            i += 1;
        }
        assert(!holds(all, name@));
        Err(Reason::UnknownPreset)
    }
}

/// The handle of the initialised counter subsystem, with the configuration
/// that it was initialised with.
#[derive(Debug)]
pub struct Papi {
    config: Option<Config>,
}

impl Papi {
    /// The configuration that the subsystem was initialised with.
    pub closed spec fn config(&self) -> Option<Config> {
        self.config
    }

    /// The events of the preset called `name`, or why there are none.
    pub open spec fn preset(&self, name: Seq<char>) -> Result<Seq<Seq<char>>, Reason> {
        match self.config() {
            None => Err(Reason::NoConfiguration),
            Some(config) => config.events_of(name),
        }
    }

    /// Finds the events of the preset called `name`.
    pub fn find_preset(&self, name: &str) -> (r: Result<&Vec<String>, Reason>)
        ensures
            found(r) == self.preset(name@),
    {
        match &self.config {
            None => Err(Reason::NoConfiguration),
            Some(config) => config.preset(name),
        }
    }

    /// Begins the initialisation of the counter subsystem for a caller built
    /// against `version` of it, without a configuration.
    pub fn init(version: i32) -> (r: Progress<Initializing, Result<Papi, Error>>)
        ensures
            r.lifted(|o: Result<Papi, Error>| configured(o)) == Progress::<
                InitializingModel,
                Result<Option<Config>, Error>,
            >::Pending(InitializingModel::begin(version, None)),
    {
        Progress::Pending(Initializing { version, stage: InitStage::Querying, config: None })
    }

    /// Begins the initialisation of the counter subsystem for a caller built
    /// against `version` of it, with a configuration.
    pub fn init_with_config(config: Config, version: i32) -> (r: Progress<
        Initializing,
        Result<Papi, Error>,
    >)
        ensures
            r.lifted(|o: Result<Papi, Error>| configured(o)) == Progress::<
                InitializingModel,
                Result<Option<Config>, Error>,
            >::Pending(InitializingModel::begin(version, Some(config))),
    {
        Progress::Pending(
            Initializing { version, stage: InitStage::Querying, config: Some(config) },
        )
    }
}

/// The configuration inside the result of an initialisation.
pub open spec fn configured(outcome: Result<Papi, Error>) -> Result<Option<Config>, Error> {
    match outcome {
        Ok(papi) => Ok(papi.config()),
        Err(error) => Err(error),
    }
}

/// The call whose reply an initialisation awaits.
#[derive(Clone, Copy, Debug, PartialEq, Eq, Structural)]
pub enum InitStage {
    /// Asking whether the subsystem is initialised already.
    Querying,
    /// Initialising the subsystem.
    Loading,
    /// Setting up thread support.
    Threading,
}

/// The initialisation of the counter subsystem, waiting for the reply to one
/// call.
#[derive(Debug)]
pub struct Initializing {
    version: i32,
    stage: InitStage,
    config: Option<Config>,
}

/// The mathematical content of an [`Initializing`].
pub struct InitializingModel {
    /// The version of the subsystem that the caller was built against.
    pub version: i32,
    /// The call whose reply is awaited.
    pub stage: InitStage,
    /// The configuration that the handle will carry.
    pub config: Option<Config>,
}

impl InitializingModel {
    /// The initialisation before its first call.
    pub open spec fn begin(version: i32, config: Option<Config>) -> InitializingModel {
        InitializingModel { version, stage: InitStage::Querying, config }
    }

    /// The call whose reply is awaited.
    pub open spec fn call(self) -> Call {
        match self.stage {
            InitStage::Querying => Call::LibraryState,
            InitStage::Loading => Call::LibraryInit { version: self.version },
            InitStage::Threading => Call::ThreadInit,
        }
    }

    /// The initialisation at another stage.
    pub open spec fn at(self, stage: InitStage) -> InitializingModel {
        InitializingModel { stage, ..self }
    }

    /// Where the initialisation stands after `answer`. A subsystem that is
    /// initialised already is not initialised again; one that reports
    /// another version than the caller's, or cannot set up thread support,
    /// ends the initialisation with an error.
    pub open spec fn step(self, answer: Answer) -> Progress<
        InitializingModel,
        Result<Option<Config>, Error>,
    > {
        match self.stage {
            InitStage::Querying => if answer.status != PAPI_LOW_LEVEL_INITED {
                Progress::Pending(self.at(InitStage::Loading))
            } else {
                Progress::Pending(self.at(InitStage::Threading))
            },
            InitStage::Loading => if answer.status != self.version {
                Progress::Done(Err(Error::VersionMismatch))
            } else {
                Progress::Pending(self.at(InitStage::Threading))
            },
            InitStage::Threading => if answer.status != PAPI_OK {
                Progress::Done(Err(Error::ThreadSupport))
            } else {
                Progress::Done(Ok(self.config))
            },
        }
    }
}

impl View for Initializing {
    type V = InitializingModel;

    closed spec fn view(&self) -> InitializingModel {
        InitializingModel { version: self.version, stage: self.stage, config: self.config }
    }
}

impl Initializing {
    /// The call whose reply the initialisation awaits.
    pub fn request(&self) -> (r: Request<'static>)
        ensures
            r@ == self@.call(),
    {
        match self.stage {
            InitStage::Querying => Request::LibraryState,
            InitStage::Loading => Request::LibraryInit { version: self.version },
            InitStage::Threading => Request::ThreadInit,
        }
    }

    /// Continues the initialisation with the reply to its request.
    pub fn resume(self, reply: Reply) -> (r: Progress<Initializing, Result<Papi, Error>>)
        ensures
            r.lifted(|o: Result<Papi, Error>| configured(o)) == self@.step(reply@),
    {
        match self.stage {
            InitStage::Querying => {
                let stage = if reply.status != PAPI_LOW_LEVEL_INITED {
                    InitStage::Loading
                } else {
                    InitStage::Threading
                };
                Progress::Pending(Initializing { stage, ..self })
            },
            InitStage::Loading => {
                if reply.status != self.version {
                    Progress::Done(Err(Error::VersionMismatch))
                } else {
                    Progress::Pending(Initializing { stage: InitStage::Threading, ..self })
                }
            },
            InitStage::Threading => {
                if reply.status != PAPI_OK {
                    Progress::Done(Err(Error::ThreadSupport))
                } else {
                    Progress::Done(Ok(Papi { config: self.config }))
                }
            },
        }
    }
}

} // verus!
