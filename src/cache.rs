//! The lazily filled, single-flight cache of the ledger's events. The store
//! is read by the caller: this type decides who reads and keeps the result.
use vstd::prelude::*;
use crate::badges::Event;
use crate::text::{contains_str, has_substring};

verus! {

#[derive(PartialEq, Eq, Structural, Clone, Copy, Debug)]
pub enum CacheState {
    Empty,
    /// A store read is in flight.
    Populating,
    /// The last store read failed; the cache stays refused until emptied.
    Failed,
    Populated,
}

/// What a reader learns when it asks for the cache to be filled.
#[derive(PartialEq, Eq, Structural, Clone, Copy, Debug)]
pub enum PopulateStart {
    /// The events are there; read them.
    Ready,
    /// This caller now reads the store and hands the result to `finish_populate`.
    Claimed,
    /// Another caller is reading the store: try again later.
    Busy,
}

#[derive(PartialEq, Eq, Structural, Clone, Copy, Debug)]
pub enum CacheError {
    /// Another population is in flight.
    Busy,
    /// The store could not be read.
    QueryFailed,
}

impl CacheError {
    /// The message shown to the reader.
    pub fn message(&self) -> (r: &'static str)
        ensures
            *self == CacheError::Busy ==> r@ == "The cache is currently being populated, please wait."@,
            *self == CacheError::QueryFailed ==> r@ == "An error occurred when populating the cache."@,
    {
        match self {
            CacheError::Busy => "The cache is currently being populated, please wait.",
            CacheError::QueryFailed => "An error occurred when populating the cache.",
        }
    }
}

/// The state after a request to fill the cache, and its answer.
pub open spec fn spec_begin(s: CacheState) -> (CacheState, PopulateStart) {
    match s {
        CacheState::Populated => (CacheState::Populated, PopulateStart::Ready),
        CacheState::Populating => (CacheState::Populating, PopulateStart::Busy),
        CacheState::Failed => (CacheState::Failed, PopulateStart::Busy),
        CacheState::Empty => (CacheState::Populating, PopulateStart::Claimed),
    }
}

pub struct EventBadges {
    state: CacheState,
    events: Vec<Event>,
}

impl EventBadges {
    /// Readers see events only once the cache is filled.
    pub open spec fn wf(&self) -> bool {
        self.state() != CacheState::Populated ==> self.events().len() == 0
    }

    pub closed spec fn state(&self) -> CacheState {
        self.state
    }

    pub closed spec fn events(&self) -> Seq<Event> {
        self.events@
    }

    pub fn new() -> (r: EventBadges)
        ensures
            r.wf(),
            r.state() == CacheState::Empty,
            r.events().len() == 0,
    {
        EventBadges { state: CacheState::Empty, events: Vec::new() }
    }

    /// Asks for the cache to be filled. Only one caller at a time is handed
    /// the reading of the store; the others are told it is busy and wait for
    /// nobody.
    pub fn begin_populate(&mut self) -> (r: PopulateStart)
        requires
            old(self).wf(),
        ensures
            final(self).wf(),
            (final(self).state(), r) == spec_begin(old(self).state()),
            final(self).events() == old(self).events(),
    {
        match self.state {
            CacheState::Populated => PopulateStart::Ready,
            CacheState::Populating => PopulateStart::Busy,
            CacheState::Failed => PopulateStart::Busy,
            CacheState::Empty => {
                self.state = CacheState::Populating;
                PopulateStart::Claimed
            },
        }
    }

    /// Takes the outcome of the store read that `begin_populate` handed out:
    /// the events, or none when the read failed. A success replaces the whole
    /// event list at once. A failure leaves the cache refused, as if still
    /// populating, until `empty_cache` is called.
    pub fn finish_populate(&mut self, loaded: Option<Vec<Event>>) -> (r: Result<(), CacheError>)
        requires
            old(self).wf(),
            old(self).state() == CacheState::Populating,
        ensures
            final(self).wf(),
            match loaded {
                Some(v) => {
                    &&& r is Ok
                    &&& final(self).state() == CacheState::Populated
                    &&& final(self).events() == v@
                },
                None => {
                    &&& r == Err::<(), CacheError>(CacheError::QueryFailed)
                    &&& final(self).state() == CacheState::Failed
                    &&& final(self).events() == old(self).events()
                },
            },
    {
        match loaded {
            Some(v) => {
                self.events = v;
                self.state = CacheState::Populated;
                Ok(())
            },
            None => {
                self.state = CacheState::Failed;
                Err(CacheError::QueryFailed)
            },
        }
    }

    /// The answer a reader gets before reading: fine once filled, else the
    /// error that `begin_populate` or a failed read gave.
    pub fn populate_error(start: PopulateStart) -> (r: Option<CacheError>)
        ensures
            r == (if start == PopulateStart::Busy { Some(CacheError::Busy) } else { None }),
    {
        match start {
            PopulateStart::Busy => Some(CacheError::Busy),
            _ => None,
        }
    }

    /// Whether the cache is filled.
    pub fn is_populated(&self) -> (r: bool)
        ensures
            r == (self.state() == CacheState::Populated),
    {
        self.state == CacheState::Populated
    }

    /// Whether a store read is in flight.
    pub fn is_populating(&self) -> (r: bool)
        ensures
            r == (self.state() == CacheState::Populating),
    {
        self.state == CacheState::Populating
    }

    /// The cached events.
    pub fn get_events(&self) -> (r: &Vec<Event>)
        ensures
            r@ == self.events(),
    {
        &self.events
    }

    /// The number of cached events.
    pub fn get_total_events(&self) -> (r: usize)
        ensures
            r == self.events().len(),
    {
        self.events.len()
    }

    /// Empties the cache; the next reader fills it again. A read in flight
    /// keeps its claim, so that no second read starts beside it; a failed
    /// read no longer blocks the cache.
    pub fn empty_cache(&mut self)
        requires
            old(self).wf(),
        ensures
            final(self).wf(),
            final(self).state() == (if old(self).state() == CacheState::Populating {
                CacheState::Populating
            } else {
                CacheState::Empty
            }),
            final(self).events().len() == 0,
    {
        self.events = Vec::new();
        if self.state != CacheState::Populating {
            self.state = CacheState::Empty;
        }
    }

    /// Adds an event that was just written to the store.
    pub fn push_event(&mut self, event: Event)
        requires
            old(self).wf(),
            old(self).state() == CacheState::Populated,
        ensures
            final(self).wf(),
            final(self).state() == old(self).state(),
            final(self).events() == old(self).events().push(event),
    {
        self.events.push(event);
    }

    /// The id of the first cached event whose name contains `name`.
    pub fn find_event_id(&self, name: &str) -> (r: Option<u16>)
        ensures
            match r {
                Some(id) => exists|i: int| {
                    &&& 0 <= i < self.events().len()
                    &&& #[trigger] self.events()[i].id == id
                    &&& has_substring(self.events()[i].name@, name@)
                    &&& forall|j: int| 0 <= j < i ==> !has_substring(#[trigger] self.events()[j].name@, name@)
                },
                None => forall|j: int| 0 <= j < self.events().len() ==> !has_substring(#[trigger] self.events()[j].name@, name@),
            },
    {
        let mut i: usize = 0;
        while i < self.events.len()
            invariant
                i <= self.events@.len(),
                forall|j: int| 0 <= j < i ==> !has_substring(#[trigger] self.events@[j].name@, name@),
            decreases self.events.len() - i,
        {
            if contains_str(self.events[i].name.as_str(), name) {
                return Some(self.events[i].id);
            }
            i += 1;
        }
        None
    }
}

/// Two requests to fill an empty cache: the first is handed the store read,
/// the second is told the cache is busy, and the store is read once.
pub proof fn lemma_single_flight(s: CacheState)
    requires
        s == CacheState::Empty,
    ensures
        spec_begin(s).1 == PopulateStart::Claimed,
        spec_begin(spec_begin(s).0).1 == PopulateStart::Busy,
        spec_begin(spec_begin(s).0).0 == CacheState::Populating,
{
}

} // verus!
