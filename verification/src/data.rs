//! The published snapshot of round state, read by query handlers and
//! updated from the state machine's derived events.

use vstd::prelude::*;
use crate::error::{QueryError, UpdateError};
use crate::round::{check_unique_keys, copy_dict, dict_get, dict_lookup, dict_view, event_ok,
    unique_keys, DerivedEvent, DerivedEventView, DictEntry, RoundParameters};

verus! {

/// Spec view of the published snapshot.
pub ghost struct DataView {
    pub round_parameters: Option<RoundParameters>,
    pub sum_dict: Option<Seq<(Seq<u8>, Seq<u8>)>>,
    pub scalar: Option<u64>,
    pub length: Option<u64>,
    pub seed_dict: Option<Seq<(Seq<u8>, Seq<u8>)>>,
}

impl DataView {
    /// The snapshot before any round published anything.
    pub open spec fn initial() -> DataView {
        DataView {
            round_parameters: None,
            sum_dict: None,
            scalar: None,
            length: None,
            seed_dict: None,
        }
    }

    /// Published dictionaries have pairwise-distinct keys.
    pub open spec fn wf(self) -> bool {
        &&& (self.sum_dict matches Some(d) ==> unique_keys(d))
        &&& (self.seed_dict matches Some(d) ==> unique_keys(d))
    }
}

/// The snapshot after an accepted event is applied.
pub open spec fn apply_event(d: DataView, e: DerivedEventView) -> DataView {
    match e {
        DerivedEventView::RoundParameters(p) => DataView { round_parameters: Some(p), ..d },
        DerivedEventView::SumDict(x) => DataView { sum_dict: Some(x), ..d },
        DerivedEventView::SeedDict(x) => DataView { seed_dict: Some(x), ..d },
        DerivedEventView::Scalar(s) => DataView { scalar: Some(s), ..d },
        DerivedEventView::Length(l) => DataView { length: Some(l), ..d },
        DerivedEventView::Reset => DataView::initial(),
    }
}

/// The snapshot after the driver drains a queue of derived events:
/// accepted events apply in order; the first rejected one abandons the
/// round, and the snapshot observed afterwards is the initial one.
pub open spec fn drain_data(d: DataView, evs: Seq<DerivedEventView>) -> DataView
    decreases evs.len(),
{
    if evs.len() == 0 {
        d
    } else if event_ok(evs[0]) {
        drain_data(apply_event(d, evs[0]), evs.skip(1))
    } else {
        DataView::initial()
    }
}

/// The data the service holds for read-only queries: the latest published
/// value of each round artifact, absent until a round publishes it.
#[derive(Debug)]
pub struct Data {
    round_parameters: Option<RoundParameters>,
    sum_dict: Option<Vec<DictEntry>>,
    scalar: Option<u64>,
    length: Option<u64>,
    seed_dict: Option<Vec<DictEntry>>,
}

impl View for Data {
    type V = DataView;

    closed spec fn view(&self) -> DataView {
        DataView {
            round_parameters: self.round_parameters,
            sum_dict: match self.sum_dict {
                Some(d) => Some(dict_view(d@)),
                None => None,
            },
            scalar: self.scalar,
            length: self.length,
            seed_dict: match self.seed_dict {
                Some(d) => Some(dict_view(d@)),
                None => None,
            },
        }
    }
}

impl Data {
    /// A snapshot with nothing published yet.
    pub fn new() -> (r: Data)
        ensures
            r@ == DataView::initial(),
    {
        Data { round_parameters: None, sum_dict: None, scalar: None, length: None, seed_dict: None }
    }

    /// Applies one derived event. A dictionary event with a repeated key
    /// is rejected and leaves the snapshot unchanged; every other event
    /// overwrites its field, and `Reset` discards all published state.
    pub fn update(&mut self, event: DerivedEvent) -> (r: Result<(), UpdateError>)
        requires
            old(self)@.wf(),
        ensures
            event_ok(event@) ==> r is Ok && final(self)@ == apply_event(old(self)@, event@),
            !event_ok(event@) ==> r == Err::<(), UpdateError>(UpdateError::DuplicateKey) && final(self)@ == old(self)@,
            final(self)@.wf(),
    {
        match event {
            DerivedEvent::RoundParameters(p) => {
                self.round_parameters = Some(p);
                Ok(())
            },
            DerivedEvent::SumDict(d) => {
                if check_unique_keys(&d) {
                    self.sum_dict = Some(d);
                    Ok(())
                } else {
                    Err(UpdateError::DuplicateKey)
                }
            },
            DerivedEvent::SeedDict(d) => {
                if check_unique_keys(&d) {
                    self.seed_dict = Some(d);
                    Ok(())
                } else {
                    Err(UpdateError::DuplicateKey)
                }
            },
            DerivedEvent::Scalar(s) => {
                self.scalar = Some(s);
                Ok(())
            },
            DerivedEvent::Length(l) => {
                self.length = Some(l);
                Ok(())
            },
            DerivedEvent::Reset => {
                self.round_parameters = None;
                self.sum_dict = None;
                self.scalar = None;
                self.length = None;
                self.seed_dict = None;
                Ok(())
            },
        }
    }

    /// The latest published round parameters.
    pub fn round_parameters(&self) -> (r: Option<RoundParameters>)
        ensures
            r == self@.round_parameters,
    {
        self.round_parameters
    }

    /// A copy of the latest published sum dictionary.
    pub fn sum_dict(&self) -> (r: Option<Vec<DictEntry>>)
        ensures
            r is Some <==> self@.sum_dict is Some,
            r matches Some(d) ==> self@.sum_dict == Some(dict_view(d@)),
    {
        match &self.sum_dict {
            Some(d) => Some(copy_dict(d)),
            None => None,
        }
    }

    /// The latest published model scalar.
    pub fn scalar(&self) -> (r: Option<u64>)
        ensures
            r == self@.scalar,
    {
        self.scalar
    }

    /// The latest published mask length.
    pub fn length(&self) -> (r: Option<u64>)
        ensures
            r == self@.length,
    {
        self.length
    }

    /// The seed-dictionary slice recorded for one participant: fails when
    /// no round has published a seed dictionary, or when the key is
    /// unknown in it.
    pub fn seed_dict(&self, public_key: &Vec<u8>) -> (r: Result<Vec<u8>, QueryError>)
        ensures
            self@.seed_dict is None ==> r == Err::<Vec<u8>, QueryError>(QueryError::NoRound),
            self@.seed_dict matches Some(d) ==> (match dict_lookup(d, public_key@) {
                Some(v) => r matches Ok(x) && x@ == v,
                None => r == Err::<Vec<u8>, QueryError>(QueryError::UnknownKey),
            }),
    {
        match &self.seed_dict {
            None => Err(QueryError::NoRound),
            Some(d) => match dict_get(d, public_key) {
                Some(v) => Ok(v),
                None => Err(QueryError::UnknownKey),
            },
        }
    }
}

} // verus!
