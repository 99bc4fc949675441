//! Round state shared between the state machine and the snapshot:
//! published parameters, dictionaries, and derived events.

use vstd::prelude::*;
use crate::bytes_util::{bytes_eq, copy_bytes};

verus! {

/// Parameters of the current round, published for pollers.
#[derive(Clone, Copy, Debug, PartialEq, Eq, Structural)]
pub struct RoundParameters {
    /// Ordinal of the round, starting at 1 for the first one opened.
    pub round: u64,
    /// How many sum participants the round asks for.
    pub min_sum: u64,
    /// How many update participants the round asks for.
    pub min_update: u64,
}

/// One entry of a published dictionary: an opaque participant key and the
/// bytes recorded under it.
#[derive(Debug)]
pub struct DictEntry {
    pub key: Vec<u8>,
    pub value: Vec<u8>,
}

/// Spec view of a dictionary: its key and value byte sequences, in order.
pub open spec fn dict_view(d: Seq<DictEntry>) -> Seq<(Seq<u8>, Seq<u8>)> {
    d.map(|i: int, e: DictEntry| (e.key@, e.value@))
}

/// The keys of a dictionary view are pairwise distinct.
pub open spec fn unique_keys(d: Seq<(Seq<u8>, Seq<u8>)>) -> bool {
    forall|i: int, j: int| 0 <= i < j < d.len() ==> d[i].0 != d[j].0
}

/// The first value recorded under `k`, if any.
pub open spec fn dict_lookup(d: Seq<(Seq<u8>, Seq<u8>)>, k: Seq<u8>) -> Option<Seq<u8>>
    decreases d.len(),
{
    if d.len() == 0 {
        None
    } else if d[0].0 == k {
        Some(d[0].1)
    } else {
        dict_lookup(d.skip(1), k)
    }
}

/// An internal notification from the state machine, describing a change
/// the driver must apply to the published snapshot.
#[derive(Debug)]
pub enum DerivedEvent {
    /// Publish the round parameters.
    RoundParameters(RoundParameters),
    /// Publish the sum dictionary.
    SumDict(Vec<DictEntry>),
    /// Publish the seed dictionary.
    SeedDict(Vec<DictEntry>),
    /// Publish the model scalar.
    Scalar(u64),
    /// Publish the mask length.
    Length(u64),
    /// Discard all published round state.
    Reset,
}

/// Spec view of a derived event.
pub ghost enum DerivedEventView {
    RoundParameters(RoundParameters),
    SumDict(Seq<(Seq<u8>, Seq<u8>)>),
    SeedDict(Seq<(Seq<u8>, Seq<u8>)>),
    Scalar(u64),
    Length(u64),
    Reset,
}

impl View for DerivedEvent {
    type V = DerivedEventView;

    open spec fn view(&self) -> DerivedEventView {
        match self {
            DerivedEvent::RoundParameters(p) => DerivedEventView::RoundParameters(*p),
            DerivedEvent::SumDict(d) => DerivedEventView::SumDict(dict_view(d@)),
            DerivedEvent::SeedDict(d) => DerivedEventView::SeedDict(dict_view(d@)),
            DerivedEvent::Scalar(s) => DerivedEventView::Scalar(*s),
            DerivedEvent::Length(l) => DerivedEventView::Length(*l),
            DerivedEvent::Reset => DerivedEventView::Reset,
        }
    }
}

/// Whether the snapshot accepts the event: a dictionary event must carry
/// pairwise-distinct keys.
pub open spec fn event_ok(e: DerivedEventView) -> bool {
    match e {
        DerivedEventView::SumDict(d) => unique_keys(d),
        DerivedEventView::SeedDict(d) => unique_keys(d),
        _ => true,
    }
}

/// Copies a dictionary entry-wise.
pub fn copy_dict(d: &Vec<DictEntry>) -> (r: Vec<DictEntry>)
    ensures
        dict_view(r@) == dict_view(d@),
{
    let mut r: Vec<DictEntry> = Vec::new();
    let mut i: usize = 0;
    while i < d.len()
        invariant
            i <= d@.len(),
            r@.len() == i,
            forall|j: int|
                0 <= j < i ==> r@[j].key@ == d@[j].key@ && r@[j].value@ == d@[j].value@,
        decreases d@.len() - i,
    {
        r.push(DictEntry { key: copy_bytes(&d[i].key), value: copy_bytes(&d[i].value) });
        i = i + 1;
    }
    proof {
        assert(dict_view(r@) =~= dict_view(d@));
    }
    r
}

/// Whether the dictionary's keys are pairwise distinct.
pub fn check_unique_keys(d: &Vec<DictEntry>) -> (r: bool)
    ensures
        r == unique_keys(dict_view(d@)),
{
    let ghost dv = dict_view(d@);
    let mut i: usize = 0;
    while i < d.len()
        invariant
            i <= d@.len(),
            dv == dict_view(d@),
            forall|p: int, q: int| 0 <= p < q < i ==> dv[p].0 != dv[q].0,
        decreases d@.len() - i,
    {
        let mut j: usize = 0;
        while j < i
            invariant
                j <= i < d@.len(),
                dv == dict_view(d@),
                forall|p: int| 0 <= p < j ==> dv[p].0 != dv[i as int].0,
            decreases i - j,
        {
            if bytes_eq(&d[j].key, &d[i].key) {
                proof {
                    assert(dv[j as int].0 == dv[i as int].0);
                }
                return false;
            }
            j = j + 1;
        }
        i = i + 1;
    }
    true
}

/// Step lemma for `dict_lookup`: a mismatching head can be dropped.
pub proof fn lemma_dict_lookup_step(d: Seq<(Seq<u8>, Seq<u8>)>, k: Seq<u8>, i: int)
    requires
        0 <= i < d.len(),
        d[i].0 != k,
    ensures
        dict_lookup(d.skip(i), k) == dict_lookup(d.skip(i + 1), k),
{
    assert(d.skip(i)[0] == d[i]);
    assert(d.skip(i).skip(1) =~= d.skip(i + 1));
}

/// Looks up `k` in a dictionary, copying the value found.
pub fn dict_get(d: &Vec<DictEntry>, k: &Vec<u8>) -> (r: Option<Vec<u8>>)
    ensures
        r is Some <==> dict_lookup(dict_view(d@), k@) is Some,
        r matches Some(v) ==> dict_lookup(dict_view(d@), k@) == Some(v@),
{
    let ghost dv = dict_view(d@);
    proof {
        assert(dv.skip(0) =~= dv);
    }
    let mut i: usize = 0;
    while i < d.len()
        invariant
            i <= d@.len(),
            dv == dict_view(d@),
            dict_lookup(dv, k@) == dict_lookup(dv.skip(i as int), k@),
        decreases d@.len() - i,
    {
        if bytes_eq(&d[i].key, k) {
            proof {
                assert(dv.skip(i as int)[0] == dv[i as int]);
            }
            return Some(copy_bytes(&d[i].value));
        }
        proof {
            lemma_dict_lookup_step(dv, k@, i as int);
        }
        i = i + 1;
    }
    proof {
        assert(dv.skip(dv.len() as int) =~= Seq::<(Seq<u8>, Seq<u8>)>::empty());
    }
    None
}

} // verus!
