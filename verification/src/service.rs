//! The service driving the protocol: a single task that pulls events
//! from the merged stream, dispatches them to the state machine or the
//! snapshot, drains the derived events after every dispatch, and absorbs
//! failures into round state instead of stopping.

use vstd::prelude::*;
use crate::coordinator::{message_step, reset_step, settle_step, transition_step, Coordinator,
    CoordinatorView, MaskSettings, PetSettings, mask_settings_valid, pet_settings_valid,
    settings_valid};
use crate::data::{drain_data, Data, DataView};
use crate::error::InitError;
use crate::events::{Event, EventStream, Handle, LengthRequest, Message, RoundParametersRequest,
    ScalarRequest, SeedDictRequest, SumDictRequest};
use crate::round::{event_ok, DerivedEventView};

verus! {

/// Spec view of the service: the state machine and the snapshot. The
/// event stream is opaque plumbing and carries no state of its own.
#[verifier::ext_equal]
pub ghost struct ServiceView {
    pub coordinator: CoordinatorView,
    pub data: DataView,
}

/// The service after its driver drained every pending derived event.
pub open spec fn drained(s: ServiceView) -> ServiceView {
    ServiceView {
        coordinator: settle_step(s.coordinator),
        data: drain_data(s.data, s.coordinator.pending),
    }
}

/// The service after one inbound message is dispatched and drained.
pub open spec fn dispatch_message_step(s: ServiceView, bytes: Seq<u8>) -> ServiceView {
    drained(ServiceView { coordinator: message_step(s.coordinator, bytes), data: s.data })
}

/// The service after a round-parameters query is dispatched: the query
/// nudges a phase transition before it is answered, then drains.
pub open spec fn dispatch_round_parameters_step(s: ServiceView) -> ServiceView {
    drained(ServiceView { coordinator: transition_step(s.coordinator), data: s.data })
}

/// The task that drives the protocol: it owns the state machine and the
/// published snapshot, and it alone reacts to the events of the stream.
pub struct Service {
    /// The state machine holding the protocol state.
    coordinator: Coordinator,
    /// Events to handle.
    pub events: EventStream,
    /// Data the service currently publishes for queries.
    data: Data,
}

impl View for Service {
    type V = ServiceView;

    closed spec fn view(&self) -> ServiceView {
        ServiceView { coordinator: self.coordinator@, data: self.data@ }
    }
}

impl Service {
    /// The machine's configuration is valid and the snapshot's published
    /// dictionaries have distinct keys. `new` establishes this and every
    /// dispatch preserves it.
    pub closed spec fn wf(self) -> bool {
        self.coordinator.wf() && self@.data.wf()
    }

    /// The event stream the service holds, for frame conditions: no
    /// dispatch touches it.
    pub closed spec fn spec_events(self) -> EventStream {
        self.events
    }

    /// Instantiates a service and the producer handle feeding it. Fails
    /// exactly on a configuration that could not drive rounds.
    pub fn new(pet: PetSettings, mask: MaskSettings) -> (r: Result<(Service, Handle), InitError>)
        ensures
            r is Ok <==> settings_valid(pet, mask),
            r matches Ok(p) ==> p.0.wf() && p.0@.coordinator == CoordinatorView::initial(pet, mask)
                && p.0@.data == DataView::initial(),
            !pet_settings_valid(pet) ==> (r matches Err(e) && e == InitError::InvalidPetSettings),
            pet_settings_valid(pet) && !mask_settings_valid(mask) ==> (r matches Err(e) && e
                == InitError::InvalidMaskSettings),
    {
        let coordinator = match Coordinator::new_with_config(pet, mask) {
            Ok(c) => c,
            Err(e) => {
                return Err(e);
            },
        };
        let (tx, rx) = tokio::sync::mpsc::unbounded_channel();
        let handle = Handle { tx };
        let service = Service { coordinator, events: EventStream { rx }, data: Data::new() };
        Ok((service, handle))
    }

    /// Dispatches the given event to the appropriate handler, then
    /// drains the derived events it produced into the snapshot.
    pub fn dispatch_event(&mut self, event: Event)
        requires
            old(self).wf(),
        ensures
            final(self).wf(),
            final(self).spec_events() == old(self).spec_events(),
            event matches Event::Message(m) ==> final(self)@ == dispatch_message_step(
                old(self)@,
                m.buffer@,
            ),
            event is RoundParameters ==> final(self)@ == dispatch_round_parameters_step(
                old(self)@,
            ),
            (event is SumDict || event is Scalar || event is SeedDict || event is Length)
                ==> final(self)@ == drained(old(self)@),
    {
        match event {
            Event::Message(Message { buffer }) => self.handle_message(buffer),
            Event::RoundParameters(req) => self.handle_round_parameters_request(req),
            Event::SumDict(req) => self.handle_sum_dict_request(req),
            Event::Scalar(req) => self.handle_scalar_request(req),
            Event::SeedDict(req) => self.handle_seed_dict_request(req),
            Event::Length(req) => self.handle_length_request(req),
        }
        self.process_protocol_events();
    }

    /// Answers a round-parameters request. Before answering it nudges
    /// the state machine to attempt a phase transition, so that polling
    /// this query is what advances an otherwise idle machine; the answer
    /// itself still reads the snapshot published so far. A dropped
    /// caller is ignored.
    pub fn handle_round_parameters_request(&mut self, req: RoundParametersRequest)
        requires
            old(self).wf(),
        ensures
            final(self).wf(),
            final(self).spec_events() == old(self).spec_events(),
            final(self)@.coordinator == transition_step(old(self)@.coordinator),
            final(self)@.data == old(self)@.data,
    {
        self.coordinator.try_phase_transition();
        let RoundParametersRequest { response_tx } = req;
        let _ = response_tx.send(self.data.round_parameters());
    }

    /// Answers a sum-dictionary request with the published dictionary.
    /// A dropped caller is ignored.
    pub fn handle_sum_dict_request(&self, req: SumDictRequest) {
        let SumDictRequest { response_tx } = req;
        let _ = response_tx.send(self.data.sum_dict());
    }

    /// Answers a model-scalar request with the published scalar.
    /// A dropped caller is ignored.
    pub fn handle_scalar_request(&self, req: ScalarRequest) {
        let ScalarRequest { response_tx } = req;
        let _ = response_tx.send(self.data.scalar());
    }

    /// Answers a seed-dictionary request for one participant key. A
    /// missing dictionary or an unknown key is reported on the reply
    /// channel as the query's own result, never as a driver fault; a
    /// dropped caller is ignored.
    pub fn handle_seed_dict_request(&mut self, req: SeedDictRequest)
        requires
            old(self).wf(),
        ensures
            final(self).wf(),
            *final(self) == *old(self),
    {
        let SeedDictRequest { public_key, response_tx } = req;
        let resp = self.data.seed_dict(&public_key);
        let _ = response_tx.send(resp);
    }

    /// Answers a mask-length request with the published length.
    /// A dropped caller is ignored.
    pub fn handle_length_request(&self, req: LengthRequest) {
        let LengthRequest { response_tx } = req;
        let _ = response_tx.send(self.data.length());
    }

    /// Dequeues every derived event the state machine has pending and
    /// applies it to the snapshot. If one application fails, the round
    /// is abandoned: the machine is reset, the snapshot returns to its
    /// initial state, and the service goes on processing events.
    pub fn process_protocol_events(&mut self)
        requires
            old(self).wf(),
        ensures
            final(self).wf(),
            final(self).spec_events() == old(self).spec_events(),
            final(self)@.data == drain_data(old(self)@.data, old(self)@.coordinator.pending),
            final(self)@.coordinator == settle_step(old(self)@.coordinator),
            final(self)@.coordinator.pending.len() == 0,
    {
        let ghost mut resetted: bool = false;
        loop
            invariant
                self.wf(),
                self.spec_events() == old(self).spec_events(),
                drain_data(self@.data, self@.coordinator.pending) == drain_data(
                    old(self)@.data,
                    old(self)@.coordinator.pending,
                ),
                settle_step(self@.coordinator) == settle_step(old(self)@.coordinator),
                resetted ==> self@.coordinator.all_pending_ok() && self@.coordinator.pending.len()
                    <= 1,
            ensures
                self.wf(),
                self.spec_events() == old(self).spec_events(),
                drain_data(self@.data, self@.coordinator.pending) == drain_data(
                    old(self)@.data,
                    old(self)@.coordinator.pending,
                ),
                settle_step(self@.coordinator) == settle_step(old(self)@.coordinator),
                self@.coordinator.pending.len() == 0,
            decreases self@.coordinator.pending.len() + (if resetted { 0int } else { 2int }),
        {
            let ghost pre = self@;
            match self.coordinator.next_event() {
                None => {
                    break ;
                },
                Some(event) => {
                    let ghost ev = event@;
                    match self.data.update(event) {
                        Ok(_) => {
                            proof {
                                lemma_settle_pop(pre.coordinator, ev);
                                assert(self@.coordinator.pending == pre.coordinator.pending.skip(
                                    1,
                                ));
                                assert(drain_data(pre.data, pre.coordinator.pending) == drain_data(
                                    crate::data::apply_event(pre.data, ev),
                                    pre.coordinator.pending.skip(1),
                                ));
                            }
                        },
                        Err(_) => {
                            self.coordinator.reset();
                            proof {
                                resetted = true;
                                lemma_settle_after_reset(pre.coordinator, ev);
                                assert(self@.coordinator.pending =~= seq![
                                    DerivedEventView::Reset,
                                ]);
                                assert(seq![DerivedEventView::Reset].skip(1)
                                    =~= Seq::<DerivedEventView>::empty());
                                assert(drain_data(pre.data, pre.coordinator.pending)
                                    == DataView::initial());
                                assert(event_ok(DerivedEventView::Reset));
                                assert(seq![DerivedEventView::Reset][0]
                                    == DerivedEventView::Reset);
                                assert(crate::data::apply_event(
                                    self@.data,
                                    DerivedEventView::Reset,
                                ) == DataView::initial());
                                assert(drain_data(
                                    DataView::initial(),
                                    Seq::<DerivedEventView>::empty(),
                                ) == DataView::initial());
                                assert(drain_data(self@.data, self@.coordinator.pending)
                                    == DataView::initial());
                            }
                        },
                    }
                },
            }
        }
        proof {
            assert(self@.coordinator.pending =~= Seq::<DerivedEventView>::empty());
            assert(settle_step(self@.coordinator) =~= self@.coordinator);
        }
    }

    /// Hands one inbound message to the state machine. Any handling or
    /// decode failure is deliberately swallowed here: one malformed
    /// participant message must not affect the round for everyone else.
    pub fn handle_message(&mut self, buffer: Vec<u8>)
        requires
            old(self).wf(),
        ensures
            final(self).wf(),
            final(self).spec_events() == old(self).spec_events(),
            final(self)@.coordinator == message_step(old(self)@.coordinator, buffer@),
            final(self)@.data == old(self)@.data,
    {
        let _ = self.coordinator.handle_message(&buffer);
    }
}

/// Popping the head of the pending queue keeps the settled machine: the
/// settled outcome of a queue does not depend on how far it is drained,
/// as long as the popped event was accepted.
proof fn lemma_settle_pop(c: CoordinatorView, ev: DerivedEventView)
    requires
        c.pending.len() > 0,
        ev == c.pending[0],
        event_ok(ev),
    ensures
        settle_step(c.with_pending(c.pending.skip(1))) == settle_step(c),
{
    let rest = c.with_pending(c.pending.skip(1));
    assert(rest.pending == c.pending.skip(1));
    assert(c.all_pending_ok() <==> rest.all_pending_ok()) by {
        if rest.all_pending_ok() {
            assert forall|i: int| 0 <= i < c.pending.len() implies event_ok(c.pending[i]) by {
                if i > 0 {
                    assert(event_ok(rest.pending[i - 1]));
                    assert(c.pending.skip(1)[i - 1] == c.pending[i]);
                }
            }
        } else {
            let j = choose|j: int|
                0 <= j < rest.pending.len() && !event_ok(rest.pending[j]);
            assert(c.pending.skip(1)[j] == c.pending[j + 1]);
            assert(!event_ok(c.pending[j + 1]));
        }
    }
    assert(settle_step(rest) =~= settle_step(c));
}

/// After a rejected event forces a reset, the machine settles to the
/// same state the unsettled queue already determined: the round is
/// abandoned either way.
proof fn lemma_settle_after_reset(c: CoordinatorView, ev: DerivedEventView)
    requires
        c.pending.len() > 0,
        ev == c.pending[0],
        !event_ok(ev),
    ensures
        settle_step(reset_step(c.with_pending(c.pending.skip(1)))) == settle_step(c),
        !c.all_pending_ok(),
{
    assert(!c.all_pending_ok());
    let after = reset_step(c.with_pending(c.pending.skip(1)));
    assert(after.all_pending_ok()) by {
        assert(forall|i: int|
            0 <= i < after.pending.len() ==> after.pending[i] == DerivedEventView::Reset);
    }
    assert(settle_step(after) =~= settle_step(c));
}

/// Law: if draining rejects some derived event, the round is abandoned
/// as a whole — the snapshot observed afterwards is the initial one —
/// while the machine keeps its configuration and round counter and
/// stands idle again, ready for further events.
pub proof fn lemma_failed_drain_resets(d: DataView, c: CoordinatorView)
    requires
        !c.all_pending_ok(),
    ensures
        drain_data(d, c.pending) == DataView::initial(),
        settle_step(c).phase is Idle,
        settle_step(c).masks.len() == 0,
        settle_step(c).pending.len() == 0,
        settle_step(c).round == c.round,
        settle_step(c).min_sum == c.min_sum,
        settle_step(c).min_update == c.min_update,
        settle_step(c).mask_length == c.mask_length,
{
    lemma_drain_fails(d, c.pending);
}

/// A queue holding a rejected event always drains to the initial
/// snapshot, wherever the rejected event stands.
proof fn lemma_drain_fails(d: DataView, evs: Seq<DerivedEventView>)
    requires
        !(forall|i: int| 0 <= i < evs.len() ==> event_ok(evs[i])),
    ensures
        drain_data(d, evs) == DataView::initial(),
    decreases evs.len(),
{
    let j = choose|j: int| 0 <= j < evs.len() && !event_ok(evs[j]);
    if event_ok(evs[0]) {
        assert(j > 0);
        assert(evs.skip(1)[j - 1] == evs[j]);
        lemma_drain_fails(crate::data::apply_event(d, evs[0]), evs.skip(1));
    }
}

} // verus!
