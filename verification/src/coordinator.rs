//! A minimal protocol state machine: it validates and decodes inbound
//! sum2 messages, collects the masks of a round, and emits derived events
//! for the driver to publish. Selection thresholds and the full round
//! policy live outside this core; the machine models only what the driver
//! contract needs: construction, message handling, the derived-event
//! queue, an idempotent phase nudge, and a reset.

use vstd::prelude::*;
use crate::bytes_util::copy_bytes;
use crate::error::{InitError, MessageError};
use crate::mask::MAX_MASK_PAYLOAD;
use crate::round::{copy_dict, dict_view, event_ok, DerivedEvent, DerivedEventView, DictEntry,
    RoundParameters};
use crate::sum2::{sum2_error, sum2_mask, sum2_signature, sum2_valid, Sum2};

verus! {

/// Discrete phase of the state machine.
#[derive(Clone, Copy, Debug, PartialEq, Eq, Structural)]
pub enum Phase {
    /// No round is open; messages are rejected.
    Idle,
    /// A round is open and collecting sum2 messages.
    Sum2,
}

/// Protocol thresholds of a deployment.
#[derive(Clone, Copy, Debug, PartialEq, Eq, Structural)]
pub struct PetSettings {
    /// How many sum participants a round asks for.
    pub min_sum: u64,
    /// How many update participants a round asks for.
    pub min_update: u64,
}

/// Mask container configuration: the payload length every mask of the
/// deployment must have.
#[derive(Clone, Copy, Debug, PartialEq, Eq, Structural)]
pub struct MaskSettings {
    pub mask_length: usize,
}

/// Whether a configuration can drive rounds: thresholds at least one,
/// mask length nonzero and encodable in the mask length field.
pub open spec fn pet_settings_valid(pet: PetSettings) -> bool {
    pet.min_sum >= 1 && pet.min_update >= 1
}

pub open spec fn mask_settings_valid(mask: MaskSettings) -> bool {
    1 <= mask.mask_length <= MAX_MASK_PAYLOAD
}

pub open spec fn settings_valid(pet: PetSettings, mask: MaskSettings) -> bool {
    pet_settings_valid(pet) && mask_settings_valid(mask)
}

/// Spec views of a queue of derived events.
pub open spec fn events_view(s: Seq<DerivedEvent>) -> Seq<DerivedEventView> {
    s.map(|i: int, e: DerivedEvent| e@)
}

/// Spec view of the state machine.
#[verifier::ext_equal]
pub ghost struct CoordinatorView {
    pub phase: Phase,
    pub round: u64,
    pub min_sum: u64,
    pub min_update: u64,
    pub mask_length: usize,
    /// Masks collected in the open round, keyed by signature bytes.
    pub masks: Seq<(Seq<u8>, Seq<u8>)>,
    /// Derived events not yet drained by the driver.
    pub pending: Seq<DerivedEventView>,
}

impl CoordinatorView {
    /// The machine right after construction.
    pub open spec fn initial(pet: PetSettings, mask: MaskSettings) -> CoordinatorView {
        CoordinatorView {
            phase: Phase::Idle,
            round: 0,
            min_sum: pet.min_sum,
            min_update: pet.min_update,
            mask_length: mask.mask_length,
            masks: Seq::empty(),
            pending: Seq::empty(),
        }
    }

    /// The same machine with another pending queue.
    pub open spec fn with_pending(self, pending: Seq<DerivedEventView>) -> CoordinatorView {
        CoordinatorView { pending, ..self }
    }

    /// Every pending event will be accepted by the snapshot.
    pub open spec fn all_pending_ok(self) -> bool {
        forall|i: int| 0 <= i < self.pending.len() ==> event_ok(self.pending[i])
    }
}

/// The machine after a phase-transition attempt: an idle machine opens
/// the next round and announces its parameters; any other phase is left
/// as it is.
pub open spec fn transition_step(c: CoordinatorView) -> CoordinatorView {
    if c.phase is Idle {
        let round = if c.round == u64::MAX {
            u64::MAX
        } else {
            (c.round + 1) as u64
        };
        CoordinatorView {
            phase: Phase::Sum2,
            round,
            pending: c.pending.push(
                DerivedEventView::RoundParameters(
                    RoundParameters { round, min_sum: c.min_sum, min_update: c.min_update },
                ),
            ),
            ..c
        }
    } else {
        c
    }
}

/// Law: the phase nudge is idempotent — once a round is open, further
/// transition attempts change nothing, so it is safe to call on every
/// round-parameters query.
pub proof fn lemma_transition_idempotent(c: CoordinatorView)
    ensures
        transition_step(transition_step(c)) == transition_step(c),
{
}

/// Whether the machine accepts `bytes` as a message: a round must be
/// open, the bytes must decode, and the mask payload must have the
/// configured length.
pub open spec fn message_accepted(c: CoordinatorView, bytes: Seq<u8>) -> bool {
    c.phase is Sum2 && sum2_valid(bytes) && sum2_mask(bytes).len() == c.mask_length
}

/// The error an unaccepted message yields.
pub open spec fn message_error(c: CoordinatorView, bytes: Seq<u8>) -> MessageError
    recommends
        !message_accepted(c, bytes),
{
    if !(c.phase is Sum2) {
        MessageError::UnexpectedPhase
    } else if !sum2_valid(bytes) {
        MessageError::Decode(sum2_error(bytes))
    } else {
        MessageError::MaskLength {
            actual: sum2_mask(bytes).len() as usize,
            expected: c.mask_length,
        }
    }
}

/// The events an accepted message emits: the updated dictionaries and the
/// per-round figures they imply.
pub open spec fn message_events(masks: Seq<(Seq<u8>, Seq<u8>)>, mask_length: usize) -> Seq<
    DerivedEventView,
> {
    seq![
        DerivedEventView::SumDict(masks),
        DerivedEventView::SeedDict(masks),
        DerivedEventView::Scalar(masks.len() as u64),
        DerivedEventView::Length(mask_length as u64),
    ]
}

/// The machine after handling a message: an accepted one records its
/// mask under its signature and queues the publication events; a
/// rejected one changes nothing.
pub open spec fn message_step(c: CoordinatorView, bytes: Seq<u8>) -> CoordinatorView {
    if message_accepted(c, bytes) {
        let masks = c.masks.push((sum2_signature(bytes), sum2_mask(bytes)));
        CoordinatorView {
            masks,
            pending: c.pending + message_events(masks, c.mask_length),
            ..c
        }
    } else {
        c
    }
}

/// The machine after a reset: initial phase, round progress discarded,
/// and a single pending event telling the snapshot to do the same.
pub open spec fn reset_step(c: CoordinatorView) -> CoordinatorView {
    CoordinatorView {
        phase: Phase::Idle,
        masks: Seq::empty(),
        pending: seq![DerivedEventView::Reset],
        ..c
    }
}

/// The machine after the driver drains it: the queue is empty; if some
/// pending event was rejected on the way, the machine was reset.
pub open spec fn settle_step(c: CoordinatorView) -> CoordinatorView {
    if c.all_pending_ok() {
        c.with_pending(Seq::empty())
    } else {
        CoordinatorView { phase: Phase::Idle, masks: Seq::empty(), pending: Seq::empty(), ..c }
    }
}

/// The protocol state machine: configuration, phase, the masks collected
/// in the open round, and the derived events awaiting the driver.
#[derive(Debug)]
pub struct Coordinator {
    phase: Phase,
    round: u64,
    pet: PetSettings,
    mask: MaskSettings,
    masks: Vec<DictEntry>,
    pending: Vec<DerivedEvent>,
}

impl View for Coordinator {
    type V = CoordinatorView;

    closed spec fn view(&self) -> CoordinatorView {
        CoordinatorView {
            phase: self.phase,
            round: self.round,
            min_sum: self.pet.min_sum,
            min_update: self.pet.min_update,
            mask_length: self.mask.mask_length,
            masks: dict_view(self.masks@),
            pending: events_view(self.pending@),
        }
    }
}

impl Coordinator {
    /// The configuration the machine was built with is valid.
    pub open spec fn wf(self) -> bool {
        self@.min_sum >= 1 && self@.min_update >= 1 && 1 <= self@.mask_length <= MAX_MASK_PAYLOAD
    }

    /// Builds a machine from a configuration, rejecting one that could
    /// not drive rounds.
    pub fn new_with_config(pet: PetSettings, mask: MaskSettings) -> (r: Result<
        Coordinator,
        InitError,
    >)
        ensures
            r is Ok <==> settings_valid(pet, mask),
            r matches Ok(c) ==> c.wf() && c@ == CoordinatorView::initial(pet, mask),
            !pet_settings_valid(pet) ==> r == Err::<Coordinator, InitError>(
                InitError::InvalidPetSettings,
            ),
            pet_settings_valid(pet) && !mask_settings_valid(mask) ==> r == Err::<
                Coordinator,
                InitError,
            >(InitError::InvalidMaskSettings),
    {
        if pet.min_sum < 1 || pet.min_update < 1 {
            return Err(InitError::InvalidPetSettings);
        }
        if mask.mask_length < 1 || mask.mask_length > MAX_MASK_PAYLOAD {
            return Err(InitError::InvalidMaskSettings);
        }
        let c = Coordinator {
            phase: Phase::Idle,
            round: 0,
            pet,
            mask,
            masks: Vec::new(),
            pending: Vec::new(),
        };
        proof {
            assert(c@ =~= CoordinatorView::initial(pet, mask));
        }
        Ok(c)
    }

    /// Nudges the machine out of the idle phase, opening the next round;
    /// in any other phase this changes nothing, so it is safe to call
    /// repeatedly.
    pub fn try_phase_transition(&mut self)
        requires
            old(self).wf(),
        ensures
            final(self).wf(),
            final(self)@ == transition_step(old(self)@),
    {
        if self.phase == Phase::Idle {
            self.phase = Phase::Sum2;
            if self.round < u64::MAX {
                self.round = self.round + 1;
            }
            let params = RoundParameters {
                round: self.round,
                min_sum: self.pet.min_sum,
                min_update: self.pet.min_update,
            };
            self.pending.push(DerivedEvent::RoundParameters(params));
            proof {
                assert(self@ =~= transition_step(old(self)@));
            }
        } else {
            proof {
                assert(self@ =~= transition_step(old(self)@));
            }
        }
    }

    /// Handles one inbound message: decodes it through the sum2 codec and
    /// records its mask. Exactly the unaccepted messages yield an error,
    /// and leave the machine unchanged.
    pub fn handle_message(&mut self, buffer: &Vec<u8>) -> (r: Result<(), MessageError>)
        requires
            old(self).wf(),
        ensures
            final(self).wf(),
            final(self)@ == message_step(old(self)@, buffer@),
            r is Ok <==> message_accepted(old(self)@, buffer@),
            r matches Err(e) ==> e == message_error(old(self)@, buffer@),
    {
        if self.phase != Phase::Sum2 {
            return Err(MessageError::UnexpectedPhase);
        }
        let msg = match Sum2::from_bytes(buffer) {
            Ok(m) => m,
            Err(e) => {
                return Err(MessageError::Decode(e));
            },
        };
        let payload_len = msg.mask.data().len();
        if payload_len != self.mask.mask_length {
            return Err(
                MessageError::MaskLength { actual: payload_len, expected: self.mask.mask_length },
            );
        }
        let entry = DictEntry {
            key: copy_bytes(msg.sum_signature.as_bytes()),
            value: copy_bytes(msg.mask.data()),
        };
        self.masks.push(entry);
        let first_dict = copy_dict(&self.masks);
        let second_dict = copy_dict(&self.masks);
        let count = self.masks.len() as u64;
        self.pending.push(DerivedEvent::SumDict(first_dict));
        self.pending.push(DerivedEvent::SeedDict(second_dict));
        self.pending.push(DerivedEvent::Scalar(count));
        self.pending.push(DerivedEvent::Length(self.mask.mask_length as u64));
        proof {
            assert(dict_view(self.masks@) =~= old(self)@.masks.push(
                (sum2_signature(buffer@), sum2_mask(buffer@)),
            ));
            assert(self@ =~= message_step(old(self)@, buffer@));
        }
        Ok(())
    }

    /// Hands out the oldest pending derived event, if any.
    pub fn next_event(&mut self) -> (r: Option<DerivedEvent>)
        requires
            old(self).wf(),
        ensures
            final(self).wf(),
            old(self)@.pending.len() == 0 ==> r is None && final(self)@ == old(self)@,
            old(self)@.pending.len() > 0 ==> (r matches Some(e) && e@ == old(self)@.pending[0]
                && final(self)@ == old(self)@.with_pending(old(self)@.pending.skip(1))),
    {
        if self.pending.len() == 0 {
            None
        } else {
            let e = self.pending.remove(0);
            proof {
                assert(events_view(self.pending@) =~= old(self)@.pending.skip(1));
                assert(self@ =~= old(self)@.with_pending(old(self)@.pending.skip(1)));
            }
            Some(e)
        }
    }

    /// Returns the machine to its initial phase, discarding all
    /// in-progress round state, and queues the matching snapshot reset.
    pub fn reset(&mut self)
        requires
            old(self).wf(),
        ensures
            final(self).wf(),
            final(self)@ == reset_step(old(self)@),
    {
        self.phase = Phase::Idle;
        self.masks = Vec::new();
        self.pending = Vec::new();
        self.pending.push(DerivedEvent::Reset);
        proof {
            assert(self@ =~= reset_step(old(self)@));
        }
    }
}

} // verus!
