//! Tests of the service driver: dispatch, draining, failure recovery,
//! reply channels, and loop termination.

use fedcoord::coordinator::{MaskSettings, PetSettings};
use fedcoord::data::Data;
use fedcoord::error::{InitError, QueryError, UpdateError};
use fedcoord::events::{Event, EventStream, Handle, LengthRequest, Message,
    RoundParametersRequest, ScalarRequest, SeedDictRequest, SumDictRequest, TryNext};
use fedcoord::round::{DerivedEvent, DictEntry, RoundParameters};
use fedcoord::service::Service;

fn settings() -> (PetSettings, MaskSettings) {
    (PetSettings { min_sum: 1, min_update: 1 }, MaskSettings { mask_length: 28 })
}

fn mask_payload() -> Vec<u8> {
    let mut payload = Vec::new();
    for i in 0..28u8 {
        payload.push(i);
    }
    payload
}

/// A valid sum2 message whose 64 signature bytes all hold `fill`.
fn message_bytes(fill: u8) -> Vec<u8> {
    let mut bytes = vec![fill; 64];
    bytes.extend(vec![0x00, 0x00, 0x00, 28]);
    bytes.extend(mask_payload());
    bytes
}

fn new_service() -> (Service, Handle) {
    let (pet, mask) = settings();
    Service::new(pet, mask).unwrap()
}

/// Opens a round by dispatching one round-parameters query.
fn open_round(service: &mut Service) {
    let (tx, rx) = tokio::sync::oneshot::channel();
    service.dispatch_event(Event::RoundParameters(RoundParametersRequest { response_tx: tx }));
    drop(rx);
}

fn query_scalar(service: &mut Service) -> Option<u64> {
    let (tx, mut rx) = tokio::sync::oneshot::channel();
    service.dispatch_event(Event::Scalar(ScalarRequest { response_tx: tx }));
    rx.try_recv().unwrap()
}

fn query_length(service: &mut Service) -> Option<u64> {
    let (tx, mut rx) = tokio::sync::oneshot::channel();
    service.dispatch_event(Event::Length(LengthRequest { response_tx: tx }));
    rx.try_recv().unwrap()
}

fn query_sum_dict(service: &mut Service) -> Option<Vec<DictEntry>> {
    let (tx, mut rx) = tokio::sync::oneshot::channel();
    service.dispatch_event(Event::SumDict(SumDictRequest { response_tx: tx }));
    rx.try_recv().unwrap()
}

fn query_seed_dict(service: &mut Service, key: Vec<u8>) -> Result<Vec<u8>, QueryError> {
    let (tx, mut rx) = tokio::sync::oneshot::channel();
    service.dispatch_event(
        Event::SeedDict(SeedDictRequest { public_key: key, response_tx: tx }),
    );
    rx.try_recv().unwrap()
}

fn query_round_parameters(service: &mut Service) -> Option<RoundParameters> {
    let (tx, mut rx) = tokio::sync::oneshot::channel();
    service.dispatch_event(Event::RoundParameters(RoundParametersRequest { response_tx: tx }));
    rx.try_recv().unwrap()
}

#[test]
fn new_rejects_invalid_settings() {
    let err = match Service::new(
        PetSettings { min_sum: 0, min_update: 1 },
        MaskSettings { mask_length: 28 },
    ) {
        Err(e) => e,
        Ok(_) => panic!("settings with a zero threshold must be rejected"),
    };
    assert_eq!(err, InitError::InvalidPetSettings);

    let err = match Service::new(
        PetSettings { min_sum: 1, min_update: 1 },
        MaskSettings { mask_length: 0 },
    ) {
        Err(e) => e,
        Ok(_) => panic!("a zero mask length must be rejected"),
    };
    assert_eq!(err, InitError::InvalidMaskSettings);
}

#[test]
fn round_parameters_query_advances_idle_machine() {
    let (mut service, _handle) = new_service();
    // The answer is read before the derived events are drained, so the
    // first query still sees nothing published.
    assert_eq!(query_round_parameters(&mut service), None);
    // The first query's side effect opened round 1; the second sees it.
    assert_eq!(
        query_round_parameters(&mut service),
        Some(RoundParameters { round: 1, min_sum: 1, min_update: 1 })
    );
}

#[test]
fn accepted_message_publishes_round_state() {
    let (mut service, _handle) = new_service();
    open_round(&mut service);

    let key = vec![0xab; 64];
    service.dispatch_event(Event::Message(Message { buffer: message_bytes(0xab) }));

    let sum_dict = query_sum_dict(&mut service).unwrap();
    assert_eq!(sum_dict.len(), 1);
    assert_eq!(sum_dict[0].key, key);
    assert_eq!(sum_dict[0].value, mask_payload());

    assert_eq!(query_scalar(&mut service), Some(1));
    assert_eq!(query_length(&mut service), Some(28));
    assert_eq!(query_seed_dict(&mut service, key), Ok(mask_payload()));
    assert_eq!(
        query_seed_dict(&mut service, vec![0xcd; 64]),
        Err(QueryError::UnknownKey)
    );
}

#[test]
fn seed_dict_before_any_round_reports_no_round() {
    let (mut service, _handle) = new_service();
    assert_eq!(query_seed_dict(&mut service, vec![0x01; 64]), Err(QueryError::NoRound));
}

#[test]
fn malformed_message_is_swallowed() {
    let (mut service, _handle) = new_service();
    open_round(&mut service);
    service.dispatch_event(Event::Message(Message { buffer: message_bytes(0x11) }));

    // Too short, bad mask region, wrong payload length: none fault the
    // driver, none change the published state.
    service.dispatch_event(Event::Message(Message { buffer: vec![0x00; 3] }));
    service.dispatch_event(Event::Message(Message { buffer: vec![0x00; 70] }));
    let mut wrong_length = vec![0x22; 64];
    wrong_length.extend(vec![0x00, 0x00, 0x00, 2, 0x01, 0x02]);
    service.dispatch_event(Event::Message(Message { buffer: wrong_length }));

    assert_eq!(query_scalar(&mut service), Some(1));
    let sum_dict = query_sum_dict(&mut service).unwrap();
    assert_eq!(sum_dict.len(), 1);
}

#[test]
fn failed_update_resets_round_state_and_driver_survives() {
    let (mut service, _handle) = new_service();
    open_round(&mut service);
    service.dispatch_event(Event::Message(Message { buffer: message_bytes(0x33) }));
    assert_eq!(query_scalar(&mut service), Some(1));

    // The same participant again: the emitted dictionary holds its key
    // twice, the snapshot rejects it, and the round is abandoned.
    service.dispatch_event(Event::Message(Message { buffer: message_bytes(0x33) }));

    // Subsequent queries observe the initial state.
    assert_eq!(query_scalar(&mut service), None);
    assert_eq!(query_length(&mut service), None);
    assert!(query_sum_dict(&mut service).is_none());
    assert_eq!(query_seed_dict(&mut service, vec![0x33; 64]), Err(QueryError::NoRound));

    // The driver keeps accepting events: a new round works as before.
    assert_eq!(query_round_parameters(&mut service), None);
    assert_eq!(
        query_round_parameters(&mut service),
        Some(RoundParameters { round: 2, min_sum: 1, min_update: 1 })
    );
    service.dispatch_event(Event::Message(Message { buffer: message_bytes(0x44) }));
    assert_eq!(query_scalar(&mut service), Some(1));
}

#[test]
fn dropped_reply_receiver_is_harmless() {
    let (mut service, _handle) = new_service();
    let (tx, rx) = tokio::sync::oneshot::channel();
    drop(rx);
    service.dispatch_event(Event::Scalar(ScalarRequest { response_tx: tx }));
    // Later events are still processed normally.
    assert_eq!(query_round_parameters(&mut service), None);
    assert_eq!(
        query_round_parameters(&mut service),
        Some(RoundParameters { round: 1, min_sum: 1, min_update: 1 })
    );
}

#[test]
fn update_rejects_duplicate_dictionary_keys() {
    let mut data = Data::new();
    let dup = vec![
        DictEntry { key: vec![0x01], value: vec![0x0a] },
        DictEntry { key: vec![0x01], value: vec![0x0b] },
    ];
    assert_eq!(data.update(DerivedEvent::SumDict(dup)), Err(UpdateError::DuplicateKey));

    let ok = vec![
        DictEntry { key: vec![0x01], value: vec![0x0a] },
        DictEntry { key: vec![0x02], value: vec![0x0b] },
    ];
    assert_eq!(data.update(DerivedEvent::SumDict(ok)), Ok(()));
}

#[test]
fn event_stream_reports_queue_states() {
    let (mut service, handle) = new_service();
    assert!(matches!(service.events.try_next(), TryNext::Empty));

    assert!(handle.send(Event::Message(Message { buffer: vec![0x01] })));
    match service.events.try_next() {
        TryNext::Received(Event::Message(m)) => assert_eq!(m.buffer, vec![0x01]),
        _ => panic!("expected the queued message"),
    }

    drop(handle);
    assert!(matches!(service.events.try_next(), TryNext::Closed));
}

#[test]
fn driver_loop_processes_in_arrival_order_and_stops_on_close() {
    let (mut service, handle) = new_service();
    let second_producer = Handle { tx: handle.tx.clone() };

    let (round_tx, mut round_rx) = tokio::sync::oneshot::channel();
    assert!(handle.send(Event::RoundParameters(RoundParametersRequest {
        response_tx: round_tx,
    })));
    assert!(second_producer.send(Event::Message(Message { buffer: message_bytes(0x55) })));
    let (first_tx, mut first_rx) = tokio::sync::oneshot::channel();
    assert!(handle.send(Event::Scalar(ScalarRequest { response_tx: first_tx })));
    assert!(second_producer.send(Event::Message(Message { buffer: message_bytes(0x66) })));
    let (second_tx, mut second_rx) = tokio::sync::oneshot::channel();
    assert!(second_producer.send(Event::Scalar(ScalarRequest { response_tx: second_tx })));

    drop(handle);
    drop(second_producer);

    // The loop completes exactly because the last producer handle is
    // gone; no processing error ends it.
    let runtime = tokio::runtime::Builder::new_current_thread().build().unwrap();
    runtime.block_on(async {
        while let Some(event) = service.events.rx.recv().await {
            service.dispatch_event(event);
        }
    });

    // Each query was answered exactly once, and the scalar answers show
    // the events ran in arrival order: one mask before the first query,
    // two before the second.
    assert_eq!(round_rx.try_recv().unwrap(), None);
    assert_eq!(first_rx.try_recv().unwrap(), Some(1));
    assert_eq!(second_rx.try_recv().unwrap(), Some(2));
    assert!(round_rx.try_recv().is_err());
    assert!(first_rx.try_recv().is_err());
    assert!(second_rx.try_recv().is_err());
}

#[test]
fn sending_to_a_dropped_service_reports_failure() {
    let (service, handle) = new_service();
    drop(service);
    assert!(!handle.send(Event::Message(Message { buffer: vec![0x01] })));
}

/// The event stream type is part of the public surface; make sure a
/// service can be rebuilt around its parts from outside.
#[test]
fn event_stream_is_reachable() {
    let (tx, rx) = tokio::sync::mpsc::unbounded_channel::<Event>();
    let stream = EventStream { rx };
    let handle = Handle { tx };
    drop(handle);
    let mut stream = stream;
    assert!(matches!(stream.try_next(), TryNext::Closed));
}
