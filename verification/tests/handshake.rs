use hal_bridge::hal::InnerHal;
use hal_bridge::handshake::{start, HandshakeError};
use hal_bridge::packet::Packet;
use hal_bridge::registry::{on_event, on_init_complete, Inbound, ReadyOutcome, Registry};
use tokio::sync::mpsc::error::TryRecvError;

fn packet(bytes: &[u8]) -> Packet {
    Packet::from_bytes(bytes.to_vec())
}

#[test]
fn start_registers_a_session() {
    let mut registry = Registry::new();
    assert!(!registry.is_registered());
    let (_handshake, displaced) = start(&mut registry);
    assert!(displaced.is_none());
    assert!(registry.is_registered());
}

#[test]
fn nothing_is_ready_before_the_controller_says_so() {
    let mut registry = Registry::new();
    let (mut handshake, _) = start(&mut registry);
    assert_eq!(handshake.init_rx.try_recv(), Err(TryRecvError::Empty));
}

#[test]
fn one_ready_signal_completes_the_start() {
    let mut registry = Registry::new();
    let (mut handshake, _) = start(&mut registry);
    assert_eq!(on_init_complete(&mut registry), ReadyOutcome::Signalled);
    let signal = handshake.init_rx.try_recv().ok();
    assert_eq!(signal, Some(()));
    assert!(handshake.complete(signal).is_ok());
}

#[test]
fn second_ready_signal_is_ignored() {
    let mut registry = Registry::new();
    let (mut handshake, _) = start(&mut registry);
    assert_eq!(on_init_complete(&mut registry), ReadyOutcome::Signalled);
    assert_eq!(on_init_complete(&mut registry), ReadyOutcome::AlreadySignalled);
    assert_eq!(on_init_complete(&mut registry), ReadyOutcome::AlreadySignalled);

    // Exactly one signal went through the ready queue.
    assert_eq!(handshake.init_rx.try_recv(), Ok(()));
    assert_eq!(handshake.init_rx.try_recv(), Err(TryRecvError::Empty));
    assert!(handshake.complete(Some(())).is_ok());

    // Nobody waits any more, and a further report still does no harm.
    assert_eq!(on_init_complete(&mut registry), ReadyOutcome::AlreadySignalled);
}

#[test]
fn ready_signal_after_the_wait_was_given_up() {
    let mut registry = Registry::new();
    let (handshake, _) = start(&mut registry);
    drop(handshake);
    assert_eq!(on_init_complete(&mut registry), ReadyOutcome::Undeliverable);
}

#[test]
fn closed_ready_queue_fails_the_start() {
    let mut registry = Registry::new();
    let (handshake, _) = start(&mut registry);
    match handshake.complete(None) {
        Err(error) => assert_eq!(error, HandshakeError::ReadyQueueClosed),
        Ok(_) => panic!("a start completed without a ready signal"),
    }
}

#[test]
fn second_start_displaces_the_first() {
    let mut registry = Registry::new();
    let (mut first, none) = start(&mut registry);
    assert!(none.is_none());
    let (mut second, displaced) = start(&mut registry);
    assert!(displaced.is_some());

    // The ready report goes to the session of the second start.
    assert_eq!(on_init_complete(&mut registry), ReadyOutcome::Signalled);
    assert_eq!(second.init_rx.try_recv(), Ok(()));
    assert_eq!(first.init_rx.try_recv(), Err(TryRecvError::Empty));

    // Once the displaced session is dropped, the first start can only fail.
    drop(displaced);
    assert_eq!(first.init_rx.try_recv(), Err(TryRecvError::Disconnected));
    assert!(first.complete(None).is_err());

    let (mut raw_hal, _outbound) = second.complete(Some(())).unwrap();
    assert_eq!(on_event(&mut registry, Some(packet(&[7]))), Inbound::Forwarded);
    assert_eq!(raw_hal.evt_rx.try_recv().unwrap().to_bytes(), vec![7]);
}

#[test]
fn queues_take_packets_before_the_start_is_complete() {
    let mut registry = Registry::new();
    let (mut handshake, _) = start(&mut registry);
    assert_eq!(on_event(&mut registry, Some(packet(&[0x0e, 0x00]))), Inbound::Forwarded);
    assert_eq!(on_event(&mut registry, Some(packet(&[0x0e, 0x01]))), Inbound::Forwarded);
    assert_eq!(on_event(&mut registry, None), Inbound::Dropped);
    assert_eq!(on_event(&mut registry, Some(packet(&[0x0e, 0x02]))), Inbound::Forwarded);
    on_init_complete(&mut registry);
    let signal = handshake.init_rx.try_recv().ok();
    let (mut raw_hal, _outbound) = handshake.complete(signal).unwrap();
    assert_eq!(raw_hal.evt_rx.try_recv().unwrap().to_bytes(), vec![0x0e, 0x00]);
    assert_eq!(raw_hal.evt_rx.try_recv().unwrap().to_bytes(), vec![0x0e, 0x01]);
    assert_eq!(raw_hal.evt_rx.try_recv().unwrap().to_bytes(), vec![0x0e, 0x02]);
    assert_eq!(raw_hal.evt_rx.try_recv(), Err(TryRecvError::Empty));
}

#[test]
fn halves_are_joined_queue_by_queue() {
    let (mut raw_hal, mut inner_hal) = InnerHal::new();

    raw_hal.cmd_tx.send(packet(&[1])).unwrap();
    raw_hal.acl_tx.send(packet(&[2])).unwrap();
    raw_hal.iso_tx.send(packet(&[3])).unwrap();
    raw_hal.sco_tx.send(packet(&[4])).unwrap();
    inner_hal.evt_tx.send(packet(&[5])).unwrap();
    inner_hal.acl_tx.send(packet(&[6])).unwrap();
    inner_hal.iso_tx.send(packet(&[7])).unwrap();
    inner_hal.sco_tx.send(packet(&[8])).unwrap();

    assert_eq!(inner_hal.cmd_rx.try_recv().unwrap().to_bytes(), vec![1]);
    assert_eq!(inner_hal.acl_rx.try_recv().unwrap().to_bytes(), vec![2]);
    assert_eq!(inner_hal.iso_rx.try_recv().unwrap().to_bytes(), vec![3]);
    assert_eq!(inner_hal.sco_rx.try_recv().unwrap().to_bytes(), vec![4]);
    assert_eq!(raw_hal.evt_rx.try_recv().unwrap().to_bytes(), vec![5]);
    assert_eq!(raw_hal.acl_rx.try_recv().unwrap().to_bytes(), vec![6]);
    assert_eq!(raw_hal.iso_rx.try_recv().unwrap().to_bytes(), vec![7]);
    assert_eq!(raw_hal.sco_rx.try_recv().unwrap().to_bytes(), vec![8]);

    assert_eq!(inner_hal.cmd_rx.try_recv(), Err(TryRecvError::Empty));
    assert_eq!(inner_hal.acl_rx.try_recv(), Err(TryRecvError::Empty));
    assert_eq!(raw_hal.evt_rx.try_recv(), Err(TryRecvError::Empty));
    assert_eq!(raw_hal.acl_rx.try_recv(), Err(TryRecvError::Empty));
}

#[test]
fn new_halves_hold_nothing() {
    let (mut raw_hal, mut inner_hal) = InnerHal::new();
    assert_eq!(inner_hal.cmd_rx.try_recv(), Err(TryRecvError::Empty));
    assert_eq!(inner_hal.acl_rx.try_recv(), Err(TryRecvError::Empty));
    assert_eq!(inner_hal.iso_rx.try_recv(), Err(TryRecvError::Empty));
    assert_eq!(inner_hal.sco_rx.try_recv(), Err(TryRecvError::Empty));
    assert_eq!(raw_hal.evt_rx.try_recv(), Err(TryRecvError::Empty));
    assert_eq!(raw_hal.acl_rx.try_recv(), Err(TryRecvError::Empty));
    assert_eq!(raw_hal.iso_rx.try_recv(), Err(TryRecvError::Empty));
    assert_eq!(raw_hal.sco_rx.try_recv(), Err(TryRecvError::Empty));
}

#[test]
fn packet_bytes_round_trip() {
    let bytes = vec![0x03, 0x0c, 0x00];
    let cmd = Packet::from_bytes(bytes.clone());
    assert_eq!(cmd.as_bytes(), &bytes);
    assert_eq!(cmd.clone().to_bytes(), bytes);
    assert_eq!(Packet::from_bytes(cmd.clone().to_bytes()), cmd);
    assert_ne!(Packet::from_bytes(vec![0x03, 0x0c]), cmd);
    assert_eq!(Packet::from_bytes(Vec::new()).to_bytes(), Vec::<u8>::new());
}
