use midiex::context::MidiContext;
use midiex::ports::{Direction, FlexiPort, MidiPort, MidiexMidiPortRef};
use midiex::worker::{worker_step, DeliveryQueue, MidiMessage, WorkerAction};

fn input_port(name: &str, num: usize, token: u64) -> MidiPort {
    MidiPort {
        direction: Direction::Input,
        name: name.to_string(),
        num,
        port_ref: FlexiPort::new(MidiexMidiPortRef::Input(token)),
    }
}

#[test]
fn worker_keeps_open_while_subscribed() {
    assert_eq!(worker_step(true), WorkerAction::KeepOpen);
}

#[test]
fn worker_closes_when_unsubscribed() {
    assert_eq!(worker_step(false), WorkerAction::CloseAndStop);
}

#[test]
fn worker_observes_unsubscribe_and_closes_once() {
    // The worker's life, driven by the registry: while its descriptor is
    // present every poll keeps the connection open; after unsubscribe the
    // next poll closes it, exactly once.
    let mut ctx = MidiContext::new();
    let p = input_port("Keys", 0, 1);
    assert!(ctx.subscribe(p.duplicate()).is_ok());

    let mut closes = 0;
    for _ in 0..3 {
        match worker_step(ctx.port_subscribed(&p)) {
            WorkerAction::KeepOpen => {}
            WorkerAction::CloseAndStop => closes += 1,
        }
    }
    assert_eq!(closes, 0);

    assert!(ctx.unsubscribe_port(&p).is_ok());
    let mut stopped = false;
    for _ in 0..3 {
        if stopped {
            // A stopped worker polls no more: its single close is done.
            break;
        }
        match worker_step(ctx.port_subscribed(&p)) {
            WorkerAction::KeepOpen => {}
            WorkerAction::CloseAndStop => {
                closes += 1;
                stopped = true;
            }
        }
    }
    assert_eq!(closes, 1);
    assert!(stopped);
}

#[test]
fn delivery_queue_is_fifo_and_byte_exact() {
    let mut q = DeliveryQueue::new();
    assert_eq!(q.len(), 0);
    assert!(q.dequeue().is_none());

    let sent_first = vec![0x90, 0x3C, 0x7F];
    let sent_second = vec![0x80, 0x3C, 0x00];
    q.enqueue(MidiMessage { port: input_port("V", 0, 1), data: sent_first.clone(), timestamp: 1 });
    q.enqueue(MidiMessage { port: input_port("V", 0, 1), data: sent_second.clone(), timestamp: 2 });
    assert_eq!(q.len(), 2);

    let first = q.dequeue().unwrap();
    assert_eq!(first.data, sent_first);
    assert_eq!(first.timestamp, 1);

    let second = q.dequeue().unwrap();
    assert_eq!(second.data, sent_second);
    assert_eq!(second.timestamp, 2);

    assert!(q.dequeue().is_none());
}

#[test]
fn delivery_keeps_port_identity() {
    let mut q = DeliveryQueue::new();
    q.enqueue(MidiMessage { port: input_port("Keys", 2, 9), data: vec![0xF8], timestamp: 77 });
    let m = q.dequeue().unwrap();
    assert_eq!(m.port, input_port("Keys", 2, 9));
    assert_eq!(m.data, vec![0xF8]);
    assert_eq!(m.timestamp, 77);
}
