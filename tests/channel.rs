use midi_thru::channel::EventChannel;
use midi_thru::message::{MidiEvent, MidiMessage};

fn ev(n: u8) -> MidiEvent {
    MidiEvent { message: MidiMessage { status: 0x90, data1: n, data2: n, data3: n }, timestamp: n as u32 }
}

#[test]
fn channel_is_fifo() {
    let mut c = EventChannel::new();
    assert!(c.is_empty());
    assert_eq!(c.recv(), None);
    c.send(ev(1));
    c.dispatch(vec![ev(2), ev(3)]);
    assert_eq!(c.len(), 3);
    assert_eq!(c.recv(), Some(ev(1)));
    assert_eq!(c.recv(), Some(ev(2)));
    assert_eq!(c.recv(), Some(ev(3)));
    assert_eq!(c.recv(), None);
    assert!(c.is_empty());
}

#[test]
fn channel_keeps_payloads_whole() {
    let mut c = EventChannel::new();
    let sent: Vec<MidiEvent> = (0..=255u8).map(ev).collect();
    c.dispatch(sent.clone());
    let mut got = Vec::new();
    while let Some(e) = c.recv() {
        got.push(e);
    }
    assert_eq!(got, sent);
}
