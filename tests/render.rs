use midi_thru::message::{render_event, MidiEvent, MidiMessage};

#[test]
fn renders_every_field() {
    let e = MidiEvent { message: MidiMessage { status: 144, data1: 60, data2: 100, data3: 0 }, timestamp: 1234 };
    assert_eq!(
        render_event(&e),
        "MidiEvent { message: MidiMessage { status: 144, data1: 60, data2: 100, data3: 0 }, timestamp: 1234 }"
    );
}

#[test]
fn renders_like_debug() {
    let e = MidiEvent { message: MidiMessage { status: 255, data1: 9, data2: 10, data3: 7 }, timestamp: u32::MAX };
    assert_eq!(render_event(&e), format!("{:?}", e));
    let z = MidiEvent { message: MidiMessage { status: 0, data1: 0, data2: 0, data3: 0 }, timestamp: 0 };
    assert_eq!(render_event(&z), format!("{:?}", z));
}
