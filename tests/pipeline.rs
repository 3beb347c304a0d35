use midi_thru::message::{MidiEvent, MidiMessage};
use midi_thru::pipeline::{
    Action, Delivery, Outcome, Phase, Pipeline, PipelineConfig, StopReason, POLL_INTERVAL_MS,
};
use midi_thru::startup::BUFFER_SIZE;

fn ev(status: u8, data1: u8, data2: u8, timestamp: u32) -> MidiEvent {
    MidiEvent { message: MidiMessage { status, data1, data2, data3: 0 }, timestamp }
}

fn deliver(cfg: &PipelineConfig, e: MidiEvent) -> Action {
    Action::Deliver(Delivery {
        event: e,
        show: cfg.monitor,
        write: if cfg.forward { Some(e.message) } else { None },
    })
}

/// Runs one poll, one read of `batch`, and acknowledges every delivery;
/// returns the deliveries asked for.
fn one_cycle(p: &mut Pipeline, batch: Vec<MidiEvent>) -> Vec<Delivery> {
    assert_eq!(p.action(), Action::Poll);
    assert_eq!(p.handle(Outcome::Polled(true)), Action::Read(BUFFER_SIZE));
    let mut out = Vec::new();
    let mut a = p.handle(Outcome::Read(Some(batch)));
    while let Action::Deliver(d) = a {
        out.push(d);
        a = p.handle(Outcome::Delivered);
    }
    assert_eq!(a, Action::Sleep(POLL_INTERVAL_MS));
    assert_eq!(p.handle(Outcome::Slept), Action::Poll);
    out
}

#[test]
fn config_defaults() {
    let c = PipelineConfig::new(true, false);
    assert_eq!(c.poll_interval_ms, 10);
    assert_eq!(c.batch_size, 1024);
    assert!(c.monitor);
    assert!(!c.forward);
}

#[test]
fn three_events_monitor_off_no_output() {
    let cfg = PipelineConfig::new(false, false);
    let mut p = Pipeline::new(cfg);
    let (a, b, c) = (ev(0x90, 60, 100, 1), ev(0x80, 60, 0, 2), ev(0xB0, 7, 127, 3));
    let got = one_cycle(&mut p, vec![a, b, c]);
    let events: Vec<MidiEvent> = got.iter().map(|d| d.event).collect();
    assert_eq!(events.len(), 3);
    for e in [a, b, c] {
        assert_eq!(events.iter().filter(|x| **x == e).count(), 1);
    }
    assert!(got.iter().all(|d| !d.show && d.write.is_none()));
}

#[test]
fn one_event_monitor_on_with_output() {
    let cfg = PipelineConfig::new(true, true);
    let mut p = Pipeline::new(cfg);
    let a = ev(0x90, 64, 90, 77);
    let got = one_cycle(&mut p, vec![a]);
    assert_eq!(got.len(), 1);
    assert!(got[0].show);
    assert_eq!(got[0].event, a);
    assert_eq!(got[0].write, Some(a.message));
}

#[test]
fn batch_order_kept_and_nothing_lost() {
    let cfg = PipelineConfig::new(false, true);
    let mut p = Pipeline::new(cfg);
    let batch: Vec<MidiEvent> = (0..200u32).map(|i| ev(0x90, (i % 128) as u8, 1, i)).collect();
    let got = one_cycle(&mut p, batch.clone());
    let events: Vec<MidiEvent> = got.iter().map(|d| d.event).collect();
    assert_eq!(events, batch);
    let written: Vec<MidiMessage> = got.iter().map(|d| d.write.unwrap()).collect();
    let read: Vec<MidiMessage> = batch.iter().map(|e| e.message).collect();
    assert_eq!(written, read);
    assert_eq!(p.pending(), 0);
}

#[test]
fn empty_batch_and_no_data_sleep() {
    let cfg = PipelineConfig::new(true, true);
    let mut p = Pipeline::new(cfg);
    assert!(one_cycle(&mut p, Vec::new()).is_empty());
    assert_eq!(p.handle(Outcome::Polled(false)), Action::Sleep(10));
    assert_eq!(p.phase(), Phase::Sleeping);
    assert_eq!(p.handle(Outcome::Slept), Action::Poll);
    assert_eq!(p.handle(Outcome::Polled(true)), Action::Read(1024));
    assert_eq!(p.handle(Outcome::Read(None)), Action::Sleep(10));
    assert_eq!(p.handle(Outcome::Slept), Action::Poll);
    assert_eq!(p.handle(Outcome::Polled(true)), Action::Read(1024));
    assert_eq!(p.handle(Outcome::ReadFailed), Action::Sleep(10));
}

#[test]
fn poll_failure_stops_the_run() {
    let mut p = Pipeline::new(PipelineConfig::new(false, false));
    assert_eq!(p.handle(Outcome::PollFailed), Action::Halt(StopReason::InputFailed));
    assert_eq!(p.phase(), Phase::Stopped(StopReason::InputFailed));
    assert_eq!(p.handle(Outcome::Slept), Action::Halt(StopReason::InputFailed));
    assert_eq!(p.action(), Action::Halt(StopReason::InputFailed));
}

#[test]
fn write_failure_stops_the_run() {
    let cfg = PipelineConfig::new(false, true);
    let mut p = Pipeline::new(cfg);
    let (a, b) = (ev(0x90, 1, 2, 3), ev(0x90, 4, 5, 6));
    p.handle(Outcome::Polled(true));
    assert_eq!(p.handle(Outcome::Read(Some(vec![a, b]))), deliver(&cfg, a));
    assert_eq!(p.pending(), 1);
    assert_eq!(p.handle(Outcome::WriteFailed), Action::Halt(StopReason::OutputFailed));
    assert_eq!(p.phase(), Phase::Stopped(StopReason::OutputFailed));
}

#[test]
fn unexpected_outcome_repeats_the_action() {
    let cfg = PipelineConfig::new(true, false);
    let mut p = Pipeline::new(cfg);
    assert_eq!(p.handle(Outcome::Delivered), Action::Poll);
    p.handle(Outcome::Polled(true));
    assert_eq!(p.handle(Outcome::Slept), Action::Read(1024));
    let a = ev(0xC0, 5, 0, 9);
    assert_eq!(p.handle(Outcome::Read(Some(vec![a]))), deliver(&cfg, a));
    assert_eq!(p.handle(Outcome::Polled(true)), deliver(&cfg, a));
    assert_eq!(p.config(), cfg);
}

#[test]
fn monitor_does_not_change_forwarding() {
    let batch = vec![ev(0x90, 60, 100, 1), ev(0x80, 60, 0, 2)];
    let mut on = Pipeline::new(PipelineConfig::new(true, true));
    let mut off = Pipeline::new(PipelineConfig::new(false, true));
    let got_on = one_cycle(&mut on, batch.clone());
    let got_off = one_cycle(&mut off, batch);
    assert_eq!(got_on.len(), got_off.len());
    for (x, y) in got_on.iter().zip(got_off.iter()) {
        assert_eq!(x.event, y.event);
        assert_eq!(x.write, y.write);
        assert!(x.show && !y.show);
    }
}

#[test]
fn second_batch_follows_the_first() {
    let mut p = Pipeline::new(PipelineConfig::new(false, false));
    let first = vec![ev(0x90, 1, 1, 1)];
    let second = vec![ev(0x90, 2, 2, 2), ev(0x90, 3, 3, 3)];
    assert_eq!(one_cycle(&mut p, first.clone())[0].event, first[0]);
    let got: Vec<MidiEvent> = one_cycle(&mut p, second.clone()).iter().map(|d| d.event).collect();
    assert_eq!(got, second);
}
