//! What the pipeline guarantees over whole runs, proved from its transition
//! function.
use vstd::prelude::*;

use crate::message::{MidiEvent, MidiMessage};
use crate::startup::{
    all_digits, device_in_range, device_number, is_digit, port_request, startup_plan, unreadable,
    Direction, Startup,
};
use crate::pipeline::{
    delivery_of, deliver_next, run, transition, Action, Delivery, Outcome, Phase, PipelineConfig,
    PipelineView,
};

verus! {

/// `n` acknowledgements of delivered events.
pub open spec fn acknowledgements(n: nat) -> Seq<Outcome> {
    Seq::new(n, |i: int| Outcome::Delivered)
}

/// One delivery per event, in order.
pub open spec fn deliveries(config: PipelineConfig, q: Seq<MidiEvent>) -> Seq<Action>
    decreases q.len(),
{
    if q.len() == 0 {
        Seq::empty()
    } else {
        seq![Action::Deliver(delivery_of(config, q[0]))] + deliveries(config, q.drop_first())
    }
}

/// The events handed to the consumer side along a sequence of actions.
pub open spec fn delivered_events(actions: Seq<Action>) -> Seq<MidiEvent>
    decreases actions.len(),
{
    if actions.len() == 0 {
        Seq::empty()
    } else {
        let rest = delivered_events(actions.drop_first());
        match actions[0] {
            Action::Deliver(d) => seq![d.event] + rest,
            _ => rest,
        }
    }
}

/// The messages written to the output along a sequence of actions.
pub open spec fn written_messages(actions: Seq<Action>) -> Seq<MidiMessage>
    decreases actions.len(),
{
    if actions.len() == 0 {
        Seq::empty()
    } else {
        let rest = written_messages(actions.drop_first());
        match actions[0] {
            Action::Deliver(Delivery { write: Some(m), .. }) => seq![m] + rest,
            _ => rest,
        }
    }
}

/// The messages of a sequence of events.
pub open spec fn messages_of(q: Seq<MidiEvent>) -> Seq<MidiMessage>
    decreases q.len(),
{
    if q.len() == 0 {
        Seq::empty()
    } else {
        seq![q[0].message] + messages_of(q.drop_first())
    }
}

/// An action with console output left out.
pub open spec fn unshown(a: Action) -> Action {
    match a {
        Action::Deliver(d) => Action::Deliver(Delivery { show: false, ..d }),
        _ => a,
    }
}

pub open spec fn unshown_all(actions: Seq<Action>) -> Seq<Action> {
    actions.map_values(|a: Action| unshown(a))
}

/// The same state with the monitor switched as given.
pub open spec fn with_monitor(s: PipelineView, monitor: bool) -> PipelineView {
    PipelineView { config: PipelineConfig { monitor, ..s.config }, ..s }
}

proof fn lemma_drain(config: PipelineConfig, q: Seq<MidiEvent>)
    ensures
        seq![deliver_next(config, q).1] + run(deliver_next(config, q).0, acknowledgements(q.len()))
            == deliveries(config, q).push(Action::Sleep(config.poll_interval_ms)),
    decreases q.len(),
{
    let (t, a) = deliver_next(config, q);
    if q.len() == 0 {
        assert(acknowledgements(0) =~= Seq::<Outcome>::empty());
        assert(seq![a] + run(t, acknowledgements(0)) =~= seq![a]);
        assert(deliveries(config, q).push(Action::Sleep(config.poll_interval_ms)) =~= seq![a]);
    } else {
        let rest = q.drop_first();
        let acks = acknowledgements(q.len());
        assert(acks.drop_first() =~= acknowledgements(rest.len()));
        assert(transition(t, acks[0]) == deliver_next(config, rest));
        lemma_drain(config, rest);
        assert(run(t, acks) == seq![deliver_next(config, rest).1] + run(
            deliver_next(config, rest).0,
            acknowledgements(rest.len()),
        ));
        assert(seq![a] + run(t, acks) =~= deliveries(config, q).push(
            Action::Sleep(config.poll_interval_ms),
        ));
    }
}

proof fn lemma_delivered_events(config: PipelineConfig, q: Seq<MidiEvent>, tail: Action)
    requires
        !(tail is Deliver),
    ensures
        delivered_events(deliveries(config, q).push(tail)) == q,
        written_messages(deliveries(config, q).push(tail)) == if config.forward {
            messages_of(q)
        } else {
            Seq::<MidiMessage>::empty()
        },
    decreases q.len(),
{
    let all = deliveries(config, q).push(tail);
    if q.len() == 0 {
        assert(all =~= seq![tail]);
        assert(all.drop_first() =~= Seq::<Action>::empty());
        assert(q =~= Seq::<MidiEvent>::empty());
        assert(all[0] == tail);
        assert(delivered_events(all.drop_first()) == Seq::<MidiEvent>::empty());
        assert(written_messages(all.drop_first()) == Seq::<MidiMessage>::empty());
        assert(delivered_events(all) == delivered_events(all.drop_first()));
        assert(written_messages(all) == written_messages(all.drop_first()));
    } else {
        let rest = q.drop_first();
        lemma_delivered_events(config, rest, tail);
        assert(all.drop_first() =~= deliveries(config, rest).push(tail));
        assert(all[0] == Action::Deliver(delivery_of(config, q[0])));
        assert(delivered_events(all) == seq![q[0]] + delivered_events(all.drop_first()));
        assert(seq![q[0]] + rest =~= q);
        if config.forward {
            assert(written_messages(all) == seq![q[0].message] + written_messages(
                all.drop_first(),
            ));
            assert(messages_of(q) == seq![q[0].message] + messages_of(rest));
        } else {
            assert(written_messages(all) == written_messages(all.drop_first()));
        }
    }
}

/// No loss: once a batch is read, acknowledging one delivery per waiting
/// event hands out every event that was waiting and then every event of the
/// batch, each exactly once, unchanged and in order, and then sleeps.
/// Read from an empty channel, the events delivered are exactly the batch.
pub proof fn lemma_no_loss(s: PipelineView, batch: Vec<MidiEvent>)
    requires
        s.phase == Phase::Reading,
    ensures
        ({
            let q = s.queue + batch@;
            let actions = run(
                s,
                seq![Outcome::Read(Some(batch))] + acknowledgements(q.len()),
            );
            &&& actions == deliveries(s.config, q).push(Action::Sleep(s.config.poll_interval_ms))
            &&& delivered_events(actions) == q
            &&& delivered_events(actions).len() == s.queue.len() + batch@.len()
        }),
        s.queue.len() == 0 ==> delivered_events(
            run(s, seq![Outcome::Read(Some(batch))] + acknowledgements(batch@.len() as nat)),
        ) == batch@,
{
    let q = s.queue + batch@;
    let os = seq![Outcome::Read(Some(batch))] + acknowledgements(q.len());
    assert(os.drop_first() =~= acknowledgements(q.len()));
    assert(transition(s, os[0]) == deliver_next(s.config, q));
    lemma_drain(s.config, q);
    lemma_delivered_events(s.config, q, Action::Sleep(s.config.poll_interval_ms));
    if s.queue.len() == 0 {
        assert(q =~= batch@);
    }
}

/// No corruption: every event handed to the consumer side after a read
/// matches exactly one event that was dispatched, and every dispatched
/// event is handed out.
pub proof fn lemma_no_corruption(s: PipelineView, batch: Vec<MidiEvent>)
    requires
        s.phase == Phase::Reading,
    ensures
        delivered_events(
            run(
                s,
                seq![Outcome::Read(Some(batch))] + acknowledgements((s.queue + batch@).len()),
            ),
        ).to_multiset() == (s.queue + batch@).to_multiset(),
{
    lemma_no_loss(s, batch);
}

/// Pass-through: with an output open, the messages written after a read are
/// the messages of the events read, bit for bit and in order; any message
/// written in a single step is the message of the event being delivered.
pub proof fn lemma_pass_through(s: PipelineView, batch: Vec<MidiEvent>, o: Outcome)
    requires
        s.phase == Phase::Reading,
        s.config.forward,
    ensures
        written_messages(
            run(
                s,
                seq![Outcome::Read(Some(batch))] + acknowledgements((s.queue + batch@).len()),
            ),
        ) == messages_of(s.queue + batch@),
        s.queue.len() == 0 ==> written_messages(
            run(s, seq![Outcome::Read(Some(batch))] + acknowledgements(batch@.len() as nat)),
        ) == messages_of(batch@),
        ({
            let a = transition(s, o).1;
            a is Deliver && a->Deliver_0.write is Some ==> a->Deliver_0.write == Some(
                a->Deliver_0.event.message,
            )
        }),
{
    let q = s.queue + batch@;
    lemma_no_loss(s, batch);
    lemma_delivered_events(s.config, q, Action::Sleep(s.config.poll_interval_ms));
    if s.queue.len() == 0 {
        assert(q =~= batch@);
    }
}

/// Opt-in forwarding: without an output, nothing is ever written, whatever
/// the outcomes.
pub proof fn lemma_opt_in_forwarding(s: PipelineView, outcomes: Seq<Outcome>)
    requires
        !s.config.forward,
    ensures
        written_messages(run(s, outcomes)) == Seq::<MidiMessage>::empty(),
        forall|i: int|
            0 <= i < run(s, outcomes).len() && #[trigger] run(s, outcomes)[i] is Deliver
                ==> run(s, outcomes)[i]->Deliver_0.write is None,
    decreases outcomes.len(),
{
    if outcomes.len() > 0 {
        let (t, a) = transition(s, outcomes[0]);
        assert(t.config == s.config);
        lemma_opt_in_forwarding(t, outcomes.drop_first());
        let actions = run(s, outcomes);
        assert(actions.drop_first() =~= run(t, outcomes.drop_first()));
        assert forall|i: int|
            0 <= i < actions.len() && #[trigger] actions[i] is Deliver implies actions[i]->Deliver_0.write is None by {
            if i > 0 {
                assert(actions[i] == run(t, outcomes.drop_first())[i - 1]);
            }
        }
    }
}

proof fn lemma_run_len(s: PipelineView, outcomes: Seq<Outcome>)
    ensures
        run(s, outcomes).len() == outcomes.len(),
    decreases outcomes.len(),
{
    if outcomes.len() > 0 {
        lemma_run_len(transition(s, outcomes[0]).0, outcomes.drop_first());
    }
}

/// Monitor independence: switching the monitor changes nothing but whether
/// events are shown; the phases, the channel and what is written stay the
/// same along any sequence of outcomes.
pub proof fn lemma_monitor_independence(s: PipelineView, outcomes: Seq<Outcome>, monitor: bool)
    ensures
        unshown_all(run(with_monitor(s, monitor), outcomes)) == unshown_all(run(s, outcomes)),
        written_messages(run(with_monitor(s, monitor), outcomes)) == written_messages(
            run(s, outcomes),
        ),
    decreases outcomes.len(),
{
    let s2 = with_monitor(s, monitor);
    if outcomes.len() == 0 {
        assert(unshown_all(run(s2, outcomes)) =~= unshown_all(run(s, outcomes)));
    } else {
        let (t, a) = transition(s, outcomes[0]);
        let (t2, a2) = transition(s2, outcomes[0]);
        assert(t2 == with_monitor(t, monitor));
        assert(unshown(a2) == unshown(a));
        lemma_monitor_independence(t, outcomes.drop_first(), monitor);
        let r = run(s, outcomes);
        let r2 = run(s2, outcomes);
        lemma_run_len(s, outcomes);
        lemma_run_len(s2, outcomes);
        assert(r == seq![a] + run(t, outcomes.drop_first()));
        assert(r2 == seq![a2] + run(t2, outcomes.drop_first()));
        assert(r.drop_first() =~= run(t, outcomes.drop_first()));
        assert(r2.drop_first() =~= run(t2, outcomes.drop_first()));
        assert(unshown_all(r2) =~= unshown_all(r)) by {
            let u = unshown_all(run(t, outcomes.drop_first()));
            let u2 = unshown_all(run(t2, outcomes.drop_first()));
            assert forall|i: int| 0 < i < r.len() implies #[trigger] unshown_all(r2)[i]
                == unshown_all(r)[i] by {
                assert(r2[i] == run(t2, outcomes.drop_first())[i - 1]);
                assert(r[i] == run(t, outcomes.drop_first())[i - 1]);
                assert(unshown_all(r2)[i] == u2[i - 1]);
                assert(unshown_all(r)[i] == u[i - 1]);
            }
        }
        match a {
            Action::Deliver(d) => {
                assert(a2 is Deliver);
            },
            _ => {},
        }
    }
}

/// A character other than a digit, anywhere but in the place of a leading
/// sign, makes a device number unreadable.
pub proof fn lemma_non_numeric_unreadable(s: Seq<char>, i: int)
    requires
        0 <= i < s.len(),
        !is_digit(s[i]),
        !(i == 0 && (s[0] == '-' || s[0] == '+')),
    ensures
        device_number(s) is None,
{
    if i > 0 {
        assert(s.drop_first()[i - 1] == s[i]);
        assert(!all_digits(s.drop_first()));
    }
    assert(!all_digits(s));
}

/// Fatal on bad input: unless help is asked for, a device number given for
/// the input or the output that cannot be read ends the start with an
/// error, so that no port is asked for; and a number outside the devices
/// gives no port in either direction.
pub proof fn lemma_bad_device_number_is_fatal(
    help: bool,
    print: bool,
    monitor: bool,
    input: Option<Seq<char>>,
    output: Option<Seq<char>>,
    device_id: i32,
    device_count: i32,
)
    ensures
        !help && (unreadable(input) || unreadable(output)) ==> startup_plan(
            help,
            print,
            monitor,
            input,
            output,
        ) is Err,
        startup_plan(help, print, monitor, input, output) matches Ok(
            Startup::Launch { run: Some(p), .. },
        ) ==> device_number(input->Some_0) == Some(p.input_device) && (output is Some
            ==> p.output_device == device_number(output->Some_0)),
        !device_in_range(device_id, device_count) ==> port_request(
            device_id,
            device_count,
            Direction::Input,
        ) is Err && port_request(device_id, device_count, Direction::Output) is Err,
{
}

} // verus!
