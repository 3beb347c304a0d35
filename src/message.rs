//! The event payloads and their console rendering.
use vstd::prelude::*;
use vstd::string::StrSliceExecFns;

verus! {

/// One short MIDI message: a status byte and up to three data bytes,
/// carried through unchanged.
#[derive(Clone, Copy, Debug, PartialEq, Eq, Structural)]
pub struct MidiMessage {
    pub status: u8,
    pub data1: u8,
    pub data2: u8,
    pub data3: u8,
}

/// A message together with the timestamp the input port gave it.
#[derive(Clone, Copy, Debug, PartialEq, Eq, Structural)]
pub struct MidiEvent {
    pub message: MidiMessage,
    pub timestamp: u32,
}

/// The character of a decimal digit.
pub open spec fn digit_char(d: nat) -> char
    recommends
        d < 10,
{
    (('0' as u8) + (d as u8)) as char
}

/// The decimal representation of `n`, without leading zeros.
pub open spec fn decimal(n: nat) -> Seq<char>
    decreases n,
{
    if n < 10 {
        seq![digit_char(n)]
    } else {
        decimal(n / 10).push(digit_char(n % 10))
    }
}

/// How a message is shown on the console.
pub open spec fn message_text(m: MidiMessage) -> Seq<char> {
    "MidiMessage { status: "@ + decimal(m.status as nat) + ", data1: "@ + decimal(
        m.data1 as nat,
    ) + ", data2: "@ + decimal(m.data2 as nat) + ", data3: "@ + decimal(m.data3 as nat)
        + " }"@
}

/// How an event is shown on the console.
pub open spec fn event_text(e: MidiEvent) -> Seq<char> {
    "MidiEvent { message: "@ + message_text(e.message) + ", timestamp: "@ + decimal(
        e.timestamp as nat,
    ) + " }"@
}

/// Relies on `String`'s `FromIterator<char>`: the string holds the chars in order.
#[verifier::external_body]
fn string_from_chars(chars: &Vec<char>) -> (r: String)
    ensures
        r@ == chars@,
{
    chars.iter().collect()
}

fn push_text(out: &mut Vec<char>, s: &str)
    ensures
        final(out)@ == old(out)@ + s@,
{
    let n = s.unicode_len();
    let mut i: usize = 0;
    while i < n
        invariant
            n == s@.len(),
            i <= n,
            out@ == old(out)@ + s@.subrange(0, i as int),
        decreases n - i,
    {
        let c = s.get_char(i);
        out.push(c);
        assert(s@.subrange(0, i as int + 1) =~= s@.subrange(0, i as int).push(c));
        i = i + 1;
    }
    assert(s@.subrange(0, n as int) =~= s@);
}

fn push_decimal(out: &mut Vec<char>, n: u32)
    ensures
        final(out)@ == old(out)@ + decimal(n as nat),
    decreases n,
{
    if n >= 10 {
        push_decimal(out, n / 10);
    }
    let d: u8 = (n % 10) as u8;
    out.push(('0' as u8 + d) as char);
    assert(old(out)@ + decimal(n as nat) =~= final(out)@) by {
        if n >= 10 {
            assert(decimal(n as nat) == decimal((n / 10) as nat).push(digit_char((n % 10) as nat)));
        }
    }
}

fn push_message(out: &mut Vec<char>, m: &MidiMessage)
    ensures
        final(out)@ == old(out)@ + message_text(*m),
{
    push_text(out, "MidiMessage { status: ");
    push_decimal(out, m.status as u32);
    push_text(out, ", data1: ");
    push_decimal(out, m.data1 as u32);
    push_text(out, ", data2: ");
    push_decimal(out, m.data2 as u32);
    push_text(out, ", data3: ");
    push_decimal(out, m.data3 as u32);
    push_text(out, " }");
    assert(final(out)@ =~= old(out)@ + message_text(*m));
}

/// The console line for an event: its fields by name, in decimal.
pub fn render_event(e: &MidiEvent) -> (r: String)
    ensures
        r@ == event_text(*e),
{
    let mut out: Vec<char> = Vec::new();
    push_text(&mut out, "MidiEvent { message: ");
    push_message(&mut out, &e.message);
    push_text(&mut out, ", timestamp: ");
    push_decimal(&mut out, e.timestamp);
    push_text(&mut out, " }");
    assert(out@ =~= event_text(*e));
    string_from_chars(&out)
}

} // verus!
