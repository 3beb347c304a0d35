//! Decisions taken before any device is touched: what the command line asks
//! for, which device numbers it names, and which ports to open.
use vstd::prelude::*;
use vstd::string::StrSliceExecFns;

verus! {

/// Events the input port buffers, and events read from it at most per read.
pub const BUFFER_SIZE: usize = 1024;

pub open spec fn is_digit(c: char) -> bool {
    '0' <= c && c <= '9'
}

pub open spec fn all_digits(s: Seq<char>) -> bool {
    s.len() > 0 && forall|i: int| 0 <= i < s.len() ==> #[trigger] is_digit(s[i])
}

/// The value of a run of decimal digits, most significant first.
pub open spec fn digits_value(s: Seq<char>) -> nat
    decreases s.len(),
{
    if s.len() == 0 {
        0
    } else {
        digits_value(s.drop_last()) * 10 + ((s.last() as u8 - '0' as u8) as nat)
    }
}

/// The integer written in `s`: an optional `+` or `-` sign and then at
/// least one decimal digit, nothing else.
pub open spec fn integer_value(s: Seq<char>) -> Option<int> {
    if s.len() > 0 && s[0] == '-' && all_digits(s.drop_first()) {
        Some(-(digits_value(s.drop_first()) as int))
    } else if s.len() > 0 && s[0] == '+' && all_digits(s.drop_first()) {
        Some(digits_value(s.drop_first()) as int)
    } else if all_digits(s) {
        Some(digits_value(s) as int)
    } else {
        None
    }
}

/// The device number written in `s`, where it is an integer that fits in `i32`.
pub open spec fn device_number(s: Seq<char>) -> Option<i32> {
    match integer_value(s) {
        Some(v) => if i32::MIN <= v <= i32::MAX {
            Some(v as i32)
        } else {
            None
        },
        None => None,
    }
}

proof fn lemma_digits_value_step(s: Seq<char>, c: char)
    ensures
        digits_value(s.push(c)) == digits_value(s) * 10 + ((c as u8 - '0' as u8) as nat),
{
    assert(s.push(c).drop_last() =~= s);
}

/// Reads a device number: an `i32` in decimal with an optional sign.
pub fn parse_device_id(s: &str) -> (r: Option<i32>)
    ensures
        r == device_number(s@),
{
    let n = s.unicode_len();
    if n == 0 {
        return None;
    }
    let first = s.get_char(0);
    let negative = first == '-';
    let start: usize = if first == '-' || first == '+' {
        1
    } else {
        0
    };
    if start == n {
        proof {
            assert(s@.drop_first().len() == 0);
            assert(!is_digit(s@[0]));
        }
        return None;
    }
    let ghost digits = s@.subrange(start as int, n as int);
    // Past this bound no further digit brings the value back into range.
    let limit: u64 = 2147483648;
    let mut acc: u64 = 0;
    let mut over = false;
    let mut i: usize = start;
    while i < n
        invariant
            n == s@.len(),
            start <= i <= n,
            start < n,
            first == s@[0],
            negative == (first == '-'),
            start == 1 <==> (first == '-' || first == '+'),
            start == 0 || start == 1,
            digits == s@.subrange(start as int, n as int),
            forall|j: int| start <= j < i ==> #[trigger] is_digit(s@[j]),
            limit == 2147483648,
            acc <= limit,
            !over ==> acc == digits_value(s@.subrange(start as int, i as int)) && acc <= limit,
            over ==> digits_value(s@.subrange(start as int, i as int)) > limit,
        decreases n - i,
    {
        let c = s.get_char(i);
        if !('0' <= c && c <= '9') {
            proof {
                assert(!is_digit(digits[i - start]));
                assert(!all_digits(digits));
                assert(start == 1 ==> s@.drop_first() =~= digits);
                assert(start == 0 ==> s@ =~= digits);
                assert(!all_digits(s@)) by {
                    if start == 1 {
                        assert(!is_digit(s@[0]));
                    } else {
                        assert(!is_digit(s@[i as int]));
                    }
                }
            }
            return None;
        }
        proof {
            assert(s@.subrange(start as int, i as int + 1) =~= s@.subrange(start as int, i as int).push(c));
            lemma_digits_value_step(s@.subrange(start as int, i as int), c);
        }
        let d: u64 = (c as u8 - '0' as u8) as u64;
        if !over {
            let next = acc * 10 + d;
            if next > limit {
                over = true;
            } else {
                acc = next;
            }
        }
        i = i + 1;
    }
    proof {
        assert(s@.subrange(start as int, n as int) =~= digits);
        assert(all_digits(digits));
        if start == 1 {
            assert(s@.drop_first() =~= digits);
        } else {
            assert(s@ =~= digits);
        }
    }
    if over {
        None
    } else if negative {
        Some((0 - (acc as i64)) as i32)
    } else if acc == limit {
        None
    } else {
        Some(acc as i32)
    }
}

/// The options given on the command line, as plain values.
pub struct CommandLine {
    /// Show how to call the program and do nothing else.
    pub help: bool,
    /// List the devices before anything else.
    pub print: bool,
    /// Show each event on the console.
    pub monitor: bool,
    /// The input device number, as written.
    pub input: Option<String>,
    /// The output device number, as written.
    pub output: Option<String>,
}

/// What the pipeline is run with.
#[derive(Clone, Copy, Debug, PartialEq, Eq, Structural)]
pub struct RunPlan {
    pub input_device: i32,
    pub output_device: Option<i32>,
    pub monitor: bool,
}

/// What the program does once its command line is read.
#[derive(Clone, Copy, Debug, PartialEq, Eq, Structural)]
pub enum Startup {
    /// Explain the options and stop.
    Usage,
    /// Open the MIDI system, list its devices if asked, and run the pipeline
    /// where an input device was given.
    Launch { list_devices: bool, run: Option<RunPlan> },
}

/// A command line that cannot be acted on.
#[derive(Clone, Copy, Debug, PartialEq, Eq, Structural)]
pub enum StartupError {
    /// The input device number is not an `i32` in decimal.
    InvalidInputId,
    /// The output device number is not an `i32` in decimal.
    InvalidOutputId,
}

pub open spec fn text_of(o: Option<String>) -> Option<Seq<char>> {
    match o {
        Some(s) => Some(s@),
        None => None,
    }
}

pub open spec fn number_of(o: Option<Seq<char>>) -> Option<i32> {
    match o {
        Some(s) => device_number(s),
        None => None,
    }
}

/// A device number that was given and cannot be read.
pub open spec fn unreadable(o: Option<Seq<char>>) -> bool {
    o is Some && device_number(o->Some_0) is None
}

/// The startup decision: help wins; otherwise both device numbers that were
/// given must be readable, the input one checked first.
pub open spec fn startup_plan(
    help: bool,
    print: bool,
    monitor: bool,
    input: Option<Seq<char>>,
    output: Option<Seq<char>>,
) -> Result<Startup, StartupError> {
    if help {
        Ok(Startup::Usage)
    } else if unreadable(input) {
        Err(StartupError::InvalidInputId)
    } else if unreadable(output) {
        Err(StartupError::InvalidOutputId)
    } else {
        Ok(
            Startup::Launch {
                list_devices: print,
                run: match number_of(input) {
                    Some(i) => Some(
                        RunPlan { input_device: i, output_device: number_of(output), monitor },
                    ),
                    None => None,
                },
            },
        )
    }
}

fn read_option(o: &Option<String>) -> (r: Result<Option<i32>, ()>)
    ensures
        unreadable(text_of(*o)) <==> r is Err,
        r is Ok ==> r->Ok_0 == number_of(text_of(*o)),
{
    match o {
        Some(s) => match parse_device_id(s.as_str()) {
            Some(v) => Ok(Some(v)),
            None => Err(()),
        },
        None => Ok(None),
    }
}

/// Decides what to do from the command line, before any device is touched.
pub fn plan_startup(cl: &CommandLine) -> (r: Result<Startup, StartupError>)
    ensures
        r == startup_plan(cl.help, cl.print, cl.monitor, text_of(cl.input), text_of(cl.output)),
{
    if cl.help {
        return Ok(Startup::Usage);
    }
    let input = match read_option(&cl.input) {
        Ok(v) => v,
        Err(()) => return Err(StartupError::InvalidInputId),
    };
    let output = match read_option(&cl.output) {
        Ok(v) => v,
        Err(()) => return Err(StartupError::InvalidOutputId),
    };
    let run = match input {
        Some(i) => Some(RunPlan { input_device: i, output_device: output, monitor: cl.monitor }),
        None => None,
    };
    Ok(Startup::Launch { list_devices: cl.print, run })
}

/// Which way a port carries events.
#[derive(Clone, Copy, Debug, PartialEq, Eq, Structural)]
pub enum Direction {
    Input,
    Output,
}

/// A port to open: the device, its direction and the size of its buffer.
#[derive(Clone, Copy, Debug, PartialEq, Eq, Structural)]
pub struct PortRequest {
    pub device_id: i32,
    pub direction: Direction,
    pub buffer_size: usize,
}

/// Why a port cannot be asked for.
#[derive(Clone, Copy, Debug, PartialEq, Eq, Structural)]
pub enum DeviceError {
    /// No device has this number.
    InvalidDeviceId,
}

/// Devices are numbered from zero.
pub open spec fn device_in_range(device_id: i32, device_count: i32) -> bool {
    0 <= device_id < device_count
}

pub open spec fn port_request(
    device_id: i32,
    device_count: i32,
    direction: Direction,
) -> Result<PortRequest, DeviceError> {
    if device_in_range(device_id, device_count) {
        Ok(PortRequest { device_id, direction, buffer_size: BUFFER_SIZE })
    } else {
        Err(DeviceError::InvalidDeviceId)
    }
}

fn request_port(device_id: i32, device_count: i32, direction: Direction) -> (r: Result<
    PortRequest,
    DeviceError,
>)
    ensures
        r == port_request(device_id, device_count, direction),
{
    if 0 <= device_id && device_id < device_count {
        Ok(PortRequest { device_id, direction, buffer_size: BUFFER_SIZE })
    } else {
        Err(DeviceError::InvalidDeviceId)
    }
}

/// The input port to open for `device_id`, among `device_count` devices.
pub fn get_input_port(device_id: i32, device_count: i32) -> (r: Result<PortRequest, DeviceError>)
    ensures
        r == port_request(device_id, device_count, Direction::Input),
{
    request_port(device_id, device_count, Direction::Input)
}

/// The output port to open for `device_id`, among `device_count` devices.
pub fn get_output_port(device_id: i32, device_count: i32) -> (r: Result<PortRequest, DeviceError>)
    ensures
        r == port_request(device_id, device_count, Direction::Output),
{
    request_port(device_id, device_count, Direction::Output)
}

} // verus!
