//! The port handshake: the child announces the port it listens on with one
//! line `PORT:<digits>` on its standard output.
//!
//! The first line of that form ends the scan, whatever its digits say: a
//! value that fits 16 bits is the announced port, and one that does not is a
//! failed handshake. Any other line is passed over.

use crate::announcement::{PortAnnouncement, ABSENT_PORT};
use crate::text::{
    all_digits, chars_of, decimal_u16, decimal_value, lemma_trim_end_is_take,
    lemma_trim_start_is_skip, numeral, read_numeral, trim, trim_bounds, white_space, Numeral,
};
use vstd::prelude::*;

verus! {

/// The literal that opens an announcement line.
pub open spec fn port_prefix() -> Seq<char> {
    seq!['P', 'O', 'R', 'T', ':']
}

/// How a line reads as an announcement: the numeral that follows `PORT:`,
/// without the white space around it. A line that does not open with
/// `PORT:` holds no numeral. Only digits make a numeral, so neither
/// `PORT:+80` nor `PORT:80abc` holds one.
pub open spec fn line_numeral(line: Seq<char>) -> Numeral {
    if port_prefix().is_prefix_of(line) {
        numeral(trim(line.skip(5)))
    } else {
        Numeral::NotANumeral
    }
}

/// The port a line announces: the line opens with `PORT:`, and what follows,
/// without the white space around it, is a decimal numeral that fits 16 bits.
pub open spec fn announced_port(line: Seq<char>) -> Option<u16> {
    if port_prefix().is_prefix_of(line) {
        decimal_u16(trim(line.skip(5)))
    } else {
        None
    }
}

/// What a line makes the reader deliver. A line with a numeral ends the
/// scan: it delivers the numeral's value, or the sentinel where the value
/// does not fit 16 bits. A line without a numeral delivers nothing.
pub open spec fn delivery(line: Seq<char>) -> Option<u16> {
    match line_numeral(line) {
        Numeral::Value(port) => Some(port),
        Numeral::TooLarge => Some(ABSENT_PORT),
        Numeral::NotANumeral => None,
    }
}

/// What a whole output announces: what its first line with a numeral
/// delivers, or the sentinel when no line holds a numeral.
pub open spec fn stream_announcement(lines: Seq<Seq<char>>) -> u16
    decreases lines.len(),
{
    if lines.len() == 0 {
        ABSENT_PORT
    } else {
        match delivery(lines.first()) {
            Some(raw) => raw,
            None => stream_announcement(lines.drop_first()),
        }
    }
}

/// Reads one line of the child's output as an announcement.
pub fn read_port_line(line: &str) -> (r: Numeral)
    ensures
        r == line_numeral(line@),
{
    let chars = chars_of(line);
    if chars.len() < 5 {
        return Numeral::NotANumeral;
    }
    if chars[0] != 'P' || chars[1] != 'O' || chars[2] != 'R' || chars[3] != 'T' || chars[4] != ':' {
        return Numeral::NotANumeral;
    }
    let (start, end) = trim_bounds(&chars, 5);
    read_numeral(&chars, start, end)
}

/// The port that one line of the child's output announces, if it does.
pub fn parse_port_line(line: &str) -> (r: Option<u16>)
    ensures
        r == announced_port(line@),
{
    match read_port_line(line) {
        Numeral::Value(port) => Some(port),
        _ => None,
    }
}

/// The reader of the child's output. It scans until it has produced its one
/// value and cannot be started again. The first line that holds a numeral
/// after the prefix ends the scan; a line that holds none is passed over,
/// whether or not it opens with the prefix.
#[derive(Clone, Copy, Debug, PartialEq, Eq, Structural)]
pub enum HandshakeReader {
    /// No announcement was found yet; the next line is wanted.
    Scanning,
    /// The one value was produced.
    Finished,
}

/// What the caller does after the reader was given a line or the end of the
/// output.
#[derive(Clone, Copy, Debug, PartialEq, Eq, Structural)]
pub enum ReaderAction {
    /// Read the next line and hand it over.
    ReadOn,
    /// Send this value to the supervisor and read no further.
    Deliver(PortAnnouncement),
    /// Nothing: the value was delivered before.
    Halt,
}

/// What the output of the child holds for the reader.
pub enum ReaderInput {
    /// One line, without its line terminator.
    Line(Seq<char>),
    /// The output ended: the child exited or closed it.
    End,
}

/// The reader's next state and the caller's action on one input.
pub open spec fn react(reader: HandshakeReader, input: ReaderInput) -> (
    HandshakeReader,
    ReaderAction,
) {
    match reader {
        HandshakeReader::Finished => (HandshakeReader::Finished, ReaderAction::Halt),
        HandshakeReader::Scanning => match input {
            ReaderInput::End => (
                HandshakeReader::Finished,
                ReaderAction::Deliver(PortAnnouncement { raw: ABSENT_PORT }),
            ),
            ReaderInput::Line(line) => match delivery(line) {
                Some(raw) => (
                    HandshakeReader::Finished,
                    ReaderAction::Deliver(PortAnnouncement { raw }),
                ),
                None => (HandshakeReader::Scanning, ReaderAction::ReadOn),
            },
        },
    }
}

/// The reader's state after a series of inputs, and the actions it asked for,
/// one for each input.
pub open spec fn run(reader: HandshakeReader, inputs: Seq<ReaderInput>) -> (
    HandshakeReader,
    Seq<ReaderAction>,
)
    decreases inputs.len(),
{
    if inputs.len() == 0 {
        (reader, Seq::empty())
    } else {
        let first = react(reader, inputs.first());
        let rest = run(first.0, inputs.drop_first());
        (rest.0, seq![first.1] + rest.1)
    }
}

/// The values that a series of actions delivers, in order.
pub open spec fn deliveries(actions: Seq<ReaderAction>) -> Seq<u16>
    decreases actions.len(),
{
    if actions.len() == 0 {
        Seq::empty()
    } else {
        let rest = deliveries(actions.drop_first());
        match actions.first() {
            ReaderAction::Deliver(a) => seq![a.raw] + rest,
            _ => rest,
        }
    }
}

/// A complete output as the reader sees it: every line, then the end.
pub open spec fn complete_output(lines: Seq<Seq<char>>) -> Seq<ReaderInput> {
    lines.map_values(|line: Seq<char>| ReaderInput::Line(line)).push(ReaderInput::End)
}

impl HandshakeReader {
    /// A reader that has seen nothing yet.
    pub fn new() -> (reader: Self)
        ensures
            reader == HandshakeReader::Scanning,
    {
        HandshakeReader::Scanning
    }

    /// True once the one value was produced.
    pub fn is_finished(&self) -> (b: bool)
        ensures
            b == (*self == HandshakeReader::Finished),
    {
        match self {
            HandshakeReader::Finished => true,
            HandshakeReader::Scanning => false,
        }
    }

    /// Takes the next line of the output.
    pub fn on_line(&mut self, line: &str) -> (action: ReaderAction)
        ensures
            (*final(self), action) == react(*old(self), ReaderInput::Line(line@)),
    {
        match self {
            HandshakeReader::Finished => ReaderAction::Halt,
            HandshakeReader::Scanning => match read_port_line(line) {
                Numeral::Value(port) => {
                    *self = HandshakeReader::Finished;
                    ReaderAction::Deliver(PortAnnouncement::from_raw(port))
                },
                Numeral::TooLarge => {
                    *self = HandshakeReader::Finished;
                    ReaderAction::Deliver(PortAnnouncement::absent())
                },
                Numeral::NotANumeral => ReaderAction::ReadOn,
            },
        }
    }

    /// Takes the end of the output.
    pub fn on_end(&mut self) -> (action: ReaderAction)
        ensures
            (*final(self), action) == react(*old(self), ReaderInput::End),
    {
        match self {
            HandshakeReader::Finished => ReaderAction::Halt,
            HandshakeReader::Scanning => {
                *self = HandshakeReader::Finished;
                ReaderAction::Deliver(PortAnnouncement::absent())
            },
        }
    }
}

/// The announcement of an output that is known as a whole: the reader is run
/// over its lines and then told of the end.
pub fn read_announcement(lines: &Vec<String>) -> (a: PortAnnouncement)
    ensures
        a.raw == stream_announcement(lines.deep_view()),
{
    let mut reader = HandshakeReader::new();
    let mut i: usize = 0;
    assert(lines.deep_view().skip(0) =~= lines.deep_view());
    while i < lines.len()
        invariant
            i <= lines.len(),
            reader == HandshakeReader::Scanning,
            stream_announcement(lines.deep_view()) == stream_announcement(
                lines.deep_view().skip(i as int),
            ),
        decreases lines.len() - i,
    {
        let ghost rest = lines.deep_view().skip(i as int);
        assert(rest.drop_first() =~= lines.deep_view().skip(i + 1));
        match reader.on_line(lines[i].as_str()) {
            ReaderAction::Deliver(a) => {
                return a;
            },
            _ => {},
        }
        i += 1;
    }
    match reader.on_end() {
        ReaderAction::Deliver(a) => a,
        _ => PortAnnouncement::absent(),
    }
}

/// A line that holds, after the prefix, a run of digits with white space
/// around it ends the scan. Where the value of the digits fits 16 bits, the
/// line announces it and the reader delivers it; where it does not, the line
/// announces no port and the reader delivers the sentinel. Either way the
/// reader has finished, and the lines that follow do not matter.
pub proof fn law_numeral_line(
    left: Seq<char>,
    digits: Seq<char>,
    right: Seq<char>,
    later: Seq<Seq<char>>,
)
    requires
        forall|i: int| 0 <= i < left.len() ==> white_space(#[trigger] left[i]),
        forall|i: int| 0 <= i < right.len() ==> white_space(#[trigger] right[i]),
        digits.len() > 0,
        all_digits(digits),
    ensures
        ({
            let line = port_prefix() + left + digits + right;
            let value = decimal_value(digits);
            let raw = if value <= u16::MAX {
                value as u16
            } else {
                ABSENT_PORT
            };
            &&& line_numeral(line) == numeral(digits)
            &&& value <= u16::MAX ==> announced_port(line) == Some(value as u16)
            &&& value > u16::MAX ==> announced_port(line) is None
            &&& delivery(line) == Some(raw)
            &&& react(HandshakeReader::Scanning, ReaderInput::Line(line)) == (
                HandshakeReader::Finished,
                ReaderAction::Deliver(PortAnnouncement { raw }),
            )
            &&& stream_announcement(seq![line] + later) == raw
        }),
{
    let line = port_prefix() + left + digits + right;
    let suffix = line.skip(5);
    lemma_trim_start_is_skip(suffix, left.len() as int);
    let kept = suffix.skip(left.len() as int);
    lemma_trim_end_is_take(kept, digits.len() as int);
    assert(kept.take(digits.len() as int) =~= digits);
    assert((seq![line] + later).first() == line);
}

/// A line that does not open with the prefix, or whose text after the
/// prefix is, white space at its ends aside, empty or not made of digits
/// alone, announces nothing, and the reader reads on.
pub proof fn law_other_line(line: Seq<char>)
    requires
        !port_prefix().is_prefix_of(line) || trim(line.skip(5)).len() == 0 || !all_digits(
            trim(line.skip(5)),
        ),
    ensures
        line_numeral(line) == Numeral::NotANumeral,
        announced_port(line) is None,
        delivery(line) is None,
        react(HandshakeReader::Scanning, ReaderInput::Line(line)) == (
            HandshakeReader::Scanning,
            ReaderAction::ReadOn,
        ),
        stream_announcement(seq![line]) == ABSENT_PORT,
{
    reveal_with_fuel(stream_announcement, 2);
}

/// What a line announces and what it makes the reader deliver differ only
/// for digits that do not fit: there the line announces no port, and the
/// reader delivers the sentinel. The reader reads on exactly when the line
/// holds no numeral.
pub proof fn law_delivery_and_port(line: Seq<char>)
    ensures
        announced_port(line) matches Some(port) ==> delivery(line) == Some(port),
        delivery(line) is None <==> line_numeral(line) == Numeral::NotANumeral,
        delivery(line) is None ==> announced_port(line) is None,
        delivery(line) is Some && announced_port(line) is None <==> line_numeral(line)
            == Numeral::TooLarge,
        line_numeral(line) == Numeral::TooLarge ==> delivery(line) == Some(ABSENT_PORT),
{
}

/// Once the reader has finished, every further input leaves it finished and
/// delivers nothing.
pub proof fn law_finished_reader_is_silent(inputs: Seq<ReaderInput>)
    ensures
        run(HandshakeReader::Finished, inputs).0 == HandshakeReader::Finished,
        run(HandshakeReader::Finished, inputs).1.len() == inputs.len(),
        forall|i: int|
            0 <= i < inputs.len() ==> #[trigger] run(HandshakeReader::Finished, inputs).1[i]
                == ReaderAction::Halt,
        deliveries(run(HandshakeReader::Finished, inputs).1) == Seq::<u16>::empty(),
    decreases inputs.len(),
{
    if inputs.len() > 0 {
        law_finished_reader_is_silent(inputs.drop_first());
        let rest = run(HandshakeReader::Finished, inputs.drop_first()).1;
        assert((seq![ReaderAction::Halt] + rest).drop_first() =~= rest);
    }
}

/// Whatever it is fed, a reader delivers at most one value, and it has
/// delivered one exactly when it has finished.
pub proof fn law_at_most_one_delivery(inputs: Seq<ReaderInput>)
    ensures
        deliveries(run(HandshakeReader::Scanning, inputs).1).len() == (if run(
            HandshakeReader::Scanning,
            inputs,
        ).0 == HandshakeReader::Finished {
            1nat
        } else {
            0nat
        }),
    decreases inputs.len(),
{
    if inputs.len() > 0 {
        let first = react(HandshakeReader::Scanning, inputs.first());
        let rest = run(first.0, inputs.drop_first());
        assert((seq![first.1] + rest.1).drop_first() =~= rest.1);
        if first.0 == HandshakeReader::Finished {
            law_finished_reader_is_silent(inputs.drop_first());
        } else {
            law_at_most_one_delivery(inputs.drop_first());
        }
    }
}

/// Run over a complete output, the reader delivers exactly one value: what
/// the first line with a numeral delivers, or the sentinel if there is none.
pub proof fn law_reader_delivers_stream_announcement(lines: Seq<Seq<char>>)
    ensures
        run(HandshakeReader::Scanning, complete_output(lines)).0 == HandshakeReader::Finished,
        deliveries(run(HandshakeReader::Scanning, complete_output(lines)).1) == seq![
            stream_announcement(lines),
        ],
    decreases lines.len(),
{
    let inputs = complete_output(lines);
    let first = react(HandshakeReader::Scanning, inputs.first());
    let rest = run(first.0, inputs.drop_first());
    let actions = seq![first.1] + rest.1;
    assert(actions.drop_first() =~= rest.1);
    if lines.len() == 0 {
        assert(seq![ABSENT_PORT] + deliveries(rest.1) =~= seq![ABSENT_PORT]);
    } else {
        assert(inputs.drop_first() =~= complete_output(lines.drop_first()));
        if delivery(lines.first()) is Some {
            law_finished_reader_is_silent(inputs.drop_first());
        } else {
            law_reader_delivers_stream_announcement(lines.drop_first());
        }
    }
}

/// An output in which no line holds a numeral after the prefix: the reader
/// asks for the next line after every line, delivers the sentinel at the
/// end, exactly once, and has then finished.
pub proof fn law_silent_output(lines: Seq<Seq<char>>)
    requires
        forall|i: int| 0 <= i < lines.len() ==> delivery(#[trigger] lines[i]) is None,
    ensures
        stream_announcement(lines) == ABSENT_PORT,
        run(HandshakeReader::Scanning, complete_output(lines)).0 == HandshakeReader::Finished,
        run(HandshakeReader::Scanning, complete_output(lines)).1 == Seq::new(
            lines.len(),
            |i: int| ReaderAction::ReadOn,
        ).push(ReaderAction::Deliver(PortAnnouncement { raw: ABSENT_PORT })),
        deliveries(run(HandshakeReader::Scanning, complete_output(lines)).1) == seq![ABSENT_PORT],
    decreases lines.len(),
{
    law_reader_delivers_stream_announcement(lines);
    let inputs = complete_output(lines);
    let deliver = ReaderAction::Deliver(PortAnnouncement { raw: ABSENT_PORT });
    if lines.len() == 0 {
        reveal_with_fuel(run, 2);
        assert(inputs.first() == ReaderInput::End);
        assert(inputs.drop_first().len() == 0);
        assert(run(HandshakeReader::Scanning, inputs).1 =~= Seq::new(
            0,
            |i: int| ReaderAction::ReadOn,
        ).push(deliver));
    } else {
        let rest = lines.drop_first();
        assert(inputs.drop_first() =~= complete_output(rest));
        assert(delivery(lines[0]) is None);
        assert forall|i: int| 0 <= i < rest.len() implies delivery(#[trigger] rest[i])
            is None by {
            assert(rest[i] == lines[i + 1]);
        }
        law_silent_output(rest);
        assert(run(HandshakeReader::Scanning, inputs).1 =~= Seq::new(
            lines.len(),
            |i: int| ReaderAction::ReadOn,
        ).push(deliver));
    }
}

/// The first line with a numeral decides what the output announces: the
/// reader is left scanning by the lines before it, finishes on it, and the
/// lines after it are never used.
pub proof fn law_first_numeral_line_decides(lines: Seq<Seq<char>>, k: int)
    requires
        0 <= k < lines.len(),
        delivery(lines[k]) is Some,
        forall|i: int| 0 <= i < k ==> delivery(#[trigger] lines[i]) is None,
    ensures
        stream_announcement(lines) == delivery(lines[k])->0,
        stream_announcement(lines) == stream_announcement(lines.take(k + 1)),
    decreases k,
{
    if k > 0 {
        let rest = lines.drop_first();
        assert(forall|i: int| 0 <= i < k - 1 ==> rest[i] == lines[i + 1]);
        law_first_numeral_line_decides(rest, k - 1);
        assert(lines.take(k + 1).drop_first() =~= rest.take(k));
    } else {
        assert(lines.take(1).first() == lines[0]);
    }
}

} // verus!
