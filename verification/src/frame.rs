//! Message framing: a header block that declares the body's length in bytes,
//! a blank line, then the body.
//!
//! ```text
//! Content-Length: <decimal byte count>\r\n
//! \r\n
//! <body>
//! ```

use vstd::prelude::*;
use crate::bytes::{
    decimal, eq_ignore_case, find, is_digit, is_space, lemma_decimal, lemma_leading_spaces,
    lemma_position, lemma_trailing_spaces, lowered, parse_decimal, parse_usize, position, trim,
    trimmed, write_decimal,
};

verus! {

/// Why a frame could not be read.
#[derive(Clone, Copy, Debug, PartialEq, Eq, Structural)]
pub enum FramingError {
    /// The header block ended without a length field.
    MissingLength,
    /// The length field is not a decimal number that fits the machine.
    InvalidLength,
    /// The stream ended inside the header block or inside the body.
    Truncated,
}

/// The name of the length field, in lower case: `content-length`.
pub open spec fn length_key() -> Seq<u8> {
    seq![99u8, 111, 110, 116, 101, 110, 116, 45, 108, 101, 110, 103, 116, 104]
}

/// The start of the header line that is written: `Content-Length: `.
pub open spec fn header_prefix() -> Seq<u8> {
    seq![67u8, 111, 110, 116, 101, 110, 116, 45, 76, 101, 110, 103, 116, 104, 58, 32]
}

/// Carriage return, line feed.
pub open spec fn line_break() -> Seq<u8> {
    seq![13u8, 10]
}

/// The header block that is written for a body of `n` bytes, blank line
/// included.
pub open spec fn header(n: nat) -> Seq<u8> {
    header_prefix() + decimal(n) + line_break() + line_break()
}

/// A body with its header block in front.
pub open spec fn framed(body: Seq<u8>) -> Seq<u8> {
    header(body.len()) + body
}

/// What a header line says.
pub ghost enum LineV {
    /// Nothing but white space: the end of the header block.
    Blank,
    /// The length field, with its value as written.
    Length(Seq<u8>),
    /// Any other line.
    Other,
}

/// What the header line `line` says. A field is a name, a colon and a value;
/// white space around each is dropped, and the name of the length field is
/// matched in any case.
pub open spec fn classify(line: Seq<u8>) -> LineV {
    let t = trimmed(line);
    let colon = position(t, 58) as int;
    if t.len() == 0 {
        LineV::Blank
    } else if colon < t.len() && lowered(trimmed(t.subrange(0, colon))) == length_key() {
        LineV::Length(trimmed(t.subrange(colon + 1, t.len() as int)))
    } else {
        LineV::Other
    }
}

/// The body length that the value of a length field declares.
pub open spec fn parse_length(value: Seq<u8>) -> Option<usize> {
    match parse_decimal(value) {
        Some(n) if n <= usize::MAX => Some(n as usize),
        _ => None,
    }
}

/// A header line as `classify` reads it.
#[derive(Clone, Debug, PartialEq, Eq)]
pub enum Line {
    Blank,
    Length(Vec<u8>),
    Other,
}

impl View for Line {
    type V = LineV;

    open spec fn view(&self) -> LineV {
        match self {
            Line::Blank => LineV::Blank,
            Line::Length(v) => LineV::Length(v@),
            Line::Other => LineV::Other,
        }
    }
}

/// Reads one header line.
pub fn classify_line(line: &[u8]) -> (r: Line)
    ensures
        r@ == classify(line@),
{
    let t = trim(line);
    if t.len() == 0 {
        return Line::Blank;
    }
    let colon = find(t, 58);
    if colon == t.len() {
        return Line::Other;
    }
    let name = trim(vstd::slice::slice_subrange(t, 0, colon));
    let key: [u8; 14] = [99, 111, 110, 116, 101, 110, 116, 45, 108, 101, 110, 103, 116, 104];
    proof {
        assert(key@ =~= length_key());
        assert(lowered(length_key()) =~= length_key());
    }
    if eq_ignore_case(name, key.as_slice()) {
        let value = trim(vstd::slice::slice_subrange(t, colon + 1, t.len()));
        Line::Length(vstd::slice::slice_to_vec(value))
    } else {
        Line::Other
    }
}

/// The state of reading one header block.
#[derive(Clone, Debug, PartialEq, Eq)]
pub struct HeaderBlock {
    /// Whether a line of this block has been read.
    pub started: bool,
    /// The value of the last length field read.
    pub length: Option<Vec<u8>>,
}

/// A header block as a mathematical value.
pub ghost struct HeaderBlockV {
    pub started: bool,
    pub length: Option<Seq<u8>>,
}

impl View for HeaderBlock {
    type V = HeaderBlockV;

    open spec fn view(&self) -> HeaderBlockV {
        HeaderBlockV {
            started: self.started,
            length: match self.length {
                Some(v) => Some(v@),
                None => None,
            },
        }
    }
}

/// What follows a header line.
#[derive(Clone, Copy, Debug, PartialEq, Eq, Structural)]
pub enum HeaderStep {
    /// Another header line.
    More,
    /// The body, of this many bytes.
    Body(usize),
    /// Nothing: the stream ended before the block began.
    EndOfStream,
    /// Nothing: the block cannot be read.
    Failed(FramingError),
}

impl HeaderBlockV {
    /// The block before its first line.
    pub open spec fn initial() -> HeaderBlockV {
        HeaderBlockV { started: false, length: None }
    }

    /// The block after `line`, and what follows. An empty `line` stands for
    /// the end of the stream; a line as read holds its line feed.
    pub open spec fn feed(self, line: Seq<u8>) -> (HeaderBlockV, HeaderStep) {
        let seen = HeaderBlockV { started: true, length: self.length };
        if line.len() == 0 {
            (
                self,
                if self.started {
                    HeaderStep::Failed(FramingError::Truncated)
                } else {
                    HeaderStep::EndOfStream
                },
            )
        } else {
            match classify(line) {
                LineV::Blank => (
                    seen,
                    match self.length {
                        None => HeaderStep::Failed(FramingError::MissingLength),
                        Some(value) => match parse_length(value) {
                            Some(n) => HeaderStep::Body(n),
                            None => HeaderStep::Failed(FramingError::InvalidLength),
                        },
                    },
                ),
                LineV::Length(value) => (
                    HeaderBlockV { started: true, length: Some(value) },
                    HeaderStep::More,
                ),
                LineV::Other => (seen, HeaderStep::More),
            }
        }
    }
}

impl HeaderBlock {
    /// A block before its first line.
    pub fn new() -> (r: HeaderBlock)
        ensures
            r@ == HeaderBlockV::initial(),
    {
        HeaderBlock { started: false, length: None }
    }

    /// Takes the next line of the block, as read from the stream with its line
    /// feed; an empty `line` says that the stream has ended.
    pub fn feed(&mut self, line: &[u8]) -> (r: HeaderStep)
        ensures
            (final(self)@, r) == old(self)@.feed(line@),
    {
        if line.len() == 0 {
            return if self.started {
                HeaderStep::Failed(FramingError::Truncated)
            } else {
                HeaderStep::EndOfStream
            };
        }
        self.started = true;
        match classify_line(line) {
            Line::Blank => match &self.length {
                None => HeaderStep::Failed(FramingError::MissingLength),
                Some(value) => match parse_usize(value.as_slice()) {
                    Some(n) => HeaderStep::Body(n),
                    None => HeaderStep::Failed(FramingError::InvalidLength),
                },
            },
            Line::Length(value) => {
                self.length = Some(value);
                HeaderStep::More
            },
            Line::Other => HeaderStep::More,
        }
    }
}

/// Appends the bytes of `bytes` to `out`.
pub fn append(out: &mut Vec<u8>, bytes: &[u8])
    ensures
        final(out)@ == old(out)@ + bytes@,
{
    let mut i: usize = 0;
    while i < bytes.len()
        invariant
            i <= bytes.len(),
            out@ == old(out)@ + bytes@.subrange(0, i as int),
        decreases bytes.len() - i,
    {
        out.push(bytes[i]);
        i += 1;
        assert(out@ =~= old(out)@ + bytes@.subrange(0, i as int));
    }
    assert(bytes@.subrange(0, i as int) =~= bytes@);
}

/// Writes a frame: the header block for `body`, then `body`.
pub fn write_frame(body: &[u8]) -> (r: Vec<u8>)
    ensures
        r@ == framed(body@),
{
    let prefix: [u8; 16] = [67, 111, 110, 116, 101, 110, 116, 45, 76, 101, 110, 103, 116, 104, 58, 32];
    let breaks: [u8; 4] = [13, 10, 13, 10];
    let mut out: Vec<u8> = Vec::new();
    append(&mut out, prefix.as_slice());
    write_decimal(body.len(), &mut out);
    append(&mut out, breaks.as_slice());
    append(&mut out, body);
    proof {
        assert(prefix@ =~= header_prefix());
        assert(breaks@ =~= line_break() + line_break());
        assert(out@ =~= framed(body@));
    }
    out
}

/// The first line of `input`: up to its first line feed, which belongs to the
/// line, or all of `input` where it holds none.
pub open spec fn first_line(input: Seq<u8>) -> Seq<u8> {
    let p = position(input, 10) as int;
    if p < input.len() {
        input.subrange(0, p + 1)
    } else {
        input
    }
}

/// Feeds the lines of `input` to `block` until the block ends; gives the last
/// step and the number of bytes that the lines read hold.
pub open spec fn read_header(block: HeaderBlockV, input: Seq<u8>) -> (HeaderStep, nat)
    decreases input.len(),
{
    let line = first_line(input);
    let (next, step) = block.feed(line);
    if step is More && 0 < line.len() <= input.len() {
        let (last, used) = read_header(next, input.skip(line.len() as int));
        (last, line.len() + used)
    } else {
        (step, line.len())
    }
}

/// What reading one frame gives.
pub ghost enum FrameV {
    /// A frame with this body, which took up the first `consumed` bytes.
    Message { body: Seq<u8>, consumed: nat },
    /// No frame: the input is empty.
    EndOfStream,
    /// No frame: the input cannot be read as one.
    Failed(FramingError),
}

/// Reads the frame at the start of `input`.
pub open spec fn read_frame(input: Seq<u8>) -> FrameV {
    let (step, at) = read_header(HeaderBlockV::initial(), input);
    match step {
        HeaderStep::Body(n) => if at + n <= input.len() {
            FrameV::Message { body: input.subrange(at as int, at + n), consumed: (at + n) as nat }
        } else {
            FrameV::Failed(FramingError::Truncated)
        },
        HeaderStep::EndOfStream => FrameV::EndOfStream,
        HeaderStep::Failed(e) => FrameV::Failed(e),
        HeaderStep::More => FrameV::Failed(FramingError::Truncated),
    }
}

/// What `decode_frame` returns.
#[derive(Clone, Debug, PartialEq, Eq)]
pub enum Frame {
    Message { body: Vec<u8>, consumed: usize },
    EndOfStream,
    Failed(FramingError),
}

impl View for Frame {
    type V = FrameV;

    open spec fn view(&self) -> FrameV {
        match self {
            Frame::Message { body, consumed } => FrameV::Message {
                body: body@,
                consumed: *consumed as nat,
            },
            Frame::EndOfStream => FrameV::EndOfStream,
            Frame::Failed(e) => FrameV::Failed(*e),
        }
    }
}

/// The length of the first line of `input`.
pub fn line_length(input: &[u8]) -> (r: usize)
    ensures
        r == first_line(input@).len(),
        r <= input.len(),
        input.len() > 0 ==> r > 0,
{
    let p = find(input, 10);
    if p < input.len() {
        p + 1
    } else {
        p
    }
}

/// Reads the frame at the start of `input`: header lines up to a blank line,
/// then as many bytes as the length field declares.
pub fn decode_frame(input: &[u8]) -> (r: Frame)
    ensures
        r@ == read_frame(input@),
        r matches Frame::Message { consumed, .. } ==> 0 < consumed <= input.len(),
{
    let mut block = HeaderBlock::new();
    let mut at: usize = 0;
    let mut step = HeaderStep::More;
    assert(input@.skip(0) =~= input@);
    while step == HeaderStep::More
        invariant
            at <= input.len(),
            step is More ==> read_header(HeaderBlockV::initial(), input@) == ({
                let (last, used) = read_header(block@, input@.skip(at as int));
                (last, (at + used) as nat)
            }),
            !(step is More) ==> read_header(HeaderBlockV::initial(), input@) == (step, at as nat),
            step is Body ==> at > 0,
        decreases input.len() - at, if step is More { 1int } else { 0int },
    {
        let rest = vstd::slice::slice_subrange(input, at, input.len());
        let n = line_length(rest);
        let line = vstd::slice::slice_subrange(rest, 0, n);
        proof {
            assert(rest@ =~= input@.skip(at as int));
            assert(line@ =~= first_line(rest@));
            assert(rest@.skip(n as int) =~= input@.skip(at + n));
        }
        step = block.feed(line);
        at = at + n;
    }
    match step {
        HeaderStep::Body(n) => {
            if n <= input.len() - at {
                let body = vstd::slice::slice_to_vec(vstd::slice::slice_subrange(input, at, at + n));
                Frame::Message { body, consumed: at + n }
            } else {
                Frame::Failed(FramingError::Truncated)
            }
        },
        HeaderStep::EndOfStream => Frame::EndOfStream,
        HeaderStep::Failed(e) => Frame::Failed(e),
        HeaderStep::More => Frame::Failed(FramingError::Truncated),
    }
}

/// The header line that is written for a body of `n` bytes is read as the
/// length field with the digits of `n`, whatever follows the line.
pub proof fn lemma_length_line(n: nat, tail: Seq<u8>)
    ensures
        first_line(header_prefix() + decimal(n) + line_break() + tail) == header_prefix() + decimal(
            n,
        ) + line_break(),
        classify(header_prefix() + decimal(n) + line_break()) == LineV::Length(decimal(n)),
{
    lemma_decimal(n);
    let digits = decimal(n);
    let k = digits.len() as int;
    let line = header_prefix() + digits + line_break();
    let input = line + tail;
    assert(line.len() == 18 + k);
    assert forall|j: int| 0 <= j < 16 implies line[j] == header_prefix()[j] by {}
    assert forall|j: int| 16 <= j < 16 + k implies #[trigger] line[j] == digits[j - 16] by {}
    assert(line[16 + k] == 13 && line[17 + k] == 10);
    // the line ends at the first line feed
    assert forall|j: int| 0 <= j < 17 + k implies #[trigger] input[j] != 10 by {
        assert(input[j] == line[j]);
        if 16 <= j < 16 + k {
            assert(is_digit(digits[j - 16]));
        }
    }
    assert(input[17 + k] == line[17 + k]);
    lemma_position(input, 10, 17 + k);
    assert(input.subrange(0, 18 + k) =~= line);
    assert(header_prefix() + decimal(n) + line_break() + tail =~= input);
    // the line without its line break
    let t = header_prefix() + digits;
    lemma_leading_spaces(line, 0);
    assert(is_digit(digits[k - 1]));
    assert(line[15 + k] == digits[k - 1]);
    assert forall|j: int| 16 + k <= j < line.len() implies is_space(#[trigger] line[j]) by {}
    lemma_trailing_spaces(line, 16 + k);
    assert(trimmed(line) =~= t);
    // the colon parts the name from the value
    assert forall|j: int| 0 <= j < 14 implies #[trigger] t[j] != 58 by {
        assert(t[j] == header_prefix()[j]);
    }
    assert(t[14] == 58);
    lemma_position(t, 58, 14);
    let name = t.subrange(0, 14);
    assert(name =~= header_prefix().subrange(0, 14));
    lemma_leading_spaces(name, 0);
    lemma_trailing_spaces(name, 14);
    assert(trimmed(name) =~= name);
    assert(lowered(name) =~= length_key());
    let value = t.subrange(15, t.len() as int);
    assert(value.len() == 1 + k);
    assert(value[0] == 32);
    assert forall|j: int| 1 <= j < 1 + k implies #[trigger] value[j] == digits[j - 1] by {}
    assert(is_digit(digits[0]));
    assert forall|j: int| 0 <= j < 1 implies is_space(#[trigger] value[j]) by {}
    lemma_leading_spaces(value, 1);
    assert forall|j: int| 1 + k <= j < value.len() implies is_space(#[trigger] value[j]) by {}
    lemma_trailing_spaces(value, 1 + k);
    assert(trimmed(value) =~= digits);
}

/// A line break alone is read as a blank line, whatever follows it.
pub proof fn lemma_blank_line(tail: Seq<u8>)
    ensures
        first_line(line_break() + tail) == line_break(),
        classify(line_break()) == LineV::Blank,
{
    let input = line_break() + tail;
    assert(input[0] == 13 && input[1] == 10);
    assert forall|j: int| 0 <= j < 1 implies #[trigger] input[j] != 10 by {}
    lemma_position(input, 10, 1);
    assert(input.subrange(0, 2) =~= line_break());
    assert forall|j: int| 0 <= j < 2 implies is_space(#[trigger] line_break()[j]) by {}
    lemma_leading_spaces(line_break(), 2);
}

/// Reading gives back what was written: from a written frame, followed by
/// anything, the body is read as it was, and the bytes taken are those of the
/// frame. The length that the header declares is the body's length in bytes.
pub proof fn lemma_read_written(body: Seq<u8>, rest: Seq<u8>)
    requires
        body.len() <= usize::MAX,
    ensures
        read_frame(framed(body) + rest) == (FrameV::Message {
            body,
            consumed: framed(body).len(),
        }),
{
    let n = body.len();
    let digits = decimal(n);
    let line = header_prefix() + digits + line_break();
    let input = framed(body) + rest;
    let after_line = line_break() + body + rest;
    let after_header = body + rest;
    lemma_decimal(n);
    assert(input =~= header_prefix() + decimal(n) + line_break() + after_line);
    lemma_length_line(n, after_line);
    assert(input.skip(line.len() as int) =~= after_line);
    lemma_blank_line(after_header);
    assert(after_line =~= line_break() + after_header);
    let start = HeaderBlockV::initial();
    let seen = HeaderBlockV { started: true, length: Some(digits) };
    assert(start.feed(line) == (seen, HeaderStep::More));
    assert(seen.feed(line_break()).1 == HeaderStep::Body(n as usize));
    assert(read_header(seen, after_line) == (HeaderStep::Body(n as usize), 2nat));
    assert(read_header(start, input) == (HeaderStep::Body(n as usize), (line.len() + 2) as nat));
    assert(framed(body).len() == line.len() + 2 + n);
    assert(input.subrange((line.len() + 2) as int, (line.len() + 2 + n) as int) =~= body);
}

} // verus!
