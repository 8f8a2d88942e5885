use vstd::prelude::*;
use vstd::utf8::{valid_utf8, decode_utf8};

use crate::command::{Command, ParseError, words};
use crate::stack_vec::StackVec;

verus! {

/// The bell, sent for input that is refused.
pub const BELL: u8 = 7;

/// The backspace control byte.
pub const BACKSPACE: u8 = 8;

/// The delete control byte, which erases like a backspace.
pub const DELETE: u8 = 127;

/// Bytes that are echoed and kept in the line: printable ASCII and every
/// byte above ASCII.
pub open spec fn is_line_byte(b: u8) -> bool {
    (32 <= b && b <= 126) || 128 <= b
}

/// Bytes that end the line.
pub open spec fn is_line_end(b: u8) -> bool {
    b == 13 || b == 10
}

/// Bytes that erase the last character.
pub open spec fn is_erase(b: u8) -> bool {
    b == BACKSPACE || b == DELETE
}

/// What the terminal receives when a character is erased: backspace, space,
/// backspace.
pub open spec fn erase_echo() -> Seq<u8> {
    seq![BACKSPACE, 32u8, BACKSPACE]
}

/// The line after receiving `b`, from `line` in a buffer of `capacity`
/// bytes: a line byte is kept when the buffer has room, an erase removes the
/// last byte, and every other byte leaves the line as it is.
pub open spec fn fed_line(line: Seq<u8>, capacity: nat, b: u8) -> Seq<u8> {
    if is_line_byte(b) {
        if line.len() < capacity {
            line.push(b)
        } else {
            line
        }
    } else if is_erase(b) && line.len() > 0 {
        line.drop_last()
    } else {
        line
    }
}

/// What is sent back to the terminal on receiving `b` with `line` in a
/// buffer of `capacity` bytes: the byte itself when it is kept, a bell when
/// a line byte finds the buffer full or the byte is an unknown control byte,
/// a line feed at the end of the line, and the erase sequence when a byte is
/// erased (nothing when the line is empty).
pub open spec fn fed_echo(line: Seq<u8>, capacity: nat, b: u8) -> Seq<u8> {
    if is_line_byte(b) {
        if line.len() < capacity {
            seq![b]
        } else {
            seq![BELL]
        }
    } else if is_line_end(b) {
        seq![10u8]
    } else if is_erase(b) {
        if line.len() > 0 {
            erase_echo()
        } else {
            Seq::empty()
        }
    } else {
        seq![BELL]
    }
}

/// The line after receiving `bytes` in order.
pub open spec fn typed_line(line: Seq<u8>, capacity: nat, bytes: Seq<u8>) -> Seq<u8>
    decreases bytes.len(),
{
    if bytes.len() == 0 {
        line
    } else {
        fed_line(typed_line(line, capacity, bytes.drop_last()), capacity, bytes.last())
    }
}

/// Everything sent back to the terminal while receiving `bytes` in order.
pub open spec fn typed_echo(line: Seq<u8>, capacity: nat, bytes: Seq<u8>) -> Seq<u8>
    decreases bytes.len(),
{
    if bytes.len() == 0 {
        Seq::empty()
    } else {
        typed_echo(line, capacity, bytes.drop_last()) + fed_echo(
            typed_line(line, capacity, bytes.drop_last()),
            capacity,
            bytes.last(),
        )
    }
}

/// `n` bells.
pub open spec fn bells(n: nat) -> Seq<u8> {
    Seq::new(n, |i: int| BELL)
}

/// Typing line bytes into an empty buffer of `capacity` bytes keeps and
/// echoes the first `capacity` of them, and answers each byte beyond with
/// one bell, neither echoing nor keeping it. A carriage return then ends the
/// line without changing it and echoes a new line.
pub proof fn lemma_typing_past_capacity(capacity: nat, bytes: Seq<u8>)
    requires
        forall|i: int| 0 <= i < bytes.len() ==> is_line_byte(#[trigger] bytes[i]),
    ensures
        typed_line(Seq::empty(), capacity, bytes) == bytes.take(
            if bytes.len() <= capacity { bytes.len() as int } else { capacity as int },
        ),
        typed_echo(Seq::empty(), capacity, bytes) == bytes.take(
            if bytes.len() <= capacity { bytes.len() as int } else { capacity as int },
        ) + bells(if bytes.len() <= capacity { 0 } else { (bytes.len() - capacity) as nat }),
        typed_line(Seq::empty(), capacity, bytes.push(13u8)) == typed_line(
            Seq::empty(),
            capacity,
            bytes,
        ),
        typed_echo(Seq::empty(), capacity, bytes.push(13u8)) == typed_echo(
            Seq::empty(),
            capacity,
            bytes,
        ) + seq![10u8],
    decreases bytes.len(),
{
    let with_end = bytes.push(13u8);
    assert(with_end.drop_last() =~= bytes);
    if bytes.len() == 0 {
        assert(bytes.take(0) =~= Seq::<u8>::empty());
        assert(bells(0) =~= Seq::<u8>::empty());
        assert(typed_echo(Seq::empty(), capacity, bytes) =~= bytes.take(0) + bells(0));
    } else {
        let prefix = bytes.drop_last();
        assert forall|i: int| 0 <= i < prefix.len() implies is_line_byte(#[trigger] prefix[i]) by {
            assert(prefix[i] == bytes[i]);
        }
        lemma_typing_past_capacity(capacity, prefix);
        assert(is_line_byte(bytes[bytes.len() - 1]));
        if bytes.len() <= capacity {
            assert(prefix.take(prefix.len() as int) =~= prefix);
            assert(bytes.take(bytes.len() as int) =~= bytes);
            assert(bytes =~= prefix.push(bytes.last()));
            assert(bells(0) =~= Seq::<u8>::empty());
            assert(typed_echo(Seq::empty(), capacity, bytes) =~= bytes.take(
                bytes.len() as int,
            ) + bells(0));
        } else {
            assert(prefix.take(capacity as int) =~= bytes.take(capacity as int));
            if prefix.len() <= capacity {
                assert(prefix.take(prefix.len() as int) =~= bytes.take(capacity as int));
                assert(bells(0).push(BELL) =~= bells(1));
                assert(bells(0) =~= Seq::<u8>::empty());
            } else {
                assert(bells((prefix.len() - capacity) as nat).push(BELL) =~= bells(
                    (bytes.len() - capacity) as nat,
                ));
            }
            assert(typed_echo(Seq::empty(), capacity, bytes) =~= bytes.take(capacity as int)
                + bells((bytes.len() - capacity) as nat));
        }
    }
}

/// What the editor sends back to the terminal for one received byte, and
/// whether that byte completed the line.
pub struct Feed {
    pub echo: Vec<u8>,
    pub line_done: bool,
}

/// The line being typed at the shell prompt, in a bounded buffer.
pub struct LineEditor {
    line: StackVec<u8>,
}

impl View for LineEditor {
    type V = Seq<u8>;

    /// The bytes of the line typed so far.
    closed spec fn view(&self) -> Seq<u8> {
        self.line@
    }
}

impl LineEditor {
    /// The number of bytes the line can hold.
    pub closed spec fn spec_capacity(&self) -> nat {
        self.line.spec_capacity()
    }

    /// The buffer is well formed.
    pub closed spec fn wf(&self) -> bool {
        self.line.wf()
    }

    /// An empty line over `storage`, which fixes the line's capacity.
    pub fn new(storage: Vec<u8>) -> (r: Self)
        ensures
            r.wf(),
            r@ == Seq::<u8>::empty(),
            r.spec_capacity() == storage@.len(),
    {
        LineEditor { line: StackVec::new(storage) }
    }

    /// Handles one received byte. A line byte is echoed and kept when the
    /// buffer has room, and answered with a bell otherwise. A carriage return
    /// or line feed echoes a new line and completes the line. Backspace and
    /// delete remove the last byte and erase it on screen, and do nothing on
    /// an empty line. Any other byte is answered with a bell.
    pub fn feed(&mut self, byte: u8) -> (r: Feed)
        requires
            old(self).wf(),
        ensures
            final(self).wf(),
            final(self).spec_capacity() == old(self).spec_capacity(),
            r.line_done == is_line_end(byte),
            final(self)@ == fed_line(old(self)@, old(self).spec_capacity(), byte),
            r.echo@ == fed_echo(old(self)@, old(self).spec_capacity(), byte),
    {
        proof {
            self.line.lemma_len_bounded();
        }
        if (32 <= byte && byte <= 126) || 128 <= byte {
            match self.line.push(byte) {
                Ok(()) => Feed { echo: vec![byte], line_done: false },
                Err(_) => Feed { echo: vec![BELL], line_done: false },
            }
        } else if byte == 13 || byte == 10 {
            Feed { echo: vec![10u8], line_done: true }
        } else if byte == BACKSPACE || byte == DELETE {
            match self.line.pop() {
                Some(_) => Feed { echo: vec![BACKSPACE, 32u8, BACKSPACE], line_done: false },
                None => Feed { echo: Vec::new(), line_done: false },
            }
        } else {
            Feed { echo: vec![BELL], line_done: false }
        }
    }

    /// The number of bytes in the line.
    pub fn len(&self) -> (r: usize)
        requires
            self.wf(),
        ensures
            r == self@.len(),
    {
        self.line.len()
    }

    /// A copy of the line's bytes.
    pub fn line(&self) -> (r: Vec<u8>)
        requires
            self.wf(),
        ensures
            r@ == self@,
    {
        let n = self.line.len();
        let mut out: Vec<u8> = Vec::new();
        let mut i: usize = 0;
        while i < n
            invariant
                self.wf(),
                n == self@.len(),
                i <= n,
                out@ == self@.take(i as int),
            decreases n - i,
        {
            out.push(self.line.get(i));
            i = i + 1;
            assert(out@ =~= self@.take(i as int));
        }
        assert(self@.take(n as int) =~= self@);
        out
    }
}

/// Relies on `core::str::from_utf8`: it accepts exactly the byte strings that
/// are valid UTF-8, and the text then holds the characters they encode.
#[verifier::external_body]
fn from_utf8(bytes: &[u8]) -> (r: Option<&str>)
    ensures
        r is Some <==> valid_utf8(bytes@),
        r matches Some(s) ==> s@ == decode_utf8(bytes@),
{
    core::str::from_utf8(bytes).ok()
}

/// Why a completed line gave no command.
#[derive(Debug, Clone, Copy, PartialEq, Eq, Structural)]
pub enum LineError {
    /// The line's bytes are not UTF-8 text.
    NotText,
    /// The line's text could not be parsed into a command.
    Parse(ParseError),
}

/// Interprets a completed line as UTF-8 text and parses it into a command,
/// with `buf` as storage for the arguments.
pub fn parse_line<'a>(line: &'a [u8], buf: Vec<&'a str>) -> (r: Result<Command<'a>, LineError>)
    ensures
        !valid_utf8(line@) <==> r == Err::<Command<'a>, LineError>(LineError::NotText),
        valid_utf8(line@) ==> {
            let w = words(decode_utf8(line@));
            &&& w.len() > buf@.len() <==> r == Err::<Command<'a>, LineError>(
                LineError::Parse(ParseError::TooManyArgs),
            )
            &&& w.len() <= buf@.len() && w.len() == 0 <==> r == Err::<Command<'a>, LineError>(
                LineError::Parse(ParseError::Empty),
            )
            &&& r matches Ok(c) ==> c.wf() && c@ == w
        },
{
    match from_utf8(line) {
        None => Err(LineError::NotText),
        Some(text) => match Command::parse(text, buf) {
            Ok(c) => Ok(c),
            Err(e) => Err(LineError::Parse(e)),
        },
    }
}

/// What the shell prints for a line that gave no command: nothing for an
/// empty line, which is simply prompted again, and a one-line report
/// otherwise.
pub fn error_reply(e: LineError) -> (r: &'static str)
    ensures
        e == LineError::Parse(ParseError::Empty) ==> r@ == Seq::<char>::empty(),
        e == LineError::Parse(ParseError::TooManyArgs) ==> r@ == "error: too many arguments\n"@,
        e == LineError::NotText ==> r@ == "error: line is not UTF-8 text\n"@,
{
    match e {
        LineError::Parse(ParseError::Empty) => {
            proof {
                reveal_strlit("");
            }
            ""
        },
        LineError::Parse(ParseError::TooManyArgs) => "error: too many arguments\n",
        LineError::NotText => "error: line is not UTF-8 text\n",
    }
}

} // verus!
