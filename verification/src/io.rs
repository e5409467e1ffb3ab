//! The console capability used by TRAP handling.  The engine sees only
//! character-level primitives plus a halted latch; hosts supply their own
//! implementation.  `BufferedIO` is the reference implementation for tests
//! and embedding: a string output sink and a queued input.

use vstd::prelude::*;
use vstd::string::*;
use std::collections::VecDeque;
use crate::strutil::push_char;

verus! {

/// The TRAP-visible peripheral.  Reading is non-blocking by contract:
/// `read_char` returns `None` when no input is available now, and the engine
/// then leaves the destination register unmodified rather than stalling.
///
/// An implementation exposes three views: the characters written so far,
/// the characters queued for reading, and the halted latch.  Writing
/// appends exactly the given characters; reading pops the front of the
/// queue; halting sets the latch and touches nothing else.  Only the
/// prompt-and-echo read leaves its output open, since the prompt is the
/// implementation's own.
pub trait IO: Sized {
    /// Whether the halted latch is set, as specifications see it.
    spec fn spec_halted(&self) -> bool;

    /// What has been written so far, as specifications see it.
    spec fn spec_output(&self) -> Seq<char>;

    /// What is queued for reading, front first, as specifications see it.
    spec fn spec_input(&self) -> Seq<char>;

    /// Writes a character to the console (TRAP x21 - OUT).
    fn write_char(&mut self, ch: char)
        ensures
            final(self).spec_output() == old(self).spec_output().push(ch),
            final(self).spec_input() == old(self).spec_input(),
            final(self).spec_halted() == old(self).spec_halted(),
    ;

    /// Writes a string to the console (TRAP x22 - PUTS).
    fn write_str(&mut self, s: &str)
        ensures
            final(self).spec_output() == old(self).spec_output() + s@,
            final(self).spec_input() == old(self).spec_input(),
            final(self).spec_halted() == old(self).spec_halted(),
    ;

    /// Reads a character from input (TRAP x20 - GETC); `None` when no input
    /// is available now, and nothing changes.
    fn read_char(&mut self) -> (r: Option<char>)
        ensures
            old(self).spec_input().len() == 0 ==> r is None && final(self).spec_input() == old(self).spec_input(),
            old(self).spec_input().len() > 0 ==> r == Some(old(self).spec_input()[0]) && final(self).spec_input() == old(self).spec_input().drop_first(),
            final(self).spec_output() == old(self).spec_output(),
            final(self).spec_halted() == old(self).spec_halted(),
    ;

    /// Prompts and reads a character with echo (TRAP x23 - IN).  The result
    /// and the queue behave as for `read_char`; what lands in the output is
    /// the implementation's own prompt and echo.
    fn read_char_with_echo(&mut self) -> (r: Option<char>)
        ensures
            old(self).spec_input().len() == 0 ==> r is None && final(self).spec_input() == old(self).spec_input(),
            old(self).spec_input().len() > 0 ==> r == Some(old(self).spec_input()[0]) && final(self).spec_input() == old(self).spec_input().drop_first(),
            final(self).spec_halted() == old(self).spec_halted(),
    ;

    /// Sets the halted latch (TRAP x25 - HALT).
    fn halt(&mut self)
        ensures
            final(self).spec_halted(),
            final(self).spec_output() == old(self).spec_output(),
            final(self).spec_input() == old(self).spec_input(),
    ;

    /// Queries the halted latch.
    fn is_halted(&self) -> (r: bool)
        ensures
            r == self.spec_halted(),
    ;
}

/// Buffered console: output collects in a string, input comes from a queue.
/// Made for embedding and tests.
#[derive(Debug)]
pub struct BufferedIO {
    output: String,
    input: VecDeque<char>,
    halted: bool,
}

impl BufferedIO {
    pub fn new() -> (r: BufferedIO)
        ensures
            r.spec_output() == Seq::<char>::empty(),
            r.spec_input() == Seq::<char>::empty(),
            !r.spec_halted(),
    {
        BufferedIO { output: String::new(), input: VecDeque::new(), halted: false }
    }

    /// All output written so far.
    pub fn output(&self) -> (r: &str)
        ensures
            r@ == self.spec_output(),
    {
        self.output.as_str()
    }

    /// Empties the output buffer.
    pub fn clear_output(&mut self)
        ensures
            final(self).spec_output() == Seq::<char>::empty(),
            final(self).spec_input() == old(self).spec_input(),
            final(self).spec_halted() == old(self).spec_halted(),
    {
        self.output = String::new();
    }

    /// Queues one input character.
    pub fn push_input(&mut self, ch: char)
        ensures
            final(self).spec_input() == old(self).spec_input().push(ch),
            final(self).spec_output() == old(self).spec_output(),
            final(self).spec_halted() == old(self).spec_halted(),
    {
        self.input.push_back(ch);
    }

    /// Queues a whole string as input.
    pub fn push_input_str(&mut self, s: &str)
        ensures
            final(self).spec_input() == old(self).spec_input() + s@,
            final(self).spec_output() == old(self).spec_output(),
            final(self).spec_halted() == old(self).spec_halted(),
    {
        let n = s.unicode_len();
        let mut i: usize = 0;
        while i < n
            invariant
                i <= n,
                n == s@.len(),
                self.spec_input() == old(self).spec_input() + s@.take(i as int),
                self.spec_output() == old(self).spec_output(),
                self.spec_halted() == old(self).spec_halted(),
            decreases n - i,
        {
            let c = s.get_char(i);
            self.input.push_back(c);
            proof {
                assert(self.spec_input() =~= old(self).spec_input() + s@.take(i + 1));
            }
            i = i + 1;
        }
        proof {
            assert(s@.take(n as int) =~= s@);
        }
    }

    /// Clears the halted latch and both buffers, to rerun.
    pub fn reset(&mut self)
        ensures
            !final(self).spec_halted(),
            final(self).spec_output() == Seq::<char>::empty(),
            final(self).spec_input() == Seq::<char>::empty(),
    {
        self.halted = false;
        self.output = String::new();
        self.input = VecDeque::new();
    }
}

impl Default for BufferedIO {
    fn default() -> (r: BufferedIO)
        ensures
            r.spec_output() == Seq::<char>::empty(),
            r.spec_input() == Seq::<char>::empty(),
            !r.spec_halted(),
    {
        BufferedIO::new()
    }
}

impl IO for BufferedIO {
    closed spec fn spec_halted(&self) -> bool {
        self.halted
    }

    closed spec fn spec_output(&self) -> Seq<char> {
        self.output@
    }

    closed spec fn spec_input(&self) -> Seq<char> {
        self.input@
    }

    /// Appends the character to the output buffer.
    fn write_char(&mut self, ch: char)
        ensures
            final(self).spec_output() == old(self).spec_output().push(ch),
            final(self).spec_input() == old(self).spec_input(),
            final(self).spec_halted() == old(self).spec_halted(),
    {
        push_char(&mut self.output, ch);
    }

    /// Appends the whole string to the output buffer.
    fn write_str(&mut self, s: &str)
        ensures
            final(self).spec_output() == old(self).spec_output() + s@,
            final(self).spec_input() == old(self).spec_input(),
            final(self).spec_halted() == old(self).spec_halted(),
    {
        self.output.append(s);
    }

    /// Pops the front of the input queue, if any.
    fn read_char(&mut self) -> (r: Option<char>)
        ensures
            old(self).spec_input().len() == 0 ==> r is None && final(self).spec_input() == old(
                self).spec_input() && final(self).spec_output() == old(self).spec_output() && final(
                self).spec_halted() == old(self).spec_halted(),
            old(self).spec_input().len() > 0 ==> r == Some(old(self).spec_input()[0])
                && final(self).spec_input() == old(self).spec_input().drop_first()
                && final(self).spec_output() == old(self).spec_output()
                && final(self).spec_halted() == old(self).spec_halted(),
    {
        self.input.pop_front()
    }

    /// Writes the prompt, then reads and echoes one character.
    fn read_char_with_echo(&mut self) -> (r: Option<char>)
        ensures
            old(self).spec_input().len() == 0 ==> r is None && final(self).spec_input() == old(self).spec_input() && final(self).spec_output() == old(self).spec_output()
                + "Input a character> "@,
            old(self).spec_input().len() > 0 ==> r == Some(old(self).spec_input()[0]) && final(self).spec_input() == old(self).spec_input().drop_first() && final(self).spec_output()
                == old(self).spec_output() + "Input a character> "@ + seq![
                old(self).spec_input()[0],
            ],
            final(self).spec_halted() == old(self).spec_halted(),
    {
        self.write_str("Input a character> ");
        let got = self.read_char();
        match got {
            Some(ch) => {
                self.write_char(ch);
                proof {
                    assert(self.spec_output() =~= old(self).spec_output()
                        + "Input a character> "@ + seq![old(self).spec_input()[0]]);
                }
                Some(ch)
            },
            None => None,
        }
    }

    fn halt(&mut self)
        ensures
            final(self).spec_halted(),
    {
        self.halted = true;
    }

    fn is_halted(&self) -> (r: bool)
        ensures
            r == self.spec_halted(),
    {
        self.halted
    }
}

} // verus!
