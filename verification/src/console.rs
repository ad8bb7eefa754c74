use std::collections::VecDeque;
use vstd::prelude::*;

verus! {

/// A character source and sink behind a serial port.
///
/// `getchar` returns 0 when no input is waiting. `set_input` and `get_output`
/// are the polled side of the same channel, for embeddings that own the
/// terminal themselves.
pub trait Console {
    fn putchar(&mut self, c: u8);

    fn getchar(&mut self) -> u8;

    fn set_input(&mut self, c: u8);

    fn get_output(&mut self) -> u8;
}

/// A console that swallows output and never has input.
pub struct TtyDummy {}

impl TtyDummy {
    pub fn new() -> (tty: Self) {
        TtyDummy {  }
    }
}

impl Console for TtyDummy {
    fn putchar(&mut self, _c: u8) {
    }

    fn getchar(&mut self) -> (c: u8)
        ensures
            c == 0,
    {
        0
    }

    fn set_input(&mut self, _c: u8) {
    }

    fn get_output(&mut self) -> (c: u8)
        ensures
            c == 0,
    {
        0
    }
}

/// The characters that wait in the two directions of a queued console.
pub struct TtyWebView {
    /// What was given as input and not yet read by the machine, oldest first.
    pub input: Seq<u8>,
    /// What the machine has written and the embedding not yet taken, oldest first.
    pub output: Seq<u8>,
}

impl TtyWebView {
    /// The queues after the machine has written `c`.
    pub open spec fn sent(self, c: u8) -> TtyWebView {
        TtyWebView { output: self.output.push(c), ..self }
    }

    /// The queues after the embedding has given `c` as input.
    pub open spec fn typed(self, c: u8) -> TtyWebView {
        TtyWebView { input: self.input.push(c), ..self }
    }

    /// The queues after the machine has read a character, and the
    /// character: the oldest of the input, or 0 if there is none.
    pub open spec fn read(self) -> (TtyWebView, u8) {
        if self.input.len() == 0 {
            (self, 0)
        } else {
            (TtyWebView { input: self.input.drop_first(), ..self }, self.input[0])
        }
    }

    /// The queues after the embedding has taken a character of the output,
    /// and the character: the oldest of the output, or 0 if there is none.
    pub open spec fn shown(self) -> (TtyWebView, u8) {
        if self.output.len() == 0 {
            (self, 0)
        } else {
            (TtyWebView { output: self.output.drop_first(), ..self }, self.output[0])
        }
    }
}

/// A console of two queues, for an embedding that polls: the machine
/// writes to one and reads from the other.
pub struct TtyWeb {
    pub queue_i: VecDeque<u8>,
    pub queue_o: VecDeque<u8>,
}

impl View for TtyWeb {
    type V = TtyWebView;

    open spec fn view(&self) -> TtyWebView {
        TtyWebView { input: self.queue_i@, output: self.queue_o@ }
    }
}

impl TtyWeb {
    pub fn new() -> (tty: Self)
        ensures
            tty@ == (TtyWebView { input: Seq::empty(), output: Seq::empty() }),
    {
        let tty = TtyWeb { queue_i: VecDeque::new(), queue_o: VecDeque::new() };
        assert(tty@.input =~= Seq::empty());
        assert(tty@.output =~= Seq::empty());
        tty
    }

    /// Appends `c` to the output.
    pub fn put(&mut self, c: u8)
        ensures
            final(self)@ == old(self)@.sent(c),
    {
        self.queue_o.push_back(c);
    }

    /// Takes the oldest character of the input; 0 if there is none.
    pub fn get(&mut self) -> (c: u8)
        ensures
            (final(self)@, c) == old(self)@.read(),
    {
        match self.queue_i.pop_front() {
            Some(c) => c,
            None => 0,
        }
    }

    /// Appends `c` to the input.
    pub fn give(&mut self, c: u8)
        ensures
            final(self)@ == old(self)@.typed(c),
    {
        self.queue_i.push_back(c);
    }

    /// Takes the oldest character of the output; 0 if there is none.
    pub fn take(&mut self) -> (c: u8)
        ensures
            (final(self)@, c) == old(self)@.shown(),
    {
        match self.queue_o.pop_front() {
            Some(c) => c,
            None => 0,
        }
    }
}

impl Console for TtyWeb {
    fn putchar(&mut self, c: u8)
        ensures
            final(self)@ == old(self)@.sent(c),
    {
        self.put(c)
    }

    fn getchar(&mut self) -> (c: u8)
        ensures
            (final(self)@, c) == old(self)@.read(),
    {
        self.get()
    }

    fn set_input(&mut self, c: u8)
        ensures
            final(self)@ == old(self)@.typed(c),
    {
        self.give(c)
    }

    fn get_output(&mut self) -> (c: u8)
        ensures
            (final(self)@, c) == old(self)@.shown(),
    {
        self.take()
    }
}

pub const CHAR_CR: u8 = 0x0d;
pub const CHAR_ESC: u8 = 0x1b;
pub const CHAR_BRACKET: u8 = 0x5b;
pub const CHAR_SEMICOLON: u8 = 0x3b;
pub const CHAR_M: u8 = 0x6d;
pub const CHAR_0: u8 = 0x30;
pub const CHAR_9: u8 = 0x39;

/// The filter of a terminal that shows plain text only: it drops carriage
/// returns and ANSI escape sequences.
#[derive(Clone, Copy, Debug, PartialEq, Eq, Structural)]
pub struct EscapeFilter {
    /// An escape sequence has begun and not ended.
    pub in_esc_sequences: bool,
    /// The number that the digits of the sequence make so far.
    pub esc_command_value: u32,
}

impl EscapeFilter {

    /// Outside any escape sequence.
    pub open spec fn spec_new() -> EscapeFilter {
        EscapeFilter { in_esc_sequences: false, esc_command_value: 0 }
    }

    #[verifier::when_used_as_spec(spec_new)]
    pub fn new() -> (filter: EscapeFilter)
        ensures
            filter == Self::spec_new(),
    {
        EscapeFilter { in_esc_sequences: false, esc_command_value: 0 }
    }

    /// The filter after the character `c`, and whether `c` is to be shown. A
    /// carriage return is dropped. ESC begins a sequence; within a sequence `[`
    /// and `;` are dropped, digits are gathered into a number, `m` ends the
    /// sequence and clears the number, and any other character ends the sequence;
    /// all of them are dropped. Outside a sequence a character is shown if it
    /// is ASCII.
    pub open spec fn spec_putchar(self, c: u8) -> (EscapeFilter, bool) {
        if c == CHAR_CR {
            (self, false)
        } else if c == CHAR_ESC {
            (EscapeFilter { in_esc_sequences: true, ..self }, false)
        } else if self.in_esc_sequences {
            if c == CHAR_BRACKET || c == CHAR_SEMICOLON {
                (self, false)
            } else if CHAR_0 <= c && c <= CHAR_9 {
                (
                    EscapeFilter {
                        esc_command_value: self.esc_command_value.wrapping_mul(10).wrapping_add(
                            (c - CHAR_0) as u32,
                        ),
                        ..self
                    },
                    false,
                )
            } else if c == CHAR_M {
                (EscapeFilter { in_esc_sequences: false, esc_command_value: 0 }, false)
            } else {
                (EscapeFilter { in_esc_sequences: false, ..self }, false)
            }
        } else {
            (self, c < 0x80)
        }
    }

    #[verifier::when_used_as_spec(spec_putchar)]
    pub fn putchar(self, c: u8) -> (r: (EscapeFilter, bool))
        ensures
            r == self.spec_putchar(c),
    {
        if c == CHAR_CR {
            (self, false)
        } else if c == CHAR_ESC {
            (EscapeFilter { in_esc_sequences: true, ..self }, false)
        } else if self.in_esc_sequences {
            if c == CHAR_BRACKET || c == CHAR_SEMICOLON {
                (self, false)
            } else if CHAR_0 <= c && c <= CHAR_9 {
                (
                    EscapeFilter {
                        esc_command_value: self.esc_command_value.wrapping_mul(10).wrapping_add(
                            (c - CHAR_0) as u32,
                        ),
                        ..self
                    },
                    false,
                )
            } else if c == CHAR_M {
                (EscapeFilter { in_esc_sequences: false, esc_command_value: 0 }, false)
            } else {
                (EscapeFilter { in_esc_sequences: false, ..self }, false)
            }
        } else {
            (self, c < 0x80)
        }
    }

}

} // verus!
