//! One operation of the driver as a conversation with the I²C bus.
//!
//! An [`Exchange`] decides, step by step, what the bus must do next
//! ([`Action`]) and, once the bus has answered ([`Event`]), either asks for
//! the next action or ends with the operation's outcome. The host that owns
//! the bus (blocking or asynchronous) carries out each action and reports
//! back; it decides nothing.
use crate::buffer::{be_bytes, be_value, bytes_mut_content, bytes_put_u16, bytes_put_u8, bytes_to_vec, bytes_with_capacity, get_u16};
use crate::command::{command_code, command_delay_ns, Command};
use crate::crc::{checked_word, checked_words, lemma_checked_words_valid, word_crc, words_have_valid_crc, words_valid};
use crate::error::Error;
use crate::status::Status;
use crate::{lemma_measurement_roundtrip, measurement_bytes, measurement_of, Measurement};
use vstd::prelude::*;

verus! {

/// What the driver writes for a command with arguments: the command code,
/// most significant byte first, then each argument word with its checksum.
pub open spec fn command_frame(command: Command, args: Seq<u16>) -> Seq<u8> {
    be_bytes(command_code(command)) + checked_words(args)
}

/// The argument words of an optional argument list.
pub open spec fn args_of(args: Option<&[u16]>) -> Seq<u16> {
    match args {
        Some(a) => a@,
        None => Seq::empty(),
    }
}

/// The bytes to write for `command` followed by `args`.
pub fn frame_with_args(command: Command, args: Option<&[u16]>) -> (frame: Vec<u8>)
    requires
        2 + 3 * args_of(args).len() <= isize::MAX / 2,
    ensures
        frame@ == command_frame(command, args_of(args)),
{
    let mut buffer = bytes_with_capacity(8);
    bytes_put_u16(&mut buffer, command.code());
    if let Some(args) = args {
        let mut i: usize = 0;
        while i < args.len()
            invariant
                0 <= i <= args@.len(),
                2 + 3 * args@.len() <= isize::MAX / 2,
                bytes_mut_content(buffer) == be_bytes(command_code(command)) + checked_words(
                    args@.take(i as int),
                ),
            decreases args@.len() - i,
        {
            let arg = args[i];
            proof {
                lemma_checked_words_valid(args@.take(i as int));
            }
            bytes_put_u16(&mut buffer, arg);
            bytes_put_u8(&mut buffer, word_crc(arg));
            proof {
                let taken = args@.take(i + 1);
                assert(taken.drop_last() =~= args@.take(i as int));
                assert(taken.last() == arg);
            }
            i = i + 1;
        }
        proof {
            assert(args@.take(args@.len() as int) =~= args@);
        }
    } else {
        assert(be_bytes(command_code(command)) + checked_words(Seq::empty()) =~= be_bytes(
            command_code(command),
        ));
    }
    bytes_to_vec(&buffer)
}

/// The three forms that an exchange with the sensor takes.
#[derive(Debug, Clone, Copy, PartialEq, Eq, Structural)]
pub enum Shape {
    /// Write the command code; nothing comes back.
    Command,
    /// Write the command (and its arguments), wait for the sensor, then
    /// read words, each with its checksum, and check them.
    ReadWords,
    /// Write the command code and read the answer in one transaction,
    /// the sensor holding the clock line until it is ready.
    Stretched,
}

/// What the bytes read in an exchange stand for.
#[derive(Debug, Clone, Copy, PartialEq, Eq, Structural)]
pub enum Expect {
    /// Nothing is read.
    Nothing,
    /// A measurement.
    Measurement,
    /// The status register.
    Status,
}

/// How far an exchange has come.
#[derive(Debug, Clone, Copy, PartialEq, Eq, Structural)]
pub enum Phase {
    /// Nothing has been done yet.
    Ready,
    /// The command has been handed to the bus.
    Sent,
    /// The wait after the command has been asked for.
    Waiting,
    /// The read has been asked for.
    Reading,
    /// The exchange is over.
    Done,
}

/// How many reports an exchange in `phase` can still take before it is
/// over: every action brings it strictly closer to the end.
pub open spec fn steps_left(phase: Phase) -> nat {
    match phase {
        Phase::Ready => 4,
        Phase::Sent => 3,
        Phase::Waiting => 2,
        Phase::Reading => 1,
        Phase::Done => 0,
    }
}

/// What the bus must do next.
#[derive(Debug)]
pub enum Action {
    /// Write this 16-bit command code, most significant byte first.
    WriteCommand(u16),
    /// Write these bytes.
    Write(Vec<u8>),
    /// Wait this many nanoseconds.
    Delay(u32),
    /// Read exactly this many bytes.
    Read(usize),
    /// Write these bytes, then read this many bytes, in one transaction.
    Transaction(Vec<u8>, usize),
}

/// What the bus reports back after an action.
#[derive(Debug)]
pub enum Event<E> {
    /// The outcome of a write.
    Written(Result<(), E>),
    /// The wait is over.
    Waited,
    /// The outcome of a read or of a transaction: the bytes read.
    Received(Result<Vec<u8>, E>),
}

/// What a successful exchange yields.
#[derive(Debug, Clone, Copy, PartialEq, Eq)]
pub enum Reply {
    /// The command was carried out; nothing was read.
    Done,
    /// A measurement was read.
    Measurement(Measurement),
    /// The status register was read.
    Status(Status),
}

/// The exchange's answer to an event.
#[derive(Debug)]
pub enum Step<E> {
    /// The bus must carry out this action and report back.
    Perform(Action),
    /// The exchange is over, with this outcome.
    Finish(Result<Reply, Error<E>>),
}

/// The abstract state of an exchange.
pub struct ExchangeView {
    /// The command sent.
    pub command: Command,
    /// The form of the exchange.
    pub shape: Shape,
    /// The bytes written to start it.
    pub frame: Seq<u8>,
    /// How many bytes are read.
    pub read_len: nat,
    /// What the bytes read stand for.
    pub expect: Expect,
    /// How far it has come.
    pub phase: Phase,
}

/// A fresh exchange that sends `command` alone.
pub open spec fn command_exchange(command: Command) -> ExchangeView {
    ExchangeView {
        command,
        shape: Shape::Command,
        frame: be_bytes(command_code(command)),
        read_len: 0,
        expect: Expect::Nothing,
        phase: Phase::Ready,
    }
}

/// A fresh exchange that sends `command` with `args`, waits, and reads
/// `read_len` bytes of checked words standing for `expect`.
pub open spec fn read_exchange(command: Command, args: Seq<u16>, read_len: nat, expect: Expect) -> ExchangeView {
    ExchangeView {
        command,
        shape: Shape::ReadWords,
        frame: command_frame(command, args),
        read_len,
        expect,
        phase: Phase::Ready,
    }
}

/// A fresh exchange that sends `command` and reads `read_len` bytes
/// standing for `expect` in the same transaction.
pub open spec fn stretched_exchange(command: Command, read_len: nat, expect: Expect) -> ExchangeView {
    ExchangeView {
        command,
        shape: Shape::Stretched,
        frame: be_bytes(command_code(command)),
        read_len,
        expect,
        phase: Phase::Ready,
    }
}

/// Whether `len` bytes are enough to decode what `expect` names.
pub open spec fn long_enough(expect: Expect, len: nat) -> bool {
    match expect {
        Expect::Nothing => true,
        Expect::Measurement => len >= 5,
        Expect::Status => len >= 2,
    }
}

/// Whether `reply` is what `bytes` decode to when they stand for `expect`.
pub open spec fn decodes_to(reply: Reply, expect: Expect, bytes: Seq<u8>) -> bool {
    match expect {
        Expect::Nothing => reply == Reply::Done,
        Expect::Measurement => reply == Reply::Measurement(measurement_of(bytes)),
        Expect::Status => reply matches Reply::Status(s) && s@ == be_value(bytes[0], bytes[1]),
    }
}

impl ExchangeView {
    /// Whether `event` is the kind of report that the exchange waits for.
    pub open spec fn awaits<E>(self, event: Event<E>) -> bool {
        match self.phase {
            Phase::Sent => event is Written,
            Phase::Waiting => event is Waited,
            Phase::Reading => match event {
                Event::Received(Ok(bytes)) => bytes@.len() == self.read_len,
                Event::Received(Err(_)) => true,
                _ => false,
            },
            _ => false,
        }
    }

    /// The same exchange, come as far as `phase`.
    pub open spec fn at(self, phase: Phase) -> ExchangeView {
        ExchangeView { phase, ..self }
    }

    /// The outcome of the exchange once `bytes` have been read.
    pub open spec fn outcome_of_read<E>(self, bytes: Seq<u8>, step: Step<E>) -> bool {
        if self.shape == Shape::ReadWords && !words_valid(bytes) {
            step matches Step::Finish(Err(Error::Crc))
        } else {
            step matches Step::Finish(Ok(reply)) && decodes_to(reply, self.expect, bytes)
        }
    }
}

/// A measurement read ends with exactly the measurement that the sensor
/// sent, checked words or not.
pub proof fn lemma_measurement_read<E>(exchange: ExchangeView, m: Measurement, step: Step<E>)
    requires
        exchange.expect == Expect::Measurement,
        exchange.outcome_of_read(measurement_bytes(m), step),
    ensures
        step == Step::<E>::Finish(Ok(Reply::Measurement(m))),
{
    lemma_measurement_roundtrip(m);
}

/// A status read ends with a status that holds exactly the bits that the
/// sensor sent.
pub proof fn lemma_status_read<E>(exchange: ExchangeView, bits: u16, step: Step<E>)
    requires
        exchange.expect == Expect::Status,
        exchange.outcome_of_read(checked_word(bits), step),
    ensures
        step matches Step::Finish(Ok(Reply::Status(s))) && s@ == bits,
{
    lemma_checked_words_valid(seq![bits]);
    assert(seq![bits].drop_last() =~= Seq::<u16>::empty());
    assert(checked_words(seq![bits]) =~= checked_word(bits));
    crate::buffer::lemma_be_roundtrip(bits);
}

/// One driver operation in progress.
pub struct Exchange {
    command: Command,
    shape: Shape,
    frame: Vec<u8>,
    read_len: usize,
    expect: Expect,
    phase: Phase,
}

impl View for Exchange {
    type V = ExchangeView;

    closed spec fn view(&self) -> ExchangeView {
        ExchangeView {
            command: self.command,
            shape: self.shape,
            frame: self.frame@,
            read_len: self.read_len as nat,
            expect: self.expect,
            phase: self.phase,
        }
    }
}

impl Exchange {
    /// The exchange's invariant: the bytes it reads suit what it decodes,
    /// and its phase suits its shape.
    #[verifier::type_invariant]
    spec fn wf(&self) -> bool {
        &&& long_enough(self.expect, self.read_len as nat)
        &&& match self.shape {
            Shape::Command => self.expect == Expect::Nothing && self.read_len == 0 && self.phase
                != Phase::Waiting && self.phase != Phase::Reading,
            Shape::ReadWords => self.read_len % 3 == 0,
            Shape::Stretched => self.phase != Phase::Sent && self.phase != Phase::Waiting,
        }
    }

    /// An exchange that sends `command` and reads nothing back.
    pub fn command(command: Command) -> (exchange: Exchange)
        ensures
            exchange@ == command_exchange(command),
    {
        let frame = frame_with_args(command, None);
        proof {
            assert(command_frame(command, Seq::empty()) =~= be_bytes(command_code(command)));
        }
        Exchange {
            command,
            shape: Shape::Command,
            frame,
            read_len: 0,
            expect: Expect::Nothing,
            phase: Phase::Ready,
        }
    }

    /// An exchange that sends `command` with `args`, waits the time the
    /// command needs, then reads `read_len` bytes of checked words that
    /// stand for `expect`.
    pub fn read_words(command: Command, args: Option<&[u16]>, read_len: usize, expect: Expect) -> (exchange: Exchange)
        requires
            2 + 3 * args_of(args).len() <= isize::MAX / 2,
            read_len % 3 == 0,
            long_enough(expect, read_len as nat),
        ensures
            exchange@ == read_exchange(command, args_of(args), read_len as nat, expect),
    {
        let frame = frame_with_args(command, args);
        Exchange { command, shape: Shape::ReadWords, frame, read_len, expect, phase: Phase::Ready }
    }

    /// An exchange that sends `command` and reads `read_len` bytes standing
    /// for `expect` in the same transaction, without checking checksums.
    pub fn stretched(command: Command, read_len: usize, expect: Expect) -> (exchange: Exchange)
        requires
            long_enough(expect, read_len as nat),
        ensures
            exchange@ == stretched_exchange(command, read_len as nat, expect),
    {
        let frame = frame_with_args(command, None);
        proof {
            assert(command_frame(command, Seq::empty()) =~= be_bytes(command_code(command)));
        }
        Exchange { command, shape: Shape::Stretched, frame, read_len, expect, phase: Phase::Ready }
    }

    /// The first action of the exchange.
    pub fn start(&mut self) -> (action: Action)
        requires
            old(self)@.phase == Phase::Ready,
        ensures
            steps_left(final(self)@.phase) < steps_left(old(self)@.phase),
            match old(self)@.shape {
                Shape::Command => action == Action::WriteCommand(command_code(old(self)@.command))
                    && final(self)@ == old(self)@.at(Phase::Sent),
                Shape::ReadWords => action matches Action::Write(bytes) && bytes@ == old(self)@.frame && final(self)@ == old(self)@.at(Phase::Sent),
                Shape::Stretched => action matches Action::Transaction(bytes, len) && bytes@ == old(self)@.frame && len == old(self)@.read_len && final(self)@ == old(self)@.at(
                    Phase::Reading,
                ),
            },
    {
        proof {
            use_type_invariant(&*self);
        }
        match self.shape {
            Shape::Command => {
                self.phase = Phase::Sent;
                Action::WriteCommand(self.command.code())
            },
            Shape::ReadWords => {
                self.phase = Phase::Sent;
                Action::Write(vstd::slice::slice_to_vec(self.frame.as_slice()))
            },
            Shape::Stretched => {
                self.phase = Phase::Reading;
                Action::Transaction(vstd::slice::slice_to_vec(self.frame.as_slice()), self.read_len)
            },
        }
    }

    /// Decodes the bytes read into the reply the exchange stands for.
    fn decode(&self, bytes: &[u8]) -> (reply: Reply)
        requires
            bytes@.len() == self.read_len,
        ensures
            decodes_to(reply, self.expect, bytes@),
    {
        proof {
            use_type_invariant(self);
        }
        match self.expect {
            Expect::Nothing => Reply::Done,
            Expect::Measurement => Reply::Measurement(Measurement::from_bytes(bytes)),
            Expect::Status => Reply::Status(Status::from_bits_retain(get_u16(bytes))),
        }
    }

    /// The exchange's answer to what the bus reported.
    ///
    /// A bus error ends the exchange with that error. After a successful
    /// write the exchange ends (a command alone) or asks for the wait the
    /// command needs; after the wait it asks for the read; the bytes read
    /// end it: with the decoded reply, or, where words are checked, with a
    /// checksum error if any word's checksum is wrong.
    pub fn step<E>(&mut self, event: Event<E>) -> (step: Step<E>)
        requires
            old(self)@.awaits(event),
        ensures
            steps_left(final(self)@.phase) < steps_left(old(self)@.phase),
            match event {
                Event::Written(Err(e)) => step == Step::<E>::Finish(Err(Error::I2c(e))) && final(self)@ == old(self)@.at(Phase::Done),
                Event::Written(Ok(())) => if old(self)@.shape == Shape::Command {
                    step == Step::<E>::Finish(Ok(Reply::Done)) && final(self)@ == old(self)@.at(
                        Phase::Done,
                    )
                } else {
                    step == Step::<E>::Perform(Action::Delay(command_delay_ns(old(self)@.command)))
                        && final(self)@ == old(self)@.at(Phase::Waiting)
                },
                Event::Waited => step == Step::<E>::Perform(Action::Read(old(self)@.read_len as usize))
                    && final(self)@ == old(self)@.at(Phase::Reading),
                Event::Received(Err(e)) => step == Step::<E>::Finish(Err(Error::I2c(e))) && final(self)@ == old(self)@.at(Phase::Done),
                Event::Received(Ok(bytes)) => old(self)@.outcome_of_read(bytes@, step) && final(self)@ == old(self)@.at(Phase::Done),
            },
    {
        proof {
            use_type_invariant(&*self);
        }
        match event {
            Event::Written(result) => match result {
                Err(e) => {
                    self.phase = Phase::Done;
                    Step::Finish(Err(Error::I2c(e)))
                },
                Ok(()) => match self.shape {
                    Shape::Command => {
                        self.phase = Phase::Done;
                        Step::Finish(Ok(Reply::Done))
                    },
                    _ => {
                        self.phase = Phase::Waiting;
                        Step::Perform(Action::Delay(self.command.delay_ns()))
                    },
                },
            },
            Event::Waited => {
                self.phase = Phase::Reading;
                Step::Perform(Action::Read(self.read_len))
            },
            Event::Received(result) => match result {
                Err(e) => {
                    self.phase = Phase::Done;
                    Step::Finish(Err(Error::I2c(e)))
                },
                Ok(bytes) => {
                    let checked = match self.shape {
                        Shape::ReadWords => true,
                        _ => false,
                    };
                    if checked && !words_have_valid_crc(bytes.as_slice()) {
                        self.phase = Phase::Done;
                        Step::Finish(Err(Error::Crc))
                    } else {
                        let reply = self.decode(bytes.as_slice());
                        self.phase = Phase::Done;
                        Step::Finish(Ok(reply))
                    }
                },
            },
        }
    }
}

} // verus!
