//! The command/data framing layer.
//!
//! The driver's observable behaviour is the sequence of operations it puts
//! on the panel bus. A [`Transcript`] records that sequence; every framing
//! function below is verified to append exactly the operations it names.
//! An unverified hardware adapter later plays the transcript onto the wire:
//! each `Cmd` is one opcode byte written with the data/command select line
//! at its "command" level and a chip-select pulse around it, each `Data` is
//! one payload byte written with the select line at its "data" level, so a
//! command byte always precedes its payload with no operation interleaved.

use vstd::prelude::*;

use crate::command::Command;

verus! {

/// One operation on the panel bus.
#[derive(Clone, Copy, Debug, PartialEq, Eq, Structural)]
pub enum BusOp {
    /// One opcode byte, framed with the data/command select line at "command".
    Cmd(Command),
    /// One payload byte, framed with the data/command select line at "data".
    Data(u8),
    /// The hardware-reset line driven to its asserted (low) level.
    ResetLow,
    /// The hardware-reset line released to its idle (high) level.
    ResetHigh,
    /// A fixed wait of the given number of microseconds.
    DelayUs(u32),
    /// Block until the controller reports idle: repeatedly issue the
    /// status-query command and sample the busy line until it reads the
    /// idle level.
    WaitIdle,
}

/// The operations of one framed command byte.
pub open spec fn cmd_seq(c: Command) -> Seq<BusOp> {
    seq![BusOp::Cmd(c)]
}

/// The operations of a payload streamed byte by byte.
pub open spec fn data_seq(payload: Seq<u8>) -> Seq<BusOp> {
    Seq::new(payload.len(), |i: int| BusOp::Data(payload[i]))
}

/// A command byte followed by its payload bytes.
pub open spec fn cmd_with_data_seq(c: Command, payload: Seq<u8>) -> Seq<BusOp> {
    cmd_seq(c) + data_seq(payload)
}

/// `n` copies of one payload byte.
pub open spec fn repeated_data_seq(b: u8, n: nat) -> Seq<BusOp> {
    Seq::new(n, |i: int| BusOp::Data(b))
}

/// A hardware reset pulse: reset asserted and held, then released and held.
pub open spec fn reset_seq(low_us: u32, high_us: u32) -> Seq<BusOp> {
    seq![
        BusOp::ResetLow,
        BusOp::DelayUs(low_us),
        BusOp::ResetHigh,
        BusOp::DelayUs(high_us),
    ]
}

/// The commands of a bus-operation sequence: each framed command byte, in
/// order, with payload, reset and timing operations dropped. This is what
/// a harness recording emitted opcodes observes.
pub open spec fn commands_of(ops: Seq<BusOp>) -> Seq<Command>
    decreases ops.len(),
{
    if ops.len() == 0 {
        Seq::<Command>::empty()
    } else {
        (match ops[0] {
            BusOp::Cmd(c) => seq![c],
            _ => Seq::<Command>::empty(),
        }) + commands_of(ops.skip(1))
    }
}

/// `commands_of` distributes over concatenation.
pub proof fn lemma_commands_of_concat(a: Seq<BusOp>, b: Seq<BusOp>)
    ensures
        commands_of(a + b) == commands_of(a) + commands_of(b),
    decreases a.len(),
{
    if a.len() == 0 {
        assert(a + b =~= b);
        assert(commands_of(a) + commands_of(b) =~= commands_of(b));
    } else {
        assert((a + b).skip(1) =~= a.skip(1) + b);
        lemma_commands_of_concat(a.skip(1), b);
        assert(commands_of(a + b) =~= commands_of(a) + commands_of(b));
    }
}

/// A sequence without command operations contributes no commands.
pub proof fn lemma_commands_of_no_cmds(ops: Seq<BusOp>)
    requires
        forall|i: int| 0 <= i < ops.len() ==> !(ops[i] is Cmd),
    ensures
        commands_of(ops) == Seq::<Command>::empty(),
    decreases ops.len(),
{
    if ops.len() > 0 {
        assert(forall|i: int| 0 <= i < ops.skip(1).len() ==> !(#[trigger] ops.skip(1)[i] is Cmd));
        lemma_commands_of_no_cmds(ops.skip(1));
        assert(commands_of(ops) =~= Seq::<Command>::empty());
    }
}

/// A lone framed command contributes exactly itself.
pub proof fn lemma_commands_of_cmd_seq(c: Command)
    ensures
        commands_of(cmd_seq(c)) == seq![c],
{
    assert(cmd_seq(c).skip(1) =~= Seq::<BusOp>::empty());
    assert(commands_of(Seq::<BusOp>::empty()) == Seq::<Command>::empty());
    assert(commands_of(cmd_seq(c)) =~= seq![c]);
}

/// A streamed payload contributes no commands.
pub proof fn lemma_commands_of_data_seq(payload: Seq<u8>)
    ensures
        commands_of(data_seq(payload)) == Seq::<Command>::empty(),
{
    lemma_commands_of_no_cmds(data_seq(payload));
}

/// A command with payload contributes exactly its command.
pub proof fn lemma_commands_of_cmd_with_data(c: Command, payload: Seq<u8>)
    ensures
        commands_of(cmd_with_data_seq(c, payload)) == seq![c],
{
    lemma_commands_of_concat(cmd_seq(c), data_seq(payload));
    lemma_commands_of_cmd_seq(c);
    lemma_commands_of_data_seq(payload);
    assert(commands_of(cmd_with_data_seq(c, payload)) =~= seq![c]);
}

/// A reset pulse contributes no commands.
pub proof fn lemma_commands_of_reset(low_us: u32, high_us: u32)
    ensures
        commands_of(reset_seq(low_us, high_us)) == Seq::<Command>::empty(),
{
    lemma_commands_of_no_cmds(reset_seq(low_us, high_us));
}

/// Every framed command of a sequence shows up in its command projection:
/// nothing a recording harness would see is dropped.
pub proof fn lemma_commands_of_covers(ops: Seq<BusOp>, i: int, c: Command)
    requires
        0 <= i < ops.len(),
        ops[i] == BusOp::Cmd(c),
    ensures
        commands_of(ops).contains(c),
    decreases ops.len(),
{
    if i == 0 {
        assert(commands_of(ops)[0] == c);
    } else {
        assert(ops.skip(1)[i - 1] == ops[i]);
        lemma_commands_of_covers(ops.skip(1), i - 1, c);
        let tail = commands_of(ops.skip(1));
        let k = choose|k: int| 0 <= k < tail.len() && tail[k] == c;
        let head_len = commands_of(ops).len() - tail.len();
        assert(commands_of(ops)[head_len + k] == c);
    }
}

/// A record of the bus operations a driver call emits, in order.
pub struct Transcript {
    /// The recorded operations, oldest first.
    pub ops: Vec<BusOp>,
}

impl View for Transcript {
    type V = Seq<BusOp>;

    open spec fn view(&self) -> Seq<BusOp> {
        self.ops@
    }
}

impl Transcript {
    /// An empty record.
    pub fn new() -> (r: Transcript)
        ensures
            r@ == Seq::<BusOp>::empty(),
    {
        Transcript { ops: Vec::new() }
    }

    /// Sends one command byte.
    pub fn cmd(&mut self, c: Command)
        ensures
            final(self)@ == old(self)@ + cmd_seq(c),
    {
        self.ops.push(BusOp::Cmd(c));
        proof {
            assert(self@ =~= old(self)@ + cmd_seq(c));
        }
    }

    /// Sends one payload byte.
    pub fn data_byte(&mut self, b: u8)
        ensures
            final(self)@ == old(self)@ + data_seq(seq![b]),
    {
        self.ops.push(BusOp::Data(b));
        proof {
            assert(self@ =~= old(self)@ + data_seq(seq![b]));
        }
    }

    /// Streams a payload byte by byte.
    pub fn data(&mut self, payload: &[u8])
        ensures
            final(self)@ == old(self)@ + data_seq(payload@),
    {
        let ghost orig: Seq<BusOp> = self@;
        let mut i: usize = 0;
        while i < payload.len()
            invariant
                i <= payload.len(),
                self@ == orig + data_seq(payload@.take(i as int)),
            decreases payload.len() - i,
        {
            self.ops.push(BusOp::Data(payload[i]));
            i = i + 1;
            proof {
                assert(self@ =~= orig + data_seq(payload@.take(i as int)));
            }
        }
        proof {
            assert(payload@.take(payload@.len() as int) =~= payload@);
        }
    }

    /// Sends a command byte followed by its payload.
    pub fn cmd_with_data(&mut self, c: Command, payload: &[u8])
        ensures
            final(self)@ == old(self)@ + cmd_with_data_seq(c, payload@),
    {
        self.cmd(c);
        self.data(payload);
        proof {
            assert(self@ =~= old(self)@ + cmd_with_data_seq(c, payload@));
        }
    }

    /// Sends `n` copies of one payload byte, without materializing a buffer.
    pub fn data_x_times(&mut self, b: u8, n: u32)
        ensures
            final(self)@ == old(self)@ + repeated_data_seq(b, n as nat),
    {
        let ghost orig: Seq<BusOp> = self@;
        let mut i: u32 = 0;
        while i < n
            invariant
                i <= n,
                self@ == orig + repeated_data_seq(b, i as nat),
            decreases n - i,
        {
            self.ops.push(BusOp::Data(b));
            i = i + 1;
            proof {
                assert(self@ =~= orig + repeated_data_seq(b, i as nat));
            }
        }
    }

    /// Pulses the hardware-reset line: asserted for `low_us` microseconds,
    /// then released and held for `high_us` microseconds.
    pub fn reset(&mut self, low_us: u32, high_us: u32)
        ensures
            final(self)@ == old(self)@ + reset_seq(low_us, high_us),
    {
        self.ops.push(BusOp::ResetLow);
        self.ops.push(BusOp::DelayUs(low_us));
        self.ops.push(BusOp::ResetHigh);
        self.ops.push(BusOp::DelayUs(high_us));
        proof {
            assert(self@ =~= old(self)@ + reset_seq(low_us, high_us));
        }
    }

    /// Waits a fixed number of microseconds.
    pub fn delay_us(&mut self, us: u32)
        ensures
            final(self)@ == old(self)@ + seq![BusOp::DelayUs(us)],
    {
        self.ops.push(BusOp::DelayUs(us));
        proof {
            assert(self@ =~= old(self)@ + seq![BusOp::DelayUs(us)]);
        }
    }

    /// Blocks until the controller reports idle.
    pub fn wait_idle(&mut self)
        ensures
            final(self)@ == old(self)@ + seq![BusOp::WaitIdle],
    {
        self.ops.push(BusOp::WaitIdle);
        proof {
            assert(self@ =~= old(self)@ + seq![BusOp::WaitIdle]);
        }
    }
}

} // verus!
