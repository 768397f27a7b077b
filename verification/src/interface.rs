//! The wire protocol shared by both panels, as plans of steps.
//!
//! A panel is driven over a write-only SPI link plus three GPIO lines: DC
//! (low for a command byte, high for data bytes), RST (active-low reset)
//! and BUSY (an input the panel drives while it works). Both panels take
//! their bytes one SPI transfer at a time.
use vstd::prelude::*;

verus! {

/// One step of a plan.
#[derive(Clone, Copy, Debug, PartialEq, Eq, Structural)]
pub enum Op {
    /// Drive the DC line: `false` before a command byte, `true` before data bytes.
    SetDc(bool),
    /// Transfer one byte over SPI. This is the only step that can fail; a
    /// plan stops at the first failed write (see [`after_step`]).
    Write(u8),
    /// Drive the RST line.
    SetRst(bool),
    /// Drive the power-enable line (a no-op on boards without one).
    SetPwr(bool),
    /// Wait for the given number of microseconds.
    DelayUs(u32),
    /// Poll BUSY until the panel is idle. `busy_low` tells which level means
    /// busy; `poll_delay_us` is the pause between two polls (none when 0).
    WaitUntilIdle { busy_low: bool, poll_delay_us: u32 },
    /// Switch the driver to the other waveform-table arrangement.
    FlipLutFlag,
    /// Return the driver's waveform selection to its power-on state.
    ResetLutSelection,
}

/// One single-byte write per byte of `bytes`, in order.
pub open spec fn write_ops(bytes: Seq<u8>) -> Seq<Op> {
    Seq::new(bytes.len(), |i: int| Op::Write(bytes[i]))
}

/// Sending a command byte.
pub open spec fn cmd_ops(command: u8) -> Seq<Op> {
    seq![Op::SetDc(false), Op::Write(command)]
}

/// Sending data bytes.
pub open spec fn data_ops(bytes: Seq<u8>) -> Seq<Op> {
    seq![Op::SetDc(true)] + write_ops(bytes)
}

/// Sending a command byte followed by its data bytes.
pub open spec fn cmd_with_data_ops(command: u8, bytes: Seq<u8>) -> Seq<Op> {
    cmd_ops(command) + data_ops(bytes)
}

/// Sending the data byte `value` `n` times.
pub open spec fn data_x_times_ops(value: u8, n: nat) -> Seq<Op> {
    seq![Op::SetDc(true)] + Seq::new(n, |i: int| Op::Write(value))
}

/// The hardware reset pulse: RST high for `initial_us`, low for
/// `duration_us`, high again, then a settling time of 200 ms.
pub open spec fn reset_ops(initial_us: u32, duration_us: u32) -> Seq<Op> {
    seq![
        Op::SetRst(true),
        Op::DelayUs(initial_us),
        Op::SetRst(false),
        Op::DelayUs(duration_us),
        Op::SetRst(true),
        Op::DelayUs(200_000),
    ]
}

/// The short reset pulse: RST low for `duration_us`, then high, with no
/// settling time (a long pause would make the controller do a full reset).
pub open spec fn soft_reset_ops(duration_us: u32) -> Seq<Op> {
    seq![Op::SetRst(false), Op::DelayUs(duration_us), Op::SetRst(true)]
}

/// Waiting until the panel is idle.
pub open spec fn wait_ops(busy_low: bool, poll_delay_us: u32) -> Seq<Op> {
    seq![Op::WaitUntilIdle { busy_low, poll_delay_us }]
}

/// Concatenation of sequences is associative.
pub broadcast proof fn lemma_add_assoc(a: Seq<Op>, b: Seq<Op>, c: Seq<Op>)
    ensures
        #[trigger] ((a + b) + c) == a + (b + c),
{
    assert((a + b) + c =~= a + (b + c));
}

/// The empty sequence is a left unit of concatenation.
pub broadcast proof fn lemma_add_empty(a: Seq<Op>)
    ensures
        #[trigger] (Seq::<Op>::empty() + a) == a,
{
    assert(Seq::<Op>::empty() + a =~= a);
}

pub broadcast group group_plan_concat {
    lemma_add_assoc,
    lemma_add_empty,
}

/// The bytes that go over SPI while performing `ops`, each with the level
/// of DC during its transfer, starting from DC at `level`.
pub open spec fn transfers(level: bool, ops: Seq<Op>) -> Seq<(bool, u8)>
    decreases ops.len(),
{
    if ops.len() == 0 {
        seq![]
    } else {
        match ops[0] {
            Op::SetDc(l) => transfers(l, ops.drop_first()),
            Op::Write(b) => seq![(level, b)] + transfers(level, ops.drop_first()),
            _ => transfers(level, ops.drop_first()),
        }
    }
}

/// Single-byte writes go out in order, at the current DC level.
pub proof fn lemma_write_ops_transfers(level: bool, bytes: Seq<u8>)
    ensures
        transfers(level, write_ops(bytes)) == Seq::new(bytes.len(), |i: int| (level, bytes[i])),
    decreases bytes.len(),
{
    if bytes.len() > 0 {
        assert(write_ops(bytes).drop_first() =~= write_ops(bytes.drop_first()));
        lemma_write_ops_transfers(level, bytes.drop_first());
        assert(Seq::new(bytes.len(), |i: int| (level, bytes[i])) =~= seq![(level, bytes[0])]
            + Seq::new(bytes.drop_first().len(), |i: int| (level, bytes.drop_first()[i])));
    } else {
        assert(Seq::new(bytes.len(), |i: int| (level, bytes[i])) =~= Seq::<(bool, u8)>::empty());
    }
}

/// Whatever the DC level before, a command with data puts the command byte
/// on the wire with DC low, then exactly the data bytes, in order, with DC
/// high.
pub proof fn lemma_cmd_with_data_transfers(level: bool, command: u8, bytes: Seq<u8>)
    ensures
        transfers(level, cmd_with_data_ops(command, bytes)) == seq![(false, command)] + Seq::new(
            bytes.len(),
            |i: int| (true, bytes[i]),
        ),
{
    let ops = cmd_with_data_ops(command, bytes);
    let rest = seq![Op::Write(command)] + data_ops(bytes);
    assert(ops[0] == Op::SetDc(false));
    assert(ops.drop_first() =~= rest);
    assert(transfers(level, ops) == transfers(false, rest));
    assert(rest[0] == Op::Write(command));
    assert(rest.drop_first() =~= data_ops(bytes));
    assert(transfers(false, rest) == seq![(false, command)] + transfers(false, data_ops(bytes)));
    assert(data_ops(bytes)[0] == Op::SetDc(true));
    assert(data_ops(bytes).drop_first() =~= write_ops(bytes));
    assert(transfers(false, data_ops(bytes)) == transfers(true, write_ops(bytes)));
    lemma_write_ops_transfers(true, bytes);
}

/// Repeated data puts `n` copies of the byte on the wire with DC high.
pub proof fn lemma_data_x_times_transfers(level: bool, value: u8, n: nat)
    ensures
        transfers(level, data_x_times_ops(value, n)) == Seq::new(n, |i: int| (true, value)),
{
    let bytes = Seq::new(n, |i: int| value);
    assert(data_x_times_ops(value, n)[0] == Op::SetDc(true));
    assert(data_x_times_ops(value, n).drop_first() =~= write_ops(bytes));
    assert(transfers(level, data_x_times_ops(value, n)) == transfers(true, write_ops(bytes)));
    lemma_write_ops_transfers(true, bytes);
    assert(Seq::new(bytes.len(), |i: int| (true, bytes[i])) =~= Seq::new(n, |i: int| (true, value)));
}

/// The level of DC after performing `ops`, starting from `level`.
pub open spec fn dc_after(level: bool, ops: Seq<Op>) -> bool
    decreases ops.len(),
{
    if ops.len() == 0 {
        level
    } else {
        match ops[0] {
            Op::SetDc(l) => dc_after(l, ops.drop_first()),
            _ => dc_after(level, ops.drop_first()),
        }
    }
}

/// Bytes on the wire as data (DC high), in order.
pub open spec fn data_transfers(bytes: Seq<u8>) -> Seq<(bool, u8)> {
    Seq::new(bytes.len(), |i: int| (true, bytes[i]))
}

/// What goes over the wire for `a + b` is what goes for `a`, then what goes
/// for `b` from the DC level `a` leaves.
pub proof fn lemma_transfers_concat(level: bool, a: Seq<Op>, b: Seq<Op>)
    ensures
        transfers(level, a + b) == transfers(level, a) + transfers(dc_after(level, a), b),
        dc_after(level, a + b) == dc_after(dc_after(level, a), b),
    decreases a.len(),
{
    if a.len() == 0 {
        assert(a + b =~= b);
        assert(transfers(level, a) + transfers(level, b) =~= transfers(level, b));
    } else {
        assert((a + b)[0] == a[0]);
        assert((a + b).drop_first() =~= a.drop_first() + b);
        match a[0] {
            Op::SetDc(l) => {
                lemma_transfers_concat(l, a.drop_first(), b);
            },
            Op::Write(x) => {
                lemma_transfers_concat(level, a.drop_first(), b);
                assert(seq![(level, x)] + (transfers(level, a.drop_first()) + transfers(
                    dc_after(level, a.drop_first()),
                    b,
                )) =~= (seq![(level, x)] + transfers(level, a.drop_first())) + transfers(
                    dc_after(level, a.drop_first()),
                    b,
                ));
            },
            _ => {
                lemma_transfers_concat(level, a.drop_first(), b);
            },
        }
    }
}

/// Single-byte writes leave DC where it was.
pub proof fn lemma_write_ops_dc(level: bool, bytes: Seq<u8>)
    ensures
        dc_after(level, write_ops(bytes)) == level,
    decreases bytes.len(),
{
    if bytes.len() > 0 {
        assert(write_ops(bytes).drop_first() =~= write_ops(bytes.drop_first()));
        lemma_write_ops_dc(level, bytes.drop_first());
    }
}

/// Steps that neither drive DC nor write put nothing on the wire and leave
/// DC where it was.
pub proof fn lemma_silent_transfers(level: bool, ops: Seq<Op>)
    requires
        forall|i: int| 0 <= i < ops.len() ==> !(#[trigger] ops[i] is SetDc) && !(ops[i] is Write),
    ensures
        transfers(level, ops) == Seq::<(bool, u8)>::empty(),
        dc_after(level, ops) == level,
    decreases ops.len(),
{
    if ops.len() > 0 {
        assert(ops[0] == ops[0]);
        lemma_silent_transfers(level, ops.drop_first());
    }
}

/// A command byte goes over the wire with DC low and leaves DC low.
pub proof fn lemma_cmd_wire(level: bool, command: u8)
    ensures
        transfers(level, cmd_ops(command)) == seq![(false, command)],
        dc_after(level, cmd_ops(command)) == false,
{
    let ops = cmd_ops(command);
    let one = seq![Op::Write(command)];
    let none = Seq::<Op>::empty();
    assert(ops[0] == Op::SetDc(false));
    assert(ops.drop_first() =~= one);
    assert(one[0] == Op::Write(command));
    assert(one.drop_first() =~= none);
    assert(transfers(false, none) == Seq::<(bool, u8)>::empty());
    assert(dc_after(false, none) == false);
    assert(transfers(false, one) == seq![(false, command)] + transfers(false, none));
    assert(dc_after(false, one) == dc_after(false, none));
    assert(transfers(level, ops) == transfers(false, one));
    assert(dc_after(level, ops) == dc_after(false, one));
    assert(seq![(false, command)] + Seq::<(bool, u8)>::empty() =~= seq![(false, command)]);
}

/// A command with data: the command byte with DC low, then exactly the data
/// bytes with DC high; DC is left high.
pub proof fn lemma_cmd_with_data_wire(level: bool, command: u8, bytes: Seq<u8>)
    ensures
        transfers(level, cmd_with_data_ops(command, bytes)) == seq![(false, command)]
            + data_transfers(bytes),
        dc_after(level, cmd_with_data_ops(command, bytes)) == true,
{
    lemma_cmd_with_data_transfers(level, command, bytes);
    let ops = cmd_with_data_ops(command, bytes);
    let rest = seq![Op::Write(command)] + data_ops(bytes);
    assert(ops[0] == Op::SetDc(false));
    assert(ops.drop_first() =~= rest);
    assert(rest[0] == Op::Write(command));
    assert(rest.drop_first() =~= data_ops(bytes));
    assert(data_ops(bytes)[0] == Op::SetDc(true));
    assert(data_ops(bytes).drop_first() =~= write_ops(bytes));
    lemma_write_ops_dc(true, bytes);
    assert(dc_after(false, data_ops(bytes)) == dc_after(true, write_ops(bytes)));
    assert(dc_after(false, rest) == dc_after(false, data_ops(bytes)));
    assert(dc_after(level, ops) == dc_after(false, rest));
}

/// Repeated data: `n` copies of the byte with DC high; DC is left high.
pub proof fn lemma_data_x_times_wire(level: bool, value: u8, n: nat)
    ensures
        transfers(level, data_x_times_ops(value, n)) == Seq::new(n, |i: int| (true, value)),
        dc_after(level, data_x_times_ops(value, n)) == true,
{
    lemma_data_x_times_transfers(level, value, n);
    let bytes = Seq::new(n, |i: int| value);
    assert(data_x_times_ops(value, n)[0] == Op::SetDc(true));
    assert(data_x_times_ops(value, n).drop_first() =~= write_ops(bytes));
    lemma_write_ops_dc(true, bytes);
    assert(dc_after(level, data_x_times_ops(value, n)) == dc_after(true, write_ops(bytes)));
}

/// How a plan goes on after one performed step.
pub enum Next<E> {
    /// Perform the following step.
    Continue,
    /// Stop here: the plan fails with this SPI error.
    Stop(E),
}

/// Decides how a plan goes on after performing `op`. `write_result` is the
/// result of the SPI transfer when `op` is a [`Op::Write`]; for any other
/// step it is ignored, as are the results of driving the pins: only a
/// failed SPI write ends a plan, with that write's error.
pub fn after_step<E>(op: &Op, write_result: Result<(), E>) -> (n: Next<E>)
    ensures
        match (op, write_result) {
            (Op::Write(_), Err(e)) => n == Next::<E>::Stop(e),
            _ => n is Continue,
        },
{
    match op {
        Op::Write(_) => match write_result {
            Ok(()) => Next::Continue,
            Err(e) => Next::Stop(e),
        },
        _ => Next::Continue,
    }
}

/// Appends the sending of a command byte.
pub fn push_cmd(ops: &mut Vec<Op>, command: u8)
    ensures
        final(ops)@ == old(ops)@ + cmd_ops(command),
{
    ops.push(Op::SetDc(false));
    ops.push(Op::Write(command));
    assert(ops@ =~= old(ops)@ + cmd_ops(command));
}

/// Appends one single-byte write for each of the first `n` bytes of `bytes`.
fn push_writes(ops: &mut Vec<Op>, bytes: &[u8], n: usize)
    requires
        n <= bytes@.len(),
    ensures
        final(ops)@ == old(ops)@ + write_ops(bytes@.take(n as int)),
{
    let ghost start = ops@;
    let mut i: usize = 0;
    assert(start + write_ops(bytes@.take(0)) =~= start);
    while i < n
        invariant
            i <= n,
            n <= bytes@.len(),
            ops@ == start + write_ops(bytes@.take(i as int)),
        decreases n - i,
    {
        ops.push(Op::Write(bytes[i]));
        i = i + 1;
        assert(ops@ =~= start + write_ops(bytes@.take(i as int)));
    }
}

/// Appends the sending of the first `n` bytes of `bytes` as data.
pub fn push_data_prefix(ops: &mut Vec<Op>, bytes: &[u8], n: usize)
    requires
        n <= bytes@.len(),
    ensures
        final(ops)@ == old(ops)@ + data_ops(bytes@.take(n as int)),
{
    ops.push(Op::SetDc(true));
    push_writes(ops, bytes, n);
    assert(ops@ =~= old(ops)@ + data_ops(bytes@.take(n as int)));
}

/// Appends the sending of `bytes` as data.
pub fn push_data(ops: &mut Vec<Op>, bytes: &[u8])
    ensures
        final(ops)@ == old(ops)@ + data_ops(bytes@),
{
    push_data_prefix(ops, bytes, bytes.len());
    assert(bytes@.take(bytes@.len() as int) =~= bytes@);
}

/// Appends the sending of a command byte followed by `bytes` as its data.
pub fn push_cmd_with_data(ops: &mut Vec<Op>, command: u8, bytes: &[u8])
    ensures
        final(ops)@ == old(ops)@ + cmd_with_data_ops(command, bytes@),
{
    push_cmd(ops, command);
    push_data(ops, bytes);
    assert(ops@ =~= old(ops)@ + cmd_with_data_ops(command, bytes@));
}

/// Appends the sending of a command byte followed by the first `n` bytes
/// of `bytes` as its data.
pub fn push_cmd_with_data_prefix(ops: &mut Vec<Op>, command: u8, bytes: &[u8], n: usize)
    requires
        n <= bytes@.len(),
    ensures
        final(ops)@ == old(ops)@ + cmd_with_data_ops(command, bytes@.take(n as int)),
{
    push_cmd(ops, command);
    push_data_prefix(ops, bytes, n);
    assert(ops@ =~= old(ops)@ + cmd_with_data_ops(command, bytes@.take(n as int)));
}

/// Appends the sending of the data byte `value`, `repetitions` times.
pub fn push_data_x_times(ops: &mut Vec<Op>, value: u8, repetitions: u32)
    ensures
        final(ops)@ == old(ops)@ + data_x_times_ops(value, repetitions as nat),
{
    ops.push(Op::SetDc(true));
    let ghost start = ops@;
    let mut i: u32 = 0;
    assert(start + Seq::new(0, |k: int| Op::Write(value)) =~= start);
    while i < repetitions
        invariant
            i <= repetitions,
            ops@ == start + Seq::new(i as nat, |k: int| Op::Write(value)),
        decreases repetitions - i,
    {
        ops.push(Op::Write(value));
        i = i + 1;
        assert(ops@ =~= start + Seq::new(i as nat, |k: int| Op::Write(value)));
    }
    assert(ops@ =~= old(ops)@ + data_x_times_ops(value, repetitions as nat));
}

/// Appends the hardware reset pulse.
pub fn push_reset(ops: &mut Vec<Op>, initial_us: u32, duration_us: u32)
    ensures
        final(ops)@ == old(ops)@ + reset_ops(initial_us, duration_us),
{
    ops.push(Op::SetRst(true));
    ops.push(Op::DelayUs(initial_us));
    ops.push(Op::SetRst(false));
    ops.push(Op::DelayUs(duration_us));
    ops.push(Op::SetRst(true));
    ops.push(Op::DelayUs(200_000));
    assert(ops@ =~= old(ops)@ + reset_ops(initial_us, duration_us));
}

/// Appends the short reset pulse.
pub fn push_soft_reset(ops: &mut Vec<Op>, duration_us: u32)
    ensures
        final(ops)@ == old(ops)@ + soft_reset_ops(duration_us),
{
    ops.push(Op::SetRst(false));
    ops.push(Op::DelayUs(duration_us));
    ops.push(Op::SetRst(true));
    assert(ops@ =~= old(ops)@ + soft_reset_ops(duration_us));
}

/// Appends a wait until the panel is idle.
pub fn push_wait_until_idle(ops: &mut Vec<Op>, busy_low: bool, poll_delay_us: u32)
    ensures
        final(ops)@ == old(ops)@ + wait_ops(busy_low, poll_delay_us),
{
    ops.push(Op::WaitUntilIdle { busy_low, poll_delay_us });
    assert(ops@ =~= old(ops)@ + wait_ops(busy_low, poll_delay_us));
}

/// The pause between two polls of BUSY: the one asked for, else 10 us.
pub open spec fn spec_poll_delay(delay_us: Option<u32>) -> u32 {
    match delay_us {
        Some(d) => d,
        None => 10,
    }
}

/// Without a pause asked for, BUSY is polled every 10 us; otherwise with the
/// pause asked for, 0 meaning no pause.
pub proof fn lemma_poll_delay(d: u32)
    ensures
        spec_poll_delay(None) == 10,
        spec_poll_delay(Some(d)) == d,
{
}

/// Chooses the pause between two polls of BUSY.
pub fn poll_delay(delay_us: Option<u32>) -> (d: u32)
    ensures
        d == spec_poll_delay(delay_us),
{
    match delay_us {
        Some(d) => d,
        None => 10,
    }
}

/// Which reading of the BUSY pin tells that the panel is busy.
#[derive(Clone, Copy, Debug, PartialEq, Eq, Structural)]
pub enum BusyProbe {
    /// Ask the pin whether it is low.
    IsLow,
    /// Ask the pin whether it is high.
    IsHigh,
}

/// What to do after one poll of BUSY.
#[derive(Clone, Copy, Debug, PartialEq, Eq, Structural)]
pub enum PollStep {
    /// The panel is idle: the wait is over.
    Idle,
    /// The panel is busy: pause this many microseconds (if any) and poll again.
    Busy(Option<u32>),
}

/// The pin reading to take for a panel whose busy level is low (`busy_low`)
/// or high.
pub fn busy_probe(busy_low: bool) -> (p: BusyProbe)
    ensures
        p == (if busy_low { BusyProbe::IsLow } else { BusyProbe::IsHigh }),
{
    if busy_low {
        BusyProbe::IsLow
    } else {
        BusyProbe::IsHigh
    }
}

/// Decides one poll of BUSY from the pin's answer to the probe of
/// [`busy_probe`] (`None` when reading the pin failed, which counts as idle).
pub fn poll_step(poll_delay_us: u32, reading: Option<bool>) -> (s: PollStep)
    ensures
        s == (if reading == Some(true) {
            PollStep::Busy(if poll_delay_us > 0 { Some(poll_delay_us) } else { None })
        } else {
            PollStep::Idle
        }),
{
    let busy = match reading {
        Some(level) => level,
        None => false,
    };
    if busy {
        if poll_delay_us > 0 {
            PollStep::Busy(Some(poll_delay_us))
        } else {
            PollStep::Busy(None)
        }
    } else {
        PollStep::Idle
    }
}

} // verus!
