//! The output alphabet of the driver: actions on the display bus and on the
//! control pins.
//!
//! A command byte travels with the DC (data/command select) line at its
//! command level, parameter bytes with DC at its data level; the level must
//! settle before the first clock edge of the burst, so the level change is
//! part of the action itself.  Delays and reset-line changes are actions of
//! their own.  The executor performs each action in order and stops at the
//! first transport failure, which is fatal for the current operation.

use vstd::prelude::*;

verus! {

/// One action on the display interface, to be performed by the embedding
/// program on the real hardware.
#[derive(Debug)]
pub enum BusOp {
    /// Drive DC to its command level, wait for it to settle, then transmit
    /// this single byte as one burst.
    Command(u8),
    /// Drive DC to its data level, wait for it to settle, then transmit all
    /// of these bytes as one uninterrupted burst.
    Data(Vec<u8>),
    /// Wait at least this many microseconds before the next action.
    DelayUs(u64),
    /// Drive the active-low reset line low.
    RstLow,
    /// Drive the active-low reset line high.
    RstHigh,
    /// Enable the backlight.
    BacklightOn,
}

/// Mathematical model of one bus action.
#[verifier::ext_equal]
pub ghost enum Op {
    Command(u8),
    Data(Seq<u8>),
    DelayUs(u64),
    RstLow,
    RstHigh,
    BacklightOn,
}

impl View for BusOp {
    type V = Op;

    open spec fn view(&self) -> Op {
        match self {
            BusOp::Command(c) => Op::Command(*c),
            BusOp::Data(d) => Op::Data(d@),
            BusOp::DelayUs(us) => Op::DelayUs(*us),
            BusOp::RstLow => Op::RstLow,
            BusOp::RstHigh => Op::RstHigh,
            BusOp::BacklightOn => Op::BacklightOn,
        }
    }
}

/// The abstract trace of a vector of bus actions.
pub open spec fn ops_view(ops: Vec<BusOp>) -> Seq<Op> {
    ops@.map_values(|op: BusOp| op@)
}

/// Append a command byte to an action list.
pub fn push_command(ops: &mut Vec<BusOp>, c: u8)
    ensures
        ops_view(*final(ops)) == ops_view(*old(ops)).push(Op::Command(c)),
{
    ops.push(BusOp::Command(c));
    proof {
        assert(ops_view(*ops) =~= ops_view(*old(ops)).push(Op::Command(c)));
    }
}

/// Append a parameter-byte burst to an action list.
pub fn push_data(ops: &mut Vec<BusOp>, d: Vec<u8>)
    ensures
        ops_view(*final(ops)) == ops_view(*old(ops)).push(Op::Data(d@)),
{
    ops.push(BusOp::Data(d));
    proof {
        assert(ops_view(*ops) =~= ops_view(*old(ops)).push(Op::Data(d@)));
    }
}

/// Append a delay to an action list.
pub fn push_delay(ops: &mut Vec<BusOp>, us: u64)
    ensures
        ops_view(*final(ops)) == ops_view(*old(ops)).push(Op::DelayUs(us)),
{
    ops.push(BusOp::DelayUs(us));
    proof {
        assert(ops_view(*ops) =~= ops_view(*old(ops)).push(Op::DelayUs(us)));
    }
}

} // verus!
