//! The display controller state machine: reset, bring-up, orientation,
//! addressing, and full-frame transfer for an ST7789-class panel.
//!
//! Each operation checks its precondition, advances the logical state
//! `Uninitialized -> Reset -> Initialized -> Ready`, and returns the exact
//! sequence of bus actions that realises it.  A wrong-state or bad-window
//! call is rejected before a single byte would go out.  Transport failures
//! live with the executor of the actions: a partially transmitted burst
//! cannot be resumed, so the executor treats any failure as fatal to the
//! operation and never retries.

use vstd::prelude::*;
use crate::bus::{BusOp, Op, ops_view, push_command, push_data, push_delay};

verus! {

// Command bytes of the panel's command set.
pub const CMD_SLPOUT: u8 = 0x11;
pub const CMD_NORON: u8 = 0x13;
pub const CMD_INVON: u8 = 0x21;
pub const CMD_DISPON: u8 = 0x29;
pub const CMD_CASET: u8 = 0x2A;
pub const CMD_RASET: u8 = 0x2B;
pub const CMD_RAMWR: u8 = 0x2C;
pub const CMD_MADCTL: u8 = 0x36;
pub const CMD_COLMOD: u8 = 0x3A;
pub const CMD_PORCTRL: u8 = 0xB2;
pub const CMD_GCTRL: u8 = 0xB7;
pub const CMD_VCOMS: u8 = 0xBB;
pub const CMD_PWCTRL1: u8 = 0xD0;
pub const CMD_PVGAMCTRL: u8 = 0xE0;
pub const CMD_NVGAMCTRL: u8 = 0xE1;

// MADCTL orientation bits: row-order, column-order, row/column exchange.
pub const MADCTL_MY: u8 = 0x80;
pub const MADCTL_MX: u8 = 0x40;
pub const MADCTL_MV: u8 = 0x20;

/// Minimum width of the low pulse on the reset line, microseconds.
pub const RESET_PULSE_US: u64 = 10;

/// Minimum settle time after releasing reset, microseconds.
pub const RESET_SETTLE_US: u64 = 120000;

/// Delay after leaving sleep, microseconds.
pub const SLPOUT_SETTLE_US: u64 = 120000;

/// Delay after normal-mode and display-on, microseconds.
pub const MODE_SETTLE_US: u64 = 10000;

/// Logical state of the controller.  Transitions are monotonic; no
/// operation skips a state.
#[derive(Clone, Copy, Debug, PartialEq, Eq, Structural)]
pub enum DisplayState {
    Uninitialized,
    Reset,
    Initialized,
    Ready,
}

/// Panel orientation; each value maps to a single MADCTL control byte.
#[derive(Clone, Copy, Debug, PartialEq, Eq, Structural)]
pub enum Orientation {
    Portrait,
    Landscape,
    PortraitSwapped,
    LandscapeSwapped,
}

/// Whether an optional control pin is wired.  An absent pin degrades its
/// protocol step to a no-op, never to an error.
#[derive(Clone, Copy, Debug, PartialEq, Eq, Structural)]
pub enum PinRole {
    Present,
    Absent,
}

/// A violated protocol precondition, rejected before any bus traffic.
#[derive(Clone, Copy, Debug, PartialEq, Eq, Structural)]
pub enum DriverError {
    /// The address window does not satisfy
    /// `x0 <= x1 < width` and `y0 <= y1 < height`.
    InvalidWindow,
    /// The operation is not valid in the current logical state.
    WrongState,
}

/// The documented MADCTL control byte for an orientation, built from the
/// row-order, column-order and row/column-exchange bits.
pub open spec fn madctl_byte(o: Orientation) -> u8 {
    match o {
        Orientation::Portrait => 0x00,
        Orientation::Landscape => MADCTL_MX | MADCTL_MV,
        Orientation::PortraitSwapped => MADCTL_MY | MADCTL_MX,
        Orientation::LandscapeSwapped => MADCTL_MY | MADCTL_MV,
    }
}

/// The MADCTL bit table, folded to the four control bytes that go over the
/// wire: one byte per orientation value.
pub proof fn lemma_madctl_table()
    ensures
        madctl_byte(Orientation::Portrait) == 0x00u8,
        madctl_byte(Orientation::Landscape) == 0x60u8,
        madctl_byte(Orientation::PortraitSwapped) == 0xC0u8,
        madctl_byte(Orientation::LandscapeSwapped) == 0xA0u8,
{
    assert(0x40u8 | 0x20u8 == 0x60u8) by (bit_vector);
    assert(0x80u8 | 0x40u8 == 0xC0u8) by (bit_vector);
    assert(0x80u8 | 0x20u8 == 0xA0u8) by (bit_vector);
}

/// A 16-bit coordinate as its two big-endian parameter bytes.
pub open spec fn be_bytes(v: u16) -> Seq<u8> {
    seq![(v / 256) as u8, (v % 256) as u8]
}

/// States from which addressing and orientation commands are accepted.
pub open spec fn accepts_addressing(s: DisplayState) -> bool {
    s == DisplayState::Initialized || s == DisplayState::Ready
}

/// The address-window invariant, relative to the panel size.
pub open spec fn valid_window(x0: u16, y0: u16, x1: u16, y1: u16, width: u16, height: u16) -> bool {
    x0 <= x1 < width && y0 <= y1 < height
}

/// Actions of a hard reset: hold the active-low reset line low for at least
/// the minimum pulse width, release it, and wait out the settle time.  With
/// no reset pin wired the step is skipped entirely.
pub open spec fn hard_reset_ops(rst: PinRole) -> Seq<Op> {
    if rst == PinRole::Present {
        seq![
            Op::RstHigh,
            Op::DelayUs(RESET_PULSE_US),
            Op::RstLow,
            Op::DelayUs(RESET_PULSE_US),
            Op::RstHigh,
            Op::DelayUs(RESET_SETTLE_US),
        ]
    } else {
        Seq::empty()
    }
}

/// The fixed vendor bring-up sequence: backlight (when wired), sleep-out,
/// pixel format, porch/gate/voltage/power settings, gamma tables,
/// inversion, normal mode, display on, with the settle delays the panel
/// requires between specific steps.
pub open spec fn init_ops(bl: PinRole) -> Seq<Op> {
    (if bl == PinRole::Present {
        seq![Op::BacklightOn]
    } else {
        Seq::<Op>::empty()
    }) + seq![
        Op::Command(CMD_SLPOUT),
        Op::DelayUs(SLPOUT_SETTLE_US),
        Op::Command(CMD_COLMOD),
        Op::Data(seq![0x55u8]),
        Op::Command(CMD_PORCTRL),
        Op::Data(seq![0x0Cu8, 0x0Cu8, 0x00u8, 0x33u8, 0x33u8]),
        Op::Command(CMD_GCTRL),
        Op::Data(seq![0x35u8]),
        Op::Command(CMD_VCOMS),
        Op::Data(seq![0x19u8]),
        Op::Command(CMD_PWCTRL1),
        Op::Data(seq![0xA4u8, 0xA1u8]),
        Op::Command(CMD_PVGAMCTRL),
        Op::Data(
            seq![
                0xD0u8, 0x04u8, 0x0Du8, 0x11u8, 0x13u8, 0x2Bu8, 0x3Fu8, 0x54u8, 0x4Cu8, 0x18u8,
                0x0Du8, 0x0Bu8, 0x1Fu8, 0x23u8,
            ],
        ),
        Op::Command(CMD_NVGAMCTRL),
        Op::Data(
            seq![
                0xD0u8, 0x04u8, 0x0Cu8, 0x11u8, 0x13u8, 0x2Cu8, 0x3Fu8, 0x44u8, 0x51u8, 0x2Fu8,
                0x1Fu8, 0x1Fu8, 0x20u8, 0x23u8,
            ],
        ),
        Op::Command(CMD_INVON),
        Op::Command(CMD_NORON),
        Op::DelayUs(MODE_SETTLE_US),
        Op::Command(CMD_DISPON),
        Op::DelayUs(MODE_SETTLE_US),
    ]
}

/// Actions of an orientation change: the MADCTL command with its single
/// control byte.
pub open spec fn orientation_ops(o: Orientation) -> Seq<Op> {
    seq![Op::Command(CMD_MADCTL), Op::Data(seq![madctl_byte(o)])]
}

/// Actions of an address-window set: column bounds, row bounds, each as two
/// big-endian coordinates, then the start of a memory write.
pub open spec fn window_ops(x0: u16, y0: u16, x1: u16, y1: u16) -> Seq<Op> {
    seq![
        Op::Command(CMD_CASET),
        Op::Data(be_bytes(x0) + be_bytes(x1)),
        Op::Command(CMD_RASET),
        Op::Data(be_bytes(y0) + be_bytes(y1)),
        Op::Command(CMD_RAMWR),
    ]
}

/// For any window, the address-window actions are exactly one column-set,
/// one row-set and one memory-write command, in that order, each bound
/// encoded as two big-endian parameter bytes; no other command byte is
/// emitted.
pub proof fn lemma_address_window_protocol(x0: u16, y0: u16, x1: u16, y1: u16)
    ensures
        window_ops(x0, y0, x1, y1).len() == 5,
        window_ops(x0, y0, x1, y1)[0] == Op::Command(CMD_CASET),
        window_ops(x0, y0, x1, y1)[1] == Op::Data(
            seq![(x0 / 256) as u8, (x0 % 256) as u8, (x1 / 256) as u8, (x1 % 256) as u8],
        ),
        window_ops(x0, y0, x1, y1)[2] == Op::Command(CMD_RASET),
        window_ops(x0, y0, x1, y1)[3] == Op::Data(
            seq![(y0 / 256) as u8, (y0 % 256) as u8, (y1 / 256) as u8, (y1 % 256) as u8],
        ),
        window_ops(x0, y0, x1, y1)[4] == Op::Command(CMD_RAMWR),
        forall|i: int|
            (0 <= i < 5 && ((#[trigger] window_ops(x0, y0, x1, y1)[i]) matches Op::Command(_)))
                ==> (i == 0 || i == 2 || i == 4),
{
    assert(be_bytes(x0) + be_bytes(x1) =~= seq![
        (x0 / 256) as u8,
        (x0 % 256) as u8,
        (x1 / 256) as u8,
        (x1 % 256) as u8,
    ]);
    assert(be_bytes(y0) + be_bytes(y1) =~= seq![
        (y0 / 256) as u8,
        (y0 % 256) as u8,
        (y1 / 256) as u8,
        (y1 % 256) as u8,
    ]);
}

/// Every orientation change is exactly one MADCTL command followed by one
/// single-byte parameter burst carrying the documented control byte.
pub proof fn lemma_orientation_protocol(o: Orientation)
    ensures
        orientation_ops(o).len() == 2,
        orientation_ops(o)[0] == Op::Command(CMD_MADCTL),
        orientation_ops(o)[1] == Op::Data(seq![madctl_byte(o)]),
{
}

/// The reset line is held low for at least the minimum pulse width before
/// it is driven high again, and the last action is the post-reset settle
/// delay, so the operation is not complete before it has elapsed.  With no
/// reset pin wired, nothing at all is emitted.
pub proof fn lemma_reset_timing()
    ensures
        hard_reset_ops(PinRole::Present).len() == 6,
        hard_reset_ops(PinRole::Present)[2] == Op::RstLow,
        hard_reset_ops(PinRole::Present)[3] == Op::DelayUs(RESET_PULSE_US),
        RESET_PULSE_US >= 10,
        hard_reset_ops(PinRole::Present)[4] == Op::RstHigh,
        hard_reset_ops(PinRole::Present)[5] == Op::DelayUs(RESET_SETTLE_US),
        RESET_SETTLE_US >= 120000,
        hard_reset_ops(PinRole::Absent) == Seq::<Op>::empty(),
{
}

/// The driver for one panel: logical state, panel size, and which optional
/// control pins are wired.
pub struct St7789 {
    state: DisplayState,
    width: u16,
    height: u16,
    rst: PinRole,
    bl: PinRole,
}

impl St7789 {
    pub closed spec fn state(&self) -> DisplayState {
        self.state
    }

    pub closed spec fn width(&self) -> u16 {
        self.width
    }

    pub closed spec fn height(&self) -> u16 {
        self.height
    }

    pub closed spec fn rst(&self) -> PinRole {
        self.rst
    }

    pub closed spec fn bl(&self) -> PinRole {
        self.bl
    }

    /// Everything but the logical state: the fixed configuration.
    pub open spec fn same_config(&self, other: &St7789) -> bool {
        &&& self.width() == other.width()
        &&& self.height() == other.height()
        &&& self.rst() == other.rst()
        &&& self.bl() == other.bl()
    }

    /// A new driver for a `width x height` panel.  Which pins are wired is
    /// fixed here; an absent pin makes its protocol steps no-ops.
    pub fn new(width: u16, height: u16, rst: PinRole, bl: PinRole) -> (r: Self)
        ensures
            r.state() == DisplayState::Uninitialized,
            r.width() == width,
            r.height() == height,
            r.rst() == rst,
            r.bl() == bl,
    {
        St7789 { state: DisplayState::Uninitialized, width, height, rst, bl }
    }

    /// Hardware reset.  Valid in every state, as a full restart.  Holds the
    /// reset line low for at least the minimum pulse width, releases it,
    /// and schedules the post-reset settle delay; with no reset pin wired
    /// the step is skipped.  Leaves the controller in state `Reset`.
    pub fn hard_reset(&mut self) -> (ops: Vec<BusOp>)
        ensures
            final(self).state() == DisplayState::Reset,
            final(self).same_config(old(self)),
            ops_view(ops) == hard_reset_ops(old(self).rst()),
    {
        let mut ops: Vec<BusOp> = Vec::new();
        if let PinRole::Present = self.rst {
            push_reset_pulse(&mut ops);
        }
        self.state = DisplayState::Reset;
        proof {
            assert(ops_view(ops) =~= hard_reset_ops(old(self).rst()));
        }
        ops
    }

    /// Vendor bring-up.  Valid only from `Reset`; in any other state the
    /// call is rejected with `WrongState` and nothing is emitted.  Leaves
    /// the controller in state `Initialized`.
    pub fn init(&mut self) -> (r: Result<Vec<BusOp>, DriverError>)
        ensures
            final(self).same_config(old(self)),
            old(self).state() == DisplayState::Reset ==> {
                &&& r matches Ok(ops) && ops_view(ops) == init_ops(old(self).bl())
                &&& final(self).state() == DisplayState::Initialized
            },
            old(self).state() != DisplayState::Reset ==> {
                &&& r matches Err(e) && e == DriverError::WrongState
                &&& *final(self) == *old(self)
            },
    {
        if let DisplayState::Reset = self.state {
        } else {
            return Err(DriverError::WrongState);
        }
        let mut ops: Vec<BusOp> = Vec::new();
        if let PinRole::Present = self.bl {
            ops.push(BusOp::BacklightOn);
            proof {
                assert(ops_view(ops) =~= seq![Op::BacklightOn]);
            }
        }
        push_command(&mut ops, CMD_SLPOUT);
        push_delay(&mut ops, SLPOUT_SETTLE_US);
        push_command(&mut ops, CMD_COLMOD);
        push_data(&mut ops, vec![0x55u8]);
        push_command(&mut ops, CMD_PORCTRL);
        push_data(&mut ops, vec![0x0Cu8, 0x0Cu8, 0x00u8, 0x33u8, 0x33u8]);
        push_command(&mut ops, CMD_GCTRL);
        push_data(&mut ops, vec![0x35u8]);
        push_command(&mut ops, CMD_VCOMS);
        push_data(&mut ops, vec![0x19u8]);
        push_command(&mut ops, CMD_PWCTRL1);
        push_data(&mut ops, vec![0xA4u8, 0xA1u8]);
        push_command(&mut ops, CMD_PVGAMCTRL);
        push_data(
            &mut ops,
            vec![
                0xD0u8, 0x04u8, 0x0Du8, 0x11u8, 0x13u8, 0x2Bu8, 0x3Fu8, 0x54u8, 0x4Cu8, 0x18u8,
                0x0Du8, 0x0Bu8, 0x1Fu8, 0x23u8,
            ],
        );
        push_command(&mut ops, CMD_NVGAMCTRL);
        push_data(
            &mut ops,
            vec![
                0xD0u8, 0x04u8, 0x0Cu8, 0x11u8, 0x13u8, 0x2Cu8, 0x3Fu8, 0x44u8, 0x51u8, 0x2Fu8,
                0x1Fu8, 0x1Fu8, 0x20u8, 0x23u8,
            ],
        );
        push_command(&mut ops, CMD_INVON);
        push_command(&mut ops, CMD_NORON);
        push_delay(&mut ops, MODE_SETTLE_US);
        push_command(&mut ops, CMD_DISPON);
        push_delay(&mut ops, MODE_SETTLE_US);
        self.state = DisplayState::Initialized;
        proof {
            assert(ops_view(ops) =~~= init_ops(old(self).bl()));
        }
        Ok(ops)
    }

    /// Orientation change: the MADCTL command with the documented control
    /// byte for `o`.  Valid from `Initialized` and `Ready`; the logical
    /// state is unchanged.  Addressing is orientation-relative, so a
    /// non-default orientation must be set before the first address window.
    pub fn set_orientation(&mut self, o: Orientation) -> (r: Result<Vec<BusOp>, DriverError>)
        ensures
            final(self).same_config(old(self)),
            accepts_addressing(old(self).state()) ==> {
                &&& r matches Ok(ops) && ops_view(ops) == orientation_ops(o)
                &&& final(self).state() == old(self).state()
            },
            !accepts_addressing(old(self).state()) ==> {
                &&& r matches Err(e) && e == DriverError::WrongState
                &&& *final(self) == *old(self)
            },
    {
        if !self.accepts_addressing_now() {
            return Err(DriverError::WrongState);
        }
        let mut ops: Vec<BusOp> = Vec::new();
        push_command(&mut ops, CMD_MADCTL);
        let byte = match o {
            Orientation::Portrait => 0x00u8,
            Orientation::Landscape => 0x60u8,
            Orientation::PortraitSwapped => 0xC0u8,
            Orientation::LandscapeSwapped => 0xA0u8,
        };
        push_data(&mut ops, vec![byte]);
        proof {
            lemma_madctl_table();
            assert(byte == madctl_byte(o));
            assert(ops_view(ops) =~~= orientation_ops(o));
        }
        Ok(ops)
    }

    /// Address-window set: column bounds, row bounds, then the start of a
    /// memory write.  Valid from `Initialized` and `Ready`; the window must
    /// satisfy `x0 <= x1 < width` and `y0 <= y1 < height`, else the call is
    /// rejected with `InvalidWindow`.  Leaves the controller in state
    /// `Ready` for the following pixel burst.
    pub fn set_address_window(&mut self, x0: u16, y0: u16, x1: u16, y1: u16) -> (r: Result<
        Vec<BusOp>,
        DriverError,
    >)
        ensures
            final(self).same_config(old(self)),
            !accepts_addressing(old(self).state()) ==> {
                &&& r matches Err(e) && e == DriverError::WrongState
                &&& *final(self) == *old(self)
            },
            accepts_addressing(old(self).state()) && !valid_window(
                x0,
                y0,
                x1,
                y1,
                old(self).width(),
                old(self).height(),
            ) ==> {
                &&& r matches Err(e) && e == DriverError::InvalidWindow
                &&& *final(self) == *old(self)
            },
            accepts_addressing(old(self).state()) && valid_window(
                x0,
                y0,
                x1,
                y1,
                old(self).width(),
                old(self).height(),
            ) ==> {
                &&& r matches Ok(ops) && ops_view(ops) == window_ops(x0, y0, x1, y1)
                &&& final(self).state() == DisplayState::Ready
            },
    {
        if !self.accepts_addressing_now() {
            return Err(DriverError::WrongState);
        }
        if !(x0 <= x1 && x1 < self.width && y0 <= y1 && y1 < self.height) {
            return Err(DriverError::InvalidWindow);
        }
        let mut ops: Vec<BusOp> = Vec::new();
        push_command(&mut ops, CMD_CASET);
        push_data(&mut ops, coord_bytes(x0, x1));
        push_command(&mut ops, CMD_RASET);
        push_data(&mut ops, coord_bytes(y0, y1));
        push_command(&mut ops, CMD_RAMWR);
        self.state = DisplayState::Ready;
        proof {
            assert(ops_view(ops) =~= window_ops(x0, y0, x1, y1));
        }
        Ok(ops)
    }

    /// Full-frame transfer: the entire byte view of a frame as one
    /// uninterrupted burst, following the memory write begun by the last
    /// address-window set.  Valid only from `Ready`, where the controller
    /// also stays, so the next frame needs no new window while the extent
    /// is unchanged.  The executor blocks until the transfer is physically
    /// complete; a transport failure is fatal, never retried.
    pub fn eat_framebuffer(&mut self, frame_bytes: Vec<u8>) -> (r: Result<
        Vec<BusOp>,
        DriverError,
    >)
        ensures
            final(self).same_config(old(self)),
            old(self).state() == DisplayState::Ready ==> {
                &&& r matches Ok(ops) && ops_view(ops) == seq![Op::Data(frame_bytes@)]
                &&& final(self).state() == DisplayState::Ready
            },
            old(self).state() != DisplayState::Ready ==> {
                &&& r matches Err(e) && e == DriverError::WrongState
                &&& *final(self) == *old(self)
            },
    {
        if let DisplayState::Ready = self.state {
        } else {
            return Err(DriverError::WrongState);
        }
        let ghost contents = frame_bytes@;
        let mut ops: Vec<BusOp> = Vec::new();
        push_data(&mut ops, frame_bytes);
        proof {
            assert(ops_view(ops) =~= seq![Op::Data(contents)]);
        }
        Ok(ops)
    }

    /// The current logical state.
    pub fn current_state(&self) -> (r: DisplayState)
        ensures
            r == self.state(),
    {
        self.state
    }

    /// Whether the current state accepts orientation and addressing
    /// commands.
    pub fn accepts_addressing_now(&self) -> (r: bool)
        ensures
            r == accepts_addressing(self.state()),
    {
        match self.state {
            DisplayState::Initialized | DisplayState::Ready => true,
            _ => false,
        }
    }
}

/// The two big-endian parameter bytes of each of two coordinates, as one
/// burst.
fn coord_bytes(a: u16, b: u16) -> (r: Vec<u8>)
    ensures
        r@ == be_bytes(a) + be_bytes(b),
{
    let mut r: Vec<u8> = Vec::new();
    r.push((a / 256) as u8);
    r.push((a % 256) as u8);
    r.push((b / 256) as u8);
    r.push((b % 256) as u8);
    proof {
        assert(r@ =~= be_bytes(a) + be_bytes(b));
    }
    r
}

/// The reset pulse actions for a wired reset pin.
fn push_reset_pulse(ops: &mut Vec<BusOp>)
    ensures
        ops_view(*final(ops)) == ops_view(*old(ops)) + hard_reset_ops(PinRole::Present),
{
    ops.push(BusOp::RstHigh);
    ops.push(BusOp::DelayUs(RESET_PULSE_US));
    ops.push(BusOp::RstLow);
    ops.push(BusOp::DelayUs(RESET_PULSE_US));
    ops.push(BusOp::RstHigh);
    ops.push(BusOp::DelayUs(RESET_SETTLE_US));
    proof {
        assert(ops_view(*ops) =~= ops_view(*old(ops)) + hard_reset_ops(PinRole::Present));
    }
}

} // verus!
