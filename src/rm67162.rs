use vstd::prelude::*;
use vstd::slice::{slice_subrange, slice_to_vec};

use crate::bus::{
    chunk_act, command_plan, id_read_frame, plan_view, push_action, push_command, Act,
    AddressPhase, BusAction, CommandPhase, Frame, Lanes, ID_REGISTER, MEMORY_WRITE,
    PIXEL_WRITE_MARKER,
};
use crate::orientation::{madctr_of, size_of, Orientation};

verus! {

/// Bytes of pixel data handed to the transport in one transfer of a burst.
pub const BUFFER_SIZE: usize = 16368;

/// Pixels that fit in one transfer of a burst.
pub const BUFFER_PIXELS: usize = 8184;

/// Controller command: leave sleep mode.
pub const SLEEP_OUT: u8 = 0x11;

/// Controller command: set the interface pixel format.
pub const PIXEL_FORMAT: u8 = 0x3A;

/// Controller command: set the display brightness.
pub const BRIGHTNESS: u8 = 0x51;

/// Controller command: turn the display on.
pub const DISPLAY_ON: u8 = 0x29;

/// Controller command: memory access control (rotation and mirroring).
pub const MADCTR: u8 = 0x36;

/// Controller command: set the column bounds of the addressing window.
pub const COLUMN_ADDRESS: u8 = 0x2A;

/// Controller command: set the row bounds of the addressing window.
pub const ROW_ADDRESS: u8 = 0x2B;

/// The big-endian wire form of a 16-bit value.
pub open spec fn be_bytes(v: u16) -> Seq<u8> {
    seq![(v / 256) as u8, (v % 256) as u8]
}

/// The two register writes that set the window (x1, y1)-(x2, y2), bounds inclusive.
pub open spec fn window_plan(x1: u16, y1: u16, x2: u16, y2: u16) -> Seq<Act> {
    command_plan(0x2A, be_bytes(x1) + be_bytes(x2)) + command_plan(0x2B, be_bytes(y1) + be_bytes(y2))
}

/// Writing one pixel: a 1x1 window, then one bracketed first transfer of its colour.
pub open spec fn pixel_plan(x: u16, y: u16, color: u16) -> Seq<Act> {
    window_plan(x, y, x, y) + seq![Act::SelectLow, chunk_act(true, be_bytes(color)), Act::SelectHigh]
}

/// The reset pulse: low for 300 ms, then high and a 200 ms settle.
pub open spec fn reset_plan() -> Seq<Act> {
    seq![Act::ResetLow, Act::DelayMillis(300), Act::ResetHigh, Act::DelayMillis(200)]
}

/// One pass of the power-up sequence.
pub open spec fn init_round() -> Seq<Act> {
    command_plan(0x11, seq![]) + seq![Act::DelayMillis(120)] + command_plan(0x3A, seq![0x55u8])
        + command_plan(0x51, seq![0x00u8]) + command_plan(0x29, seq![]) + seq![Act::DelayMillis(10)]
        + command_plan(0x51, seq![0xE0u8])
}

/// `n` passes of the power-up sequence.
pub open spec fn init_rounds(n: nat) -> Seq<Act>
    decreases n,
{
    if n == 0 { seq![] } else { init_rounds((n - 1) as nat) + init_round() }
}

/// The whole initialisation: three passes, then the orientation register.
pub open spec fn init_plan(o: Orientation) -> Seq<Act> {
    init_rounds(3) + command_plan(0x36, seq![madctr_of(o)])
}

/// The write of the orientation register for `o`.
pub open spec fn orientation_plan(o: Orientation) -> Seq<Act> {
    command_plan(0x36, seq![madctr_of(o)])
}

/// The read of the identification register.
pub open spec fn version_plan() -> Seq<Act> {
    seq![Act::SelectLow, Act::Read(id_read_frame(), 3), Act::SelectHigh]
}

/// The number of transfers that a burst of `len` bytes takes.
pub open spec fn chunk_count(len: nat) -> nat {
    ((len + 16368 - 1) as nat / 16368) as nat
}

/// The `i`th transfer-sized piece of `buf`.
pub open spec fn piece(buf: Seq<u8>, i: int) -> Seq<u8> {
    let end = if (i + 1) * 16368 < buf.len() { (i + 1) * 16368 } else { buf.len() as int };
    buf.subrange(i * 16368, end)
}

/// The transfers of a burst that carries `buf`, in order.
pub open spec fn burst(buf: Seq<u8>) -> Seq<Act> {
    Seq::new(chunk_count(buf.len()), |i: int| chunk_act(i == 0, piece(buf, i)))
}

/// A whole-screen write: the full window, then one bracketed burst of `buf`.
pub open spec fn fill_plan(o: Orientation, buf: Seq<u8>) -> Seq<Act> {
    window_plan(0, 0, (size_of(o).0 - 1) as u16, (size_of(o).1 - 1) as u16) + seq![Act::SelectLow]
        + burst(buf) + seq![Act::SelectHigh]
}

/// The big-endian wire form of a 16-bit value.
pub fn be_vec(v: u16) -> (r: Vec<u8>)
    ensures
        r@ == be_bytes(v),
{
    let mut r: Vec<u8> = Vec::new();
    r.push((v / 256) as u8);
    r.push((v % 256) as u8);
    assert(r@ =~= be_bytes(v));
    r
}

/// A one-byte parameter list.
pub fn one_byte(b: u8) -> (r: Vec<u8>)
    ensures
        r@ == seq![b],
{
    let mut r: Vec<u8> = Vec::new();
    r.push(b);
    assert(r@ =~= seq![b]);
    r
}

/// The driver's own state: which orientation the panel is in.
///
/// Every operation returns the exact list of bus actions that carries it out;
/// the caller performs them in order and stops at the first that fails.
pub struct RM67162 {
    pub orientation: Orientation,
}

impl RM67162 {
    pub fn new(orientation: Orientation) -> (r: Self)
        ensures
            r.orientation == orientation,
    {
        RM67162 { orientation }
    }

    /// Pulses the reset line.
    pub fn reset(&self) -> (r: Vec<BusAction>)
        ensures
            plan_view(r@) == reset_plan(),
    {
        let mut plan: Vec<BusAction> = Vec::new();
        push_action(&mut plan, BusAction::ResetLow);
        push_action(&mut plan, BusAction::DelayMillis(300));
        push_action(&mut plan, BusAction::ResetHigh);
        push_action(&mut plan, BusAction::DelayMillis(200));
        assert(plan_view(plan@) =~= reset_plan());
        plan
    }

    /// Appends a register write of `code` with `params` to `plan`.
    pub(crate) fn command(&self, plan: &mut Vec<BusAction>, code: u8, params: Vec<u8>)
        ensures
            plan_view(final(plan)@) == plan_view(old(plan)@) + command_plan(code, params@),
    {
        push_command(plan, code, params);
    }

    /// Brings the controller out of sleep, sets 16-bit colour and the brightness,
    /// turns the display on (all three times over), then writes the orientation.
    pub fn initialize(&self) -> (r: Vec<BusAction>)
        ensures
            plan_view(r@) == init_plan(self.orientation),
    {
        let mut plan: Vec<BusAction> = Vec::new();
        let mut i: usize = 0;
        while i < 3
            invariant
                i <= 3,
                plan_view(plan@) == init_rounds(i as nat),
            decreases 3 - i,
        {
            let ghost before = plan_view(plan@);
            self.command(&mut plan, SLEEP_OUT, Vec::new());
            push_action(&mut plan, BusAction::DelayMillis(120));
            self.command(&mut plan, PIXEL_FORMAT, one_byte(0x55));
            self.command(&mut plan, BRIGHTNESS, one_byte(0x00));
            self.command(&mut plan, DISPLAY_ON, Vec::new());
            push_action(&mut plan, BusAction::DelayMillis(10));
            self.command(&mut plan, BRIGHTNESS, one_byte(0xE0));
            assert(plan_view(plan@) =~= before + init_round());
            i = i + 1;
        }
        self.command(&mut plan, MADCTR, one_byte(self.orientation.to_madctr()));
        assert(plan_view(plan@) =~= init_plan(self.orientation));
        plan
    }

    /// Switches to `orientation` and writes it to the controller.
    pub fn set_orientation(&mut self, orientation: Orientation) -> (r: Vec<BusAction>)
        ensures
            final(self).orientation == orientation,
            plan_view(r@) == orientation_plan(orientation),
    {
        self.orientation = orientation;
        let mut plan: Vec<BusAction> = Vec::new();
        self.command(&mut plan, MADCTR, one_byte(self.orientation.to_madctr()));
        assert(plan_view(plan@) =~= orientation_plan(orientation));
        plan
    }

    /// Appends the two register writes that set the window (x1, y1)-(x2, y2).
    pub(crate) fn set_address(&self, plan: &mut Vec<BusAction>, x1: u16, y1: u16, x2: u16, y2: u16)
        ensures
            plan_view(final(plan)@) == plan_view(old(plan)@) + window_plan(x1, y1, x2, y2),
    {
        let mut xs = be_vec(x1);
        let mut x2s = be_vec(x2);
        xs.append(&mut x2s);
        let mut ys = be_vec(y1);
        let mut y2s = be_vec(y2);
        ys.append(&mut y2s);
        let ghost before = plan_view(plan@);
        self.command(plan, COLUMN_ADDRESS, xs);
        self.command(plan, ROW_ADDRESS, ys);
        assert(plan_view(plan@) =~= before + window_plan(x1, y1, x2, y2));
    }

    /// The write that carries one piece of a pixel burst: the first piece names the
    /// memory write command, the following ones continue it with payload alone.
    pub fn send_chunk(&self, chunk: &[u8], is_first: bool) -> (r: BusAction)
        ensures
            r@ == chunk_act(is_first, chunk@),
    {
        let frame = if is_first {
            Frame {
                data_lanes: Lanes::Quad,
                command: CommandPhase::Command8(PIXEL_WRITE_MARKER, Lanes::Single),
                address: AddressPhase::Address24(MEMORY_WRITE * 256, Lanes::Single),
                dummy: 0,
            }
        } else {
            Frame {
                data_lanes: Lanes::Quad,
                command: CommandPhase::Absent,
                address: AddressPhase::Absent,
                dummy: 0,
            }
        };
        BusAction::Write(frame, slice_to_vec(chunk))
    }

    /// Writes one pixel of colour `color` (RGB565) at (x, y).
    pub fn draw_point(&self, x: u16, y: u16, color: u16) -> (r: Vec<BusAction>)
        ensures
            plan_view(r@) == pixel_plan(x, y, color),
    {
        let mut plan: Vec<BusAction> = Vec::new();
        self.set_address(&mut plan, x, y, x, y);
        let ghost before = plan_view(plan@);
        push_action(&mut plan, BusAction::SelectLow);
        let bytes = be_vec(color);
        push_action(&mut plan, self.send_chunk(bytes.as_slice(), true));
        push_action(&mut plan, BusAction::SelectHigh);
        assert(plan_view(plan@) =~= pixel_plan(x, y, color));
        plan
    }

    /// Writes a whole screen of pixel data: the window covers the full logical
    /// screen, and `frame_buffer` goes out in one chip-select bracket, split into
    /// transfers of `BUFFER_SIZE` bytes (the last may be shorter).
    pub fn fill_with(&self, frame_buffer: &[u8]) -> (r: Vec<BusAction>)
        ensures
            plan_view(r@) == fill_plan(self.orientation, frame_buffer@),
    {
        let (w, h) = self.orientation.logical_size();
        let mut plan: Vec<BusAction> = Vec::new();
        self.set_address(&mut plan, 0, 0, (w - 1) as u16, (h - 1) as u16);
        push_action(&mut plan, BusAction::SelectLow);
        let ghost head = plan_view(plan@);
        let ghost buf = frame_buffer@;
        let len = frame_buffer.len();
        let mut start: usize = 0;
        let mut i: usize = 0;
        while start < len
            invariant
                len == buf.len(),
                buf == frame_buffer@,
                i <= chunk_count(len as nat),
                start <= len,
                start < len ==> start == i * 16368,
                start < len <==> i < chunk_count(len as nat),
                plan_view(plan@) == head + burst(buf).take(i as int),
            decreases len - start,
        {
            let end = if len - start > BUFFER_SIZE { start + BUFFER_SIZE } else { len };
            let chunk = slice_subrange(frame_buffer, start, end);
            assert(chunk@ == piece(buf, i as int));
            push_action(&mut plan, self.send_chunk(chunk, i == 0));
            assert(burst(buf).take(i + 1) =~= burst(buf).take(i as int).push(burst(buf)[i as int]));
            assert(plan_view(plan@) =~= head + burst(buf).take(i + 1));
            start = end;
            i = i + 1;
        }
        assert(burst(buf).take(i as int) =~= burst(buf));
        push_action(&mut plan, BusAction::SelectHigh);
        assert(plan_view(plan@) =~= fill_plan(self.orientation, buf));
        plan
    }

    /// Reads the three identification bytes.
    pub fn version(&self) -> (r: Vec<BusAction>)
        ensures
            plan_view(r@) == version_plan(),
    {
        let mut plan: Vec<BusAction> = Vec::new();
        push_action(&mut plan, BusAction::SelectLow);
        let frame = Frame {
            data_lanes: Lanes::Quad,
            command: CommandPhase::Absent,
            address: AddressPhase::Address24(ID_REGISTER, Lanes::Quad),
            dummy: 0,
        };
        push_action(&mut plan, BusAction::Read(frame, 3));
        push_action(&mut plan, BusAction::SelectHigh);
        assert(plan_view(plan@) =~= version_plan());
        plan
    }
}

} // verus!
