use vstd::prelude::*;

verus! {

/// How many data lines a phase of a bus transfer uses.
#[derive(Clone, Copy, Debug, PartialEq, Eq, Structural)]
pub enum Lanes {
    Single,
    Quad,
}

/// The command phase of a half-duplex transfer.
#[derive(Clone, Copy, Debug, PartialEq, Eq, Structural)]
pub enum CommandPhase {
    Absent,
    Command8(u8, Lanes),
}

/// The address phase of a half-duplex transfer.
#[derive(Clone, Copy, Debug, PartialEq, Eq, Structural)]
pub enum AddressPhase {
    Absent,
    Address24(u32, Lanes),
}

/// The leading fields of a half-duplex transfer: everything but its payload.
#[derive(Clone, Copy, Debug, PartialEq, Eq, Structural)]
pub struct Frame {
    pub data_lanes: Lanes,
    pub command: CommandPhase,
    pub address: AddressPhase,
    pub dummy: u8,
}

/// One step that the transport, the control lines or the clock must carry out.
#[derive(Clone, Debug, PartialEq, Eq)]
pub enum BusAction {
    /// Drive chip select low (assert it).
    SelectLow,
    /// Drive chip select high (deassert it).
    SelectHigh,
    /// Drive the reset line low.
    ResetLow,
    /// Drive the reset line high.
    ResetHigh,
    /// Block for the given number of milliseconds.
    DelayMillis(u32),
    /// A half-duplex write of the payload.
    Write(Frame, Vec<u8>),
    /// A half-duplex read of the given number of bytes.
    Read(Frame, usize),
}

/// What a `BusAction` is, with its payload as a sequence.
pub enum Act {
    SelectLow,
    SelectHigh,
    ResetLow,
    ResetHigh,
    DelayMillis(u32),
    Write(Frame, Seq<u8>),
    Read(Frame, nat),
}

impl View for BusAction {
    type V = Act;

    open spec fn view(&self) -> Act {
        match self {
            BusAction::SelectLow => Act::SelectLow,
            BusAction::SelectHigh => Act::SelectHigh,
            BusAction::ResetLow => Act::ResetLow,
            BusAction::ResetHigh => Act::ResetHigh,
            BusAction::DelayMillis(ms) => Act::DelayMillis(*ms),
            BusAction::Write(f, data) => Act::Write(*f, data@),
            BusAction::Read(f, n) => Act::Read(*f, *n as nat),
        }
    }
}

/// The sequence of steps that a list of actions stands for.
pub open spec fn plan_view(p: Seq<BusAction>) -> Seq<Act> {
    p.map_values(|a: BusAction| a@)
}

/// Whether chip select is asserted once the first `k` steps of `p` have run.
pub open spec fn selected_after(p: Seq<Act>, k: int) -> bool
    decreases k,
{
    if k <= 0 || k > p.len() {
        false
    } else {
        match p[k - 1] {
            Act::SelectLow => true,
            Act::SelectHigh => false,
            _ => selected_after(p, k - 1),
        }
    }
}

/// Whether step `k` of `p` happens in the chip-select state it needs: an
/// assertion only while released, a release only while asserted, transfers
/// only while asserted, resets and delays only while released.
pub open spec fn step_fits(p: Seq<Act>, k: int) -> bool {
    match p[k] {
        Act::SelectLow => !selected_after(p, k),
        Act::SelectHigh => selected_after(p, k),
        Act::Write(..) => selected_after(p, k),
        Act::Read(..) => selected_after(p, k),
        _ => !selected_after(p, k),
    }
}

/// Every step of `p` fits its chip-select state, and chip select ends released.
pub open spec fn well_bracketed(p: Seq<Act>) -> bool {
    &&& forall|k: int| 0 <= k < p.len() ==> #[trigger] step_fits(p, k)
    &&& !selected_after(p, p.len() as int)
}

/// The bytes that a step writes, if it writes any.
pub open spec fn payload(a: Act) -> Seq<u8> {
    match a {
        Act::Write(_, data) => data,
        _ => seq![],
    }
}

/// All the bytes that `acts` write, in order.
pub open spec fn payloads(acts: Seq<Act>) -> Seq<u8>
    decreases acts.len(),
{
    if acts.len() == 0 {
        seq![]
    } else {
        payloads(acts.drop_last()) + payload(acts.last())
    }
}

/// What to do once step `failed` of `plan` has failed and the rest is abandoned:
/// release chip select if it is still asserted, and nothing else.
pub fn after_failure(plan: &Vec<BusAction>, failed: usize) -> (r: Vec<BusAction>)
    requires
        failed < plan@.len(),
    ensures
        plan_view(r@) == if selected_after(plan_view(plan@), failed + 1) {
            seq![Act::SelectHigh]
        } else {
            seq![]
        },
{
    let ghost pv = plan_view(plan@);
    let n = plan.len();
    let mut selected = false;
    let mut i: usize = 0;
    while i <= failed
        invariant
            n == plan@.len(),
            failed < plan@.len(),
            i <= failed + 1,
            pv == plan_view(plan@),
            selected == selected_after(pv, i as int),
        decreases failed + 1 - i,
    {
        assert(pv[i as int] == plan@[i as int]@);
        match &plan[i] {
            BusAction::SelectLow => {
                selected = true;
            },
            BusAction::SelectHigh => {
                selected = false;
            },
            _ => {},
        }
        i = i + 1;
    }
    let mut r: Vec<BusAction> = Vec::new();
    if selected {
        push_action(&mut r, BusAction::SelectHigh);
    }
    assert(plan_view(r@) =~= if selected_after(pv, failed + 1) {
        seq![Act::SelectHigh]
    } else {
        seq![]
    });
    r
}

/// The byte that opens every register-write transfer.
pub const COMMAND_MARKER: u8 = 0x02;

/// The byte that opens the first transfer of a burst of pixel data.
pub const PIXEL_WRITE_MARKER: u8 = 0x32;

/// The controller's memory write command, carried in the address of the first pixel transfer.
pub const MEMORY_WRITE: u32 = 0x2C;

/// The address of the controller's identification register.
pub const ID_REGISTER: u32 = 0xDA;

/// The framing of a register write of controller command `code`.
pub open spec fn command_frame(code: u8) -> Frame {
    Frame {
        data_lanes: Lanes::Single,
        command: CommandPhase::Command8(0x02, Lanes::Single),
        address: AddressPhase::Address24(((code as u32) * 256) as u32, Lanes::Single),
        dummy: 0,
    }
}

/// The framing of the first transfer of a burst of pixel data.
pub open spec fn first_pixels_frame() -> Frame {
    Frame {
        data_lanes: Lanes::Quad,
        command: CommandPhase::Command8(0x32, Lanes::Single),
        address: AddressPhase::Address24(0x2C00, Lanes::Single),
        dummy: 0,
    }
}

/// The framing of a transfer that continues a burst of pixel data.
pub open spec fn next_pixels_frame() -> Frame {
    Frame {
        data_lanes: Lanes::Quad,
        command: CommandPhase::Absent,
        address: AddressPhase::Absent,
        dummy: 0,
    }
}

/// The framing of a read of the identification register.
pub open spec fn id_read_frame() -> Frame {
    Frame {
        data_lanes: Lanes::Quad,
        command: CommandPhase::Absent,
        address: AddressPhase::Address24(0xDA, Lanes::Quad),
        dummy: 0,
    }
}

/// The write that carries one piece of a pixel burst.
pub open spec fn chunk_act(is_first: bool, data: Seq<u8>) -> Act {
    Act::Write(if is_first { first_pixels_frame() } else { next_pixels_frame() }, data)
}

/// A complete register-write transaction: chip select brackets one single-lane write.
pub open spec fn command_plan(code: u8, params: Seq<u8>) -> Seq<Act> {
    seq![Act::SelectLow, Act::Write(command_frame(code), params), Act::SelectHigh]
}

/// The framing of a register write of controller command `code`.
pub fn command_frame_of(code: u8) -> (r: Frame)
    ensures
        r == command_frame(code),
{
    Frame {
        data_lanes: Lanes::Single,
        command: CommandPhase::Command8(COMMAND_MARKER, Lanes::Single),
        address: AddressPhase::Address24((code as u32) * 256, Lanes::Single),
        dummy: 0,
    }
}

/// Appends one action to `plan`.
pub fn push_action(plan: &mut Vec<BusAction>, a: BusAction)
    ensures
        plan_view(final(plan)@) == plan_view(old(plan)@).push(a@),
{
    let ghost v = a@;
    plan.push(a);
    assert(plan_view(plan@) =~= plan_view(old(plan)@).push(v));
}

/// Appends a register-write transaction of command `code` with `params` to `plan`.
pub fn push_command(plan: &mut Vec<BusAction>, code: u8, params: Vec<u8>)
    ensures
        plan_view(final(plan)@) == plan_view(old(plan)@) + command_plan(code, params@),
{
    let ghost p = params@;
    plan.push(BusAction::SelectLow);
    plan.push(BusAction::Write(command_frame_of(code), params));
    plan.push(BusAction::SelectHigh);
    assert(plan_view(plan@) =~= plan_view(old(plan)@) + command_plan(code, p));
}

} // verus!
