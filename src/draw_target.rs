use vstd::prelude::*;

use crate::bus::{chunk_act, plan_view, push_action, Act, BusAction};
use crate::orientation::size_of;
use crate::rm67162::{be_bytes, be_vec, pixel_plan, window_plan, RM67162};

verus! {

/// One pixel handed to the surface: a position that may lie anywhere, and an RGB565 colour.
#[derive(Clone, Copy, Debug, PartialEq, Eq, Structural)]
pub struct Pixel {
    pub x: i32,
    pub y: i32,
    pub color: u16,
}

/// An axis-aligned rectangle: its top-left corner and its size.
#[derive(Clone, Copy, Debug, PartialEq, Eq, Structural)]
pub struct Rectangle {
    pub x: i32,
    pub y: i32,
    pub width: u32,
    pub height: u32,
}

/// Whether `p` has a position the controller can address.
pub open spec fn on_grid(p: Pixel) -> bool {
    0 <= p.x <= 0xFFFF && 0 <= p.y <= 0xFFFF
}

/// What drawing a run of pixels issues: each addressable pixel on its own, in
/// order; the others are skipped.
pub open spec fn points_plan(ps: Seq<Pixel>) -> Seq<Act>
    decreases ps.len(),
{
    if ps.len() == 0 {
        seq![]
    } else {
        let p = ps.last();
        points_plan(ps.drop_last()) + if on_grid(p) {
            pixel_plan(p.x as u16, p.y as u16, p.color)
        } else {
            seq![]
        }
    }
}

/// Whether the controller can address every cell of `a` (which is then not empty).
pub open spec fn addressable(a: Rectangle) -> bool {
    &&& a.width >= 1
    &&& a.height >= 1
    &&& 0 <= a.x
    &&& 0 <= a.y
    &&& a.x + a.width - 1 <= 0xFFFF
    &&& a.y + a.height - 1 <= 0xFFFF
}

/// The number of pixels of `a`.
pub open spec fn area(a: Rectangle) -> nat {
    (a.width * a.height) as nat
}

/// How many colours a fill of `a` from `colors` sends.
pub open spec fn fill_count(a: Rectangle, colors: Seq<u16>) -> nat {
    if area(a) < colors.len() { area(a) } else { colors.len() }
}

/// The transfers of a colour stream: one per colour, in order, the first opening the burst.
pub open spec fn color_stream(colors: Seq<u16>, n: nat) -> Seq<Act> {
    Seq::new(n, |i: int| chunk_act(i == 0, be_bytes(colors[i])))
}

/// The window that covers `a`.
pub open spec fn rect_window(a: Rectangle) -> Seq<Act> {
    window_plan(a.x as u16, a.y as u16, (a.x + a.width - 1) as u16, (a.y + a.height - 1) as u16)
}

/// Filling `a` from `colors`: one window, then one chip-select bracket around
/// the colours that fit in `a`. A rectangle the controller cannot address issues nothing.
pub open spec fn fill_rect_plan(a: Rectangle, colors: Seq<u16>) -> Seq<Act> {
    if addressable(a) {
        rect_window(a) + seq![Act::SelectLow] + color_stream(colors, fill_count(a, colors))
            + seq![Act::SelectHigh]
    } else {
        seq![]
    }
}

impl RM67162 {
    /// The logical (width, height) of the screen in the current orientation.
    pub fn size(&self) -> (r: (u32, u32))
        ensures
            r == size_of(self.orientation),
    {
        self.orientation.logical_size()
    }

    /// Draws each pixel on its own; pixels with a negative (or too large)
    /// coordinate are skipped without any transfer.
    pub fn draw_iter(&self, pixels: &[Pixel]) -> (r: Vec<BusAction>)
        ensures
            plan_view(r@) == points_plan(pixels@),
    {
        let mut plan: Vec<BusAction> = Vec::new();
        let mut i: usize = 0;
        while i < pixels.len()
            invariant
                i <= pixels@.len(),
                plan_view(plan@) == points_plan(pixels@.take(i as int)),
            decreases pixels@.len() - i,
        {
            let p = pixels[i];
            assert(pixels@.take(i + 1).drop_last() =~= pixels@.take(i as int));
            if 0 <= p.x && p.x <= 0xFFFF && 0 <= p.y && p.y <= 0xFFFF {
                let mut more = self.draw_point(p.x as u16, p.y as u16, p.color);
                let ghost before = plan_view(plan@);
                let ghost added = plan_view(more@);
                plan.append(&mut more);
                assert(plan_view(plan@) =~= before + added);
            }
            i = i + 1;
        }
        assert(pixels@.take(i as int) =~= pixels@);
        plan
    }

    /// Fills `area` from `colors`: sets the window once, then sends inside one
    /// chip-select bracket as many colours as the area holds, each as one
    /// transfer. Extra colours are ignored; too few end the fill short. An area
    /// the controller cannot address issues nothing.
    pub fn fill_contiguous(&self, area: Rectangle, colors: &[u16]) -> (r: Vec<BusAction>)
        ensures
            plan_view(r@) == fill_rect_plan(area, colors@),
    {
        let mut plan: Vec<BusAction> = Vec::new();
        if !(area.width >= 1 && area.height >= 1 && 0 <= area.x && 0 <= area.y
            && area.x as u64 + area.width as u64 - 1 <= 0xFFFF
            && area.y as u64 + area.height as u64 - 1 <= 0xFFFF) {
            assert(plan_view(plan@) =~= fill_rect_plan(area, colors@));
            return plan;
        }
        self.set_address(
            &mut plan,
            area.x as u16,
            area.y as u16,
            (area.x as u32 + area.width - 1) as u16,
            (area.y as u32 + area.height - 1) as u16,
        );
        push_action(&mut plan, BusAction::SelectLow);
        let ghost head = plan_view(plan@);
        assert(area.width * area.height <= 0x10000 * 0x10000) by (nonlinear_arith)
            requires
                area.width <= 0x10000,
                area.height <= 0x10000,
        ;
        let total: u64 = area.width as u64 * area.height as u64;
        let n: usize = if total < colors.len() as u64 { total as usize } else { colors.len() };
        assert(n == fill_count(area, colors@));
        let mut i: usize = 0;
        while i < n
            invariant
                n <= colors@.len(),
                i <= n,
                plan_view(plan@) == head + color_stream(colors@, i as nat),
            decreases n - i,
        {
            let bytes = be_vec(colors[i]);
            push_action(&mut plan, self.send_chunk(bytes.as_slice(), i == 0));
            assert(color_stream(colors@, (i + 1) as nat) =~= color_stream(colors@, i as nat).push(
                chunk_act(i == 0, be_bytes(colors@[i as int])),
            ));
            assert(plan_view(plan@) =~= head + color_stream(colors@, (i + 1) as nat));
            i = i + 1;
        }
        push_action(&mut plan, BusAction::SelectHigh);
        assert(plan_view(plan@) =~= fill_rect_plan(area, colors@));
        plan
    }
}

} // verus!
