use vstd::prelude::*;

use crate::bus::{
    chunk_act, command_frame, command_plan, payload, payloads, selected_after, step_fits,
    well_bracketed, Act,
};
use crate::draw_target::{
    addressable, color_stream, fill_count, fill_rect_plan, on_grid, points_plan, rect_window, Pixel,
    Rectangle,
};
use crate::orientation::{madctr_of, size_from_madctr, size_of, Orientation};
use crate::rm67162::{
    be_bytes, burst, chunk_count, fill_plan, init_plan, init_round, init_rounds, orientation_plan,
    piece, pixel_plan, reset_plan, version_plan, window_plan,
};

verus! {

/// The register value of every orientation implies the very size that the
/// driver reports for it: rotation and dimensions never disagree.
pub proof fn orientation_register_agrees_with_size(o: Orientation)
    ensures
        size_from_madctr(madctr_of(o)) == size_of(o),
{
}

/// Changing the orientation writes exactly one register: the memory access
/// control command with the new orientation's value, and the size implied by
/// that byte is the size reported from then on.
pub proof fn orientation_change_is_consistent(o: Orientation)
    ensures
        orientation_plan(o).len() == 3,
        orientation_plan(o)[0] == Act::SelectLow,
        orientation_plan(o)[1] == Act::Write(command_frame(0x36), seq![madctr_of(o)]),
        orientation_plan(o)[2] == Act::SelectHigh,
        size_from_madctr(payload(orientation_plan(o)[1])[0]) == size_of(o),
{
}

/// A pixel with a negative coordinate adds nothing to what a run of pixels issues.
pub proof fn negative_pixel_is_skipped(ps: Seq<Pixel>, p: Pixel)
    requires
        p.x < 0 || p.y < 0,
    ensures
        points_plan(ps.push(p)) == points_plan(ps),
{
    assert(ps.push(p).drop_last() =~= ps);
    assert(!on_grid(p));
    assert(points_plan(ps.push(p)) =~= points_plan(ps));
}

/// A run of pixels that all have a negative coordinate issues no transaction at all.
pub proof fn negative_run_issues_nothing(ps: Seq<Pixel>)
    requires
        forall|i: int| 0 <= i < ps.len() ==> ps[i].x < 0 || ps[i].y < 0,
    ensures
        points_plan(ps) == Seq::<Act>::empty(),
    decreases ps.len(),
{
    if ps.len() > 0 {
        let init = ps.drop_last();
        assert forall|i: int| 0 <= i < init.len() implies init[i].x < 0 || init[i].y < 0 by {
            assert(init[i] == ps[i]);
        }
        negative_run_issues_nothing(init);
        assert(ps.drop_last().push(ps.last()) =~= ps);
        negative_pixel_is_skipped(init, ps.last());
    }
}

/// Filling an addressable rectangle issues one window (two register writes),
/// then one chip-select bracket holding exactly min(area, colours given) colour
/// transfers, in input order, the first opening the burst and the rest continuing it.
pub proof fn fill_has_one_window_and_one_bracket(a: Rectangle, colors: Seq<u16>)
    requires
        addressable(a),
    ensures
        ({
            let p = fill_rect_plan(a, colors);
            let n = fill_count(a, colors);
            &&& n == if a.width * a.height < colors.len() { a.width * a.height } else { colors.len() as int }
            &&& p.len() == n + 8
            &&& p.subrange(0, 6) == rect_window(a)
            &&& p[6] == Act::SelectLow
            &&& p[n + 7int] == Act::SelectHigh
            &&& forall|i: int| 0 <= i < n ==> #[trigger] p[i + 7] == chunk_act(i == 0, be_bytes(colors[i]))
        }),
{
    let p = fill_rect_plan(a, colors);
    let n = fill_count(a, colors);
    let s = color_stream(colors, n);
    assert(rect_window(a).len() == 6);
    assert(p == rect_window(a) + seq![Act::SelectLow] + s + seq![Act::SelectHigh]);
    assert(p.subrange(0, 6) =~= rect_window(a));
    assert forall|i: int| 0 <= i < n implies #[trigger] p[i + 7] == chunk_act(i == 0, be_bytes(colors[i])) by {
        assert(p[i + 7] == s[i]);
    }
}

/// Steps `lo` to `k` (exclusive) of `p` are writes and step `lo - 1` asserts
/// chip select: it is still asserted after step `k - 1`.
proof fn selected_through_writes(p: Seq<Act>, lo: int, k: int)
    requires
        0 < lo <= k <= p.len(),
        p[lo - 1] == Act::SelectLow,
        forall|j: int| lo <= j < k ==> (#[trigger] p[j]) is Write,
    ensures
        selected_after(p, k),
    decreases k,
{
    if k > lo {
        selected_through_writes(p, lo, k - 1);
    }
}

/// Whatever colour transfer of a rectangle fill fails, chip select is still
/// asserted at that point, so the abandoned fill is followed by its release.
pub proof fn failed_fill_leaves_select_to_release(a: Rectangle, colors: Seq<u16>, failed: int)
    requires
        addressable(a),
        7 <= failed < fill_rect_plan(a, colors).len() - 1,
    ensures
        selected_after(fill_rect_plan(a, colors), failed + 1),
{
    let p = fill_rect_plan(a, colors);
    fill_has_one_window_and_one_bracket(a, colors);
    assert forall|j: int| 7 <= j < failed + 1 implies (#[trigger] p[j]) is Write by {
        assert(p[(j - 7) + 7] == chunk_act(j - 7 == 0, be_bytes(colors[j - 7])));
    }
    selected_through_writes(p, 7, failed + 1);
}

proof fn chunk_count_bounds(len: nat, k: nat)
    ensures
        k < chunk_count(len) ==> k * 16368 < len,
        k == chunk_count(len) ==> len <= k * 16368,
{
    assert(k < chunk_count(len) ==> k * 16368 < len) by (nonlinear_arith)
        requires
            chunk_count(len) == (len + 16368 - 1) / 16368,
    ;
    assert(k == chunk_count(len) ==> len <= k * 16368) by (nonlinear_arith)
        requires
            chunk_count(len) == (len + 16368 - 1) / 16368,
    ;
}

proof fn burst_prefix_payloads(buf: Seq<u8>, k: nat)
    requires
        k <= chunk_count(buf.len()),
    ensures
        payloads(burst(buf).take(k as int)) == buf.subrange(
            0,
            if k * 16368 < buf.len() { (k * 16368) as int } else { buf.len() as int },
        ),
    decreases k,
{
    if k == 0 {
        assert(burst(buf).take(0) =~= Seq::<Act>::empty());
        assert(buf.subrange(0, 0) =~= Seq::<u8>::empty());
    } else {
        let j = (k - 1) as nat;
        burst_prefix_payloads(buf, j);
        chunk_count_bounds(buf.len(), j);
        assert(burst(buf).take(k as int).drop_last() =~= burst(buf).take(j as int));
        assert(burst(buf).take(k as int).last() == chunk_act(j == 0, piece(buf, j as int)));
        assert(payloads(burst(buf).take(k as int)) =~= buf.subrange(
            0,
            if k * 16368 < buf.len() { (k * 16368) as int } else { buf.len() as int },
        ));
    }
}

/// A burst keeps the bytes it carries: laid end to end, the transfers give back
/// the buffer exactly. Every transfer holds `BUFFER_SIZE` bytes but the last,
/// which holds at least one and at most that many; only the first opens the burst.
pub proof fn burst_round_trip(buf: Seq<u8>)
    ensures
        payloads(burst(buf)) == buf,
        forall|i: int| 0 <= i < chunk_count(buf.len()) ==> 0 < (#[trigger] piece(buf, i)).len() <= 16368,
        forall|i: int| 0 <= i < chunk_count(buf.len()) - 1 ==> (#[trigger] piece(buf, i)).len() == 16368,
        forall|i: int| 0 <= i < chunk_count(buf.len()) ==> #[trigger] burst(buf)[i] == chunk_act(i == 0, piece(buf, i)),
{
    let n = chunk_count(buf.len());
    burst_prefix_payloads(buf, n);
    chunk_count_bounds(buf.len(), n);
    assert(burst(buf).take(n as int) =~= burst(buf));
    assert(buf.subrange(0, buf.len() as int) =~= buf);
    assert forall|i: int| 0 <= i < n implies 0 < (#[trigger] piece(buf, i)).len() <= 16368 by {
        chunk_count_bounds(buf.len(), i as nat);
    }
    assert forall|i: int| 0 <= i < n - 1 implies (#[trigger] piece(buf, i)).len() == 16368 by {
        chunk_count_bounds(buf.len(), (i + 1) as nat);
    }
}

proof fn selected_after_prefix(a: Seq<Act>, b: Seq<Act>, k: int)
    requires
        0 <= k <= a.len(),
    ensures
        selected_after(a + b, k) == selected_after(a, k),
    decreases k,
{
    if k > 0 {
        selected_after_prefix(a, b, k - 1);
        assert((a + b)[k - 1] == a[k - 1]);
    }
}

proof fn selected_after_suffix(a: Seq<Act>, b: Seq<Act>, k: int)
    requires
        !selected_after(a, a.len() as int),
        0 <= k <= b.len(),
    ensures
        selected_after(a + b, a.len() + k) == selected_after(b, k),
    decreases k,
{
    if k > 0 {
        selected_after_suffix(a, b, k - 1);
        assert((a + b)[a.len() + k - 1] == b[k - 1]);
    } else {
        selected_after_prefix(a, b, a.len() as int);
    }
}

proof fn bracketed_concat(a: Seq<Act>, b: Seq<Act>)
    requires
        well_bracketed(a),
        well_bracketed(b),
    ensures
        well_bracketed(a + b),
{
    let p = a + b;
    assert forall|k: int| 0 <= k < p.len() implies #[trigger] step_fits(p, k) by {
        if k < a.len() {
            selected_after_prefix(a, b, k);
            assert(p[k] == a[k]);
            assert(step_fits(a, k));
        } else {
            selected_after_suffix(a, b, k - a.len());
            assert(p[k] == b[k - a.len()]);
            assert(step_fits(b, k - a.len()));
        }
    }
    selected_after_suffix(a, b, b.len() as int);
}

proof fn bracketed_writes(w: Seq<Act>)
    requires
        forall|j: int| 0 <= j < w.len() ==> (#[trigger] w[j]) is Write,
    ensures
        well_bracketed(seq![Act::SelectLow] + w + seq![Act::SelectHigh]),
{
    let p = seq![Act::SelectLow] + w + seq![Act::SelectHigh];
    assert forall|j: int| 1 <= j < w.len() + 1 implies (#[trigger] p[j]) is Write by {
        assert(p[j] == w[j - 1]);
    }
    assert forall|k: int| 0 <= k < p.len() implies #[trigger] step_fits(p, k) by {
        if k > 0 {
            selected_through_writes(p, 1, k);
        }
    }
}

proof fn bracketed_idle(p: Seq<Act>)
    requires
        forall|j: int| 0 <= j < p.len() ==> (#[trigger] p[j]) is DelayMillis || p[j] is ResetLow
            || p[j] is ResetHigh,
    ensures
        well_bracketed(p),
        forall|k: int| 0 <= k <= p.len() ==> !#[trigger] selected_after(p, k),
{
    assert forall|k: int| 0 <= k <= p.len() implies !#[trigger] selected_after(p, k) by {
        idle_not_selected(p, k);
    }
    assert forall|k: int| 0 <= k < p.len() implies #[trigger] step_fits(p, k) by {
        idle_not_selected(p, k);
    }
}

proof fn idle_not_selected(p: Seq<Act>, k: int)
    requires
        0 <= k <= p.len(),
        forall|j: int| 0 <= j < p.len() ==> (#[trigger] p[j]) is DelayMillis || p[j] is ResetLow
            || p[j] is ResetHigh,
    ensures
        !selected_after(p, k),
    decreases k,
{
    if k > 0 {
        idle_not_selected(p, k - 1);
    }
}

proof fn bracketed_command(code: u8, params: Seq<u8>)
    ensures
        well_bracketed(command_plan(code, params)),
{
    let w = seq![Act::Write(command_frame(code), params)];
    bracketed_writes(w);
    assert(command_plan(code, params) =~= seq![Act::SelectLow] + w + seq![Act::SelectHigh]);
}

proof fn bracketed_delay(ms: u32)
    ensures
        well_bracketed(seq![Act::DelayMillis(ms)]),
{
    bracketed_idle(seq![Act::DelayMillis(ms)]);
}

proof fn bracketed_window(x1: u16, y1: u16, x2: u16, y2: u16)
    ensures
        well_bracketed(window_plan(x1, y1, x2, y2)),
{
    bracketed_command(0x2A, be_bytes(x1) + be_bytes(x2));
    bracketed_command(0x2B, be_bytes(y1) + be_bytes(y2));
    bracketed_concat(
        command_plan(0x2A, be_bytes(x1) + be_bytes(x2)),
        command_plan(0x2B, be_bytes(y1) + be_bytes(y2)),
    );
}

proof fn bracketed_pixel(x: u16, y: u16, color: u16)
    ensures
        well_bracketed(pixel_plan(x, y, color)),
{
    let w = seq![chunk_act(true, be_bytes(color))];
    bracketed_writes(w);
    bracketed_window(x, y, x, y);
    assert(seq![Act::SelectLow, chunk_act(true, be_bytes(color)), Act::SelectHigh] =~= seq![
        Act::SelectLow,
    ] + w + seq![Act::SelectHigh]);
    bracketed_concat(window_plan(x, y, x, y), seq![Act::SelectLow] + w + seq![Act::SelectHigh]);
}

proof fn bracketed_points(ps: Seq<Pixel>)
    ensures
        well_bracketed(points_plan(ps)),
    decreases ps.len(),
{
    if ps.len() == 0 {
        assert(selected_after(points_plan(ps), 0) == false);
    } else {
        let p = ps.last();
        bracketed_points(ps.drop_last());
        if on_grid(p) {
            bracketed_pixel(p.x as u16, p.y as u16, p.color);
            bracketed_concat(points_plan(ps.drop_last()), pixel_plan(p.x as u16, p.y as u16, p.color));
        } else {
            assert(points_plan(ps) =~= points_plan(ps.drop_last()));
        }
    }
}

proof fn bracketed_init_round()
    ensures
        well_bracketed(init_round()),
{
    bracketed_command(0x11, seq![]);
    bracketed_delay(120);
    bracketed_command(0x3A, seq![0x55u8]);
    bracketed_command(0x51, seq![0x00u8]);
    bracketed_command(0x29, seq![]);
    bracketed_delay(10);
    bracketed_command(0x51, seq![0xE0u8]);
    let a = command_plan(0x11, seq![]) + seq![Act::DelayMillis(120)];
    bracketed_concat(command_plan(0x11, seq![]), seq![Act::DelayMillis(120)]);
    let b = a + command_plan(0x3A, seq![0x55u8]);
    bracketed_concat(a, command_plan(0x3A, seq![0x55u8]));
    let c = b + command_plan(0x51, seq![0x00u8]);
    bracketed_concat(b, command_plan(0x51, seq![0x00u8]));
    let d = c + command_plan(0x29, seq![]);
    bracketed_concat(c, command_plan(0x29, seq![]));
    let e = d + seq![Act::DelayMillis(10)];
    bracketed_concat(d, seq![Act::DelayMillis(10)]);
    bracketed_concat(e, command_plan(0x51, seq![0xE0u8]));
}

proof fn bracketed_init_rounds(n: nat)
    ensures
        well_bracketed(init_rounds(n)),
    decreases n,
{
    if n == 0 {
        assert(selected_after(init_rounds(0), 0) == false);
    } else {
        bracketed_init_rounds((n - 1) as nat);
        bracketed_init_round();
        bracketed_concat(init_rounds((n - 1) as nat), init_round());
    }
}

/// Chip select brackets every transfer that the driver plans: each transfer
/// happens while it is asserted, it is never asserted twice or released twice,
/// resets and delays happen while it is released, and every plan ends with it
/// released. This holds of the reset, initialisation, orientation change,
/// identification read, single pixel, run of pixels, rectangle fill and
/// whole-screen write.
pub proof fn plans_keep_chip_select_bracketed(
    o: Orientation,
    x: u16,
    y: u16,
    color: u16,
    pixels: Seq<Pixel>,
    a: Rectangle,
    colors: Seq<u16>,
    buf: Seq<u8>,
)
    ensures
        well_bracketed(reset_plan()),
        well_bracketed(init_plan(o)),
        well_bracketed(orientation_plan(o)),
        well_bracketed(version_plan()),
        well_bracketed(pixel_plan(x, y, color)),
        well_bracketed(points_plan(pixels)),
        well_bracketed(fill_rect_plan(a, colors)),
        well_bracketed(fill_plan(o, buf)),
{
    bracketed_idle(reset_plan());
    bracketed_init_rounds(3);
    bracketed_command(0x36, seq![madctr_of(o)]);
    bracketed_concat(init_rounds(3), command_plan(0x36, seq![madctr_of(o)]));
    let r = seq![Act::Read(crate::bus::id_read_frame(), 3)];
    assert(version_plan() =~= seq![Act::SelectLow] + r + seq![Act::SelectHigh]);
    assert(selected_after(version_plan(), 1));
    assert(selected_after(version_plan(), 2));
    assert(!selected_after(version_plan(), 3));
    bracketed_pixel(x, y, color);
    bracketed_points(pixels);
    if addressable(a) {
        let s = color_stream(colors, fill_count(a, colors));
        assert forall|j: int| 0 <= j < s.len() implies (#[trigger] s[j]) is Write by {}
        bracketed_writes(s);
        bracketed_window(a.x as u16, a.y as u16, (a.x + a.width - 1) as u16, (a.y + a.height - 1) as u16);
        bracketed_concat(rect_window(a), seq![Act::SelectLow] + s + seq![Act::SelectHigh]);
        assert(fill_rect_plan(a, colors) =~= rect_window(a) + (seq![Act::SelectLow] + s + seq![
            Act::SelectHigh,
        ]));
    } else {
        assert(selected_after(fill_rect_plan(a, colors), 0) == false);
    }
    let bw = burst(buf);
    assert forall|j: int| 0 <= j < bw.len() implies (#[trigger] bw[j]) is Write by {}
    bracketed_writes(bw);
    let w = size_of(o);
    bracketed_window(0, 0, (w.0 - 1) as u16, (w.1 - 1) as u16);
    bracketed_concat(
        window_plan(0, 0, (w.0 - 1) as u16, (w.1 - 1) as u16),
        seq![Act::SelectLow] + bw + seq![Act::SelectHigh],
    );
    assert(fill_plan(o, buf) =~= window_plan(0, 0, (w.0 - 1) as u16, (w.1 - 1) as u16) + (seq![
        Act::SelectLow,
    ] + bw + seq![Act::SelectHigh]));
}

} // verus!
