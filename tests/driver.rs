use rm67162::bus::{after_failure, AddressPhase, BusAction, CommandPhase, Frame, Lanes};
use rm67162::draw_target::{Pixel, Rectangle};
use rm67162::orientation::Orientation;
use rm67162::rm67162::{be_vec, BUFFER_SIZE, RM67162};

fn command(code: u8, params: &[u8]) -> Vec<BusAction> {
    vec![
        BusAction::SelectLow,
        BusAction::Write(
            Frame {
                data_lanes: Lanes::Single,
                command: CommandPhase::Command8(0x02, Lanes::Single),
                address: AddressPhase::Address24((code as u32) << 8, Lanes::Single),
                dummy: 0,
            },
            params.to_vec(),
        ),
        BusAction::SelectHigh,
    ]
}

fn first_frame() -> Frame {
    Frame {
        data_lanes: Lanes::Quad,
        command: CommandPhase::Command8(0x32, Lanes::Single),
        address: AddressPhase::Address24(0x2C00, Lanes::Single),
        dummy: 0,
    }
}

fn next_frame() -> Frame {
    Frame {
        data_lanes: Lanes::Quad,
        command: CommandPhase::Absent,
        address: AddressPhase::Absent,
        dummy: 0,
    }
}

fn payloads(plan: &[BusAction]) -> Vec<u8> {
    let mut out = Vec::new();
    for a in plan {
        if let BusAction::Write(_, data) = a {
            out.extend_from_slice(data);
        }
    }
    out
}

#[test]
fn register_values_of_each_orientation() {
    assert_eq!(Orientation::Portrait.to_madctr(), 0x00);
    assert_eq!(Orientation::PortraitFlipped.to_madctr(), 0xC0);
    assert_eq!(Orientation::Landscape.to_madctr(), 0x60);
    assert_eq!(Orientation::LandscapeFlipped.to_madctr(), 0xA0);
}

#[test]
fn logical_size_of_each_orientation() {
    assert_eq!(Orientation::Portrait.logical_size(), (240, 536));
    assert_eq!(Orientation::PortraitFlipped.logical_size(), (240, 536));
    assert_eq!(Orientation::Landscape.logical_size(), (536, 240));
    assert_eq!(Orientation::LandscapeFlipped.logical_size(), (536, 240));
}

#[test]
fn register_bit_five_matches_landscape() {
    for o in [
        Orientation::Portrait,
        Orientation::PortraitFlipped,
        Orientation::Landscape,
        Orientation::LandscapeFlipped,
    ] {
        let landscape = o.to_madctr() & 0x20 != 0;
        assert_eq!(landscape, o.logical_size() == (536, 240));
    }
}

#[test]
fn portrait_then_landscape_scenario() {
    let mut d = RM67162::new(Orientation::Portrait);
    assert_eq!(d.size(), (240, 536));
    let plan = d.set_orientation(Orientation::Landscape);
    assert_eq!(d.size(), (536, 240));
    assert_eq!(d.orientation, Orientation::Landscape);
    assert_eq!(plan, command(0x36, &[0x60]));
}

#[test]
fn set_orientation_back_to_portrait_flipped() {
    let mut d = RM67162::new(Orientation::Landscape);
    let plan = d.set_orientation(Orientation::PortraitFlipped);
    assert_eq!(d.size(), (240, 536));
    assert_eq!(plan, command(0x36, &[0xC0]));
}

#[test]
fn write_pixel_scenario() {
    let d = RM67162::new(Orientation::Portrait);
    let plan = d.draw_point(5, 5, 0x07E0);
    let mut expected = command(0x2A, &[0, 5, 0, 5]);
    expected.extend(command(0x2B, &[0, 5, 0, 5]));
    expected.push(BusAction::SelectLow);
    expected.push(BusAction::Write(first_frame(), vec![0x07, 0xE0]));
    expected.push(BusAction::SelectHigh);
    assert_eq!(plan, expected);
}

#[test]
fn window_bounds_use_both_bytes() {
    let d = RM67162::new(Orientation::Landscape);
    let plan = d.draw_point(0x0123, 0x0201, 0xABCD);
    assert_eq!(plan[1], command(0x2A, &[0x01, 0x23, 0x01, 0x23])[1]);
    assert_eq!(plan[4], command(0x2B, &[0x02, 0x01, 0x02, 0x01])[1]);
    assert_eq!(plan[7], BusAction::Write(first_frame(), vec![0xAB, 0xCD]));
}

#[test]
fn big_endian_bytes() {
    assert_eq!(be_vec(0x07E0), vec![0x07, 0xE0]);
    assert_eq!(be_vec(0xFFFF), vec![0xFF, 0xFF]);
    assert_eq!(be_vec(0x0001), vec![0x00, 0x01]);
}

#[test]
fn chunk_framing_first_and_next() {
    let d = RM67162::new(Orientation::Portrait);
    assert_eq!(d.send_chunk(&[1, 2, 3], true), BusAction::Write(first_frame(), vec![1, 2, 3]));
    assert_eq!(d.send_chunk(&[4], false), BusAction::Write(next_frame(), vec![4]));
}

#[test]
fn negative_pixels_issue_nothing() {
    let d = RM67162::new(Orientation::Portrait);
    let pixels = [
        Pixel { x: -1, y: 3, color: 0xFFFF },
        Pixel { x: 3, y: -7, color: 0x1234 },
        Pixel { x: i32::MIN, y: i32::MIN, color: 0 },
    ];
    assert!(d.draw_iter(&pixels).is_empty());
    assert_eq!(d.orientation, Orientation::Portrait);
}

#[test]
fn draw_iter_skips_only_negative_pixels() {
    let d = RM67162::new(Orientation::Portrait);
    let pixels = [
        Pixel { x: 1, y: 2, color: 0x0102 },
        Pixel { x: -1, y: 2, color: 0xFFFF },
        Pixel { x: 3, y: 4, color: 0x0304 },
    ];
    let mut expected = d.draw_point(1, 2, 0x0102);
    expected.extend(d.draw_point(3, 4, 0x0304));
    assert_eq!(d.draw_iter(&pixels), expected);
    assert_eq!(d.draw_iter(&[]), Vec::new());
}

#[test]
fn fill_rectangle_one_window_one_bracket() {
    let d = RM67162::new(Orientation::Portrait);
    let area = Rectangle { x: 10, y: 20, width: 3, height: 2 };
    let colors: Vec<u16> = (0..10u16).map(|i| 0x0100 + i).collect();
    let plan = d.fill_contiguous(area, &colors);
    let mut expected = command(0x2A, &[0, 10, 0, 12]);
    expected.extend(command(0x2B, &[0, 20, 0, 21]));
    expected.push(BusAction::SelectLow);
    expected.push(BusAction::Write(first_frame(), vec![0x01, 0x00]));
    for i in 1..6u8 {
        expected.push(BusAction::Write(next_frame(), vec![0x01, i]));
    }
    expected.push(BusAction::SelectHigh);
    assert_eq!(plan, expected);
    let selects = plan.iter().filter(|a| **a == BusAction::SelectLow).count();
    assert_eq!(selects, 3);
}

#[test]
fn fill_rectangle_with_too_few_colors_ends_short() {
    let d = RM67162::new(Orientation::Portrait);
    let area = Rectangle { x: 0, y: 0, width: 4, height: 4 };
    let plan = d.fill_contiguous(area, &[0xAAAA, 0x5555]);
    assert_eq!(plan.len(), 6 + 1 + 2 + 1);
    assert_eq!(plan[7], BusAction::Write(first_frame(), vec![0xAA, 0xAA]));
    assert_eq!(plan[8], BusAction::Write(next_frame(), vec![0x55, 0x55]));
    assert_eq!(plan[9], BusAction::SelectHigh);
}

#[test]
fn fill_rectangle_with_no_colors() {
    let d = RM67162::new(Orientation::Portrait);
    let area = Rectangle { x: 0, y: 0, width: 4, height: 4 };
    let plan = d.fill_contiguous(area, &[]);
    assert_eq!(plan.len(), 8);
    assert_eq!(plan[6], BusAction::SelectLow);
    assert_eq!(plan[7], BusAction::SelectHigh);
}

#[test]
fn fill_rectangle_not_addressable_issues_nothing() {
    let d = RM67162::new(Orientation::Portrait);
    let colors = [1u16, 2, 3];
    assert!(d.fill_contiguous(Rectangle { x: -1, y: 0, width: 2, height: 2 }, &colors).is_empty());
    assert!(d.fill_contiguous(Rectangle { x: 0, y: 0, width: 0, height: 2 }, &colors).is_empty());
    assert!(d.fill_contiguous(Rectangle { x: 0xFFFF, y: 0, width: 2, height: 1 }, &colors).is_empty());
    assert_eq!(d.fill_contiguous(Rectangle { x: 0xFFFF, y: 0, width: 1, height: 1 }, &colors).len(), 9);
}

#[test]
fn blit_splits_into_transfer_sized_chunks() {
    let d = RM67162::new(Orientation::Landscape);
    let buffer: Vec<u8> = (0..536usize * 240 * 2).map(|i| (i % 251) as u8).collect();
    let plan = d.fill_with(&buffer);
    let mut window = command(0x2A, &[0, 0, 0x02, 0x17]);
    window.extend(command(0x2B, &[0, 0, 0, 0xEF]));
    assert_eq!(&plan[..6], &window[..]);
    assert_eq!(plan[6], BusAction::SelectLow);
    assert_eq!(*plan.last().unwrap(), BusAction::SelectHigh);
    let chunks = &plan[7..plan.len() - 1];
    assert_eq!(chunks.len(), 16);
    for (i, c) in chunks.iter().enumerate() {
        match c {
            BusAction::Write(f, data) => {
                assert_eq!(*f, if i == 0 { first_frame() } else { next_frame() });
                if i < 15 {
                    assert_eq!(data.len(), BUFFER_SIZE);
                } else {
                    assert_eq!(data.len(), 536 * 240 * 2 - 15 * BUFFER_SIZE);
                }
            }
            _ => panic!("expected a write"),
        }
    }
    assert_eq!(payloads(chunks), buffer);
}

#[test]
fn blit_in_portrait_uses_portrait_window() {
    let d = RM67162::new(Orientation::Portrait);
    let plan = d.fill_with(&[9u8; 4]);
    let mut expected = command(0x2A, &[0, 0, 0, 0xEF]);
    expected.extend(command(0x2B, &[0, 0, 0x02, 0x17]));
    expected.push(BusAction::SelectLow);
    expected.push(BusAction::Write(first_frame(), vec![9, 9, 9, 9]));
    expected.push(BusAction::SelectHigh);
    assert_eq!(plan, expected);
}

#[test]
fn blit_of_exactly_one_chunk() {
    let d = RM67162::new(Orientation::Portrait);
    let buffer = vec![7u8; BUFFER_SIZE];
    let plan = d.fill_with(&buffer);
    assert_eq!(plan.len(), 9);
    assert_eq!(plan[7], BusAction::Write(first_frame(), buffer));
}

#[test]
fn failure_on_second_chunk_releases_chip_select() {
    let d = RM67162::new(Orientation::Portrait);
    let area = Rectangle { x: 0, y: 0, width: 2, height: 2 };
    let plan = d.fill_contiguous(area, &[1, 2, 3, 4]);
    // steps 0..6 set the window, 6 asserts chip select, 7 is the first chunk
    assert_eq!(after_failure(&plan, 8), vec![BusAction::SelectHigh]);
    assert_eq!(after_failure(&plan, 7), vec![BusAction::SelectHigh]);
}

#[test]
fn failure_outside_a_bracket_needs_no_release() {
    let d = RM67162::new(Orientation::Portrait);
    let plan = d.initialize();
    // step 3 is the delay after sleep-out, with chip select released
    assert_eq!(plan[3], BusAction::DelayMillis(120));
    assert_eq!(after_failure(&plan, 3), Vec::new());
    assert_eq!(after_failure(&plan, 1), vec![BusAction::SelectHigh]);
}

#[test]
fn reset_pulse() {
    let d = RM67162::new(Orientation::Portrait);
    assert_eq!(
        d.reset(),
        vec![
            BusAction::ResetLow,
            BusAction::DelayMillis(300),
            BusAction::ResetHigh,
            BusAction::DelayMillis(200),
        ]
    );
}

#[test]
fn initialize_sequence() {
    let d = RM67162::new(Orientation::Landscape);
    let plan = d.initialize();
    let mut round = command(0x11, &[]);
    round.push(BusAction::DelayMillis(120));
    round.extend(command(0x3A, &[0x55]));
    round.extend(command(0x51, &[0x00]));
    round.extend(command(0x29, &[]));
    round.push(BusAction::DelayMillis(10));
    round.extend(command(0x51, &[0xE0]));
    let mut expected = Vec::new();
    for _ in 0..3 {
        expected.extend(round.clone());
    }
    expected.extend(command(0x36, &[0x60]));
    assert_eq!(plan, expected);
}

#[test]
fn version_reads_three_id_bytes() {
    let d = RM67162::new(Orientation::Portrait);
    let frame = Frame {
        data_lanes: Lanes::Quad,
        command: CommandPhase::Absent,
        address: AddressPhase::Address24(0xDA, Lanes::Quad),
        dummy: 0,
    };
    assert_eq!(
        d.version(),
        vec![BusAction::SelectLow, BusAction::Read(frame, 3), BusAction::SelectHigh]
    );
}

fn assert_bracketed(plan: &[BusAction]) {
    let mut selected = false;
    for a in plan {
        match a {
            BusAction::SelectLow => {
                assert!(!selected);
                selected = true;
            }
            BusAction::SelectHigh => {
                assert!(selected);
                selected = false;
            }
            BusAction::Write(..) | BusAction::Read(..) => assert!(selected),
            _ => assert!(!selected),
        }
    }
    assert!(!selected);
}

#[test]
fn every_plan_brackets_its_transfers() {
    let mut d = RM67162::new(Orientation::PortraitFlipped);
    assert_bracketed(&d.reset());
    assert_bracketed(&d.initialize());
    assert_bracketed(&d.set_orientation(Orientation::LandscapeFlipped));
    assert_bracketed(&d.version());
    assert_bracketed(&d.draw_point(1, 2, 3));
    assert_bracketed(&d.draw_iter(&[
        Pixel { x: 1, y: 1, color: 1 },
        Pixel { x: -1, y: 1, color: 1 },
        Pixel { x: 7, y: 9, color: 2 },
    ]));
    assert_bracketed(&d.fill_contiguous(Rectangle { x: 3, y: 4, width: 5, height: 6 }, &[1, 2, 3]));
    assert_bracketed(&d.fill_with(&vec![0u8; 40000]));
}
