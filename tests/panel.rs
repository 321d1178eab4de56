use p10_led::geometry::Geometry;
use p10_led::panel::{Action, Brightness, P10Led, Stage};
use p10_led::scan::ScanOrder;
use p10_led::Error;

fn panel(across: usize, down: usize) -> P10Led {
    P10Led::new(
        Geometry::new(across, down).unwrap(),
        ScanOrder::Descending,
        Brightness::EnableLine,
    )
}

/// Runs one flush, failing the `fail_at`-th bus transfer (counted from 1),
/// and returns its outcome, the buffers sent and every action asked for.
fn flush(p: &mut P10Led, fail_at: Option<usize>) -> (Result<(), Error>, Vec<Vec<u8>>, Vec<Action>) {
    let mut sent = Vec::new();
    let mut actions = Vec::new();
    let mut action = p.start_flush();
    loop {
        actions.push(action);
        let ok = match action {
            Action::Finished => return (Ok(()), sent, actions),
            Action::Failed(e) => return (Err(e), sent, actions),
            Action::Transmit => {
                if fail_at == Some(sent.len() + 1) {
                    false
                } else {
                    sent.push(p.cache().to_vec());
                    true
                }
            }
            _ => true,
        };
        action = p.resume(ok);
    }
}

#[test]
fn first_pixel_is_msb_of_first_byte() {
    let g = Geometry::new(1, 1).unwrap();
    assert_eq!(g.pixel_to_bitmap_index(0, 0), 0);
    assert_eq!(Geometry::pixel_to_bitmask(0), 0x80);
    assert_eq!(g.pixel_to_bitmap_index(31, 0), 3);
    assert_eq!(Geometry::pixel_to_bitmask(31), 0x01);
    assert_eq!(g.pixel_to_bitmap_index(0, 1), 4);
    assert_eq!(g.pixel_to_bitmap_index(31, 15), 63);
}

#[test]
fn tiled_pixels_follow_their_panel() {
    let g = Geometry::new(2, 1).unwrap();
    assert_eq!(g.pixel_to_bitmap_index(32, 0), 4);
    assert_eq!(g.pixel_to_bitmap_index(0, 1), 8);
    let g = Geometry::new(1, 2).unwrap();
    assert_eq!(g.unified_width_bytes(), 8);
    assert_eq!(g.pixel_to_bitmap_index(0, 16), 4);
    assert_eq!(g.pixel_to_bitmap_index(9, 17), 4 + 1 + 8);
}

#[test]
fn addressing_is_a_bijection() {
    for (across, down) in [(1, 1), (2, 1), (1, 2), (2, 3)] {
        let g = Geometry::new(across, down).unwrap();
        let len = g.bitmap_len();
        let mut seen = vec![false; len * 8];
        for y in 0..g.height() as usize {
            for x in 0..g.width() as usize {
                let i = g.pixel_to_bitmap_index(x, y);
                let m = Geometry::pixel_to_bitmask(x);
                assert!(i < len);
                assert_eq!(m.count_ones(), 1);
                let pos = i * 8 + m.trailing_zeros() as usize;
                assert!(!seen[pos]);
                seen[pos] = true;
            }
        }
        assert!(seen.iter().all(|&b| b));
        assert_eq!(len * 8, (g.width() * g.height()) as usize);
    }
}

#[test]
fn row_widths() {
    let g = Geometry::new(2, 3).unwrap();
    assert_eq!(g.row_width_bytes(), 8);
    assert_eq!(g.unified_width_bytes(), 24);
    assert_eq!(g.bitmap_len(), 384);
    let p = P10Led::new(g, ScanOrder::Ascending, Brightness::EnableLine);
    assert_eq!(p.row_width_bytes(), 8);
    assert_eq!(p.unified_width_bytes(), 24);
    assert_eq!(p.size(), (64, 48));
}

#[test]
fn invalid_geometry_is_rejected() {
    assert!(Geometry::new(0, 1).is_none());
    assert!(Geometry::new(1, 0).is_none());
    assert!(Geometry::new(67108864, 1).is_none());
    assert!(Geometry::new(1, 134217728).is_none());
    assert!(Geometry::new(67108863, 134217727).is_some());
    assert!(Geometry::new(3, 2).is_some());
}

#[test]
fn contains_matches_the_display() {
    let g = Geometry::new(2, 1).unwrap();
    assert!(g.contains(0, 0));
    assert!(g.contains(63, 15));
    assert!(!g.contains(64, 0));
    assert!(!g.contains(0, 16));
    assert!(!g.contains(-1, 0));
    assert!(!g.contains(0, -1));
}

#[test]
fn new_panel_is_dark() {
    let p = panel(1, 1);
    assert_eq!(p.bitmap(), &[0xffu8; 64][..]);
    assert_eq!(p.cache().len(), 16);
    assert_eq!(p.scan_row(), 0);
    assert_eq!(p.stage(), Stage::Idle);
}

#[test]
fn lit_pixel_clears_its_bit() {
    let mut p = panel(1, 1);
    p.set_pixel(0, 0, true);
    assert_eq!(p.bitmap()[0], 0x7f);
    p.set_pixel(31, 0, true);
    assert_eq!(p.bitmap()[3], 0xfe);
    p.set_pixel(9, 2, true);
    assert_eq!(p.bitmap()[9], 0xbf);
}

#[test]
fn light_then_darken_restores_byte() {
    let mut p = panel(2, 2);
    let before = p.bitmap().to_vec();
    p.set_pixel(37, 21, true);
    assert_ne!(p.bitmap(), &before[..]);
    p.set_pixel(37, 21, false);
    assert_eq!(p.bitmap(), &before[..]);
}

#[test]
fn redraw_in_same_state_is_noop() {
    let mut p = panel(1, 1);
    p.set_pixel(5, 5, false);
    assert_eq!(p.bitmap(), &[0xffu8; 64][..]);
    p.set_pixel(5, 5, true);
    let lit = p.bitmap().to_vec();
    p.set_pixel(5, 5, true);
    assert_eq!(p.bitmap(), &lit[..]);
}

#[test]
fn out_of_bounds_pixels_are_clipped() {
    let mut p = panel(1, 1);
    p.set_pixel(32, 0, true);
    p.set_pixel(0, 16, true);
    p.set_pixel(-1, 0, true);
    p.set_pixel(0, -1, true);
    p.set_pixel(i32::MAX, i32::MIN, true);
    assert_eq!(p.bitmap(), &[0xffu8; 64][..]);
}

#[test]
fn draw_iter_applies_in_order() {
    let mut p = panel(1, 1);
    p.draw_iter(&[(0, 0, true), (1, 0, true), (0, 0, false), (40, 0, true)]);
    assert_eq!(p.bitmap()[0], 0xbf);
    assert!(p.bitmap()[1..].iter().all(|&b| b == 0xff));
}

#[test]
fn phase_counts_passes() {
    let mut p = panel(1, 1);
    let mut n = 0usize;
    for _ in 0..3 {
        let mut action = p.start_flush();
        while action != Action::Finished {
            if action == Action::Enable(true) {
                n += 1;
                assert_eq!(p.scan_row() as usize, n % 4);
            }
            action = p.resume(true);
        }
        assert_eq!(n % 4, 0);
        assert_eq!(p.scan_row(), 0);
    }
    assert_eq!(n, 12);
}

#[test]
fn pass_order_and_row_lines() {
    let mut p = panel(1, 1);
    let (r, sent, actions) = flush(&mut p, None);
    assert_eq!(r, Ok(()));
    assert_eq!(sent.len(), 4);
    let mut expected = Vec::new();
    for phase in 0..4u8 {
        expected.extend([
            Action::Enable(false),
            Action::Transmit,
            Action::Latch(true),
            Action::Latch(false),
            Action::RowA(phase & 1 != 0),
            Action::RowB(phase & 2 != 0),
            Action::Enable(true),
        ]);
    }
    expected.push(Action::Finished);
    assert_eq!(actions, expected);
}

#[test]
fn duty_cycle_brightness_brackets_the_pass() {
    let mut p = P10Led::new(Geometry::new(1, 1).unwrap(), ScanOrder::Descending, Brightness::Duty(1000));
    assert_eq!(p.start_flush(), Action::DutyOff);
    for _ in 0..5 {
        p.resume(true);
    }
    assert_eq!(p.resume(true), Action::Duty(1000));
    p.set_brightness(Brightness::Duty(7));
    assert_eq!(p.brightness(), Brightness::Duty(7));
    assert_eq!(p.resume(true), Action::DutyOff);
    assert_eq!(p.resume(false), Action::Failed(Error::Pwm));
}

#[test]
fn dark_frame_sends_set_bits() {
    let mut p = panel(2, 1);
    let (r, sent, _) = flush(&mut p, None);
    assert_eq!(r, Ok(()));
    assert_eq!(sent.len(), 4);
    for buf in &sent {
        assert_eq!(buf.len(), 32);
        assert!(buf.iter().all(|&b| b == 0xff));
    }
}

#[test]
fn lit_frame_sends_clear_bits() {
    let mut p = panel(1, 1);
    for y in 0..16 {
        for x in 0..32 {
            p.set_pixel(x, y, true);
        }
    }
    assert!(p.bitmap().iter().all(|&b| b == 0));
    let (r, sent, _) = flush(&mut p, None);
    assert_eq!(r, Ok(()));
    assert_eq!(sent.len(), 4);
    for buf in &sent {
        assert!(buf.iter().all(|&b| b == 0));
    }
}

#[test]
fn scan_buffer_interleaves_rows() {
    let mut p = panel(1, 1);
    // Light the first pixel of rows 1, 5 and 13: byte 0 of those rows.
    p.draw_iter(&[(0, 1, true), (0, 5, true), (0, 13, true)]);
    let (_, sent, _) = flush(&mut p, None);
    // Descending: rows 13, 9, 5, 1 for phase 1.
    assert_eq!(&sent[1][0..4], &[0x7f, 0xff, 0x7f, 0x7f]);
    assert!(sent[0].iter().all(|&b| b == 0xff));

    let mut q = P10Led::new(Geometry::new(1, 1).unwrap(), ScanOrder::Ascending, Brightness::EnableLine);
    q.draw_iter(&[(8, 1, true), (8, 13, true)]);
    let (_, sent, _) = flush(&mut q, None);
    // Ascending: rows 1, 5, 9, 13; byte 1 of each row.
    assert_eq!(&sent[1][4..8], &[0x7f, 0xff, 0xff, 0x7f]);
}

#[test]
fn bus_failure_on_second_pass() {
    let mut p = panel(1, 1);
    let (r, sent, actions) = flush(&mut p, Some(2));
    assert_eq!(r, Err(Error::Spi));
    assert_eq!(sent.len(), 1);
    assert_eq!(p.scan_row(), 1);
    assert_eq!(p.stage(), Stage::Idle);
    assert_eq!(actions.len(), 7 + 2 + 1);
    assert_eq!(p.resume(true), Action::Finished);
}

#[test]
fn pin_failures_report_digital() {
    let mut p = panel(1, 1);
    assert_eq!(p.start_flush(), Action::Enable(false));
    assert_eq!(p.resume(false), Action::Failed(Error::Digital));
    p.start_flush();
    p.resume(true);
    p.resume(true);
    assert_eq!(p.resume(false), Action::Failed(Error::Digital));
    assert_eq!(p.scan_row(), 0);
}
