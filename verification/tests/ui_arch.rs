use eggos::kernel::ui::framebuffer::{DisplayMode, FillRect, Framebuffer};
use eggos::kernel::ui::render_desktop;
use eggos::security::arch::gdt::Gdt;
use eggos::security::arch::idt::{Idt, IdtEntry};
use eggos::security::ui::gfx::{draw_circle, draw_line};
use eggos::security::ui::dialog::{show_low_battery_dialog, DIALOG_BODY, DIALOG_TITLE};
use eggos::security::ui::status_bar::{draw, show_job_finished_toast, StatusBar, COLOR_ACCENT, COLOR_BATTERY, COLOR_BG, COLOR_SAVER};

#[test]
fn framebuffer_addressing() {
    let fb = Framebuffer::new(DisplayMode::default_1080p());
    assert_eq!(fb.mode.pitch, 1920 * 4);
    assert_eq!(fb.pixel_offset(0, 0), Some(0));
    assert_eq!(fb.pixel_offset(10, 2), Some(2 * 7680 + 40));
    assert_eq!(fb.pixel_offset(1920, 0), None);
    assert_eq!(fb.pixel_offset(0, 1080), None);
    assert_eq!(fb.clip_rect(1900, 1070, 100, 100), (1920, 1080));
    assert_eq!(fb.clip_rect(10, 20, 30, 40), (40, 60));
}

#[test]
fn status_bar_rectangles() {
    let fb = Framebuffer::new(DisplayMode::default_1080p());
    let rects = StatusBar::render(&fb, 50, true);
    assert_eq!(
        rects,
        vec![
            FillRect { x: 0, y: 0, width: 1920, height: 32, color: COLOR_BG },
            FillRect { x: 0, y: 32, width: 1920, height: 2, color: COLOR_ACCENT },
            FillRect { x: 1820, y: 8, width: 40, height: 16, color: COLOR_SAVER },
        ]
    );
    let boot = draw(&fb);
    assert_eq!(boot[2], FillRect { x: 1820, y: 8, width: 80, height: 16, color: COLOR_BATTERY });
    let narrow = Framebuffer::new(DisplayMode { width: 99, height: 50, pitch: 396, bpp: 4, base_addr: 0 });
    assert_eq!(StatusBar::render(&narrow, 100, false).len(), 2);
    assert_eq!(render_desktop(DisplayMode::default_1080p(), 50, true), rects);
}

#[test]
fn low_battery_dialog_is_centred() {
    let d = show_low_battery_dialog(1920, 1080);
    assert_eq!(d.rects[0], FillRect { x: 800, y: 490, width: 320, height: 100, color: 0x002A_1215 });
    assert_eq!(d.rects[1], FillRect { x: 800, y: 490, width: 320, height: 3, color: 0x00F8_7171 });
    assert_eq!((d.texts[0].x, d.texts[0].y, d.texts[0].text), (816, 510, DIALOG_TITLE));
    assert_eq!((d.texts[1].x, d.texts[1].y, d.texts[1].text), (816, 538, DIALOG_BODY));
    let tiny = show_low_battery_dialog(100, 50);
    assert_eq!((tiny.rects[0].x, tiny.rects[0].y), (0, 0));
}

#[test]
fn descriptor_tables() {
    let g = Gdt::new();
    assert_eq!(g.entry(0), 0);
    assert_eq!(g.entry(1), 0x00af9a000000ffff);
    assert_eq!(g.entry(2), 0x00cf92000000ffff);
    assert_eq!(g.descriptor_limit(), 23);
    let mut e = IdtEntry::missing();
    e.set_handler(0x1234_5678_9abc_def0);
    assert_eq!(
        e,
        IdtEntry {
            pointer_low: 0xdef0,
            gdt_selector: 0x08,
            options: 0x8E00,
            pointer_middle: 0x9abc,
            pointer_high: 0x1234_5678,
            reserved: 0
        }
    );
    let mut idt = Idt::new();
    idt.install_exception_handlers(0xffff_8000_0010_0000);
    for v in 0..256usize {
        let installed = v == 0 || v == 8 || v == 13 || v == 14;
        assert_eq!(idt.entry(v).options == 0x8E00, installed);
    }
    assert_eq!(idt.entry(14).pointer_high, 0xffff_8000);
    assert_eq!(idt.descriptor_limit(), 4095);
}

#[test]
fn line_walks_from_end_to_end() {
    assert_eq!(draw_line(0, 0, 3, 1), vec![(0, 0), (1, 0), (2, 1), (3, 1)]);
    assert_eq!(draw_line(5, 5, 2, 9), vec![(5, 5), (4, 6), (3, 7), (3, 8), (2, 9)]);
    assert_eq!(draw_line(4, 4, 4, 4), vec![(4, 4)]);
    let steep = draw_line(0, 0, 2, 7);
    assert_eq!(steep.len(), 8);
    assert_eq!(steep[0], (0, 0));
    assert_eq!(steep[7], (2, 7));
    for w in steep.windows(2) {
        assert!(w[0].0.abs_diff(w[1].0) <= 1 && w[0].1.abs_diff(w[1].1) <= 1);
        assert_ne!(w[0], w[1]);
    }
}

#[test]
fn circle_plots_eight_mirrors_per_offset() {
    assert_eq!(
        draw_circle(10, 10, 2),
        vec![
            (12, 10), (10, 12), (10, 12), (8, 10), (8, 10), (10, 8), (10, 8), (12, 10),
            (11, 11), (11, 11), (9, 11), (9, 11), (9, 9), (9, 9), (11, 9), (11, 9),
        ]
    );
    // Offsets left of or above the origin wrap to coordinates off the screen.
    let wrapped = draw_circle(0, 0, 1);
    assert_eq!(wrapped.len(), 8);
    assert_eq!(wrapped[0], (1, 0));
    assert_eq!(wrapped[3], (usize::MAX, 0));
    assert_eq!(wrapped[5], (0, usize::MAX));
    assert_eq!(draw_circle(7, 7, 0), vec![(7, 7); 8]);
}

#[test]
fn job_toast_draws_nothing() {
    assert!(show_job_finished_toast("backup").is_empty());
}

#[test]
fn circle_pixels_hug_the_circle() {
    let r: i64 = 10;
    let points = draw_circle(100, 100, 10);
    assert_eq!(points.len() % 8, 0);
    for (px, py) in points {
        let dx = px as i64 - 100;
        let dy = py as i64 - 100;
        let d2 = dx * dx + dy * dy;
        assert!(d2 <= r * r);
        assert!(r * r <= d2 + 2 * (dx.abs() + dy.abs()));
    }
}

#[test]
fn circle_reads_signed_coordinates() {
    // A radius above isize::MAX reads negative: nothing is drawn.
    assert!(draw_circle(10, 10, usize::MAX).is_empty());
    assert!(draw_circle(10, 10, isize::MAX as usize + 1).is_empty());
    // A centre above isize::MAX stands for a negative coordinate.
    let p = draw_circle(usize::MAX, 5, 1);
    assert_eq!(p.len(), 8);
    assert_eq!(p[0], (0, 5));
    assert_eq!(p[3], (usize::MAX - 1, 5));
}
