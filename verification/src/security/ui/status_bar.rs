//! The status bar: a background band, an accent line and a battery gauge.
use vstd::prelude::*;
use crate::kernel::ui::framebuffer::{FillRect, Framebuffer};

verus! {

pub const STATUS_BAR_HEIGHT: usize = 32;
pub const COLOR_BG: u32 = 0x001E_1E2E;
pub const COLOR_ACCENT: u32 = 0x0038_BDF8;
pub const COLOR_BATTERY: u32 = 0x00A6_E3A1;
pub const COLOR_SAVER: u32 = 0x00FA_B387;

/// The rectangles of the status bar on a screen `screen_width` pixels wide:
/// the band, the accent line under it, and (on screens at least 100 pixels
/// wide) a gauge 16 pixels high near the right edge, `battery_level * 80 /
/// 100` pixels long, orange in power-saving mode and green otherwise.
pub open spec fn status_bar_rects(screen_width: usize, battery_level: u8, power_saving: bool) -> Seq<FillRect> {
    let band = seq![
        FillRect { x: 0, y: 0, width: screen_width, height: STATUS_BAR_HEIGHT, color: COLOR_BG },
        FillRect { x: 0, y: STATUS_BAR_HEIGHT, width: screen_width, height: 2, color: COLOR_ACCENT },
    ];
    if screen_width >= 100 {
        band.push(
            FillRect {
                x: (screen_width - 100) as usize,
                y: 8,
                width: (battery_level * 80 / 100) as usize,
                height: 16,
                color: if power_saving { COLOR_SAVER } else { COLOR_BATTERY },
            },
        )
    } else {
        band
    }
}

/// The status bar.
pub struct StatusBar;

impl StatusBar {
    /// The rectangles that draw the status bar on `fb`.
    pub fn render(fb: &Framebuffer, battery_level: u8, power_saving: bool) -> (r: Vec<FillRect>)
        ensures
            r@ == status_bar_rects(fb.mode.width, battery_level, power_saving),
    {
        let screen_width = fb.mode.width;
        let mut rects: Vec<FillRect> = Vec::new();
        rects.push(
            FillRect { x: 0, y: 0, width: screen_width, height: STATUS_BAR_HEIGHT, color: COLOR_BG },
        );
        rects.push(
            FillRect {
                x: 0,
                y: STATUS_BAR_HEIGHT,
                width: screen_width,
                height: 2,
                color: COLOR_ACCENT,
            },
        );
        if screen_width >= 100 {
            let bat_width = (battery_level as usize) * 80 / 100;
            let bat_color = if power_saving {
                COLOR_SAVER
            } else {
                COLOR_BATTERY
            };
            rects.push(
                FillRect {
                    x: screen_width - 100,
                    y: 8,
                    width: bat_width,
                    height: 16,
                    color: bat_color,
                },
            );
        }
        assert(rects@ =~= status_bar_rects(screen_width, battery_level, power_saving));
        rects
    }
}

/// The boot-time status bar: full battery, normal power.
pub fn draw(fb: &Framebuffer) -> (r: Vec<FillRect>)
    ensures
        r@ == status_bar_rects(fb.mode.width, 100, false),
{
    StatusBar::render(fb, 100, false)
}

/// The notice for a finished background job: the status bar has no toast
/// area, so it draws nothing.
pub fn show_job_finished_toast(_app_name: &'static str) -> (r: Vec<FillRect>)
    ensures
        r@ == Seq::<FillRect>::empty(),
{
    Vec::new()
}

/// The battery gauge never outgrows its 80-pixel slot, and a full battery
/// fills it.
pub proof fn lemma_gauge_fits(battery_level: u8)
    ensures
        battery_level <= 100 ==> battery_level * 80 / 100 <= 80,
        100 * 80 / 100 == 80,
{
}

} // verus!
