//! The desktop: the status bar drawn on the framebuffer.
use vstd::prelude::*;

pub mod framebuffer;

use crate::security::ui::status_bar::{status_bar_rects, StatusBar};
use framebuffer::{DisplayMode, FillRect, Framebuffer};

verus! {

/// The desktop in a display mode: the status bar with the battery gauge.
pub fn render_desktop(mode: DisplayMode, battery_level: u8, power_saving: bool) -> (r: Vec<FillRect>)
    ensures
        r@ == status_bar_rects(mode.width, battery_level, power_saving),
{
    let fb = Framebuffer::new(mode);
    StatusBar::render(&fb, battery_level, power_saving)
}

} // verus!
