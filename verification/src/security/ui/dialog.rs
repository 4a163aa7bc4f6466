//! The low-battery dialog, centred on the screen.
use vstd::prelude::*;
use crate::kernel::ui::framebuffer::FillRect;

verus! {

pub const DIALOG_WIDTH: usize = 320;
pub const DIALOG_HEIGHT: usize = 100;
pub const COLOR_DIALOG_BG: u32 = 0x002A_1215;
pub const COLOR_WARNING: u32 = 0x00F8_7171;
pub const COLOR_TEXT: u32 = 0x00F8_FAFC;
pub const DIALOG_TITLE: &'static str = "LOW BATTERY WARNING";
pub const DIALOG_BODY: &'static str = "Please connect charger...";

/// A line of text to draw.
#[derive(Debug, Clone, Copy)]
pub struct TextItem {
    pub x: usize,
    pub y: usize,
    pub text: &'static str,
    pub color: u32,
}

/// What the dialog draws: its rectangles, then its text lines.
pub struct DialogDrawing {
    pub rects: Vec<FillRect>,
    pub texts: Vec<TextItem>,
}

/// Top-left corner of the dialog: centred, or at the edge on a screen too
/// small for it.
pub open spec fn dialog_origin(screen_width: usize, screen_height: usize) -> (usize, usize) {
    (
        (if screen_width >= DIALOG_WIDTH { (screen_width - DIALOG_WIDTH) / 2 } else { 0 }) as usize,
        (if screen_height >= DIALOG_HEIGHT { (screen_height - DIALOG_HEIGHT) / 2 } else { 0 }) as usize,
    )
}

/// Renders the low-battery dialog: a dark 320x100 box with a red top line,
/// the warning title and the instruction below it.
pub fn show_low_battery_dialog(screen_width: usize, screen_height: usize) -> (r: DialogDrawing)
    ensures
        ({
            let (sx, sy) = dialog_origin(screen_width, screen_height);
            &&& r.rects@ == seq![
                FillRect { x: sx, y: sy, width: DIALOG_WIDTH, height: DIALOG_HEIGHT, color: COLOR_DIALOG_BG },
                FillRect { x: sx, y: sy, width: DIALOG_WIDTH, height: 3, color: COLOR_WARNING },
            ]
            &&& r.texts@ == seq![
                TextItem { x: (sx + 16) as usize, y: (sy + 20) as usize, text: DIALOG_TITLE, color: COLOR_WARNING },
                TextItem { x: (sx + 16) as usize, y: (sy + 48) as usize, text: DIALOG_BODY, color: COLOR_TEXT },
            ]
        }),
{
    let start_x = screen_width.saturating_sub(DIALOG_WIDTH) / 2;
    let start_y = screen_height.saturating_sub(DIALOG_HEIGHT) / 2;
    let mut rects: Vec<FillRect> = Vec::new();
    rects.push(
        FillRect {
            x: start_x,
            y: start_y,
            width: DIALOG_WIDTH,
            height: DIALOG_HEIGHT,
            color: COLOR_DIALOG_BG,
        },
    );
    rects.push(FillRect { x: start_x, y: start_y, width: DIALOG_WIDTH, height: 3, color: COLOR_WARNING });
    let mut texts: Vec<TextItem> = Vec::new();
    texts.push(TextItem { x: start_x + 16, y: start_y + 20, text: DIALOG_TITLE, color: COLOR_WARNING });
    texts.push(TextItem { x: start_x + 16, y: start_y + 48, text: DIALOG_BODY, color: COLOR_TEXT });
    let r = DialogDrawing { rects, texts };
    assert(r.rects@ =~= seq![
        FillRect { x: start_x, y: start_y, width: DIALOG_WIDTH, height: DIALOG_HEIGHT, color: COLOR_DIALOG_BG },
        FillRect { x: start_x, y: start_y, width: DIALOG_WIDTH, height: 3, color: COLOR_WARNING },
    ]);
    assert(r.texts@ =~= seq![
        TextItem { x: (start_x + 16) as usize, y: (start_y + 20) as usize, text: DIALOG_TITLE, color: COLOR_WARNING },
        TextItem { x: (start_x + 16) as usize, y: (start_y + 48) as usize, text: DIALOG_BODY, color: COLOR_TEXT },
    ]);
    r
}

/// On a screen at least as large as the dialog, it lies wholly on the
/// screen.
pub proof fn lemma_dialog_on_screen(screen_width: usize, screen_height: usize)
    requires
        screen_width >= DIALOG_WIDTH,
        screen_height >= DIALOG_HEIGHT,
    ensures
        dialog_origin(screen_width, screen_height).0 + DIALOG_WIDTH <= screen_width,
        dialog_origin(screen_width, screen_height).1 + DIALOG_HEIGHT <= screen_height,
{
}

} // verus!
