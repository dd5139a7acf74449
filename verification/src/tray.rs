//! The tray icon's image: a blue square on a transparent background.

use vstd::prelude::*;

verus! {

/// Width and height of the tray icon in pixels.
pub const ICON_SIZE: u32 = 32;

/// Whether a pixel lies in the icon's square: four pixels in from each edge.
pub open spec fn inside_square(x: int, y: int) -> bool {
    4 <= x < 28 && 4 <= y < 28
}

/// The RGBA channel `channel` of the pixel at column `x`, row `y`.
pub open spec fn icon_channel(x: int, y: int, channel: int) -> u8 {
    if inside_square(x, y) {
        if channel == 0 {
            37
        } else if channel == 1 {
            99
        } else if channel == 2 {
            235
        } else {
            255
        }
    } else {
        0
    }
}

/// The icon's RGBA bytes, row by row.
pub fn tray_icon_rgba() -> (r: Vec<u8>)
    ensures
        r@.len() == 32 * 32 * 4,
        forall|y: int, x: int, channel: int|
            0 <= y < 32 && 0 <= x < 32 && 0 <= channel < 4 ==> #[trigger] r@[(y * 32 + x) * 4
                + channel] == icon_channel(x, y, channel),
{
    let mut rgba: Vec<u8> = Vec::new();
    let mut y: u32 = 0;
    while y < ICON_SIZE
        invariant
            y <= 32,
            rgba@.len() == y * 32 * 4,
            forall|py: int, px: int, channel: int|
                0 <= py < y && 0 <= px < 32 && 0 <= channel < 4 ==> #[trigger] rgba@[(py * 32 + px)
                    * 4 + channel] == icon_channel(px, py, channel),
        decreases 32 - y,
    {
        let mut x: u32 = 0;
        while x < ICON_SIZE
            invariant
                y < 32,
                x <= 32,
                rgba@.len() == (y * 32 + x) * 4,
                forall|py: int, px: int, channel: int|
                    0 <= py < 32 && 0 <= px < 32 && 0 <= channel < 4 && py * 32 + px < y * 32 + x
                        ==> #[trigger] rgba@[(py * 32 + px) * 4 + channel] == icon_channel(
                        px,
                        py,
                        channel,
                    ),
            decreases 32 - x,
        {
            let inside = 4 <= x && x < 28 && 4 <= y && y < 28;
            let ghost before = rgba@;
            if inside {
                rgba.push(37);
                rgba.push(99);
                rgba.push(235);
                rgba.push(255);
            } else {
                rgba.push(0);
                rgba.push(0);
                rgba.push(0);
                rgba.push(0);
            }
            assert forall|py: int, px: int, channel: int|
                0 <= py < 32 && 0 <= px < 32 && 0 <= channel < 4 && py * 32 + px < y * 32 + x
                    + 1 implies #[trigger] rgba@[(py * 32 + px) * 4 + channel] == icon_channel(
                px,
                py,
                channel,
            ) by {
                if py * 32 + px < y * 32 + x {
                    assert(rgba@[(py * 32 + px) * 4 + channel] == before[(py * 32 + px) * 4
                        + channel]);
                } else {
                    assert(py * 32 + px == y * 32 + x);
                    assert(py == y && px == x) by (nonlinear_arith)
                        requires
                            py * 32 + px == y * 32 + x,
                            0 <= px < 32,
                            0 <= x < 32,
                            0 <= py,
                            0 <= y,
                    ;
                }
            }
            x = x + 1;
        }
        assert forall|py: int, px: int, channel: int|
            0 <= py < y + 1 && 0 <= px < 32 && 0 <= channel < 4 implies #[trigger] rgba@[(py * 32
            + px) * 4 + channel] == icon_channel(px, py, channel) by {
            assert(py * 32 + px < (y + 1) * 32) by (nonlinear_arith)
                requires
                    py < y + 1,
                    px < 32,
                    0 <= py,
            ;
        }
        y = y + 1;
    }
    rgba
}

} // verus!
