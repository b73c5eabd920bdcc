//! The window icon: a 32×32 disc drawn pixel by pixel.
use vstd::prelude::*;

verus! {

/// Side of the square icon, in pixels.
pub const ICON_SIDE: u32 = 32;

/// An RGBA image, row by row, four bytes per pixel.
pub struct AppIcon {
    pub rgba: Vec<u8>,
    pub width: u32,
    pub height: u32,
}

/// Four times the squared distance between the centre of pixel (x, y) and the
/// centre of the icon at (15.5, 15.5): an integer, so that the disc's radii
/// compare without rounding.
pub open spec fn quad_dist(x: int, y: int) -> int {
    (2 * x - 31) * (2 * x - 31) + (2 * y - 31) * (2 * y - 31)
}

/// The colour of pixel (x, y). Outside radius 14.5 (quad_dist above 29²) it is
/// transparent; within radius 4.5 (9²) it is the accent blue; between radius 8
/// (16²) and 11 (22²) the dark blue ring; elsewhere on the disc the surface colour.
pub open spec fn icon_pixel(x: int, y: int) -> (u8, u8, u8, u8) {
    let q: int = quad_dist(x, y);
    if q > 841 {
        (0, 0, 0, 0)
    } else if q <= 81 {
        (0xa8, 0xc7, 0xfa, 255)
    } else if 256 <= q && q <= 484 {
        (0x33, 0x48, 0x72, 255)
    } else {
        (0x1a, 0x1c, 0x24, 255)
    }
}

/// Byte `i` of the row-major RGBA buffer of the icon.
pub open spec fn icon_byte(i: int) -> u8 {
    let p: int = i / 4;
    let px = icon_pixel(p % 32, p / 32);
    if i % 4 == 0 {
        px.0
    } else if i % 4 == 1 {
        px.1
    } else if i % 4 == 2 {
        px.2
    } else {
        px.3
    }
}

proof fn lemma_split_byte_index(p: int, k: int)
    by (nonlinear_arith)
    requires
        0 <= p,
        0 <= k < 4,
    ensures
        (4 * p + k) / 4 == p,
        (4 * p + k) % 4 == k,
{
}

proof fn lemma_square_bound(a: int)
    by (nonlinear_arith)
    requires
        -31 <= a <= 31,
    ensures
        0 <= a * a <= 961,
{
}

/// The colour of the pixel at column `x`, row `y`.
fn pixel_color(x: i32, y: i32) -> (px: (u8, u8, u8, u8))
    requires
        0 <= x < 32,
        0 <= y < 32,
    ensures
        px == icon_pixel(x as int, y as int),
{
    let a: i32 = 2 * x - 31;
    let b: i32 = 2 * y - 31;
    proof {
        lemma_square_bound(a as int);
        lemma_square_bound(b as int);
    }
    let q: i32 = a * a + b * b;
    if q > 841 {
        (0, 0, 0, 0)
    } else if q <= 81 {
        (0xa8, 0xc7, 0xfa, 255)
    } else if 256 <= q && q <= 484 {
        (0x33, 0x48, 0x72, 255)
    } else {
        (0x1a, 0x1c, 0x24, 255)
    }
}

/// Draws the 32×32 window icon: a dark disc of radius 14.5 with a blue ring
/// between radii 8 and 11 and a blue centre of radius 4.5, transparent outside.
pub fn create_app_icon() -> (icon: Option<AppIcon>)
    ensures
        icon matches Some(i) && {
            &&& i.width == ICON_SIDE
            &&& i.height == ICON_SIDE
            &&& i.rgba@.len() == 4096
            &&& forall|j: int| 0 <= j < 4096 ==> #[trigger] i.rgba@[j] == icon_byte(j)
        },
{
    let mut rgba: Vec<u8> = Vec::new();
    let mut p: usize = 0;
    while p < 1024
        invariant
            p <= 1024,
            rgba@.len() == 4 * p,
            forall|j: int| 0 <= j < 4 * p ==> #[trigger] rgba@[j] == icon_byte(j),
        decreases 1024 - p,
    {
        let x: i32 = (p % 32) as i32;
        let y: i32 = (p / 32) as i32;
        let px = pixel_color(x, y);
        rgba.push(px.0);
        rgba.push(px.1);
        rgba.push(px.2);
        rgba.push(px.3);
        proof {
            assert forall|k: int| 0 <= k < 4 implies #[trigger] icon_byte(4 * p + k) == rgba@[4 * p + k] by {
                lemma_split_byte_index(p as int, k);
            }
            assert forall|j: int| 0 <= j < 4 * (p + 1) implies #[trigger] rgba@[j] == icon_byte(j) by {
                if j >= 4 * p {
                    assert(icon_byte(4 * p + (j - 4 * p)) == rgba@[4 * p + (j - 4 * p)]);
                }
            }
        }
        p = p + 1;
    }
    Some(AppIcon { rgba, width: ICON_SIDE, height: ICON_SIDE })
}

} // verus!
