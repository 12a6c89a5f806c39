//! The indicator's picture: a bordered square with a dot in the middle.
use vstd::prelude::*;

verus! {

pub const BORDER_THICKNESS: usize = 2;

pub const DOT_RADIUS: i64 = 2;

/// Whether `(x, y)` lies on the border of a `width` by `height` picture.
pub open spec fn on_border(x: int, y: int, width: int, height: int) -> bool {
    x < BORDER_THICKNESS || x + BORDER_THICKNESS >= width || y < BORDER_THICKNESS || y
        + BORDER_THICKNESS >= height
}

/// Whether `(x, y)` lies on the dot centred at `(width / 2, height / 2)`.
pub open spec fn on_dot(x: int, y: int, width: int, height: int) -> bool {
    let dx = x - width / 2;
    let dy = y - height / 2;
    dx * dx + dy * dy <= DOT_RADIUS * DOT_RADIUS
}

/// The colour of `(x, y)`: `color0` on the border and the dot, `color1` elsewhere.
pub open spec fn pixel_spec(x: int, y: int, width: int, height: int, color0: u32, color1: u32) -> u32 {
    if on_border(x, y, width, height) || on_dot(x, y, width, height) {
        color0
    } else {
        color1
    }
}

fn pixel_color(x: usize, y: usize, width: usize, height: usize, color0: u32, color1: u32) -> (r: u32)
    requires
        x < width,
        y < height,
    ensures
        r == pixel_spec(x as int, y as int, width as int, height as int, color0, color1),
{
    let border = x < BORDER_THICKNESS || width < BORDER_THICKNESS || x >= width - BORDER_THICKNESS
        || y < BORDER_THICKNESS || height < BORDER_THICKNESS || y >= height - BORDER_THICKNESS;
    let cx = width / 2;
    let cy = height / 2;
    let ax: usize = if x >= cx {
        x - cx
    } else {
        cx - x
    };
    let ay: usize = if y >= cy {
        y - cy
    } else {
        cy - y
    };
    let dot = if ax <= 2 && ay <= 2 {
        let sx = ax as i64;
        let sy = ay as i64;
        assert(0 <= sx * sx + sy * sy <= 8) by (nonlinear_arith)
            requires
                0 <= sx <= 2,
                0 <= sy <= 2,
        ;
        sx * sx + sy * sy <= DOT_RADIUS * DOT_RADIUS
    } else {
        false
    };
    proof {
        let dx = x as int - width as int / 2;
        let dy = y as int - height as int / 2;
        assert(dx * dx == ax as int * ax as int) by (nonlinear_arith)
            requires
                dx == ax || dx == -(ax as int),
        ;
        assert(dy * dy == ay as int * ay as int) by (nonlinear_arith)
            requires
                dy == ay || dy == -(ay as int),
        ;
        if !(ax <= 2 && ay <= 2) {
            assert(ax as int * ax as int + ay as int * ay as int > 4) by (nonlinear_arith)
                requires
                    ax > 2 || ay > 2,
            ;
        }
    }
    if border || dot {
        color0
    } else {
        color1
    }
}

/// The picture, row by row: the pixel at `(x, y)` is at index `y * width + x`.
pub fn indicator_pixels(width: usize, height: usize, color0: u32, color1: u32) -> (r: Vec<u32>)
    requires
        width * height <= usize::MAX,
    ensures
        r@.len() == width * height,
        forall|x: int, y: int|
            0 <= x < width && 0 <= y < height ==> #[trigger] r@[y * width + x] == pixel_spec(
                x,
                y,
                width as int,
                height as int,
                color0,
                color1,
            ),
{
    let mut out: Vec<u32> = Vec::new();
    let mut y: usize = 0;
    while y < height
        invariant
            width * height <= usize::MAX,
            y <= height,
            out@.len() == y * width,
            forall|xx: int, yy: int|
                0 <= xx < width && 0 <= yy < y ==> #[trigger] out@[yy * width + xx] == pixel_spec(
                    xx,
                    yy,
                    width as int,
                    height as int,
                    color0,
                    color1,
                ),
        decreases height - y,
    {
        let mut x: usize = 0;
        assert(y * width + width <= width * height) by (nonlinear_arith)
            requires
                y < height,
        ;
        while x < width
            invariant
                width * height <= usize::MAX,
                y < height,
                x <= width,
                y * width + width <= width * height,
                out@.len() == y * width + x,
                forall|xx: int, yy: int|
                    0 <= xx < width && 0 <= yy < y ==> #[trigger] out@[yy * width + xx]
                        == pixel_spec(xx, yy, width as int, height as int, color0, color1),
                forall|xx: int|
                    0 <= xx < x ==> #[trigger] out@[y * width + xx] == pixel_spec(
                        xx,
                        y as int,
                        width as int,
                        height as int,
                        color0,
                        color1,
                    ),
            decreases width - x,
        {
            let c = pixel_color(x, y, width, height, color0, color1);
            let ghost before = out@;
            out.push(c);
            proof {
                assert forall|xx: int, yy: int| 0 <= xx < width && 0 <= yy < y implies #[trigger] out@[yy
                    * width + xx] == pixel_spec(xx, yy, width as int, height as int, color0, color1) by {
                    assert(yy * width + xx < y * width) by (nonlinear_arith)
                        requires
                            0 <= xx < width,
                            0 <= yy < y,
                    ;
                    assert(out@[yy * width + xx] == before[yy * width + xx]);
                }
            }
            x = x + 1;
        }
        proof {
            assert forall|xx: int, yy: int|
                0 <= xx < width && 0 <= yy < y + 1 implies #[trigger] out@[yy * width + xx]
                == pixel_spec(xx, yy, width as int, height as int, color0, color1) by {
                if yy == y {
                    assert(out@[y * width + xx] == pixel_spec(
                        xx,
                        y as int,
                        width as int,
                        height as int,
                        color0,
                        color1,
                    ));
                }
            }
            assert((y + 1) * width == y * width + width) by (nonlinear_arith);
        }
        y = y + 1;
    }
    assert(height * width == width * height) by (nonlinear_arith);
    out
}

} // verus!
