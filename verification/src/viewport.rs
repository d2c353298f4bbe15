use vstd::prelude::*;

verus! {

/// The centered 16:9 game area in a `w` x `h` window, as (x, y, width, height):
/// full height with bars left and right when the window is wider than 16:9,
/// full width with bars above and below otherwise. A height of 0 counts as 1
/// when comparing aspect ratios.
pub open spec fn viewport_of(w: int, h: int) -> (int, int, int, int) {
    let hh: int = if h == 0 {
        1
    } else {
        h
    };
    if 9 * w > 16 * hh {
        let vw: int = 16 * h / 9;
        ((w - vw) / 2, 0, vw, h)
    } else {
        let vh: int = 9 * w / 16;
        (0, (h - vh) / 2, w, vh)
    }
}

/// The game area is the largest 16:9 box that fits the window, rounded down
/// to whole pixels and centred: it takes the full height when the window is
/// wider than 16:9 and the full width otherwise, and the other side is the
/// matching 16:9 length rounded down.
pub proof fn viewport_is_largest_fitting_box(w: int, h: int)
    requires
        w >= 0,
        h >= 0,
    ensures
        ({
            let v = viewport_of(w, h);
            let hh = if h == 0 {
                1
            } else {
                h
            };
            &&& 9 * w > 16 * hh ==> v.3 == h && v.1 == 0 && 9 * v.2 <= 16 * h < 9 * v.2 + 9
                && v.2 <= w
            &&& 9 * w <= 16 * hh ==> v.2 == w && v.0 == 0 && 16 * v.3 <= 9 * w < 16 * v.3 + 16
                && v.3 <= h
            &&& 0 <= (w - v.2) - 2 * v.0 <= 1
            &&& 0 <= (h - v.3) - 2 * v.1 <= 1
        }),
{
}

/// Returns [x, y, w, h] for a centered 16:9 sub-viewport of a `w` x `h` window.
pub fn compute_game_viewport(w: u32, h: u32) -> (r: [i32; 4])
    requires
        w <= i32::MAX,
        h <= i32::MAX,
    ensures
        ({
            let v = viewport_of(w as int, h as int);
            &&& r[0] == v.0
            &&& r[1] == v.1
            &&& r[2] == v.2
            &&& r[3] == v.3
        }),
        // the game area lies inside the window, with margins that differ by at most a pixel
        0 <= r[0] && r[0] + r[2] <= w && 0 <= r[1] && r[1] + r[3] <= h,
        0 <= (w - r[2]) - 2 * r[0] <= 1,
        0 <= (h - r[3]) - 2 * r[1] <= 1,
{
    let ww: u64 = w as u64;
    let hv: u64 = h as u64;
    let hh: u64 = if h == 0 {
        1
    } else {
        hv
    };
    if 9 * ww > 16 * hh {
        let vw: u64 = 16 * hv / 9;
        assert(vw <= ww) by (nonlinear_arith)
            requires
                vw == 16 * hv / 9,
                9 * ww > 16 * hh,
                hh >= hv,
        ;
        let vx: u64 = (ww - vw) / 2;
        [vx as i32, 0, vw as i32, hv as i32]
    } else {
        let vh: u64 = 9 * ww / 16;
        assert(vh <= hv) by (nonlinear_arith)
            requires
                vh == 9 * ww / 16,
                9 * ww <= 16 * hh,
                hh == (if hv == 0 {
                    1
                } else {
                    hv
                }),
        ;
        let vy: u64 = (hv - vh) / 2;
        [0, vy as i32, ww as i32, vh as i32]
    }
}

} // verus!
