//! Mapping an arbitrary 24-bit colour to the nearest index of the xterm
//! 256-colour palette.
//!
//! The palette holds a 6x6x6 colour cube (16 to 231) and 24 greys (232 to
//! 255). A colour is mapped to the closest cell of the cube and to the
//! closest grey, and the nearer of the two wins.

use vstd::prelude::*;
use vstd::arithmetic::div_mod::{
    lemma_fundamental_div_mod,
    lemma_fundamental_div_mod_converse,
    lemma_mod_pos_bound,
};
use crate::palette::{cube_level, grey_level, palette_rgb};
use crate::rgb::packed;

verus! {

/// The cube coordinate (0 to 5) of a channel value. The cube's levels are
/// not evenly spread (0, 95, 135, 175, 215, 255): darker tones have fewer
/// of them, so the break points are skewed.
pub open spec fn cube_coord(v: int) -> int {
    if v < 48 {
        0
    } else if v < 114 {
        1
    } else {
        (v - 35) / 40
    }
}

/// The distance between two channel values.
pub open spec fn channel_gap(x: int, y: int) -> int {
    if x >= y {
        x - y
    } else {
        y - x
    }
}

/// The cube coordinate of a channel value picks a level that no other cube
/// level is nearer to.
pub proof fn lemma_cube_coord_nearest(v: u8, q: int)
    requires
        0 <= q <= 5,
    ensures
        channel_gap(cube_level(cube_coord(v as int)), v as int) <= channel_gap(
            cube_level(q),
            v as int,
        ),
{
    if v >= 114 {
        let w = v - 35;
        lemma_fundamental_div_mod(w, 40);
        lemma_mod_pos_bound(w, 40);
        assert(40 * (w / 40) <= w < 40 * (w / 40) + 40);
    }
}

/// The palette index of the cube cell with the given coordinates.
pub open spec fn cube_index(qr: int, qg: int, qb: int) -> int {
    16 + 36 * qr + 6 * qg + qb
}

/// The squared Euclidean distance between two colours in RGB space.
#[verifier::opaque]
pub open spec fn dist_sq_of(r1: int, g1: int, b1: int, r2: int, g2: int, b2: int) -> int {
    (r1 - r2) * (r1 - r2) + (g1 - g2) * (g1 - g2) + (b1 - b2) * (b1 - b2)
}

/// The grey-ramp step (0 to 23) chosen for a channel average: the last step
/// above 238, else `(avg - 3) / 10` rounded toward zero.
pub open spec fn grey_step(avg: int) -> int {
    if avg > 238 {
        23
    } else if avg < 3 {
        0
    } else {
        (avg - 3) / 10
    }
}

/// The palette index chosen for a colour: the grey candidate where it is
/// strictly nearer than the cube candidate, else the cube candidate.
pub open spec fn nearest_256(r: int, g: int, b: int) -> int {
    let qr = cube_coord(r);
    let qg = cube_coord(g);
    let qb = cube_coord(b);
    let k = grey_step((r + g + b) / 3);
    let v = grey_level(k);
    if dist_sq_of(v, v, v, r, g, b) < dist_sq_of(
        cube_level(qr),
        cube_level(qg),
        cube_level(qb),
        r,
        g,
        b,
    ) {
        232 + k
    } else {
        cube_index(qr, qg, qb)
    }
}

/// A squared distance is never negative.
proof fn lemma_dist_sq_nonneg(r1: int, g1: int, b1: int, r2: int, g2: int, b2: int)
    ensures
        dist_sq_of(r1, g1, b1, r2, g2, b2) >= 0,
        dist_sq_of(r1, g1, b1, r1, g1, b1) == 0,
{
    reveal(dist_sq_of);
    assert((r1 - r2) * (r1 - r2) >= 0) by (nonlinear_arith);
    assert((g1 - g2) * (g1 - g2) >= 0) by (nonlinear_arith);
    assert((b1 - b2) * (b1 - b2) >= 0) by (nonlinear_arith);
}

/// Each cube level falls back onto its own coordinate.
proof fn lemma_cube_coord_of_level(q: int)
    requires
        0 <= q <= 5,
    ensures
        cube_coord(cube_level(q)) == q,
{
}

/// A colour that is exactly a cell of the colour cube is mapped to that
/// cell, with no approximation.
pub proof fn lemma_exact_cube_hit(qr: int, qg: int, qb: int)
    requires
        0 <= qr <= 5,
        0 <= qg <= 5,
        0 <= qb <= 5,
    ensures
        nearest_256(cube_level(qr), cube_level(qg), cube_level(qb)) == cube_index(qr, qg, qb),
{
    let (r, g, b) = (cube_level(qr), cube_level(qg), cube_level(qb));
    lemma_cube_coord_of_level(qr);
    lemma_cube_coord_of_level(qg);
    lemma_cube_coord_of_level(qb);
    let v = grey_level(grey_step((r + g + b) / 3));
    lemma_dist_sq_nonneg(v, v, v, r, g, b);
    lemma_dist_sq_nonneg(r, g, b, r, g, b);
}

/// The palette lays out the cube so that a cell's index gives back its
/// coordinates.
proof fn lemma_cube_index_coords(qr: int, qg: int, qb: int)
    requires
        0 <= qr <= 5,
        0 <= qg <= 5,
        0 <= qb <= 5,
    ensures
        (cube_index(qr, qg, qb) - 16) / 36 == qr,
        ((cube_index(qr, qg, qb) - 16) / 6) % 6 == qg,
        (cube_index(qr, qg, qb) - 16) % 6 == qb,
{
    let k = cube_index(qr, qg, qb) - 16;
    lemma_fundamental_div_mod_converse(k, 36, qr, 6 * qg + qb);
    lemma_fundamental_div_mod_converse(k, 6, 6 * qr + qg, qb);
    lemma_fundamental_div_mod_converse(6 * qr + qg, 6, qr, qg);
}

/// At the index chosen for a colour the palette shows the candidate that
/// won: the nearest grey step where it is strictly nearer than the nearest
/// cube cell, else that cube cell. Either way no candidate is nearer to
/// the colour than what is shown.
pub proof fn lemma_chosen_index_shows_nearer_candidate(r: u8, g: u8, b: u8)
    ensures
        ({
            let (cr, cg, cb) = (
                cube_level(cube_coord(r as int)),
                cube_level(cube_coord(g as int)),
                cube_level(cube_coord(b as int)),
            );
            let v = grey_level(grey_step((r + g + b) / 3));
            let d_cube = dist_sq_of(cr, cg, cb, r as int, g as int, b as int);
            let d_grey = dist_sq_of(v, v, v, r as int, g as int, b as int);
            let shown = palette_rgb(nearest_256(r as int, g as int, b as int));
            (shown == packed(cr, cg, cb) && d_cube <= d_grey) || (shown == packed(v, v, v)
                && d_grey < d_cube)
        }),
{
    let (qr, qg, qb) = (cube_coord(r as int), cube_coord(g as int), cube_coord(b as int));
    lemma_cube_index_coords(qr, qg, qb);
}

fn color_to_6cube(v: u8) -> (q: u8)
    ensures
        q == cube_coord(v as int),
        q <= 5,
{
    if v < 48 {
        0
    } else {
        if v < 114 {
            1
        } else {
            (v - 35) / 40
        }
    }
}

fn dist_sq(r1: i32, g1: i32, b1: i32, r2: i32, g2: i32, b2: i32) -> (d: i32)
    requires
        0 <= r1 <= 255,
        0 <= g1 <= 255,
        0 <= b1 <= 255,
        0 <= r2 <= 255,
        0 <= g2 <= 255,
        0 <= b2 <= 255,
    ensures
        d == dist_sq_of(r1 as int, g1 as int, b1 as int, r2 as int, g2 as int, b2 as int),
{
    reveal(dist_sq_of);
    assert(0 <= (r1 - r2) * (r1 - r2) <= 65025) by (nonlinear_arith)
        requires
            -255 <= r1 - r2 <= 255,
    ;
    assert(0 <= (g1 - g2) * (g1 - g2) <= 65025) by (nonlinear_arith)
        requires
            -255 <= g1 - g2 <= 255,
    ;
    assert(0 <= (b1 - b2) * (b1 - b2) <= 65025) by (nonlinear_arith)
        requires
            -255 <= b1 - b2 <= 255,
    ;
    (r1 - r2) * (r1 - r2) + (g1 - g2) * (g1 - g2) + (b1 - b2) * (b1 - b2)
}

/// Convert an RGB triplet to the xterm(1) 256 color palette.
///
/// The result is always a cube or grey index, never one of the 16 ANSI
/// colours. A colour that is exactly a cube cell gets that cell.
pub fn color_rgbto256(r: u8, g: u8, b: u8) -> (idx: i32)
    ensures
        idx == nearest_256(r as int, g as int, b as int),
        16 <= idx <= 255,
{
    let q2c: [i32; 6] = [0x00, 0x5f, 0x87, 0xaf, 0xd7, 0xff];

    // Map RGB to the 6x6x6 cube.
    let qr = color_to_6cube(r);
    let cr = q2c[qr as usize];
    let qg = color_to_6cube(g);
    let cg = q2c[qg as usize];
    let qb = color_to_6cube(b);
    let cb = q2c[qb as usize];
    assert(cr == cube_level(qr as int) && cg == cube_level(qg as int) && cb == cube_level(
        qb as int,
    ));
    let cube: i32 = 16 + 36 * (qr as i32) + 6 * (qg as i32) + (qb as i32);

    // If we have hit the color exactly, return early.
    if cr == r as i32 && cg == g as i32 && cb == b as i32 {
        proof {
            let k = grey_step((r + g + b) / 3);
            let v = grey_level(k);
            lemma_dist_sq_nonneg(v, v, v, r as int, g as int, b as int);
            lemma_dist_sq_nonneg(r as int, g as int, b as int, r as int, g as int, b as int);
        }
        return cube;
    }

    // Work out the closest grey (average of RGB).
    let grey_avg: i32 = ((r as i32) + (g as i32) + (b as i32)) / 3;
    let grey_idx: i32 = if grey_avg > 238 {
        23
    } else if grey_avg < 3 {
        0
    } else {
        (grey_avg - 3) / 10
    };
    let grey: i32 = 8 + 10 * grey_idx;
    assert(grey_idx == grey_step((r + g + b) / 3));

    // Is grey or the 6x6x6 color closest?
    if dist_sq(grey, grey, grey, r as i32, g as i32, b as i32) < dist_sq(
        cr,
        cg,
        cb,
        r as i32,
        g as i32,
        b as i32,
    ) {
        232 + grey_idx
    } else {
        cube
    }
}

} // verus!
