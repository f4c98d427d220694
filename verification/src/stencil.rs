//! Addressing for the 27-cell transfer stencil, and the domain-wall rule.
//!
//! Each transfer stage visits, per particle, the 3×3×3 window of grid nodes
//! around the particle's base cell.  A node of that window either lies in
//! the particle's own chunk or spills into one of the 26 neighbor chunks;
//! `stencil_target` resolves a window slot to the owning chunk's place in
//! the canonical 27-neighbor list and to the node's index in that chunk's
//! node array.  `wall_clamp` decides, per axis, whether a node sits in the
//! two-cell band in front of an inactive (wall) neighbor chunk, where the
//! grid update zeroes the wall-normal velocity component.

use vstd::prelude::*;

use crate::world::{index3_spec, nbh_offset_x, nbh_offset_y, nbh_offset_z, Chunk, Coord};

verus! {

/// Slot of the center chunk in the canonical 27-neighbor list.
pub const NBH_CENTER: usize = 13;

/// Slot of the face neighbor at offset (-1, 0, 0).
pub const NBH_FACE_NEG_X: usize = 4;

/// Slot of the face neighbor at offset (1, 0, 0).
pub const NBH_FACE_POS_X: usize = 22;

/// Slot of the face neighbor at offset (0, -1, 0).
pub const NBH_FACE_NEG_Y: usize = 10;

/// Slot of the face neighbor at offset (0, 1, 0).
pub const NBH_FACE_POS_Y: usize = 16;

/// Slot of the face neighbor at offset (0, 0, -1).
pub const NBH_FACE_NEG_Z: usize = 12;

/// Slot of the face neighbor at offset (0, 0, 1).
pub const NBH_FACE_POS_Z: usize = 14;

/// One resolved node of the transfer window.
pub struct NodeTarget {
    /// Node coordinate relative to the base chunk's origin; each axis lies
    /// in `[-1, width]`.
    pub rn_coord: Coord,
    /// Slot of the chunk owning the node in the canonical 27-neighbor list.
    pub c_index: usize,
    /// Index of the node in the owning chunk's node array.
    pub n_index: usize,
}

/// Euclidean division of a coordinate in the one-cell halo `[-1, width]`
/// by the chunk width: -1 for the low neighbor, 0 inside, 1 for the high
/// neighbor, with the remainder the coordinate wrapped into `[0, width)`.
proof fn lemma_halo_div_mod(w: int, v: int)
    requires
        1 <= w,
        -1 <= v <= w,
    ensures
        v < 0 ==> v / w == -1 && v % w == v + w,
        0 <= v < w ==> v / w == 0 && v % w == v,
        v == w ==> v / w == 1 && v % w == 0,
{
    if v < 0 {
        assert(v / w == -1 && v % w == v + w) by (nonlinear_arith)
            requires
                1 <= w,
                v == -1,
        ;
    } else if v < w {
        assert(v / w == 0 && v % w == v) by (nonlinear_arith)
            requires
                1 <= w,
                0 <= v < w,
        ;
    } else {
        assert(v / w == 1 && v % w == 0) by (nonlinear_arith)
            requires
                1 <= w,
                v == w,
        ;
    }
}

/// Resolve slot `j` of the 3×3×3 transfer window around base cell `base`
/// of a chunk of width `width`: the node's coordinate relative to the
/// chunk origin, the neighbor-list slot of the chunk that owns the node,
/// and the node's index inside that chunk.  The owning chunk is the
/// Euclidean quotient of the coordinate by the width, the node index its
/// remainder, so a coordinate of -1 lands at the far side of the low
/// neighbor and a coordinate of `width` at the near side of the high one.
pub fn stencil_target(width: usize, base: Coord, j: usize) -> (r: NodeTarget)
    requires
        1 <= width <= 1024,
        0 <= base.x < width,
        0 <= base.y < width,
        0 <= base.z < width,
        j < 27,
    ensures
        r.rn_coord.x == base.x + nbh_offset_x(j as int),
        r.rn_coord.y == base.y + nbh_offset_y(j as int),
        r.rn_coord.z == base.z + nbh_offset_z(j as int),
        r.c_index == index3_spec(
            3,
            r.rn_coord.x as int / width as int + 1,
            r.rn_coord.y as int / width as int + 1,
            r.rn_coord.z as int / width as int + 1,
        ),
        r.c_index < 27,
        r.n_index == index3_spec(
            width as int,
            r.rn_coord.x as int % width as int,
            r.rn_coord.y as int % width as int,
            r.rn_coord.z as int % width as int,
        ),
        r.n_index < width * width * width,
        r.c_index == NBH_CENTER <==> (0 <= r.rn_coord.x < width && 0 <= r.rn_coord.y < width && 0
            <= r.rn_coord.z < width),
    {
    let gx = (j / 9) as i32;
    let gy = ((j / 3) % 3) as i32;
    let gz = (j % 3) as i32;
    let rn_coord = Coord { x: base.x + gx - 1, y: base.y + gy - 1, z: base.z + gz - 1 };
    let rc_coord = Chunk::in_bounds(width, rn_coord);
    let c_index = Chunk::get_index(3, rc_coord.x + 1, rc_coord.y + 1, rc_coord.z + 1);
    let ox = if rc_coord.x < 0 {
        rn_coord.x + width as i32
    } else if rc_coord.x > 0 {
        rn_coord.x - width as i32
    } else {
        rn_coord.x
    };
    let oy = if rc_coord.y < 0 {
        rn_coord.y + width as i32
    } else if rc_coord.y > 0 {
        rn_coord.y - width as i32
    } else {
        rn_coord.y
    };
    let oz = if rc_coord.z < 0 {
        rn_coord.z + width as i32
    } else if rc_coord.z > 0 {
        rn_coord.z - width as i32
    } else {
        rn_coord.z
    };
    let n_index = Chunk::get_index(width, ox, oy, oz);
    proof {
        lemma_halo_div_mod(width as int, rn_coord.x as int);
        lemma_halo_div_mod(width as int, rn_coord.y as int);
        lemma_halo_div_mod(width as int, rn_coord.z as int);
    }
    NodeTarget { rn_coord, c_index, n_index }
}

/// Boundary-crossing rule for particle ownership: a particle advected past
/// its chunk's `[0, width)` range is not handed to a neighbor chunk; it
/// keeps its owner, and its base cell is clamped into the chunk so that its
/// transfer window stays the valid one-cell halo.  An interior base cell
/// passes through unchanged.
pub fn clamp_base_cell(width: usize, base: Coord) -> (r: Coord)
    requires
        1 <= width <= 1024,
    ensures
        r.x == if base.x < 0 {
            0int
        } else if base.x > width - 1 {
            width - 1
        } else {
            base.x as int
        },
        r.y == if base.y < 0 {
            0int
        } else if base.y > width - 1 {
            width - 1
        } else {
            base.y as int
        },
        r.z == if base.z < 0 {
            0int
        } else if base.z > width - 1 {
            width - 1
        } else {
            base.z as int
        },
        0 <= r.x < width,
        0 <= r.y < width,
        0 <= r.z < width,
{
    let top = width as i32 - 1;
    let mut r = base;
    if r.x < 0 {
        r.x = 0;
    } else if r.x > top {
        r.x = top;
    }
    if r.y < 0 {
        r.y = 0;
    } else if r.y > top {
        r.y = top;
    }
    if r.z < 0 {
        r.z = 0;
    } else if r.z > top {
        r.z = top;
    }
    r
}

/// Per-axis wall rule of the grid update: a node is clamped when it lies
/// within two cells of a face whose neighbor chunk is inactive — below 2
/// toward an inactive low face, above `width - 3` toward an inactive high
/// face.  The two faces are checked independently: on a one-chunk-thick
/// active slab both bands apply at once.
pub open spec fn wall_clamp_axis_spec(width: int, v: int, low_active: bool, high_active: bool) -> bool {
    (!low_active && v < 2) || (!high_active && v > width - 3)
}

/// Which velocity components of a node the wall rule zeroes.
pub struct WallClamp {
    pub x: bool,
    pub y: bool,
    pub z: bool,
}

/// Decide, for the node at `pos` of a chunk of width `width`, which
/// velocity components the domain-wall rule zeroes, given the active flags
/// of the 27-neighbor window (`update_list`, in canonical slot order): the
/// component normal to a face whose neighbor chunk is inactive, for nodes
/// within two cells of that face.
pub fn wall_clamp(width: usize, pos: Coord, update_list: &Vec<bool>) -> (r: WallClamp)
    requires
        width <= 1024,
        update_list.len() == 27,
    ensures
        r.x == wall_clamp_axis_spec(
            width as int,
            pos.x as int,
            update_list[NBH_FACE_NEG_X as int],
            update_list[NBH_FACE_POS_X as int],
        ),
        r.y == wall_clamp_axis_spec(
            width as int,
            pos.y as int,
            update_list[NBH_FACE_NEG_Y as int],
            update_list[NBH_FACE_POS_Y as int],
        ),
        r.z == wall_clamp_axis_spec(
            width as int,
            pos.z as int,
            update_list[NBH_FACE_NEG_Z as int],
            update_list[NBH_FACE_POS_Z as int],
        ),
{
    let mut r = WallClamp { x: false, y: false, z: false };
    if !update_list[NBH_FACE_NEG_X] && pos.x < 2 {
        r.x = true;
    }
    if !update_list[NBH_FACE_POS_X] && pos.x > width as i32 - 3 {
        r.x = true;
    }
    if !update_list[NBH_FACE_NEG_Y] && pos.y < 2 {
        r.y = true;
    }
    if !update_list[NBH_FACE_POS_Y] && pos.y > width as i32 - 3 {
        r.y = true;
    }
    if !update_list[NBH_FACE_NEG_Z] && pos.z < 2 {
        r.z = true;
    }
    if !update_list[NBH_FACE_POS_Z] && pos.z > width as i32 - 3 {
        r.z = true;
    }
    r
}

/// Boundary rigidity of the wall rule: a node within two cells of a face
/// whose neighbor chunk is inactive always has its wall-normal component
/// clamped, whatever the state of the opposite face.
pub proof fn lemma_wall_band_clamped(width: int, v: int, low_active: bool, high_active: bool)
    ensures
        !low_active && v < 2 ==> wall_clamp_axis_spec(width, v, low_active, high_active),
        !high_active && v > width - 3 ==> wall_clamp_axis_spec(width, v, low_active, high_active),
{
}

} // verus!
