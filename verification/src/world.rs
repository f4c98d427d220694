//! The spatial world model: a cubic lattice of chunks.
//!
//! A chunk is a fixed-size cubic block of grid nodes and the unit of spatial
//! partition, locking and scheduling.  This module owns the structural state
//! of every chunk — its world-space origin, its phase color and its active
//! flag — and the index arithmetic that locates chunks and nodes.  The
//! floating-point node and particle state lives with the embedding, in
//! per-chunk arrays indexed exactly as the functions here describe.
//!
//! Every lattice-boundary chunk is inactive (`update == false`): it is a
//! frozen wall that gives each active chunk a full 27-neighbor window.

use vstd::prelude::*;

verus! {

/// Integer 3-vector: a chunk's lattice coordinate, a world-space origin, or
/// a node coordinate relative to a chunk origin.
#[derive(Clone, Copy, Debug, PartialEq, Eq, Structural)]
pub struct Coord {
    pub x: i32,
    pub y: i32,
    pub z: i32,
}

impl Coord {
    pub fn new(x: i32, y: i32, z: i32) -> (r: Coord)
        ensures
            r == (Coord { x, y, z }),
    {
        Coord { x, y, z }
    }
}

/// Rejected configuration of `World::new`: parameters that cannot satisfy
/// the neighbor-padding invariant or the phase coloring.
#[derive(Clone, Copy, Debug, PartialEq, Eq, Structural)]
pub enum ConfigurationError {
    /// The lattice is smaller than 3 along an axis: no room for the one-chunk
    /// halo of inactive wall chunks around an active interior.
    LatticeTooSmall,
    /// The coloring width is not a positive integer.
    ColoringWidthInvalid,
}

/// Structural state of one chunk.  The chunk's grid nodes and particles are
/// kept by the embedding in arrays indexed by `Chunk::get_index`.
#[derive(Clone, Copy, Debug)]
pub struct Chunk {
    /// World-space origin: the lattice coordinate times the chunk width.
    pub pos: Coord,
    /// Phase color: `(x mod C)·C² + (y mod C)·C + (z mod C)` for lattice
    /// coordinate `(x, y, z)` and coloring width `C`.
    pub loopert: usize,
    /// Whether the pipeline updates this chunk.  False on every
    /// lattice-boundary chunk: those are frozen domain walls.
    pub update: bool,
}

/// Row-major linear index of `(x, y, z)` in a `width³` cube.
pub open spec fn index3_spec(width: int, x: int, y: int, z: int) -> int {
    x * width * width + y * width + z
}

/// The phase color of lattice coordinate `(x, y, z)` under coloring width `c`.
pub open spec fn loopert_spec(x: int, y: int, z: int, c: int) -> int {
    (x % c) * c * c + (y % c) * c + (z % c)
}

impl Chunk {
    /// Linear index of node (or neighbor-list) coordinate `(x, y, z)` in a
    /// `width³` cube, row-major.
    pub fn get_index(width: usize, x: i32, y: i32, z: i32) -> (r: usize)
        requires
            1 <= width <= 1024,
            0 <= x < width,
            0 <= y < width,
            0 <= z < width,
        ensures
            r == index3_spec(width as int, x as int, y as int, z as int),
            r < width * width * width,
    {
        proof {
            assert((x as int) * width <= 1024 * 1024 && (y as int) * width <= 1024 * 1024 && (
            x as int) * width * width + (y as int) * width + (z as int) < width * width * width)
                by (nonlinear_arith)
                requires
                    1 <= width <= 1024,
                    0 <= x < width,
                    0 <= y < width,
                    0 <= z < width,
            ;
            assert(width * width * width <= 1024 * 1024 * 1024) by (nonlinear_arith)
                requires
                    1 <= width <= 1024,
            ;
        }
        let index = (x as usize * width * width) + (y as usize * width) + z as usize;
        index
    }

    /// Inverse of `get_index`: the cube coordinate a linear index stands for.
    pub fn pos_from_index(width: usize, i: usize) -> (r: Coord)
        requires
            1 <= width <= 1024,
            i < width * width * width,
        ensures
            r.x == i as int / ((width * width) as int),
            r.y == (i as int / width as int) % width as int,
            r.z == i as int % width as int,
            0 <= r.x < width,
            0 <= r.y < width,
            0 <= r.z < width,
            index3_spec(width as int, r.x as int, r.y as int, r.z as int) == i,
    {
        proof {
            assert(width * width <= 1024 * 1024) by (nonlinear_arith)
                requires
                    width <= 1024,
            ;
            assert((i as int / (width * width) as int) < width as int) by (nonlinear_arith)
                requires
                    1 <= width <= 1024,
                    i < width * width * width,
            ;
            assert((i as int / (width * width) as int) * width * width + ((i as int
                / width as int) % width as int) * width + (i as int % width as int) == i)
                by (nonlinear_arith)
                requires
                    1 <= width <= 1024,
                    i < width * width * width,
            ;
        }
        let x = i / (width * width);
        let y = (i / width) % width;
        let z = i % width;
        Coord { x: x as i32, y: y as i32, z: z as i32 }
    }

    /// Which chunk a node coordinate falls in, relative to the chunk the
    /// coordinate is based in: 0 on an axis where it lies inside `[0, width)`,
    /// -1 or +1 where it lies below or above.
    pub fn in_bounds(width: usize, n_pos: Coord) -> (r: Coord)
        requires
            1 <= width <= 1024,
        ensures
            r.x == if n_pos.x > width - 1 {
                1int
            } else if n_pos.x < 0 {
                -1int
            } else {
                0int
            },
            r.y == if n_pos.y > width - 1 {
                1int
            } else if n_pos.y < 0 {
                -1int
            } else {
                0int
            },
            r.z == if n_pos.z > width - 1 {
                1int
            } else if n_pos.z < 0 {
                -1int
            } else {
                0int
            },
    {
        let mut rc_coord = Coord { x: 0, y: 0, z: 0 };

        if n_pos.x > width as i32 - 1 {
            rc_coord.x = 1;
        } else if n_pos.x < 0 {
            rc_coord.x = -1;
        }

        if n_pos.y > width as i32 - 1 {
            rc_coord.y = 1;
        } else if n_pos.y < 0 {
            rc_coord.y = -1;
        }

        if n_pos.z > width as i32 - 1 {
            rc_coord.z = 1;
        } else if n_pos.z < 0 {
            rc_coord.z = -1;
        }
        rc_coord
    }
}

/// Expected structural state of the chunk at lattice coordinate `(x, y, z)`
/// in a lattice of width `lw`, chunk width `cw` and coloring width `c`.
pub open spec fn chunk_ok(lw: int, cw: int, c: int, x: int, y: int, z: int, ch: Chunk) -> bool {
    &&& ch.pos.x == x * cw
    &&& ch.pos.y == y * cw
    &&& ch.pos.z == z * cw
    &&& ch.loopert == loopert_spec(x, y, z, c)
    &&& ch.update == !(x == 0 || x == lw - 1 || y == 0 || y == lw - 1 || z == 0 || z == lw - 1)
}

/// X component of the canonical neighbor offset at slot `j` of the
/// 27-neighbor list: offsets run in ascending row-major order over
/// `(-1..=1)³`, so slot `j` stands for offset `(j/9 - 1, (j/3)%3 - 1, j%3 - 1)`.
pub open spec fn nbh_offset_x(j: int) -> int {
    j / 9 - 1
}

/// Y component of the canonical neighbor offset at slot `j`.
pub open spec fn nbh_offset_y(j: int) -> int {
    (j / 3) % 3 - 1
}

/// Z component of the canonical neighbor offset at slot `j`.
pub open spec fn nbh_offset_z(j: int) -> int {
    j % 3 - 1
}

/// The chunk lattice.  Chunks are stored row-major by lattice coordinate:
/// the chunk at `(x, y, z)` sits at index `x·lw² + y·lw + z`.
#[derive(Clone, Debug)]
pub struct World {
    pub chunks: Vec<Chunk>,
    /// Number of chunks along each lattice axis.
    pub lattice_width: usize,
    /// Number of grid nodes along each chunk axis.
    pub chunk_width: usize,
    /// Width of the phase coloring.
    pub coloring_width: usize,
}

impl World {
    /// Well-formedness: the lattice holds one chunk per coordinate of a
    /// `lattice_width³` cube, each with the origin, phase color and active
    /// flag its coordinate dictates, and every boundary chunk inactive.
    pub open spec fn wf(self) -> bool {
        &&& 3 <= self.lattice_width <= 1024
        &&& self.chunk_width <= 1024
        &&& 1 <= self.coloring_width <= 1024
        &&& self.chunks.len() == self.lattice_width * self.lattice_width * self.lattice_width
        &&& forall|x: int, y: int, z: int|
            0 <= x < self.lattice_width && 0 <= y < self.lattice_width && 0 <= z
                < self.lattice_width ==> chunk_ok(
                self.lattice_width as int,
                self.chunk_width as int,
                self.coloring_width as int,
                x,
                y,
                z,
                #[trigger] self.chunks[index3_spec(self.lattice_width as int, x, y, z)],
            )
    }

    /// Build the full lattice: every chunk gets its world origin (lattice
    /// coordinate times chunk width), its phase color, and its active flag,
    /// with every lattice-boundary chunk marked inactive.  Rejects a lattice
    /// with no room for the one-chunk halo and a coloring width of zero.
    pub fn new(lattice_width: usize, chunk_width: usize, coloring_width: usize) -> (r: Result<
        World,
        ConfigurationError,
    >)
        requires
            lattice_width <= 1024,
            chunk_width <= 1024,
            coloring_width <= 1024,
        ensures
            match r {
                Ok(w) => {
                    &&& lattice_width >= 3
                    &&& coloring_width >= 1
                    &&& w.lattice_width == lattice_width
                    &&& w.chunk_width == chunk_width
                    &&& w.coloring_width == coloring_width
                    &&& w.wf()
                },
                Err(e) => {
                    ||| (lattice_width < 3 && e == ConfigurationError::LatticeTooSmall)
                    ||| (lattice_width >= 3 && coloring_width == 0 && e
                        == ConfigurationError::ColoringWidthInvalid)
                },
            },
    {
        if lattice_width < 3 {
            return Err(ConfigurationError::LatticeTooSmall);
        }
        if coloring_width == 0 {
            return Err(ConfigurationError::ColoringWidthInvalid);
        }
        let lw = lattice_width;
        let c = coloring_width;
        let mut chunks: Vec<Chunk> = Vec::new();
        let mut x: usize = 0;
        while x < lw
            invariant
                3 <= lw <= 1024,
                chunk_width <= 1024,
                1 <= c <= 1024,
                x <= lw,
                chunks.len() == x * lw * lw,
                forall|a: int, b: int, d: int|
                    0 <= a < x && 0 <= b < lw && 0 <= d < lw ==> chunk_ok(
                        lw as int,
                        chunk_width as int,
                        c as int,
                        a,
                        b,
                        d,
                        #[trigger] chunks[index3_spec(lw as int, a, b, d)],
                    ),
            decreases lw - x,
        {
            let mut y: usize = 0;
            while y < lw
                invariant
                    3 <= lw <= 1024,
                    chunk_width <= 1024,
                    1 <= c <= 1024,
                    x < lw,
                    y <= lw,
                    chunks.len() == x * lw * lw + y * lw,
                    forall|a: int, b: int, d: int|
                        0 <= a < x && 0 <= b < lw && 0 <= d < lw ==> chunk_ok(
                            lw as int,
                            chunk_width as int,
                            c as int,
                            a,
                            b,
                            d,
                            #[trigger] chunks[index3_spec(lw as int, a, b, d)],
                        ),
                    forall|b: int, d: int|
                        0 <= b < y && 0 <= d < lw ==> chunk_ok(
                            lw as int,
                            chunk_width as int,
                            c as int,
                            x as int,
                            b,
                            d,
                            #[trigger] chunks[index3_spec(lw as int, x as int, b, d)],
                        ),
                decreases lw - y,
            {
                let mut z: usize = 0;
                while z < lw
                    invariant
                        3 <= lw <= 1024,
                        chunk_width <= 1024,
                        1 <= c <= 1024,
                        x < lw,
                        y < lw,
                        z <= lw,
                        chunks.len() == x * lw * lw + y * lw + z,
                        forall|a: int, b: int, d: int|
                            0 <= a < x && 0 <= b < lw && 0 <= d < lw ==> chunk_ok(
                                lw as int,
                                chunk_width as int,
                                c as int,
                                a,
                                b,
                                d,
                                #[trigger] chunks[index3_spec(lw as int, a, b, d)],
                            ),
                        forall|b: int, d: int|
                            0 <= b < y && 0 <= d < lw ==> chunk_ok(
                                lw as int,
                                chunk_width as int,
                                c as int,
                                x as int,
                                b,
                                d,
                                #[trigger] chunks[index3_spec(lw as int, x as int, b, d)],
                            ),
                        forall|d: int|
                            0 <= d < z ==> chunk_ok(
                                lw as int,
                                chunk_width as int,
                                c as int,
                                x as int,
                                y as int,
                                d,
                                #[trigger] chunks[index3_spec(lw as int, x as int, y as int, d)],
                            ),
                    decreases lw - z,
                {
                    proof {
                        assert(x * lw <= 1024 * 1024 && x * lw * lw <= 1024 * 1024 * 1024 && y * lw
                            <= 1024 * 1024 && x * chunk_width <= 1024 * 1024 && y * chunk_width
                            <= 1024 * 1024 && z * chunk_width <= 1024 * 1024)
                            by (nonlinear_arith)
                            requires
                                lw <= 1024,
                                chunk_width <= 1024,
                                x < lw,
                                y < lw,
                                z < lw,
                        ;
                        assert((x % c) * c <= 1024 * 1024 && (x % c) * c * c <= 1024 * 1024 * 1024
                            && (y % c) * c <= 1024 * 1024) by (nonlinear_arith)
                            requires
                                1 <= c <= 1024,
                        ;
                    }
                    let looxer = x % c;
                    let looyer = y % c;
                    let loozer = z % c;
                    let edge = x == 0 || x == lw - 1 || y == 0 || y == lw - 1 || z == 0 || z == lw
                        - 1;
                    let chunk = Chunk {
                        pos: Coord {
                            x: (x * chunk_width) as i32,
                            y: (y * chunk_width) as i32,
                            z: (z * chunk_width) as i32,
                        },
                        loopert: (looxer * c * c) + (looyer * c) + loozer,
                        update: !edge,
                    };
                    let ghost pre = chunks@;
                    chunks.push(chunk);
                    proof {
                        let lwi = lw as int;
                        let cwi = chunk_width as int;
                        let ci = c as int;
                        assert(chunks@ == pre.push(chunk));
                        assert(chunk_ok(lwi, cwi, ci, x as int, y as int, z as int, chunk));
                        assert forall|a: int, b: int, d: int|
                            0 <= a < x && 0 <= b < lwi && 0 <= d < lwi implies chunk_ok(
                            lwi,
                            cwi,
                            ci,
                            a,
                            b,
                            d,
                            #[trigger] chunks[index3_spec(lwi, a, b, d)],
                        ) by {
                            assert(0 <= index3_spec(lwi, a, b, d) && index3_spec(lwi, a, b, d) < x
                                * lwi * lwi) by (nonlinear_arith)
                                requires
                                    0 <= a < x,
                                    0 <= b < lwi,
                                    0 <= d < lwi,
                            ;
                            assert(chunks[index3_spec(lwi, a, b, d)] == pre[index3_spec(
                                lwi,
                                a,
                                b,
                                d,
                            )]);
                        }
                        assert forall|b: int, d: int| 0 <= b < y && 0 <= d < lwi implies chunk_ok(
                            lwi,
                            cwi,
                            ci,
                            x as int,
                            b,
                            d,
                            #[trigger] chunks[index3_spec(lwi, x as int, b, d)],
                        ) by {
                            assert((x as int) * lwi * lwi <= index3_spec(lwi, x as int, b, d)
                                && index3_spec(lwi, x as int, b, d) < (x as int) * lwi * lwi + (
                            y as int) * lwi) by (nonlinear_arith)
                                requires
                                    0 <= b < y,
                                    0 <= d < lwi,
                            ;
                            assert(chunks[index3_spec(lwi, x as int, b, d)] == pre[index3_spec(
                                lwi,
                                x as int,
                                b,
                                d,
                            )]);
                        }
                        assert forall|d: int| 0 <= d < z + 1 implies chunk_ok(
                            lwi,
                            cwi,
                            ci,
                            x as int,
                            y as int,
                            d,
                            #[trigger] chunks[index3_spec(lwi, x as int, y as int, d)],
                        ) by {
                            if d < z {
                                assert(chunks[index3_spec(lwi, x as int, y as int, d)]
                                    == pre[index3_spec(lwi, x as int, y as int, d)]);
                            } else {
                                assert(index3_spec(lwi, x as int, y as int, d) == pre.len());
                            }
                        }
                    }
                    z = z + 1;
                }
                proof {
                    assert((y as int + 1) * lw == y * lw + lw) by (nonlinear_arith);
                }
                y = y + 1;
            }
            proof {
                assert((x as int + 1) * lw * lw == x * lw * lw + lw * lw) by (nonlinear_arith);
            }
            x = x + 1;
        }
        Ok(World { chunks, lattice_width: lw, chunk_width, coloring_width: c })
    }

    /// Chunk indices of the 27-neighbor window of the chunk at lattice
    /// coordinate `pos`, in the canonical ascending offset order (center
    /// chunk at slot 13).  Callers that lock chunks must do so in this order
    /// on every code path.  `pos` must lie in the lattice interior: the halo
    /// of wall chunks guarantees that for every active chunk.
    pub fn get_surrounding_chunks(&self, pos: Coord) -> (r: Vec<usize>)
        requires
            self.wf(),
            1 <= pos.x <= self.lattice_width - 2,
            1 <= pos.y <= self.lattice_width - 2,
            1 <= pos.z <= self.lattice_width - 2,
        ensures
            r.len() == 27,
            forall|j: int|
                0 <= j < 27 ==> #[trigger] r[j] == index3_spec(
                    self.lattice_width as int,
                    pos.x + nbh_offset_x(j),
                    pos.y + nbh_offset_y(j),
                    pos.z + nbh_offset_z(j),
                ),
            forall|j: int| 0 <= j < 27 ==> #[trigger] r[j] < self.chunks.len(),
    {
        let lw = self.lattice_width;
        let mut surrounding_chunks: Vec<usize> = Vec::new();
        let mut dx: usize = 0;
        while dx < 3
            invariant
                self.wf(),
                lw == self.lattice_width,
                1 <= pos.x <= lw - 2,
                1 <= pos.y <= lw - 2,
                1 <= pos.z <= lw - 2,
                dx <= 3,
                surrounding_chunks.len() == dx * 9,
                forall|j: int|
                    0 <= j < surrounding_chunks.len() ==> #[trigger] surrounding_chunks[j]
                        == index3_spec(
                        lw as int,
                        pos.x + nbh_offset_x(j),
                        pos.y + nbh_offset_y(j),
                        pos.z + nbh_offset_z(j),
                    ) && surrounding_chunks[j] < self.chunks.len(),
            decreases 3 - dx,
        {
            let mut dy: usize = 0;
            while dy < 3
                invariant
                    self.wf(),
                    lw == self.lattice_width,
                    1 <= pos.x <= lw - 2,
                    1 <= pos.y <= lw - 2,
                    1 <= pos.z <= lw - 2,
                    dx < 3,
                    dy <= 3,
                    surrounding_chunks.len() == dx * 9 + dy * 3,
                    forall|j: int|
                        0 <= j < surrounding_chunks.len() ==> #[trigger] surrounding_chunks[j]
                            == index3_spec(
                            lw as int,
                            pos.x + nbh_offset_x(j),
                            pos.y + nbh_offset_y(j),
                            pos.z + nbh_offset_z(j),
                        ) && surrounding_chunks[j] < self.chunks.len(),
                decreases 3 - dy,
            {
                let mut dz: usize = 0;
                while dz < 3
                    invariant
                        self.wf(),
                        lw == self.lattice_width,
                        1 <= pos.x <= lw - 2,
                        1 <= pos.y <= lw - 2,
                        1 <= pos.z <= lw - 2,
                        dx < 3,
                        dy < 3,
                        dz <= 3,
                        surrounding_chunks.len() == dx * 9 + dy * 3 + dz,
                        forall|j: int|
                            0 <= j < surrounding_chunks.len() ==> #[trigger] surrounding_chunks[j]
                                == index3_spec(
                                lw as int,
                                pos.x + nbh_offset_x(j),
                                pos.y + nbh_offset_y(j),
                                pos.z + nbh_offset_z(j),
                            ) && surrounding_chunks[j] < self.chunks.len(),
                    decreases 3 - dz,
                {
                    let cx = pos.x - 1 + dx as i32;
                    let cy = pos.y - 1 + dy as i32;
                    let cz = pos.z - 1 + dz as i32;
                    let index = Chunk::get_index(lw, cx, cy, cz);
                    proof {
                        let j = (dx * 9 + dy * 3 + dz) as int;
                        assert(j / 9 == dx && (j / 3) % 3 == dy && j % 3 == dz)
                            by (nonlinear_arith)
                            requires
                                j == dx * 9 + dy * 3 + dz,
                                dx < 3,
                                dy < 3,
                                dz < 3,
                        ;
                        assert(index3_spec(lw as int, cx as int, cy as int, cz as int) < (
                        lw as int) * lw * lw) by (nonlinear_arith)
                            requires
                                0 <= cx < lw,
                                0 <= cy < lw,
                                0 <= cz < lw,
                                lw >= 1,
                        ;
                    }
                    surrounding_chunks.push(index);
                    dz = dz + 1;
                }
                dy = dy + 1;
            }
            dx = dx + 1;
        }
        surrounding_chunks
    }

    /// Index of the chunk at lattice coordinate `pos` in `chunks`.
    pub fn chunk_index(&self, pos: Coord) -> (r: usize)
        requires
            self.wf(),
            0 <= pos.x < self.lattice_width,
            0 <= pos.y < self.lattice_width,
            0 <= pos.z < self.lattice_width,
        ensures
            r == index3_spec(self.lattice_width as int, pos.x as int, pos.y as int, pos.z as int),
            r < self.chunks.len(),
    {
        Chunk::get_index(self.lattice_width, pos.x, pos.y, pos.z)
    }

    /// Lattice coordinate of the chunk stored at `index`: the inverse of
    /// `chunk_index`.  Together with the chunk's origin this is the
    /// read-only view a renderer or diagnostics overlay iterates.
    pub fn lattice_coord_of(&self, index: usize) -> (r: Coord)
        requires
            self.wf(),
            index < self.chunks.len(),
        ensures
            0 <= r.x < self.lattice_width,
            0 <= r.y < self.lattice_width,
            0 <= r.z < self.lattice_width,
            index3_spec(self.lattice_width as int, r.x as int, r.y as int, r.z as int) == index,
            self.chunks[index as int].pos.x == r.x * self.chunk_width,
            self.chunks[index as int].pos.y == r.y * self.chunk_width,
            self.chunks[index as int].pos.z == r.z * self.chunk_width,
    {
        Chunk::pos_from_index(self.lattice_width, index)
    }

    /// Active flags of a 27-neighbor window, in slot order: entry `j` tells
    /// whether the chunk at `indices[j]` is updated by the pipeline.  The
    /// grid update and the particle update read these to find inactive wall
    /// neighbors.
    pub fn neighbor_update_flags(&self, indices: &Vec<usize>) -> (r: Vec<bool>)
        requires
            forall|j: int| 0 <= j < indices.len() ==> #[trigger] indices[j] < self.chunks.len(),
        ensures
            r.len() == indices.len(),
            forall|j: int|
                0 <= j < indices.len() ==> #[trigger] r[j] == self.chunks[indices[j] as int].update,
    {
        let mut flags: Vec<bool> = Vec::new();
        let mut j: usize = 0;
        while j < indices.len()
            invariant
                j <= indices.len(),
                flags.len() == j,
                forall|k: int| 0 <= k < indices.len() ==> #[trigger] indices[k] < self.chunks.len(),
                forall|k: int|
                    0 <= k < j ==> #[trigger] flags[k] == self.chunks[indices[k] as int].update,
            decreases indices.len() - j,
        {
            flags.push(self.chunks[indices[j]].update);
            j = j + 1;
        }
        flags
    }

    /// Members of one color phase: the indices of every active chunk whose
    /// phase color equals `phase`, in ascending index order with no
    /// duplicates.  Each phase of the pipeline dispatches exactly these
    /// chunks; inactive chunks belong to no phase.
    pub fn phase_chunks(&self, phase: usize) -> (r: Vec<usize>)
        ensures
            forall|k: int|
                0 <= k < r.len() ==> #[trigger] r[k] < self.chunks.len()
                    && self.chunks[r[k] as int].update && self.chunks[r[k] as int].loopert
                    == phase,
            forall|i: int|
                0 <= i < self.chunks.len() && (#[trigger] self.chunks[i]).update
                    && self.chunks[i].loopert == phase ==> r@.contains(i as usize),
            forall|k1: int, k2: int| 0 <= k1 < k2 < r.len() ==> r[k1] < r[k2],
    {
        let mut members: Vec<usize> = Vec::new();
        let mut i: usize = 0;
        while i < self.chunks.len()
            invariant
                i <= self.chunks.len(),
                forall|k: int|
                    0 <= k < members.len() ==> #[trigger] members[k] < i
                        && self.chunks[members[k] as int].update
                        && self.chunks[members[k] as int].loopert == phase,
                forall|j: int|
                    0 <= j < i && (#[trigger] self.chunks[j]).update && self.chunks[j].loopert
                        == phase ==> members@.contains(j as usize),
                forall|k1: int, k2: int| 0 <= k1 < k2 < members.len() ==> members[k1] < members[k2],
            decreases self.chunks.len() - i,
        {
            let ch = &self.chunks[i];
            if ch.update && ch.loopert == phase {
                let ghost pre = members@;
                members.push(i);
                proof {
                    assert forall|j: int|
                        0 <= j < i + 1 && (#[trigger] self.chunks[j]).update
                            && self.chunks[j].loopert == phase implies members@.contains(
                        j as usize,
                    ) by {
                        if j < i {
                            let k = choose|k: int| 0 <= k < pre.len() && pre[k] == j as usize;
                            assert(members@[k] == j as usize);
                        } else {
                            assert(members@[pre.len() as int] == i);
                        }
                    }
                }
            }
            i = i + 1;
        }
        members
    }
}

} // verus!
