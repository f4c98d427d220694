use mpm_chunks::world::{Chunk, ConfigurationError, Coord, World};

const LATTICE_WIDTH: usize = 4;
const CHUNK_WIDTH: usize = 8;
const COLORING_WIDTH: usize = 3;

fn test_world() -> World {
    World::new(LATTICE_WIDTH, CHUNK_WIDTH, COLORING_WIDTH).unwrap()
}

#[test]
fn chunks_update_properly() {
    let world = test_world();
    for x in 0..LATTICE_WIDTH {
        for y in 0..LATTICE_WIDTH {
            for z in 0..LATTICE_WIDTH {
                let i = world.chunk_index(Coord::new(x as i32, y as i32, z as i32));
                let chunk = &world.chunks[i];
                let mut edge = false;
                if x == 0 || x == LATTICE_WIDTH - 1 {
                    edge = true;
                }
                if y == 0 || y == LATTICE_WIDTH - 1 {
                    edge = true;
                }
                if z == 0 || z == LATTICE_WIDTH - 1 {
                    edge = true;
                }
                if edge == true {
                    assert!(chunk.update == false)
                } else {
                    assert!(chunk.update == true)
                }
            }
        }
    }
}

#[test]
fn in_bounds_works() {
    for x in -1..=CHUNK_WIDTH as i32 {
        for y in -1..=CHUNK_WIDTH as i32 {
            for z in -1..=CHUNK_WIDTH as i32 {
                let chunk = Chunk::in_bounds(CHUNK_WIDTH, Coord::new(x, y, z));
                if x == -1 {
                    assert!(chunk.x == -1);
                } else if x == CHUNK_WIDTH as i32 {
                    assert!(chunk.x == 1);
                } else {
                    assert!(chunk.x == 0);
                }
                if y == -1 {
                    assert!(chunk.y == -1);
                } else if y == CHUNK_WIDTH as i32 {
                    assert!(chunk.y == 1);
                } else {
                    assert!(chunk.y == 0);
                }
                if z == -1 {
                    assert!(chunk.z == -1);
                } else if z == CHUNK_WIDTH as i32 {
                    assert!(chunk.z == 1);
                } else {
                    assert!(chunk.z == 0);
                }
            }
        }
    }
}

#[test]
fn get_index_row_major_and_back() {
    let width = 5usize;
    let mut expected = 0usize;
    for x in 0..width as i32 {
        for y in 0..width as i32 {
            for z in 0..width as i32 {
                let i = Chunk::get_index(width, x, y, z);
                assert_eq!(i, expected);
                let back = Chunk::pos_from_index(width, i);
                assert_eq!((back.x, back.y, back.z), (x, y, z));
                expected += 1;
            }
        }
    }
}

#[test]
fn new_rejects_bad_configuration() {
    assert_eq!(
        World::new(2, 8, 3).unwrap_err(),
        ConfigurationError::LatticeTooSmall
    );
    assert_eq!(
        World::new(0, 8, 3).unwrap_err(),
        ConfigurationError::LatticeTooSmall
    );
    assert_eq!(
        World::new(4, 8, 0).unwrap_err(),
        ConfigurationError::ColoringWidthInvalid
    );
    assert!(World::new(3, 8, 3).is_ok());
}

#[test]
fn chunk_origins_and_colors() {
    let world = test_world();
    for x in 0..LATTICE_WIDTH {
        for y in 0..LATTICE_WIDTH {
            for z in 0..LATTICE_WIDTH {
                let i = world.chunk_index(Coord::new(x as i32, y as i32, z as i32));
                let chunk = &world.chunks[i];
                assert_eq!(chunk.pos.x, (x * CHUNK_WIDTH) as i32);
                assert_eq!(chunk.pos.y, (y * CHUNK_WIDTH) as i32);
                assert_eq!(chunk.pos.z, (z * CHUNK_WIDTH) as i32);
                let expected = (x % COLORING_WIDTH) * COLORING_WIDTH * COLORING_WIDTH
                    + (y % COLORING_WIDTH) * COLORING_WIDTH
                    + z % COLORING_WIDTH;
                assert_eq!(chunk.loopert, expected);
                let back = world.lattice_coord_of(i);
                assert_eq!((back.x, back.y, back.z), (x as i32, y as i32, z as i32));
            }
        }
    }
}

#[test]
fn surrounding_chunks_canonical_order() {
    let world = test_world();
    let center = Coord::new(1, 2, 1);
    let around = world.get_surrounding_chunks(center);
    assert_eq!(around.len(), 27);
    let mut j = 0;
    for dx in -1..=1 {
        for dy in -1..=1 {
            for dz in -1..=1 {
                let expected = world.chunk_index(Coord::new(1 + dx, 2 + dy, 1 + dz));
                assert_eq!(around[j], expected);
                j += 1;
            }
        }
    }
    // Slot 13 is the center chunk itself.
    assert_eq!(around[13], world.chunk_index(center));
}

#[test]
fn coloring_separates_same_color_chunks() {
    // With a coloring width of 3, any two distinct chunks of one color
    // differ by at least 3 on every differing axis, so none lies within the
    // 1-ring interaction radius of another.
    let world = World::new(6, 8, 3).unwrap();
    let lw = 6i32;
    for a in 0..(lw * lw * lw) as usize {
        for b in 0..(lw * lw * lw) as usize {
            if a == b {
                continue;
            }
            if world.chunks[a].loopert != world.chunks[b].loopert {
                continue;
            }
            let pa = world.lattice_coord_of(a);
            let pb = world.lattice_coord_of(b);
            for (va, vb) in [(pa.x, pb.x), (pa.y, pb.y), (pa.z, pb.z)] {
                if va != vb {
                    assert!((va - vb).abs() >= 3);
                }
            }
            // Not within the 1-ring interaction radius.
            let within_ring = (pa.x - pb.x).abs() <= 1
                && (pa.y - pb.y).abs() <= 1
                && (pa.z - pb.z).abs() <= 1;
            assert!(!within_ring);
        }
    }
}

#[test]
fn phase_chunks_lists_exactly_the_members() {
    let world = test_world();
    // Color 13 is (1, 1, 1) mod 3; in a width-4 lattice only chunk (1, 1, 1)
    // is both interior and of that color.
    let members = world.phase_chunks(13);
    assert_eq!(members, vec![world.chunk_index(Coord::new(1, 1, 1))]);
    // Inactive chunks belong to no phase: color 0 holds (0, 0, 0) and
    // (3, 3, 3) among others, all on the boundary.
    let members = world.phase_chunks(0);
    assert!(members.is_empty());
    // Every phase member is active and of the phase's color.
    let mut total = 0;
    for phase in 0..27 {
        for &i in world.phase_chunks(phase).iter() {
            assert!(world.chunks[i].update);
            assert_eq!(world.chunks[i].loopert, phase);
            total += 1;
        }
    }
    // The interior of a width-4 lattice holds 8 active chunks.
    assert_eq!(total, 8);
}

#[test]
fn neighbor_update_flags_follow_the_lattice() {
    let world = test_world();
    let around = world.get_surrounding_chunks(Coord::new(1, 1, 1));
    let flags = world.neighbor_update_flags(&around);
    assert_eq!(flags.len(), 27);
    // Center (1,1,1) is interior; the face neighbor (0,1,1) at slot 4 is a
    // wall; the face neighbor (2,1,1) at slot 22 is interior.
    assert!(flags[13]);
    assert!(!flags[4]);
    assert!(flags[22]);
    // The active window members are exactly the chunks with every
    // coordinate in {1, 2}: eight of them.
    let active = flags.iter().filter(|&&f| f).count();
    assert_eq!(active, 8);
}
