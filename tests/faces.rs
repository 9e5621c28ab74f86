use voxel_island::chunk::{Chunk, Direction, Faces, CHUNK_SIZE, PADDED_SIZE};
use voxel_island::voxel::Voxel;

fn all_faces() -> Faces {
    Faces { pos_y: true, neg_y: true, pos_x: true, neg_x: true, pos_z: true, neg_z: true }
}

#[test]
fn new_chunk_is_all_air() {
    let c = Chunk::new(3, 0, -4);
    assert_eq!(c.coord(), (3, 0, -4));
    for x in 0..PADDED_SIZE {
        for y in 0..PADDED_SIZE {
            for z in 0..PADDED_SIZE {
                assert_eq!(c.voxel_at(x, y, z), Voxel::Air);
            }
        }
    }
    let d = Chunk::default();
    assert_eq!(d.coord(), (0, 0, 0));
    assert_eq!(d.voxel_at(5, 5, 5), Voxel::Air);
}

#[test]
fn single_dirt_voxel_on_floor_shows_five_faces() {
    let mut c = Chunk::new(0, 0, 0);
    c.set_voxel(1, 1, 1, Voxel::Dirt);
    let f = c.exposed_faces(1, 1, 1);
    assert_eq!(
        f,
        Faces { pos_y: true, neg_y: false, pos_x: true, neg_x: true, pos_z: true, neg_z: true }
    );
    assert_eq!(f.count(), 5);
    assert!(!f.exposed(Direction::NegY));
    assert!(f.exposed(Direction::PosY));
}

#[test]
fn floating_voxel_shows_six_faces() {
    let mut c = Chunk::new(0, 0, 0);
    c.set_voxel(8, 8, 8, Voxel::Wood);
    assert_eq!(c.exposed_faces(8, 8, 8), all_faces());
    assert_eq!(c.exposed_faces(8, 8, 8).count(), 6);
}

#[test]
fn buried_voxel_shows_no_faces() {
    let mut c = Chunk::new(0, 0, 0);
    for x in 4..7 {
        for y in 4..7 {
            for z in 4..7 {
                c.set_voxel(x, y, z, Voxel::Dirt);
            }
        }
    }
    let f = c.exposed_faces(5, 5, 5);
    assert_eq!(f.count(), 0);
    assert_eq!(c.exposed_faces(4, 5, 5).count(), 1);
    assert!(c.exposed_faces(4, 5, 5).neg_x);
}

#[test]
fn buried_voxel_on_floor_shows_no_faces() {
    let mut c = Chunk::new(0, 0, 0);
    for x in 1..4 {
        for y in 1..3 {
            for z in 1..4 {
                c.set_voxel(x, y, z, Voxel::Sand);
            }
        }
    }
    assert_eq!(c.exposed_faces(2, 1, 2).count(), 0);
    assert_eq!(c.exposed_faces(1, 1, 1).count(), 2);
}

#[test]
fn exposed_faces_is_repeatable() {
    let mut c = Chunk::new(1, 0, 1);
    c.set_voxel(3, 2, 3, Voxel::Grass);
    c.set_voxel(3, 1, 3, Voxel::Dirt);
    c.set_voxel(4, 2, 3, Voxel::Leaf);
    let first = c.exposed_faces(3, 2, 3);
    let second = c.exposed_faces(3, 2, 3);
    assert_eq!(first, second);
    assert_eq!(
        first,
        Faces { pos_y: true, neg_y: false, pos_x: false, neg_x: true, pos_z: true, neg_z: true }
    );
}

#[test]
fn air_cell_shows_no_faces() {
    let c = Chunk::new(0, 0, 0);
    assert_eq!(c.exposed_faces(7, 7, 7).count(), 0);
}

#[test]
fn chunk_edge_faces_are_exposed() {
    let mut c = Chunk::new(0, 0, 0);
    for x in 1..=CHUNK_SIZE {
        for z in 1..=CHUNK_SIZE {
            c.set_voxel(x, 1, z, Voxel::Grass);
        }
    }
    let corner = c.exposed_faces(CHUNK_SIZE, 1, CHUNK_SIZE);
    assert_eq!(
        corner,
        Faces { pos_y: true, neg_y: false, pos_x: true, neg_x: false, pos_z: true, neg_z: false }
    );
    let middle = c.exposed_faces(8, 1, 8);
    assert_eq!(middle.count(), 1);
    assert!(middle.pos_y);
}

#[test]
fn neighbor_reads_adjacent_cells_and_dirt_floor() {
    let mut c = Chunk::new(0, 0, 0);
    c.set_voxel(5, 6, 7, Voxel::Wood);
    c.set_voxel(5, 7, 7, Voxel::Leaf);
    c.set_voxel(6, 6, 7, Voxel::Sand);
    c.set_voxel(5, 6, 6, Voxel::LeafRed);
    assert_eq!(c.get_neighbor(5, 6, 7, Direction::PosY), Voxel::Leaf);
    assert_eq!(c.get_neighbor(5, 6, 7, Direction::NegY), Voxel::Air);
    assert_eq!(c.get_neighbor(5, 6, 7, Direction::PosX), Voxel::Sand);
    assert_eq!(c.get_neighbor(5, 6, 7, Direction::NegX), Voxel::Air);
    assert_eq!(c.get_neighbor(5, 6, 7, Direction::PosZ), Voxel::Air);
    assert_eq!(c.get_neighbor(5, 6, 7, Direction::NegZ), Voxel::LeafRed);
    assert_eq!(c.get_neighbor(9, 1, 9, Direction::NegY), Voxel::Dirt);
    assert_eq!(c.get_neighbor(1, 1, 1, Direction::NegX), Voxel::Air);
    assert_eq!(c.get_neighbor(16, 16, 16, Direction::PosY), Voxel::Air);
}

#[test]
fn fill_layer_covers_inner_cells() {
    let mut c = Chunk::new(0, 0, 0);
    c.fill_layer(3, Voxel::Dirt);
    assert_eq!(c.voxel_at(1, 3, 1), Voxel::Dirt);
    assert_eq!(c.voxel_at(14, 3, 14), Voxel::Dirt);
    assert_eq!(c.voxel_at(15, 3, 1), Voxel::Air);
    assert_eq!(c.voxel_at(1, 3, 15), Voxel::Air);
    assert_eq!(c.voxel_at(1, 2, 1), Voxel::Air);
    assert_eq!(c.voxel_at(1, 4, 1), Voxel::Air);
    assert_eq!(c.voxel_at(0, 3, 0), Voxel::Air);
}

#[test]
fn voxel_colors() {
    assert_eq!(Voxel::Grass.color(), (144, 224, 72));
    assert_eq!(Voxel::Dirt.color(), (79, 48, 43));
    assert_eq!(Voxel::Wood.color(), (85, 51, 17));
    assert_eq!(Voxel::Leaf.color(), (252, 186, 3));
    assert_eq!(Voxel::LeafRed.color(), (223, 57, 8));
    assert_eq!(Voxel::LeafGreen.color(), (167, 159, 15));
    assert_eq!(Voxel::Sand.color(), (233, 225, 194));
    assert_eq!(Voxel::Air.color(), (0, 0, 0));
    assert!(Voxel::Air.is_air());
    assert!(!Voxel::Sand.is_air());
    assert_eq!(Voxel::leaf(0), Voxel::Leaf);
    assert_eq!(Voxel::leaf(1), Voxel::LeafGreen);
    assert_eq!(Voxel::leaf(2), Voxel::LeafRed);
}
