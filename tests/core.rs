use zombie_shooter::direction::{normalize_degrees, orientation_from_degrees};
use zombie_shooter::isometric::{can_move_to_tile, coords_to_tile, tile_to_coords, Position, TileAddress};
use zombie_shooter::orientation::{Orientation, Stance};
use zombie_shooter::terrain::{
    build_terrain_indices, MeshError, TerrainDrawable, TileMapData, TerrainDrawSystem,
};
use zombie_shooter::terrain_shape::TerrainShapeObjects;
use zombie_shooter::zombie::{CritterData, ZombieDrawSystem, ZombieDrawable, ZombieSprite};

#[test]
fn tile_to_coords_test() {
    assert_eq!(Position::new(0, -1500), tile_to_coords(TileAddress::new(0, 0)), "tile_to_coords_test");
}

#[test]
fn tile_round_trip_over_grid() {
    for c in 0..100 {
        for r in 0..100 {
            let t = TileAddress::new(c, r);
            assert_eq!(coords_to_tile(tile_to_coords(t)), t);
        }
    }
}

#[test]
fn tile_to_coords_shear() {
    assert_eq!(tile_to_coords(TileAddress::new(1, 0)), Position::new(30, -1485));
    assert_eq!(tile_to_coords(TileAddress::new(0, 1)), Position::new(-30, -1485));
    assert_eq!(tile_to_coords(TileAddress::new(3, 2)), Position::new(30, -1425));
}

#[test]
fn coords_to_tile_inside_diamond() {
    // a point just short of the right corner of tile (0, 0)
    assert_eq!(coords_to_tile(Position::new(29, -1500)), TileAddress::new(0, 0));
    // past it, into the neighbouring tiles
    assert_eq!(coords_to_tile(Position::new(31, -1500)), TileAddress::new(1, -1));
    assert_eq!(coords_to_tile(Position::new(0, -1484)), TileAddress::new(1, 1));
}

#[test]
fn can_move_only_inside_grid() {
    assert!(can_move_to_tile(Position::new(0, -1500)));
    assert!(!can_move_to_tile(Position::new(0, -1530)));
    assert!(can_move_to_tile(tile_to_coords(TileAddress::new(99, 99))));
    assert!(!can_move_to_tile(tile_to_coords(TileAddress::new(100, 99))));
}

#[test]
fn terrain_drawable_moves_or_collides() {
    let mut t = TerrainDrawable::new();
    assert_eq!(t.position, Position::origin());
    let inside = tile_to_coords(TileAddress::new(4, 7));
    assert!(!t.update(inside));
    assert_eq!(t.position, inside);
    assert_eq!(t.tile_position, TileAddress::new(4, 7));
    let before = t;
    assert!(t.update(Position::new(0, -5000)));
    assert_eq!(t, before);
}

#[test]
fn normalize_degrees_into_full_turn() {
    assert_eq!(normalize_degrees(0), 0);
    assert_eq!(normalize_degrees(90), 90);
    assert_eq!(normalize_degrees(26), 26);
    assert_eq!(normalize_degrees(-135), 225);
    assert_eq!(normalize_degrees(-45), 315);
    assert_eq!(normalize_degrees(180), 180);
    assert_eq!(normalize_degrees(360), 0);
    assert_eq!(normalize_degrees(-360), 0);
}

#[test]
fn orientation_buckets() {
    assert_eq!(orientation_from_degrees(0), Orientation::Right);
    assert_eq!(orientation_from_degrees(22), Orientation::Right);
    assert_eq!(orientation_from_degrees(23), Orientation::UpRight);
    assert_eq!(orientation_from_degrees(45), Orientation::UpRight);
    assert_eq!(orientation_from_degrees(90), Orientation::Up);
    assert_eq!(orientation_from_degrees(135), Orientation::UpLeft);
    assert_eq!(orientation_from_degrees(180), Orientation::Left);
    assert_eq!(orientation_from_degrees(225), Orientation::DownLeft);
    assert_eq!(orientation_from_degrees(270), Orientation::Down);
    assert_eq!(orientation_from_degrees(315), Orientation::DownRight);
    assert_eq!(orientation_from_degrees(337), Orientation::DownRight);
    assert_eq!(orientation_from_degrees(338), Orientation::Right);
}

#[test]
fn orientation_ordinals_are_stable() {
    assert_eq!(Orientation::Up.ordinal(), 0);
    assert_eq!(Orientation::Right.ordinal(), 2);
    assert_eq!(Orientation::Left.ordinal(), 6);
    assert_eq!(Orientation::UpLeft.ordinal(), 7);
    assert_eq!(Orientation::Still.ordinal(), 8);
}

#[test]
fn mesh_of_one_tile() {
    assert_eq!(build_terrain_indices(1, 1), Ok(vec![0, 1, 3, 3, 2, 0]));
}

#[test]
fn mesh_of_two_by_one() {
    assert_eq!(
        build_terrain_indices(2, 1),
        Ok(vec![0, 1, 4, 4, 3, 0, 1, 2, 5, 5, 4, 1])
    );
}

#[test]
fn mesh_counts_and_rebuild() {
    let a = build_terrain_indices(100, 100).unwrap();
    let b = build_terrain_indices(100, 100).unwrap();
    assert_eq!(a.len(), 6 * 100 * 100);
    assert_eq!(a, b);
    assert!(a.iter().all(|&i| (i as usize) < 101 * 101));
    assert_eq!(*a.iter().max().unwrap() as usize, 101 * 101 - 1);
}

#[test]
fn mesh_errors() {
    assert_eq!(build_terrain_indices(0, 4), Err(MeshError::EmptyGrid));
    assert_eq!(build_terrain_indices(4, 0), Err(MeshError::EmptyGrid));
    assert_eq!(build_terrain_indices(256, 256), Err(MeshError::GridTooLarge));
    assert!(build_terrain_indices(255, 255).is_ok());
    assert!(build_terrain_indices(65535, 0).is_err());
}

#[test]
fn tile_map_defaults() {
    assert_eq!(TileMapData::new_empty().data, [32, 32, 0, 0]);
    assert_eq!(TileMapData::new([1, 2, 3, 4]).data, [1, 2, 3, 4]);
}

#[test]
fn tile_map_settings_upload_once() {
    let mut u = TerrainDrawSystem::new();
    let s = u.draw().unwrap();
    assert_eq!((s.world_w, s.world_h, s.tilesheet_w, s.tilesheet_h), (100, 100, 32, 32));
    assert!(u.draw().is_none());
    u.mark_dirty();
    assert!(u.draw().is_some());
    assert!(u.draw().is_none());
}

#[test]
fn terrain_shape_objects() {
    let o = TerrainShapeObjects::new();
    assert_eq!(o.objects.len(), 1);
    assert_eq!(o.objects[0].position, Position::new(-15, 234));
}

fn atlas() -> ZombieDrawSystem {
    let mut data = Vec::new();
    for i in 0..200u32 {
        data.push(CritterData { x: i, y: 0, width: 50 + (i % 3), height: 70 });
    }
    ZombieDrawSystem::new(data, 5200)
}

const Z: ZombieSprite = ZombieSprite { zombie_idx: 1, zombie_death_idx: 2 };

#[test]
fn still_actor_shows_idle_frame_of_committed_facing() {
    let a = atlas();
    let d = ZombieDrawable { orientation: Orientation::Still, direction: Orientation::Left, stance: Stance::Still };
    let f = a.get_next_sprite(&Z, &d);
    assert_eq!(f.index, 6 * 4 + 1);
    assert_eq!(f.y_div, 1);
    assert_eq!(f.row_idx, 2);
    assert_eq!(f.sheet_width, 5200);
    assert_eq!(f.frame_span, (50 + 25 % 3 + 2) as u64);
    let moving = ZombieDrawable { orientation: Orientation::Up, ..d };
    assert_eq!(a.get_next_sprite(&Z, &moving).index, 25);
}

#[test]
fn walking_frames() {
    let a = atlas();
    let mut d = ZombieDrawable::new();
    d.stance = Stance::Walking;
    d.set_orientation(Orientation::Right);
    assert_eq!(d.direction, Orientation::Right);
    assert_eq!(a.get_next_sprite(&Z, &d).index, 2 * 8 + 1 + 32);
}

#[test]
fn stopping_keeps_last_facing() {
    let a = atlas();
    let mut d = ZombieDrawable::new();
    d.stance = Stance::Walking;
    d.set_orientation(Orientation::Down);
    d.set_orientation(Orientation::Still);
    assert_eq!(d.direction, Orientation::Down);
    assert_eq!(d.orientation, Orientation::Still);
    assert_eq!(a.get_next_sprite(&Z, &d).index, 4 * 4 + 1);
    d.set_orientation(Orientation::Still);
    assert_eq!(d.direction, Orientation::Down);
}

#[test]
fn death_frames() {
    let a = atlas();
    let normal = ZombieDrawable { orientation: Orientation::Left, direction: Orientation::Left, stance: Stance::NormalDeath };
    let f = a.get_next_sprite(&Z, &normal);
    assert_eq!(f.index, 6 * 6 + 2 + 64);
    assert_eq!(f.y_div, 0);
    let critical = ZombieDrawable { stance: Stance::CriticalDeath, ..normal };
    let g = a.get_next_sprite(&Z, &critical);
    assert_eq!(g.index, 6 * 8 + 2);
    assert_eq!(g.y_div, 0);
}

#[test]
fn hit_picks_one_death_stance() {
    let mut d = ZombieDrawable::new();
    d.update(&vec![false, false], true);
    assert_eq!(d.stance, Stance::Still);
    d.update(&vec![false, true, true], true);
    assert_eq!(d.stance, Stance::NormalDeath);
    let mut e = ZombieDrawable::new();
    e.update(&vec![true], false);
    assert_eq!(e.stance, Stance::CriticalDeath);
    assert_eq!(e.direction, Orientation::Left);
}

#[test]
fn death_is_terminal() {
    let mut d = ZombieDrawable::new();
    d.update(&vec![true], false);
    assert_eq!(d.stance, Stance::CriticalDeath);
    d.update(&vec![true, true], true);
    assert_eq!(d.stance, Stance::CriticalDeath);
    assert!(d.stance.is_dead());
    assert!(!Stance::Walking.is_dead());
}

#[test]
fn pre_draw_systems() {
    let _ = zombie_shooter::zombie::PreDrawSystem::new();
    let _ = zombie_shooter::terrain::PreDrawSystem;
}

#[test]
fn frame_lookup_past_table_end() {
    let small = ZombieDrawSystem::new(vec![CritterData { x: 0, y: 0, width: 48, height: 70 }; 30], 4800);
    let d = ZombieDrawable::new();
    // idle, facing left: 6 * 4 + 1 = 25 lies in the table
    let f = small.try_next_sprite(&Z, &d).unwrap();
    assert_eq!(f.index, 25);
    assert_eq!(f.frame_span, 50);
    let mut w = d;
    w.stance = Stance::Walking;
    // walking left: 6 * 8 + 1 + 32 = 81 does not
    assert_eq!(small.try_next_sprite(&Z, &w), None);
    let huge = ZombieSprite { zombie_idx: usize::MAX, zombie_death_idx: usize::MAX };
    assert_eq!(small.try_next_sprite(&huge, &w), None);
}
