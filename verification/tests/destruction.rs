use slingshot::destruction::{
    TargetContact, STEEL_THRESHOLD, SUPPORT_THRESHOLD, TARGET_THRESHOLD, WOOD_THRESHOLD,
};
use slingshot::layout::{generate_layout, Layout, PiecePlacement, TargetPlacement};
use slingshot::pieces::{Material, Rotation, Shape, TargetKind};
use slingshot::units::{Point, Velocity};
use slingshot::world::World;

fn piece(material: Material, y: i32) -> PiecePlacement {
    PiecePlacement {
        material,
        shape: Shape::SquareLarge,
        pos: Point::new(0, y),
        rotation: Rotation::Level,
        annotation: None,
    }
}

fn world_of(materials: &[Material]) -> World {
    let mut pieces = Vec::new();
    for (i, m) in materials.iter().enumerate() {
        pieces.push(piece(*m, 82_000 * i as i32));
    }
    let targets = vec![
        TargetPlacement { kind: TargetKind::Normal, pos: Point::new(100_000, 0) },
        TargetPlacement { kind: TargetKind::King, pos: Point::new(200_000, 0) },
    ];
    let mut world = World::instantiate(&Layout { pieces, targets });
    world.spawn_projectile();
    world
}

fn alive(world: &World) -> Vec<bool> {
    world.pieces.iter().map(|p| p.alive).collect()
}

#[test]
fn thresholds() {
    assert_eq!(STEEL_THRESHOLD, 800_000);
    assert_eq!(WOOD_THRESHOLD, 600_000);
    assert_eq!(SUPPORT_THRESHOLD, 600_000);
    assert_eq!(TARGET_THRESHOLD, 600_000);
    assert_eq!(Material::Steel.threshold(), 800_000);
    assert_eq!(Material::Wood.threshold(), 600_000);
    assert_eq!(Material::Invisible.threshold(), 600_000);
}

#[test]
fn steel_on_both_sides_of_its_threshold() {
    let mut world = world_of(&[Material::Steel]);
    assert_eq!(world.destroy_pieces(Velocity::new(799_900, 0), &vec![0]), Vec::<usize>::new());
    assert_eq!(world.destroy_pieces(Velocity::new(800_000, 0), &vec![0]), Vec::<usize>::new());
    assert_eq!(alive(&world), vec![true]);
    assert_eq!(world.destroy_pieces(Velocity::new(800_100, 0), &vec![0]), vec![0]);
    assert_eq!(alive(&world), vec![false]);
}

#[test]
fn wood_on_both_sides_of_its_threshold() {
    let mut world = world_of(&[Material::Wood]);
    assert_eq!(world.destroy_pieces(Velocity::new(0, -599_900), &vec![0]), Vec::<usize>::new());
    assert_eq!(world.destroy_pieces(Velocity::new(0, -600_000), &vec![0]), Vec::<usize>::new());
    assert_eq!(world.destroy_pieces(Velocity::new(0, -600_100), &vec![0]), vec![0]);
    assert_eq!(alive(&world), vec![false]);
}

#[test]
fn support_on_both_sides_of_its_threshold() {
    let mut world = world_of(&[Material::Invisible, Material::Invisible]);
    assert_eq!(world.destroy_pieces(Velocity::new(599_900, 0), &vec![1]), Vec::<usize>::new());
    assert_eq!(world.destroy_pieces(Velocity::new(600_100, 0), &vec![1]), vec![0, 1]);
    assert_eq!(alive(&world), vec![false, false]);
}

#[test]
fn speed_is_the_length_of_the_velocity() {
    let mut world = world_of(&[Material::Steel]);
    assert_eq!(world.destroy_pieces(Velocity::new(480_000, -640_000), &vec![0]), Vec::<usize>::new());
    assert_eq!(world.destroy_pieces(Velocity::new(480_001, -640_000), &vec![0]), vec![0]);
}

#[test]
fn only_what_is_touched_breaks() {
    let mut world = world_of(&[Material::Wood, Material::Wood, Material::Steel]);
    assert_eq!(world.destroy_pieces(Velocity::new(900_000, 0), &vec![1]), vec![1]);
    assert_eq!(alive(&world), vec![true, false, true]);
    assert_eq!(world.destroy_pieces(Velocity::new(900_000, 0), &vec![]), Vec::<usize>::new());
    assert_eq!(alive(&world), vec![true, false, true]);
}

#[test]
fn removed_indices_rise_whatever_the_order_of_hits() {
    let mut world = world_of(&[Material::Wood, Material::Steel, Material::Wood, Material::Wood]);
    assert_eq!(world.destroy_pieces(Velocity::new(700_000, 0), &vec![3, 1, 0, 3, 0]), vec![0, 3]);
    assert_eq!(alive(&world), vec![false, true, true, false]);
}

#[test]
fn any_removal_sweeps_every_support() {
    let materials = [
        Material::Invisible,
        Material::Wood,
        Material::Invisible,
        Material::Steel,
        Material::Invisible,
    ];
    for hit in [1usize, 3, 0, 2, 4] {
        let mut world = world_of(&materials);
        let removed = world.destroy_pieces(Velocity::new(850_000, 0), &vec![hit]);
        let mut expected = vec![0, 2, 4];
        if !expected.contains(&hit) {
            expected.push(hit);
            expected.sort();
        }
        assert_eq!(removed, expected);
        for piece in &world.pieces {
            assert!(!(piece.alive && piece.placement.material == Material::Invisible));
        }
    }
}

#[test]
fn no_removal_no_sweep() {
    let mut world = world_of(&[Material::Invisible, Material::Steel, Material::Wood]);
    let before = world.clone();
    assert_eq!(world.destroy_pieces(Velocity::new(700_000, 0), &vec![1]), Vec::<usize>::new());
    assert_eq!(world.destroy_pieces(Velocity::new(500_000, 0), &vec![0, 1, 2]), Vec::<usize>::new());
    assert_eq!(world, before);
}

#[test]
fn stale_indices_count_for_nothing() {
    let mut world = world_of(&[Material::Wood, Material::Invisible]);
    let before = world.clone();
    assert_eq!(world.destroy_pieces(Velocity::new(900_000, 0), &vec![2, 77, usize::MAX]), Vec::<usize>::new());
    assert_eq!(world, before);
    assert_eq!(world.destroy_pieces(Velocity::new(900_000, 0), &vec![0]), vec![0, 1]);
    let after = world.clone();
    assert_eq!(world.destroy_pieces(Velocity::new(900_000, 0), &vec![0, 1]), Vec::<usize>::new());
    assert_eq!(world, after);
}

#[test]
fn nothing_breaks_without_a_projectile() {
    let mut world = world_of(&[Material::Wood]);
    world.projectile = None;
    let before = world.clone();
    assert_eq!(world.destroy_pieces(Velocity::new(900_000, 0), &vec![0]), Vec::<usize>::new());
    assert_eq!(world, before);
}

#[test]
fn each_frame_is_judged_on_its_own() {
    let mut world = world_of(&[Material::Steel]);
    for _ in 0..5 {
        assert_eq!(world.destroy_pieces(Velocity::new(790_000, 0), &vec![0]), Vec::<usize>::new());
    }
    assert_eq!(world.destroy_pieces(Velocity::new(810_000, 0), &vec![0]), vec![0]);
}

#[test]
fn wood_goes_at_650_and_steel_at_850() {
    let mut world = world_of(&[Material::Steel, Material::Wood]);
    let start = Point::new(-300_000, -120_000);
    assert!(world.press(start));
    // A pull of 43.4 units gives a speed of 651 units a second.
    let thrown = world.release(Point::new(-343_400, -120_000)).unwrap();
    assert_eq!(thrown, Velocity::new(651_000, 0));
    assert_eq!(world.destroy_pieces(thrown, &vec![0, 1]), vec![1]);
    assert_eq!(alive(&world), vec![true, false]);

    world.spawn_projectile();
    assert!(world.press(start));
    let thrown = world.release(Point::new(-356_700, -120_000)).unwrap();
    assert_eq!(thrown, Velocity::new(850_500, 0));
    assert_eq!(world.destroy_pieces(thrown, &vec![0, 1]), vec![0]);
    assert_eq!(alive(&world), vec![false, false]);
}

#[test]
fn exactly_650_and_exactly_850() {
    let mut world = world_of(&[Material::Steel, Material::Wood]);
    assert_eq!(world.destroy_pieces(Velocity::new(650_000, 0), &vec![0, 1]), vec![1]);
    assert_eq!(alive(&world), vec![true, false]);
    assert_eq!(world.destroy_pieces(Velocity::new(850_000, 0), &vec![0, 1]), vec![0]);
    assert_eq!(alive(&world), vec![false, false]);
}

#[test]
fn target_on_both_sides_of_its_threshold() {
    let mut world = world_of(&[Material::Wood]);
    let slow = TargetContact { target: 0, velocity: Velocity::new(599_900, 0), colliding: true };
    let edge = TargetContact { target: 0, velocity: Velocity::new(0, 600_000), colliding: true };
    let fast = TargetContact { target: 0, velocity: Velocity::new(600_100, 0), colliding: true };
    assert_eq!(world.destroy_targets(&vec![slow]), Vec::<usize>::new());
    assert_eq!(world.destroy_targets(&vec![edge]), Vec::<usize>::new());
    assert!(world.targets[0].alive);
    assert_eq!(world.destroy_targets(&vec![fast]), vec![0]);
    assert!(!world.targets[0].alive);
    assert!(world.targets[1].alive);
}

#[test]
fn a_fast_target_that_touches_nothing_stays() {
    let mut world = world_of(&[Material::Wood]);
    let before = world.clone();
    let flying = TargetContact { target: 1, velocity: Velocity::new(900_000, 0), colliding: false };
    assert_eq!(world.destroy_targets(&vec![flying]), Vec::<usize>::new());
    assert_eq!(world, before);
}

#[test]
fn targets_burst_without_a_projectile_too() {
    let mut world = world_of(&[Material::Wood]);
    world.projectile = None;
    let flung = TargetContact { target: 1, velocity: Velocity::new(-700_000, 0), colliding: true };
    assert_eq!(world.destroy_targets(&vec![flung]), vec![1]);
}

#[test]
fn target_reports_in_any_order() {
    let mut world = world_of(&[Material::Wood]);
    let reports = vec![
        TargetContact { target: 1, velocity: Velocity::new(0, 0), colliding: true },
        TargetContact { target: 5, velocity: Velocity::new(900_000, 0), colliding: true },
        TargetContact { target: 1, velocity: Velocity::new(0, 700_000), colliding: true },
        TargetContact { target: 0, velocity: Velocity::new(700_000, 0), colliding: true },
    ];
    assert_eq!(world.destroy_targets(&reports), vec![0, 1]);
    let after = world.clone();
    assert_eq!(world.destroy_targets(&reports), Vec::<usize>::new());
    assert_eq!(world, after);
}

#[test]
fn destruction_leaves_placements_alone() {
    let mut world = World::instantiate(&generate_layout());
    world.spawn_projectile();
    let hits: Vec<usize> = (0..44).collect();
    let removed = world.destroy_pieces(Velocity::new(700_000, 0), &hits);
    assert_eq!(removed.len(), 36);
    let layout = generate_layout();
    for (i, piece) in world.pieces.iter().enumerate() {
        assert_eq!(piece.placement, layout.pieces[i]);
        assert_eq!(piece.alive, piece.placement.material == Material::Steel);
    }
}
