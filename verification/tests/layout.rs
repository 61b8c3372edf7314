use slingshot::layout::{
    generate_layout, named_offsets, PiecePlacement, TargetPlacement, ANCHOR_X, ANCHOR_Y,
    GROUND_HEIGHT, GROUND_WIDTH, GROUND_X, GROUND_Y, NOTE_FFMPEG, NOTE_GIT, NOTE_LINUX,
    NOTE_POSTGRES, REST_HEIGHT,
};
use slingshot::pieces::{BodyMode, Collider, Material, Rotation, Shape, TargetKind};
use slingshot::units::Point;

#[test]
fn level_has_its_pieces_and_targets() {
    let layout = generate_layout();
    assert_eq!(layout.pieces.len(), 44);
    assert_eq!(layout.targets.len(), 6);
}

#[test]
fn level_is_the_same_on_every_call() {
    assert_eq!(generate_layout(), generate_layout());
}

#[test]
fn level_starts_with_the_three_supports() {
    let layout = generate_layout();
    assert_eq!(
        layout.pieces[0],
        PiecePlacement {
            material: Material::Steel,
            shape: Shape::ShortBeam,
            pos: Point::new(420_000, -233_500),
            rotation: Rotation::Upright,
            annotation: Some(NOTE_FFMPEG),
        }
    );
    assert_eq!(layout.pieces[1].pos, Point::new(300_000, -233_500));
    assert_eq!(
        layout.pieces[2],
        PiecePlacement {
            material: Material::Steel,
            shape: Shape::SquareLarge,
            pos: Point::new(180_000, -234_000),
            rotation: Rotation::Level,
            annotation: Some(NOTE_LINUX),
        }
    );
}

#[test]
fn level_positions_follow_the_named_heights() {
    let layout = generate_layout();
    let o = named_offsets();
    assert_eq!(o.ground_top, -275_000);
    assert_eq!(o.floor_y, -182_000);
    assert_eq!(o.tower_base_y, -69_000);
    assert_eq!(layout.pieces[3].pos, Point::new(220_000, o.floor_y));
    assert_eq!(layout.pieces[4].pos, Point::new(380_000, o.floor_y));
    assert_eq!(layout.pieces[10].pos, Point::new(213_000, -79_000));
    assert_eq!(layout.pieces[11].pos, Point::new(385_000, -79_000));
    assert_eq!(layout.pieces[16].pos, Point::new(o.left_tower_x, o.left_roof_y));
    assert_eq!(layout.pieces[18].pos, Point::new(o.ledge_x, o.ledge_y));
    assert_eq!(layout.pieces[28].pos, Point::new(-160_500, 363_000));
    assert_eq!(layout.pieces[28].annotation, Some(NOTE_POSTGRES));
    assert_eq!(layout.pieces[34].pos, Point::new(400_000, 24_000));
    assert_eq!(layout.pieces[37].pos, Point::new(400_000, 211_000));
    assert_eq!(layout.pieces[41].pos, Point::new(400_000, 314_000));
    assert_eq!(layout.pieces[43].pos, Point::new(425_000, 339_000));
}

#[test]
fn level_ledge_stands_where_it_should() {
    let layout = generate_layout();
    assert_eq!(layout.pieces[17].pos, Point::new(160_000, 159_500));
    assert_eq!(layout.pieces[17].annotation, Some(NOTE_GIT));
    assert_eq!(layout.pieces[19].pos, Point::new(88_500, 261_500));
    assert_eq!(layout.pieces[20].pos, Point::new(88_500, 191_000));
    assert_eq!(layout.pieces[21].pos, Point::new(231_500, 261_500));
    assert_eq!(layout.pieces[22].pos, Point::new(68_500, 312_000));
    assert_eq!(layout.pieces[24].pos, Point::new(-94_500, 312_000));
    assert_eq!(layout.pieces[30].pos, Point::new(-246_500, 489_000));
    assert_eq!(layout.pieces[31].pos, Point::new(-74_500, 489_000));
}

#[test]
fn level_targets_in_order() {
    let layout = generate_layout();
    let expected = vec![
        TargetPlacement { kind: TargetKind::BombBird, pos: Point::new(210_000, 74_000) },
        TargetPlacement { kind: TargetKind::King, pos: Point::new(79_000, 392_000) },
        TargetPlacement { kind: TargetKind::King, pos: Point::new(-160_500, 489_000) },
        TargetPlacement { kind: TargetKind::TriangleBird, pos: Point::new(400_000, -46_000) },
        TargetPlacement { kind: TargetKind::BlueBird, pos: Point::new(400_000, 57_000) },
        TargetPlacement { kind: TargetKind::King, pos: Point::new(400_000, 415_500) },
    ];
    assert_eq!(layout.targets, expected);
}

#[test]
fn level_counts_by_material() {
    let layout = generate_layout();
    let count = |m: Material| layout.pieces.iter().filter(|p| p.material == m).count();
    assert_eq!(count(Material::Steel), 8);
    assert_eq!(count(Material::Invisible), 11);
    assert_eq!(count(Material::Wood), 25);
}

#[test]
fn level_annotates_steel_and_nothing_else() {
    for piece in generate_layout().pieces {
        assert_eq!(piece.annotation.is_some(), piece.material == Material::Steel);
    }
}

#[test]
fn ground_and_anchor() {
    assert_eq!((GROUND_X, GROUND_Y), (0, -300_000));
    assert_eq!((GROUND_WIDTH, GROUND_HEIGHT), (1_000_000, 50_000));
    assert_eq!(named_offsets().ground_top, GROUND_Y + GROUND_HEIGHT / 2);
    assert_eq!((ANCHOR_X, ANCHOR_Y, REST_HEIGHT), (-300_000, -220_000, 100_000));
}

#[test]
fn shape_colliders() {
    assert_eq!(Shape::SquareLarge.collider(), Collider::Rectangle { width: 82_000, height: 82_000 });
    assert_eq!(Shape::SquareMedium.collider(), Collider::Rectangle { width: 41_000, height: 41_000 });
    assert_eq!(Shape::SquareSmall.collider(), Collider::Rectangle { width: 20_000, height: 20_000 });
    assert_eq!(Shape::LongBeam.collider(), Collider::Rectangle { width: 167_000, height: 20_000 });
    assert_eq!(Shape::ShortBeam.collider(), Collider::Rectangle { width: 83_000, height: 41_000 });
    assert_eq!(
        Shape::Triangle.collider(),
        Collider::Triangle {
            a: Point::new(0, 41_000),
            b: Point::new(-41_000, -41_000),
            c: Point::new(41_000, -41_000),
        }
    );
}

#[test]
fn target_colliders() {
    assert_eq!(TargetKind::King.collider(), Collider::Circle { radius: 70_000 });
    assert_eq!(TargetKind::Normal.collider(), Collider::Circle { radius: 23_000 });
    assert_eq!(TargetKind::RedBird.collider(), Collider::Circle { radius: 22_000 });
    assert_eq!(TargetKind::BombBird.collider(), Collider::Circle { radius: 42_000 });
    assert_eq!(TargetKind::BlueBird.collider(), Collider::Circle { radius: 22_000 });
    assert_eq!(
        TargetKind::EggBird.collider(),
        Collider::Capsule { radius: 40_000, length: 60_000 }
    );
    assert_eq!(
        TargetKind::TriangleBird.collider(),
        Collider::Triangle {
            a: Point::new(0, 39_000),
            b: Point::new(-39_000, -39_000),
            c: Point::new(39_000, -39_000),
        }
    );
}

#[test]
fn every_target_falls() {
    let kinds = [
        TargetKind::King,
        TargetKind::Normal,
        TargetKind::RedBird,
        TargetKind::BombBird,
        TargetKind::TriangleBird,
        TargetKind::EggBird,
        TargetKind::BlueBird,
    ];
    for kind in kinds {
        assert_eq!(kind.body_mode(), BodyMode::Dynamic);
    }
}

#[test]
fn only_invisible_supports_are_fixed() {
    assert_eq!(Material::Invisible.body_mode(), BodyMode::Static);
    assert_eq!(Material::Wood.body_mode(), BodyMode::Dynamic);
    assert_eq!(Material::Steel.body_mode(), BodyMode::Dynamic);
}

#[test]
fn named_heights_and_columns() {
    let o = named_offsets();
    assert_eq!(
        (o.center_x, o.left_tower_x, o.ledge_x, o.outpost_x, o.right_tower_x),
        (300_000, 210_000, 160_000, -160_500, 400_000)
    );
    assert_eq!(
        (o.ground_top, o.floor_y, o.post_y, o.deck_y, o.tower_base_y),
        (-275_000, -182_000, -130_500, -79_000, -69_000)
    );
    assert_eq!((o.left_roof_y, o.ledge_y, o.upper_row_y), (108_000, 211_000, 312_000));
    assert_eq!(
        (o.first_ceiling_y, o.second_ceiling_y, o.third_ceiling_y),
        (24_000, 211_000, 314_000)
    );
}
