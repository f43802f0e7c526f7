use cube_scene::scene::{
    setup, Ambient, Body, Facing, Point, Rgb, Spawn, Surface, Tag, CUBE_SECONDS_PER_TURN,
    TENTHS_PER_UNIT,
};

const ORIGIN: Point = Point { x: 0, y: 0, z: 0 };
const WHITE: Rgb = Rgb { red: 255, green: 255, blue: 255 };

fn units(tenths: i32) -> f32 {
    tenths as f32 / f32::from(TENTHS_PER_UNIT)
}

fn tagged(objects: &[Spawn], tag: Tag) -> Vec<usize> {
    let mut found = Vec::new();
    for (at, object) in objects.iter().enumerate() {
        if object.tag == Some(tag) {
            found.push(at);
        }
    }
    found
}

#[test]
fn scene_has_four_objects() {
    assert_eq!(setup().objects.len(), 4);
}

#[test]
fn scene_has_exactly_one_cube() {
    assert_eq!(tagged(&setup().objects, Tag::Cube), vec![0]);
}

#[test]
fn scene_has_exactly_one_camera() {
    assert_eq!(tagged(&setup().objects, Tag::Camera), vec![3]);
}

#[test]
fn cube_is_a_red_unit_block_turned_by_45_degrees() {
    let cube = setup().objects[0];
    assert_eq!(
        cube,
        Spawn {
            tag: Some(Tag::Cube),
            body: Body::Block {
                width: 10,
                height: 10,
                depth: 10,
                surface: Surface::Plain { colour: Rgb { red: 255, green: 0, blue: 0 } },
            },
            position: ORIGIN,
            facing: Facing::Yaw { degrees: 45 },
        }
    );
}

#[test]
fn platform_is_wide_flat_textured_and_below_the_origin() {
    let platform = setup().objects[1];
    assert_eq!(
        platform,
        Spawn {
            tag: None,
            body: Body::Block {
                width: 500,
                height: 2,
                depth: 500,
                surface: Surface::Textured { tint: WHITE, roughness: 10, reflectance: 2 },
            },
            position: Point { x: 0, y: -8, z: 0 },
            facing: Facing::Yaw { degrees: 0 },
        }
    );
}

#[test]
fn sun_casts_shadows_and_aims_at_the_origin() {
    let sun = setup().objects[2];
    assert_eq!(
        sun,
        Spawn {
            tag: None,
            body: Body::Sun { shadows: true },
            position: Point { x: -50, y: 50, z: -50 },
            facing: Facing::Towards { target: ORIGIN },
        }
    );
}

#[test]
fn camera_stands_off_axis_and_aims_at_the_origin() {
    let camera = setup().objects[3];
    assert_eq!(
        camera,
        Spawn {
            tag: Some(Tag::Camera),
            body: Body::Viewpoint,
            position: Point { x: -50, y: 0, z: 0 },
            facing: Facing::Towards { target: ORIGIN },
        }
    );
}

#[test]
fn ambient_light_is_white_at_brightness_100() {
    assert_eq!(setup().ambient, Ambient { colour: WHITE, brightness: 100 });
}

#[test]
fn setup_gives_the_same_scene_each_time() {
    assert_eq!(setup(), setup());
}

#[test]
fn tenths_give_the_exact_lengths() {
    assert_eq!(TENTHS_PER_UNIT, 10);
    assert_eq!(units(-8), -0.8);
    assert_eq!(units(2), 0.2);
    assert_eq!(units(10), 1.0);
    assert_eq!(units(500), 50.0);
    assert_eq!(units(-50), -5.0);
}

#[test]
fn cube_turns_a_fifth_of_a_turn_per_second() {
    assert_eq!(CUBE_SECONDS_PER_TURN, 5);
    let turns_per_second = 1.0 / f32::from(CUBE_SECONDS_PER_TURN);
    assert_eq!(turns_per_second, 0.2f32);
    let elapsed: f32 = 0.016;
    assert_eq!(
        turns_per_second * std::f32::consts::TAU * elapsed,
        0.2 * std::f32::consts::TAU * elapsed
    );
}

#[test]
fn cube_turns_once_in_five_seconds() {
    let turns_per_second = 1.0 / f32::from(CUBE_SECONDS_PER_TURN);
    let yaw = turns_per_second * std::f32::consts::TAU * 5.0;
    assert!((yaw - std::f32::consts::TAU).abs() < 1e-5);
}
