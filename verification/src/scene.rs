//! The scene at startup: what stands where before the first frame.
//!
//! Lengths and positions are counted in tenths of a world unit, angles in
//! whole degrees, so that every number of the scene is an exact integer.

use vstd::prelude::*;

verus! {

/// How many tenths make one world unit.
pub const TENTHS_PER_UNIT: u16 = 10;

/// The cube turns about the vertical axis at a steady rate: one full turn in
/// this many seconds.
pub const CUBE_SECONDS_PER_TURN: u16 = 5;

/// The mark by which a frame's update finds the object it moves.
#[derive(Clone, Copy, Debug, PartialEq, Eq, Structural)]
pub enum Tag {
    Cube,
    Camera,
}

/// A point of the world, in tenths of a unit.
#[derive(Clone, Copy, Debug, PartialEq, Eq, Structural)]
pub struct Point {
    pub x: i32,
    pub y: i32,
    pub z: i32,
}

/// Where an object faces. The world's Y axis is up.
#[derive(Clone, Copy, Debug, PartialEq, Eq)]
pub enum Facing {
    /// Turned about the vertical axis by this many degrees.
    Yaw { degrees: i32 },
    /// Looking from its position at `target`.
    Towards { target: Point },
}

/// A colour by its red, green and blue parts.
#[derive(Clone, Copy, Debug, PartialEq, Eq, Structural)]
pub struct Rgb {
    pub red: u8,
    pub green: u8,
    pub blue: u8,
}

/// What a block is made of.
#[derive(Clone, Copy, Debug, PartialEq, Eq)]
pub enum Surface {
    /// One colour all over.
    Plain { colour: Rgb },
    /// The ground texture under a tint; roughness and reflectance in tenths.
    Textured { tint: Rgb, roughness: u16, reflectance: u16 },
}

/// What kind of thing an object is.
#[derive(Clone, Copy, Debug, PartialEq, Eq)]
pub enum Body {
    /// A box; its sides in tenths of a unit.
    Block { width: u32, height: u32, depth: u32, surface: Surface },
    /// A light that shines in one direction over the whole scene.
    Sun { shadows: bool },
    /// The point from which the scene is seen.
    Viewpoint,
}

/// One object to create at startup.
#[derive(Clone, Copy, Debug, PartialEq, Eq)]
pub struct Spawn {
    pub tag: Option<Tag>,
    pub body: Body,
    pub position: Point,
    pub facing: Facing,
}

/// The even light that fills the scene from all sides.
#[derive(Clone, Copy, Debug, PartialEq, Eq)]
pub struct Ambient {
    pub colour: Rgb,
    pub brightness: u32,
}

/// Everything that startup creates.
#[derive(Clone, Debug, PartialEq, Eq)]
pub struct Scene {
    /// The objects, in the order in which they are created.
    pub objects: Vec<Spawn>,
    pub ambient: Ambient,
}

/// The centre of the world.
pub open spec fn spec_origin() -> Point {
    Point { x: 0, y: 0, z: 0 }
}

pub open spec fn spec_white() -> Rgb {
    Rgb { red: 255, green: 255, blue: 255 }
}

/// The red unit cube at the origin, turned by an eighth of a turn.
pub open spec fn spec_cube() -> Spawn {
    Spawn {
        tag: Some(Tag::Cube),
        body: Body::Block {
            width: 10,
            height: 10,
            depth: 10,
            surface: Surface::Plain { colour: Rgb { red: 255, green: 0, blue: 0 } },
        },
        position: spec_origin(),
        facing: Facing::Yaw { degrees: 45 },
    }
}

/// The platform: fifty units square and a fifth of a unit thick, its centre
/// eight tenths below the origin, textured, fully rough and barely glossy.
pub open spec fn spec_platform() -> Spawn {
    Spawn {
        tag: None,
        body: Body::Block {
            width: 500,
            height: 2,
            depth: 500,
            surface: Surface::Textured { tint: spec_white(), roughness: 10, reflectance: 2 },
        },
        position: Point { x: 0, y: -8i32, z: 0 },
        facing: Facing::Yaw { degrees: 0 },
    }
}

/// The light: above and behind the origin, aimed at it, casting shadows.
pub open spec fn spec_sun() -> Spawn {
    Spawn {
        tag: None,
        body: Body::Sun { shadows: true },
        position: Point { x: -50i32, y: 50, z: -50i32 },
        facing: Facing::Towards { target: spec_origin() },
    }
}

/// The camera: five units from the origin on the negative X axis, aimed at it.
pub open spec fn spec_camera() -> Spawn {
    Spawn {
        tag: Some(Tag::Camera),
        body: Body::Viewpoint,
        position: Point { x: -50i32, y: 0, z: 0 },
        facing: Facing::Towards { target: spec_origin() },
    }
}

/// The objects of the scene in the order of their creation.
pub open spec fn spec_objects() -> Seq<Spawn> {
    seq![spec_cube(), spec_platform(), spec_sun(), spec_camera()]
}

/// The white fill light.
pub open spec fn spec_ambient() -> Ambient {
    Ambient { colour: spec_white(), brightness: 100 }
}

/// `objects[at]` carries `tag` and no other object does.
pub open spec fn is_only(objects: Seq<Spawn>, tag: Tag, at: int) -> bool {
    &&& 0 <= at < objects.len()
    &&& objects[at].tag == Some(tag)
    &&& forall|other: int|
        0 <= other < objects.len() && (#[trigger] objects[other]).tag == Some(tag) ==> other == at
}

/// Exactly one of `objects` carries `tag`.
pub open spec fn has_exactly_one(objects: Seq<Spawn>, tag: Tag) -> bool {
    exists|at: int| is_only(objects, tag, at)
}

/// The scene has one cube and one camera, the first and the last of its objects.
pub proof fn lemma_one_cube_one_camera()
    ensures
        is_only(spec_objects(), Tag::Cube, 0),
        is_only(spec_objects(), Tag::Camera, 3),
        has_exactly_one(spec_objects(), Tag::Cube),
        has_exactly_one(spec_objects(), Tag::Camera),
{
    let objects = spec_objects();
    assert(objects.len() == 4);
    assert(objects[0] == spec_cube());
    assert(objects[1] == spec_platform());
    assert(objects[2] == spec_sun());
    assert(objects[3] == spec_camera());
    assert(is_only(objects, Tag::Cube, 0));
    assert(is_only(objects, Tag::Camera, 3));
}

/// The scene to create at startup: the cube, the platform, the light and the
/// camera, and the ambient light.
pub fn setup() -> (scene: Scene)
    ensures
        scene.objects@ == spec_objects(),
        scene.ambient == spec_ambient(),
        has_exactly_one(scene.objects@, Tag::Cube),
        has_exactly_one(scene.objects@, Tag::Camera),
{
    let origin = Point { x: 0, y: 0, z: 0 };
    let white = Rgb { red: 255, green: 255, blue: 255 };
    let mut objects: Vec<Spawn> = Vec::new();
    objects.push(
        Spawn {
            tag: Some(Tag::Cube),
            body: Body::Block {
                width: 10,
                height: 10,
                depth: 10,
                surface: Surface::Plain { colour: Rgb { red: 255, green: 0, blue: 0 } },
            },
            position: origin,
            facing: Facing::Yaw { degrees: 45 },
        },
    );
    objects.push(
        Spawn {
            tag: None,
            body: Body::Block {
                width: 500,
                height: 2,
                depth: 500,
                surface: Surface::Textured { tint: white, roughness: 10, reflectance: 2 },
            },
            position: Point { x: 0, y: -8, z: 0 },
            facing: Facing::Yaw { degrees: 0 },
        },
    );
    objects.push(
        Spawn {
            tag: None,
            body: Body::Sun { shadows: true },
            position: Point { x: -50, y: 50, z: -50 },
            facing: Facing::Towards { target: origin },
        },
    );
    objects.push(
        Spawn {
            tag: Some(Tag::Camera),
            body: Body::Viewpoint,
            position: Point { x: -50, y: 0, z: 0 },
            facing: Facing::Towards { target: origin },
        },
    );
    proof {
        assert(objects@ =~= spec_objects());
        lemma_one_cube_one_camera();
    }
    Scene { objects, ambient: Ambient { colour: white, brightness: 100 } }
}

} // verus!
