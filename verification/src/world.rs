//! The world: three static layered sprites and a set of drifting clouds.
//!
//! A cloud sprite drifts to the right at its own speed. Once its horizontal
//! position exceeds the right edge of the scene it is recycled: it reappears
//! at the left edge with a fresh default cloud tag, keeping its texture.
use vstd::prelude::*;
use vstd::string::*;

verus! {

/// Depth layers of the scene, back to front: greater depths are drawn in
/// front.
#[allow(non_camel_case_types)]
#[derive(Debug, Clone, Copy, PartialEq, Eq, Structural)]
pub enum Layers {
    WORLD,
    BACKGROUND,
    DECOR,
}

impl Layers {
    /// Depth of the layer: the order in which the variants are declared.
    pub open spec fn spec_depth(self) -> u8 {
        match self {
            Layers::WORLD => 0,
            Layers::BACKGROUND => 1,
            Layers::DECOR => 2,
        }
    }

    /// Numeric depth at which sprites of this layer are drawn.
    pub fn depth(self) -> (d: u8)
        ensures
            d == self.spec_depth(),
    {
        match self {
            Layers::WORLD => 0,
            Layers::BACKGROUND => 1,
            Layers::DECOR => 2,
        }
    }
}

/// One world unit, in milli-units.
pub const MILLI: i64 = 1000;

/// Width of the visible scene, in world units.
pub const VIEW_WIDTH: u16 = 160;

/// Height of the visible scene, in world units.
pub const VIEW_HEIGHT: u16 = 90;

/// Width every cloud sprite is stretched to, in world units.
pub const CLOUD_WIDTH: u16 = 160;

/// Height every cloud sprite is stretched to, in world units.
pub const CLOUD_HEIGHT: u16 = 90;

/// Horizontal position beyond which a cloud has left the scene, in
/// milli-units.
pub const RIGHT_EDGE: i64 = 160 * MILLI;

/// Horizontal position at which a recycled cloud reappears, in milli-units.
pub const RESPAWN_X: i64 = -160 * MILLI;

/// Horizontal spacing of the initially spawned clouds, in milli-units.
pub const CLOUD_SPACING: i64 = 60 * MILLI;

/// Number of clouds spawned when the scene has none.
pub const CLOUD_COUNT: usize = 3;

/// Speed of a fresh cloud, in milli-units per millisecond
/// (equal to world units per second).
pub const DEFAULT_CLOUD_SPEED: u32 = 10;

/// The depth layer every cloud drifts on.
pub const CLOUD_LAYER: Layers = Layers::WORLD;

/// The vertical position every cloud drifts at, in milli-units.
pub const CLOUD_Y: i64 = 0;

/// Tag of a cloud sprite, carrying its drift speed in milli-units per
/// millisecond.
#[derive(Debug, Clone, Copy, PartialEq, Eq, Structural)]
pub struct Cloud {
    pub speed: u32,
}

impl Default for Cloud {
    /// A fresh cloud drifts at the default speed.
    fn default() -> (c: Self)
        ensures
            c.speed == DEFAULT_CLOUD_SPEED,
    {
        Cloud { speed: DEFAULT_CLOUD_SPEED }
    }
}

/// The three cloud textures, by size.
#[derive(Debug, Clone, Copy, PartialEq, Eq, Structural)]
pub enum CloudTexture {
    Large,
    Medium,
    Small,
}

/// Texture of the cloud spawned at index `i`: the large one at indices
/// divisible by three, else the medium one at even indices, else the small
/// one.
pub open spec fn spec_cloud_texture(i: int) -> CloudTexture {
    if i % 3 == 0 {
        CloudTexture::Large
    } else if i % 2 == 0 {
        CloudTexture::Medium
    } else {
        CloudTexture::Small
    }
}

/// Picks the texture for the cloud spawned at index `i`.
pub fn cloud_texture(i: u8) -> (t: CloudTexture)
    ensures
        t == spec_cloud_texture(i as int),
{
    if i % 3 == 0 {
        CloudTexture::Large
    } else if i % 2 == 0 {
        CloudTexture::Medium
    } else {
        CloudTexture::Small
    }
}

impl CloudTexture {
    /// Asset path of the texture.
    pub fn path(self) -> (p: String)
        ensures
            self == CloudTexture::Large ==> p@ == "cloud-l.png"@,
            self == CloudTexture::Medium ==> p@ == "cloud-m.png"@,
            self == CloudTexture::Small ==> p@ == "cloud-s.png"@,
    {
        match self {
            CloudTexture::Large => String::from_str("cloud-l.png"),
            CloudTexture::Medium => String::from_str("cloud-m.png"),
            CloudTexture::Small => String::from_str("cloud-s.png"),
        }
    }
}

/// One static sprite of the scene: its asset path, its position in
/// milli-units, its depth layer, and, where one is set, the size it is
/// stretched to in world units.
#[derive(Debug, Clone, PartialEq, Eq)]
pub struct SpriteSpec {
    pub path: String,
    pub x: i64,
    pub y: i64,
    pub layer: Layers,
    pub size: Option<(u16, u16)>,
}

/// The static sprites spawned once at startup, all at the origin: a door in
/// the decor layer at its native size, and a shop and a grass sheet
/// stretched over the whole visible scene, in the background and world
/// layers.
pub fn world_sprites() -> (sprites: Vec<SpriteSpec>)
    ensures
        sprites@.len() == 3,
        forall|i: int| 0 <= i < sprites@.len() ==> (#[trigger] sprites@[i]).x == 0,
        forall|i: int| 0 <= i < sprites@.len() ==> (#[trigger] sprites@[i]).y == 0,
        sprites@[0].path@ == "door.png"@,
        sprites@[0].layer == Layers::DECOR,
        sprites@[0].size is None,
        sprites@[1].path@ == "shop.png"@,
        sprites@[1].layer == Layers::BACKGROUND,
        sprites@[1].size == Some((VIEW_WIDTH, VIEW_HEIGHT)),
        sprites@[2].path@ == "grass.png"@,
        sprites@[2].layer == Layers::WORLD,
        sprites@[2].size == Some((VIEW_WIDTH, VIEW_HEIGHT)),
{
    let mut sprites: Vec<SpriteSpec> = Vec::new();
    sprites.push(
        SpriteSpec {
            path: String::from_str("door.png"),
            x: 0,
            y: 0,
            layer: Layers::DECOR,
            size: None,
        },
    );
    sprites.push(
        SpriteSpec {
            path: String::from_str("shop.png"),
            x: 0,
            y: 0,
            layer: Layers::BACKGROUND,
            size: Some((VIEW_WIDTH, VIEW_HEIGHT)),
        },
    );
    sprites.push(
        SpriteSpec {
            path: String::from_str("grass.png"),
            x: 0,
            y: 0,
            layer: Layers::WORLD,
            size: Some((VIEW_WIDTH, VIEW_HEIGHT)),
        },
    );
    sprites
}

/// One cloud sprite of the scene: its horizontal position in milli-units,
/// its cloud tag, and its texture. Every cloud drifts at the vertical
/// position `CLOUD_Y` on the `CLOUD_LAYER` layer, stretched to
/// `CLOUD_WIDTH` by `CLOUD_HEIGHT` world units.
#[derive(Debug, Clone, Copy, PartialEq, Eq, Structural)]
pub struct CloudSprite {
    pub x: i64,
    pub cloud: Cloud,
    pub texture: CloudTexture,
}

/// The cloud spawned at index `i` when the scene has none: spaced out to the
/// right, drifting at the default speed.
pub open spec fn spec_initial_cloud(i: int) -> CloudSprite {
    CloudSprite {
        x: (i * CLOUD_SPACING) as i64,
        cloud: Cloud { speed: DEFAULT_CLOUD_SPEED },
        texture: spec_cloud_texture(i),
    }
}

/// The cloud that takes the place of a recycled one: back at the left edge,
/// with a fresh default cloud tag, keeping the texture.
pub open spec fn spec_recycled_cloud(old_cloud: CloudSprite) -> CloudSprite {
    CloudSprite {
        x: RESPAWN_X,
        cloud: Cloud { speed: DEFAULT_CLOUD_SPEED },
        texture: old_cloud.texture,
    }
}

/// Moves every cloud to the right by its speed times the elapsed time.
///
/// `dt_ms` is the elapsed time in milliseconds; a speed in milli-units per
/// millisecond thus advances the position by speed times `dt_ms` milli-units.
pub fn move_clouds(clouds: &mut Vec<CloudSprite>, dt_ms: u32)
    requires
        forall|i: int|
            0 <= i < old(clouds)@.len() ==> (old(clouds)@[i].cloud.speed as int) * (dt_ms as int)
                <= i64::MAX,
        forall|i: int|
            0 <= i < old(clouds)@.len() ==> (old(clouds)@[i].cloud.speed as int) * (dt_ms as int)
                + old(clouds)@[i].x <= i64::MAX,
    ensures
        final(clouds)@.len() == old(clouds)@.len(),
        forall|i: int|
            0 <= i < old(clouds)@.len() ==> final(clouds)@[i] == (CloudSprite {
                x: (old(clouds)@[i].x + old(clouds)@[i].cloud.speed * dt_ms) as i64,
                ..old(clouds)@[i]
            }),
{
    let n = clouds.len();
    let mut moved: Vec<CloudSprite> = Vec::new();
    let mut k: usize = 0;
    while k < n
        invariant
            n == old(clouds)@.len(),
            clouds@ == old(clouds)@,
            0 <= k <= n,
            moved@.len() == k,
            forall|i: int|
                0 <= i < old(clouds)@.len() ==> (old(clouds)@[i].cloud.speed as int) * (dt_ms
                    as int) <= i64::MAX,
            forall|i: int|
                0 <= i < old(clouds)@.len() ==> (old(clouds)@[i].cloud.speed as int) * (dt_ms
                    as int) + old(clouds)@[i].x <= i64::MAX,
            forall|i: int|
                0 <= i < k ==> moved@[i] == (CloudSprite {
                    x: (old(clouds)@[i].x + old(clouds)@[i].cloud.speed * dt_ms) as i64,
                    ..old(clouds)@[i]
                }),
        decreases n - k,
    {
        let c = clouds[k];
        let dx: u64 = (c.cloud.speed as u64) * (dt_ms as u64);
        let moved_cloud = CloudSprite { x: c.x + dx as i64, ..c };
        moved.push(moved_cloud);
        k = k + 1;
    }
    *clouds = moved;
}

/// Keeps the scene stocked with clouds.
///
/// When the scene has no cloud, three are spawned, spaced out to the right of
/// the origin, with textures picked by index. Otherwise every cloud whose
/// position exceeds the right edge is recycled to the left edge with a fresh
/// default cloud tag, keeping its texture; the others, those at the edge
/// included, are untouched. Either way, no cloud ends past the right edge.
pub fn spawn_clouds(clouds: &mut Vec<CloudSprite>)
    ensures
        old(clouds)@.len() == 0 ==> {
            &&& final(clouds)@.len() == CLOUD_COUNT
            &&& forall|i: int|
                0 <= i < CLOUD_COUNT ==> (#[trigger] final(clouds)@[i]) == spec_initial_cloud(i)
        },
        old(clouds)@.len() > 0 ==> {
            &&& final(clouds)@.len() == old(clouds)@.len()
            &&& forall|i: int|
                0 <= i < old(clouds)@.len() ==> (#[trigger] final(clouds)@[i]) == (if old(
                    clouds)@[i].x > RIGHT_EDGE {
                    spec_recycled_cloud(old(clouds)@[i])
                } else {
                    old(clouds)@[i]
                })
        },
        forall|i: int| 0 <= i < final(clouds)@.len() ==> final(clouds)@[i].x <= RIGHT_EDGE,
{
    if clouds.len() == 0 {
        let mut i: u8 = 0;
        while i < 3
            invariant
                0 <= i <= 3,
                clouds@.len() == i,
                forall|j: int| 0 <= j < i ==> clouds@[j] == spec_initial_cloud(j),
            decreases 3 - i,
        {
            let sprite = CloudSprite {
                x: CLOUD_SPACING * (i as i64),
                cloud: Cloud::default(),
                texture: cloud_texture(i),
            };
            clouds.push(sprite);
            i = i + 1;
        }
        proof {
            assert forall|j: int| 0 <= j < clouds@.len() implies clouds@[j].x <= RIGHT_EDGE by {
                assert(clouds@[j] == spec_initial_cloud(j));
                assert(0 <= j * CLOUD_SPACING <= 2 * CLOUD_SPACING);
            }
        }
        return ;
    }
    let n = clouds.len();
    let mut kept: Vec<CloudSprite> = Vec::new();
    let mut k: usize = 0;
    while k < n
        invariant
            n == old(clouds)@.len(),
            clouds@ == old(clouds)@,
            0 <= k <= n,
            kept@.len() == k,
            forall|i: int|
                0 <= i < k ==> kept@[i] == (if old(clouds)@[i].x > RIGHT_EDGE {
                    spec_recycled_cloud(old(clouds)@[i])
                } else {
                    old(clouds)@[i]
                }),
        decreases n - k,
    {
        let c = clouds[k];
        if c.x > RIGHT_EDGE {
            kept.push(
                CloudSprite { x: RESPAWN_X, cloud: Cloud::default(), texture: c.texture },
            );
        } else {
            kept.push(c);
        }
        k = k + 1;
    }
    *clouds = kept;
}

} // verus!
