//! The window and camera the scene is shown in: a fixed window covering a
//! fraction of the monitor, and a camera that always shows at least the
//! whole visible scene.
use vstd::prelude::*;
use vstd::string::*;

verus! {

/// Width of the monitor, in pixels.
pub const MONITOR_WIDTH: i16 = 2560;

/// Height of the monitor, in pixels.
pub const MONITOR_HEIGHT: i16 = 1440;

/// The window spans one part in this many of the monitor, in each direction.
pub const WINDOW_FRACTION: i16 = 2;

/// The window the scene is shown in: its title, its size and position in
/// pixels, and whether it can be resized and starts focused.
#[derive(Debug, Clone, PartialEq, Eq)]
pub struct WindowConfig {
    pub title: String,
    pub width: i16,
    pub height: i16,
    pub x: i32,
    pub y: i32,
    pub resizable: bool,
    pub focused: bool,
}

/// Builds the window configuration: a fixed, focused window titled `Poly`,
/// half the monitor wide and high, set off from the top left corner by a
/// quarter of the monitor's width and a tenth of its height.
pub fn window_config() -> (w: WindowConfig)
    ensures
        w.title@ == "Poly"@,
        w.width == MONITOR_WIDTH / WINDOW_FRACTION,
        w.width == 1280,
        w.height == MONITOR_HEIGHT / WINDOW_FRACTION,
        w.height == 720,
        w.x == MONITOR_WIDTH / WINDOW_FRACTION / 2,
        w.x == 640,
        w.y == MONITOR_HEIGHT / 10,
        w.y == 144,
        !w.resizable,
        w.focused,
{
    WindowConfig {
        title: String::from_str("Poly"),
        width: MONITOR_WIDTH / WINDOW_FRACTION,
        height: MONITOR_HEIGHT / WINDOW_FRACTION,
        x: (MONITOR_WIDTH / WINDOW_FRACTION / 2) as i32,
        y: (MONITOR_HEIGHT / 10) as i32,
        resizable: false,
        focused: true,
    }
}

/// The scene's camera: its entity name, and the smallest visible area its
/// scaling may show, in world units.
#[derive(Debug, Clone, PartialEq, Eq)]
pub struct CameraConfig {
    pub name: String,
    pub min_width: u16,
    pub min_height: u16,
}

/// Builds the one camera of the scene, named `Camera`: its scaling keeps at
/// least the whole visible scene in view, whatever the window's aspect.
pub fn camera_config() -> (c: CameraConfig)
    ensures
        c.name@ == "Camera"@,
        c.min_width == crate::world::VIEW_WIDTH,
        c.min_width == 160,
        c.min_height == crate::world::VIEW_HEIGHT,
        c.min_height == 90,
{
    CameraConfig {
        name: String::from_str("Camera"),
        min_width: crate::world::VIEW_WIDTH,
        min_height: crate::world::VIEW_HEIGHT,
    }
}

/// How the scene is rendered: the number of multisampling samples, and how
/// textures are sampled — whether they repeat past their edges in each
/// direction, and whether they are scaled by nearest-neighbor filtering,
/// keeping pixel art sharp.
#[derive(Debug, Clone, Copy, PartialEq, Eq, Structural)]
pub struct RenderConfig {
    pub msaa_samples: u8,
    pub repeat_address_u: bool,
    pub repeat_address_v: bool,
    pub repeat_address_w: bool,
    pub nearest_filtering: bool,
}

/// Builds the renderer settings: multisampling off (a single sample per
/// pixel), and textures repeating in all three directions, scaled by
/// nearest-neighbor filtering.
pub fn render_config() -> (r: RenderConfig)
    ensures
        r.msaa_samples == 1,
        r.repeat_address_u,
        r.repeat_address_v,
        r.repeat_address_w,
        r.nearest_filtering,
{
    RenderConfig {
        msaa_samples: 1,
        repeat_address_u: true,
        repeat_address_v: true,
        repeat_address_w: true,
        nearest_filtering: true,
    }
}

} // verus!
