//! The animation and behaviour engine of a desktop pet: a character sprite that
//! walks about on top of the desktop.
//!
//! The engine computes state only. A host owns the window, reads the clock and
//! the mouse, loads the images and draws; it calls in once per tick with the
//! time that has passed, and draws what the engine's render target shows at
//! the bounding box that the engine answers.
//!
//! All coordinates and sizes are in viewport units, [`UNITS_PER_PIXEL`] to the
//! pixel, so that a movement of less than one pixel is not lost between ticks.
//! Times are in milliseconds.

pub mod behaviors;
pub mod event_loop;
pub mod fursona;
pub mod rendering;
pub mod settings;
pub mod stage;
pub mod system_tray;

pub use behaviors::pace::{PaceBehavior, PaceDirection, SPEED_PIXELS_PER_SECOND};
pub use behaviors::{AnimationDictionary, Behavior, BehaviorContext, BehaviorPreview, BehaviorResult};
pub use event_loop::{Dispatch, Event, EventLoopState, HostEvent, MouseReading, Time};
pub use fursona::{Fursona, FursonaInstance};
pub use rendering::{
    Animation, Animation2D, AnimationState, CurrentFrame, ImageHandle, Keyframe2D, Renderer2D,
    TextureCache,
};
pub use settings::settings_file::{CurrentSettingsFile, LoadSettingsResult};
pub use settings::{Settings, SettingsFile, V1SettingsFile, V2SettingsFile, V2SettingsFileFursona};
pub use stage::{Viewport, ViewportPoint, ViewportRect, UNITS_PER_PIXEL};
pub use system_tray::{SystemTray, SystemTrayEvent};
