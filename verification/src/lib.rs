//! A minimal real-time application runtime, modelled as a verified state
//! machine: window/GPU configuration, the per-tick frame lifecycle with
//! at-most-one clear and at-most-one present, input edge tracking, and
//! pixel-to-NDC coordinate conversion.

pub mod frame;
pub mod gamma;
pub mod input;
pub mod lifecycle;
pub mod render;
pub mod texture;

pub use frame::{pixel_to_ndc_quad, Color, Frame, FrameView, LoadAction, Quad, RenderPass};
pub use gamma::{ContextModel, Gamma, GammaView, KeyEventOutcome, Phase, PresentMode, KEY_ESCAPE};
pub use input::{InputTracker, InputView, KeySet};
pub use texture::Texture;

