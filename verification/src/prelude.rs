//! What most users of the library need.

pub use crate::image::ComputeNoiseSize;
pub use crate::image::ImageHandle;
pub use crate::noise::generators::Fbm;
pub use crate::noise::generators::Perlin;
pub use crate::noise::generators::PerlinFlags;
pub use crate::noise::generators::Worley;
pub use crate::noise::generators::WorleyFlags;
pub use crate::noise::modifiers::Invert;
pub use crate::noise_queue::ComputeNoiseQueue;
