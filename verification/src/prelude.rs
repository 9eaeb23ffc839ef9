pub use crate::color::{color_from_hex, HexColorError, Rgba8};
pub use crate::math::{Dir2, InvalidDirError, Scalar, Vec2};
pub use crate::wave::{HeightFn, PerlinWave, SineWave, Wave};
pub use crate::{AbWaves, Color, Shading};
