//! Codec for the paired index/payload asset containers of a console-era game,
//! readable and writable in either of the two byte orders the game shipped with.

pub mod codec;
pub mod container;
pub mod types;
pub mod audio;
pub mod bin;
pub mod level;
pub mod level_info;
pub mod pak;
pub mod pak_alt;
