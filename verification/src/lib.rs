//! Walk-cycle logic for a four-direction sprite character.
//!
//! The crate decides three things for a host game loop: where a frame lies in
//! the sprite sheet ([`atlas`]), which way the character turns for a set of
//! held arrow keys ([`steering`]), and which frame is shown next
//! ([`animation`]), paced by a repeating timer ([`clock`]).

pub mod atlas;
pub mod clock;
pub mod steering;
pub mod animation;
