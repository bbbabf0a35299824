//! The audio capability: a fire-and-forget sound sink injected into the
//! simulation. The core only names the cues it triggers; playback itself is
//! outside work done by whoever implements the capability.

use vstd::prelude::*;

verus! {

/// The sound cues the simulation core triggers.
#[derive(Clone, Copy, PartialEq, Eq, Structural, Debug)]
pub enum Sound {
    /// The swarm moved on a ready tick.
    SwarmMove,
    /// A projectile started exploding.
    Explode,
}

/// A fire-and-forget audio sink. The core observes no return value, so the
/// capability promises nothing.
pub trait SoundPlayer {
    fn play(&mut self, sound: Sound);
}

} // verus!
