//! What a renderer takes from the simulation: where to draw each particle,
//! and how to open its window.
use vstd::prelude::*;
use vstd::string::StringExecFns;

use crate::linalg::Vec2;
use crate::particle::Particle;

verus! {

/// How the window that shows the simulation is opened.
pub struct WindowSettings {
    pub title: String,
    pub borderless_fullscreen: bool,
}

/// A borderless full-screen window named after the simulation.
pub fn setup_windows() -> (r: WindowSettings)
    ensures
        r.title@ == "mlsmpm-particles-rs"@,
        r.borderless_fullscreen,
{
    WindowSettings { title: String::from_str("mlsmpm-particles-rs"), borderless_fullscreen: true }
}

/// Moves each particle's sprite to the particle's position.
pub fn update_sprites(translations: &mut Vec<Vec2>, particles: &Vec<Particle>)
    requires
        old(translations)@.len() == particles@.len(),
    ensures
        final(translations)@.len() == particles@.len(),
        forall|i: int| 0 <= i < particles@.len() ==> #[trigger] final(translations)@[i] == particles@[i].position,
{
    let n = particles.len();
    let mut i: usize = 0;
    while i < n
        invariant
            i <= n,
            n == particles@.len(),
            translations@.len() == n,
            forall|j: int| 0 <= j < i ==> #[trigger] translations@[j] == particles@[j].position,
        decreases n - i,
    {
        translations.set(i, particles[i].position);
        i = i + 1;
    }
}

} // verus!
