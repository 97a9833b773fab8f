use vstd::prelude::*;

use crate::renderer::Renderer;

verus! {

/// Configuration for one run: which renderer displays the program's
/// frames.
pub struct Config {
    pub renderer: Renderer,
}

impl Default for Config {
    /// The default configuration renders to stdout.
    fn default() -> (c: Self)
        ensures
            !c.renderer.is_buffered(),
    {
        Config { renderer: Renderer::stdout() }
    }
}

impl Config {
    /// A configuration that renders to an in-memory buffer instead of
    /// the terminal, for tests.
    pub fn buffered() -> (c: Self)
        ensures
            c.renderer.is_buffered(),
            c.renderer.buffered_contents() == Seq::<char>::empty(),
    {
        Config { renderer: Renderer::buffered() }
    }
}

} // verus!
