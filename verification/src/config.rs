//! User configuration: two flags that unconditionally suppress one
//! modification family each. Loaded once at process start by the embedding
//! code and treated as immutable afterwards.

use vstd::prelude::*;

verus! {

/// Which modification families the user has switched off.
#[derive(Clone, Copy, PartialEq, Eq, Structural, Debug)]
pub struct Mods {
    /// Stop the DDMK family (Eva, Lucia, Mary) from loading.
    pub disable_ddmk: bool,
    /// Stop the Crimson family from loading.
    pub disable_crimson: bool,
}

/// The whole user configuration.
#[derive(Clone, Copy, PartialEq, Eq, Structural, Debug)]
pub struct Config {
    pub mods: Mods,
}

impl Default for Config {
    /// The configuration used when none can be read: nothing is disabled.
    fn default() -> (c: Config)
        ensures
            !c.mods.disable_ddmk,
            !c.mods.disable_crimson,
    {
        Config { mods: Mods { disable_ddmk: false, disable_crimson: false } }
    }
}

} // verus!
