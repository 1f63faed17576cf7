//! Pedal profiles: one module per supported pedal family.

pub mod chroma_console;
pub mod cxm1978;
pub mod gen_loss_mkii;
pub mod microcosm;
pub mod preamp_mk2;

use vstd::prelude::*;

verus! {

/// Name and capabilities of a pedal family.
#[derive(Debug, Clone, Copy)]
pub struct PedalMetadata {
    pub name: &'static str,
    pub manufacturer: &'static str,
    pub supports_editor: bool,
    pub supports_preset_library: bool,
}

} // verus!
