//! World generation settings and the standalone terrain tool.

use vstd::prelude::*;
use std::path::PathBuf;

verus! {

/// Kinds of world generation.
#[derive(Debug, Clone, Copy, PartialEq, Eq, Structural)]
pub enum WorldGenType {
    Normal,
    Flat,
    LargeBiomes,
    Amplified,
}

#[verifier::external_type_specification]
#[verifier::external_body]
pub struct ExPathBuf(std::path::PathBuf);

/// The terrain tool: generates height maps from a seed into a directory.
pub struct TerrainTool {
    seed: u64,
    output_dir: PathBuf,
}

impl TerrainTool {
    /// The seed the tool generates from.
    pub closed spec fn spec_seed(&self) -> u64 {
        self.seed
    }

    /// The directory the tool writes to.
    pub closed spec fn spec_output_dir(&self) -> PathBuf {
        self.output_dir
    }

    pub fn new(seed: u64, output_dir: PathBuf) -> (t: Self)
        ensures
            t.spec_seed() == seed,
            t.spec_output_dir() == output_dir,
    {
        TerrainTool { seed, output_dir }
    }

    /// The seed the tool generates from.
    pub fn seed(&self) -> (s: u64)
        ensures
            s == self.spec_seed(),
    {
        self.seed
    }

    /// The directory the tool writes to.
    pub fn output_dir(&self) -> (d: &PathBuf)
        ensures
            *d == self.spec_output_dir(),
    {
        &self.output_dir
    }
}

} // verus!
