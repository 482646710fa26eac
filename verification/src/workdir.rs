//! The scoped, job-exclusive working directory and its named artifacts.
//!
//! A `Workdir` is the engine's record of one job's directory: where it is,
//! which of the fixed, well-known artifact files exist in it, and whether
//! its proof has been promoted to a retrievable state. The directory itself
//! is created and removed by the hosting layer; the engine only decides, and
//! the handle only records. Cleanup policy is explicit: the directory may be
//! removed once its job is over, unless the proof was promoted - then
//! removal is deferred to a retrieval/expiry policy.

use vstd::prelude::*;
use vstd::string::StringExecFns;

verus! {

/// The fixed set of named artifact files a working directory can hold.
#[derive(Clone, Copy, PartialEq, Eq, Structural, Debug)]
pub enum ArtifactKind {
    /// The serialized program input, consumed by trace generation.
    Input,
    /// The serialized compiled program, consumed by trace generation.
    Program,
    /// The execution trace produced by trace generation.
    Trace,
    /// The memory dump produced by trace generation.
    Memory,
    /// The public input produced by trace generation.
    PublicInput,
    /// The private input produced by trace generation.
    PrivateInput,
    /// The parameter file derived from the public input for proof generation.
    Parameters,
    /// The final proof produced by proof generation.
    Proof,
}

/// The well-known file name of each artifact within its working directory.
pub open spec fn artifact_name(k: ArtifactKind) -> Seq<char> {
    match k {
        ArtifactKind::Input => "program_input.json"@,
        ArtifactKind::Program => "program.json"@,
        ArtifactKind::Trace => "trace.bin"@,
        ArtifactKind::Memory => "memory.bin"@,
        ArtifactKind::PublicInput => "air_public_input.json"@,
        ArtifactKind::PrivateInput => "air_private_input.json"@,
        ArtifactKind::Parameters => "cpu_air_params.json"@,
        ArtifactKind::Proof => "proof.json"@,
    }
}

/// Returns the well-known file name of artifact `k`.
pub fn artifact_file_name(k: ArtifactKind) -> (r: &'static str)
    ensures
        r@ == artifact_name(k),
{
    match k {
        ArtifactKind::Input => "program_input.json",
        ArtifactKind::Program => "program.json",
        ArtifactKind::Trace => "trace.bin",
        ArtifactKind::Memory => "memory.bin",
        ArtifactKind::PublicInput => "air_public_input.json",
        ArtifactKind::PrivateInput => "air_private_input.json",
        ArtifactKind::Parameters => "cpu_air_params.json",
        ArtifactKind::Proof => "proof.json",
    }
}

/// The engine's handle on one job's working directory.
pub struct Workdir {
    /// Path of the directory, fixed at allocation.
    pub root: String,
    pub has_input: bool,
    pub has_program: bool,
    pub has_trace: bool,
    pub has_memory: bool,
    pub has_public_input: bool,
    pub has_private_input: bool,
    pub has_parameters: bool,
    pub has_proof: bool,
    /// Whether the proof was promoted to a retrievable state; set exactly
    /// when the pipeline completes, and from then on cleanup is deferred.
    pub promoted: bool,
}

impl Workdir {
    /// Which artifacts the directory holds.
    pub open spec fn has(self, k: ArtifactKind) -> bool {
        match k {
            ArtifactKind::Input => self.has_input,
            ArtifactKind::Program => self.has_program,
            ArtifactKind::Trace => self.has_trace,
            ArtifactKind::Memory => self.has_memory,
            ArtifactKind::PublicInput => self.has_public_input,
            ArtifactKind::PrivateInput => self.has_private_input,
            ArtifactKind::Parameters => self.has_parameters,
            ArtifactKind::Proof => self.has_proof,
        }
    }

    /// The full path of artifact `k`: the directory root, a separator, and
    /// the artifact's well-known file name.
    pub open spec fn path_view(self, k: ArtifactKind) -> Seq<char> {
        self.root@ + "/"@ + artifact_name(k)
    }

    /// A fresh handle on a just-allocated, still empty directory.
    pub fn new(root: String) -> (w: Workdir)
        ensures
            w == (Workdir {
                root: w.root,
                has_input: false,
                has_program: false,
                has_trace: false,
                has_memory: false,
                has_public_input: false,
                has_private_input: false,
                has_parameters: false,
                has_proof: false,
                promoted: false,
            }),
            w.root@ == root@,
            forall|k: ArtifactKind| !w.has(k),
    {
        Workdir {
            root,
            has_input: false,
            has_program: false,
            has_trace: false,
            has_memory: false,
            has_public_input: false,
            has_private_input: false,
            has_parameters: false,
            has_proof: false,
            promoted: false,
        }
    }

    /// Resolves the full path of artifact `k` inside this directory.
    pub fn path_of(&self, k: ArtifactKind) -> (p: String)
        ensures
            p@ == self.path_view(k),
    {
        self.root.clone().concat("/").concat(artifact_file_name(k))
    }

    /// Whether the directory may be removed: always, except once the proof
    /// has been promoted to a retrievable state.
    pub fn may_clean(&self) -> (r: bool)
        ensures
            r == !self.promoted,
    {
        !self.promoted
    }
}

} // verus!
