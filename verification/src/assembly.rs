//! Decoders for the assembly-related words of the Assembly table: the
//! hash-algorithm word and the assembly-flags word.
//!
//! The hash algorithm is keyed by exact magic constants, not by a bit mask;
//! this asymmetry is inherent to the ECMA-335 constant table and is
//! preserved here. The assembly-flags word is a flag set with one dependent
//! sub-field: when the platform-specified bit is set, the three-bit
//! platform-architecture window is decoded as well and appended right after
//! its gating flag.

use vstd::prelude::*;

verus! {

/// The hash algorithm an assembly declares, keyed by exact magic constants.
#[derive(Debug, Clone, Copy, PartialEq, Eq)]
pub enum AssemblyHashAlgorithm {
    NoHash,
    Md5,
    Sha1,
    Sha256,
    Sha384,
    Sha512,
}

/// The algorithm that the exact value of `val` selects; `NoHash` absorbs
/// every unmatched value. An exact-value match, not a submask test: the
/// constants are not bit-packed.
pub open spec fn hash_algorithm_of(val: usize) -> AssemblyHashAlgorithm {
    if val == 0x8003 {
        AssemblyHashAlgorithm::Md5
    } else if val == 0x8004 {
        AssemblyHashAlgorithm::Sha1
    } else if val == 0x800c {
        AssemblyHashAlgorithm::Sha256
    } else if val == 0x800d {
        AssemblyHashAlgorithm::Sha384
    } else if val == 0x800e {
        AssemblyHashAlgorithm::Sha512
    } else {
        AssemblyHashAlgorithm::NoHash
    }
}

impl AssemblyHashAlgorithm {
    /// Decodes a hash-algorithm word by exact value. Total: every raw value
    /// yields exactly one variant.
    pub fn new(val: usize) -> (res: AssemblyHashAlgorithm)
        ensures
            res == hash_algorithm_of(val),
    {
        match val {
            0x8003 => Self::Md5,
            0x8004 => Self::Sha1,
            0x800c => Self::Sha256,
            0x800d => Self::Sha384,
            0x800e => Self::Sha512,
            _ => Self::NoHash,
        }
    }
}

impl Default for AssemblyHashAlgorithm {
    fn default() -> (res: Self)
        ensures
            res == AssemblyHashAlgorithm::NoHash,
    {
        Self::NoHash
    }
}

/// When the word equals none of the defined magic constants, the decoder
/// yields the default variant.
pub proof fn lemma_hash_algorithm_unmatched(val: usize)
    requires
        val != 0x8003,
        val != 0x8004,
        val != 0x800c,
        val != 0x800d,
        val != 0x800e,
    ensures
        hash_algorithm_of(val) == AssemblyHashAlgorithm::NoHash,
{
}

/// The processor architecture an assembly targets: the three-bit
/// categorical window `0x70` of the assembly-flags word.
#[derive(Debug, Clone, Copy, PartialEq, Eq)]
pub enum CorAssemblyFlagsPA {
    PaNone,
    PaMSIL,
    PaX86,
    PaIA64,
    PaAMD64,
    PaUnknown1,
    PaUnknown2,
    PaUnknown3,
}

/// The architecture that the bits of `val` select under the mask `0x70`;
/// `PaNone` absorbs the one unmatched pattern.
pub open spec fn pa_of(val: usize) -> CorAssemblyFlagsPA {
    if val & 0x70 == 0x10 {
        CorAssemblyFlagsPA::PaMSIL
    } else if val & 0x70 == 0x20 {
        CorAssemblyFlagsPA::PaX86
    } else if val & 0x70 == 0x30 {
        CorAssemblyFlagsPA::PaIA64
    } else if val & 0x70 == 0x40 {
        CorAssemblyFlagsPA::PaAMD64
    } else if val & 0x70 == 0x50 {
        CorAssemblyFlagsPA::PaUnknown1
    } else if val & 0x70 == 0x60 {
        CorAssemblyFlagsPA::PaUnknown2
    } else if val & 0x70 == 0x70 {
        CorAssemblyFlagsPA::PaUnknown3
    } else {
        CorAssemblyFlagsPA::PaNone
    }
}

impl CorAssemblyFlagsPA {
    /// Decodes the platform-architecture window of an assembly-flags word.
    /// Total: every raw value yields exactly one variant.
    pub fn new(value: usize) -> (res: Self)
        ensures
            res == pa_of(value),
    {
        match value & 0x70 {
            0x10 => Self::PaMSIL,
            0x20 => Self::PaX86,
            0x30 => Self::PaIA64,
            0x40 => Self::PaAMD64,
            0x50 => Self::PaUnknown1,
            0x60 => Self::PaUnknown2,
            0x70 => Self::PaUnknown3,
            _ => Self::PaNone,
        }
    }
}

/// When the masked bits match none of the defined architecture patterns,
/// the decoder yields the default variant.
pub proof fn lemma_pa_unmatched(val: usize)
    requires
        val & 0x70 != 0x10,
        val & 0x70 != 0x20,
        val & 0x70 != 0x30,
        val & 0x70 != 0x40,
        val & 0x70 != 0x50,
        val & 0x70 != 0x60,
        val & 0x70 != 0x70,
    ensures
        pa_of(val) == CorAssemblyFlagsPA::PaNone,
{
}

/// The flags of an assembly-flags word. `PaSpecified` gates the dependent
/// platform-architecture sub-field, which follows it as a wrapped entry.
#[derive(Debug, Clone, Copy, PartialEq, Eq)]
pub enum ClrAssemblyFlags {
    PublicKey,
    PA(CorAssemblyFlagsPA),
    PaSpecified,
    EnableJITcompileTracking,
    DisableJITcompileOptimizer,
    Retargetable,
}

/// The flags whose bits are set in `val`, in the declared bit order. When
/// the platform-specified bit `0x80` is set, the decoded architecture is
/// appended directly after `PaSpecified`. A pure function of `val`: the
/// ordering is the same on every call.
pub open spec fn assembly_flags_of(val: usize) -> Seq<ClrAssemblyFlags> {
    let s = Seq::<ClrAssemblyFlags>::empty();
    let s = if val & 0x1 != 0 {
        s.push(ClrAssemblyFlags::PublicKey)
    } else {
        s
    };
    let s = if val & 0x0100 != 0 {
        s.push(ClrAssemblyFlags::Retargetable)
    } else {
        s
    };
    let s = if val & 0x4000 != 0 {
        s.push(ClrAssemblyFlags::DisableJITcompileOptimizer)
    } else {
        s
    };
    let s = if val & 0x8000 != 0 {
        s.push(ClrAssemblyFlags::EnableJITcompileTracking)
    } else {
        s
    };
    let s = if val & 0x0080 != 0 {
        s.push(ClrAssemblyFlags::PaSpecified).push(ClrAssemblyFlags::PA(pa_of(val)))
    } else {
        s
    };
    s
}

/// How many entries the decoded sequence holds: one per set independent
/// flag bit, and two for the platform-specified bit, whose nested
/// architecture value rides along with its gating flag.
pub open spec fn assembly_flags_count(val: usize) -> nat {
    (if val & 0x1 != 0 { 1nat } else { 0nat })
    + (if val & 0x0100 != 0 { 1nat } else { 0nat })
    + (if val & 0x4000 != 0 { 1nat } else { 0nat })
    + (if val & 0x8000 != 0 { 1nat } else { 0nat })
    + (if val & 0x0080 != 0 { 2nat } else { 0nat })
}

impl ClrAssemblyFlags {
    /// Decodes the flag set of an assembly-flags word: each flag is tested
    /// by its own bit, independently of the others, and appended in the
    /// declared bit order; the platform-specified bit additionally decodes
    /// the architecture window. Total, and a pure function of `value`.
    pub fn new(value: usize) -> (res: Vec<ClrAssemblyFlags>)
        ensures
            res@ == assembly_flags_of(value),
    {
        let mut res: Vec<ClrAssemblyFlags> = Vec::new();
        if value & 0x1 != 0 {
            res.push(ClrAssemblyFlags::PublicKey);
        }
        if value & 0x0100 != 0 {
            res.push(ClrAssemblyFlags::Retargetable);
        }
        if value & 0x4000 != 0 {
            res.push(ClrAssemblyFlags::DisableJITcompileOptimizer);
        }
        if value & 0x8000 != 0 {
            res.push(ClrAssemblyFlags::EnableJITcompileTracking);
        }
        if value & 0x0080 != 0 {
            res.push(ClrAssemblyFlags::PaSpecified);
            res.push(ClrAssemblyFlags::PA(CorAssemblyFlagsPA::new(value)));
        }
        res
    }
}

/// A word with none of the qualifying flag bits set decodes to the empty
/// flag sequence.
pub proof fn lemma_assembly_flags_empty(val: usize)
    requires
        val & 0x1 == 0,
        val & 0x0100 == 0,
        val & 0x4000 == 0,
        val & 0x8000 == 0,
        val & 0x0080 == 0,
    ensures
        assembly_flags_of(val) == Seq::<ClrAssemblyFlags>::empty(),
{
}

/// The decoded sequence has exactly one entry per set independent flag bit,
/// plus the nested architecture entry when the platform-specified bit is
/// set, however many flags are set at once.
pub proof fn lemma_assembly_flags_len(val: usize)
    ensures
        assembly_flags_of(val).len() == assembly_flags_count(val),
{
}

} // verus!
