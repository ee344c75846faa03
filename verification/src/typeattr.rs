//! Decoders for the 32-bit type-attribute word of the TypeDef table.
//!
//! The word packs four categorical sub-fields (visibility, layout, class
//! semantics, string format) and one flag set into disjoint bit windows.
//! Each categorical decoder masks its window and selects the matching
//! variant, falling back to the designated default when no pattern matches;
//! the flag decoder tests every flag bit independently, in the bit order the
//! ECMA-335 flag table declares.

use vstd::prelude::*;

use crate::error::DecodeError;
use crate::extract::le_word;
use crate::extract::read_le_word;

verus! {

/// Visibility of a type: the three-bit categorical window `0x7`.
#[derive(Debug, Clone, Copy, PartialEq, Eq)]
pub enum CorTypeVisibility {
    NotPublic,
    Public,
    NestedPublic,
    NestedPrivate,
    NestedFamily,
    NestedAssembly,
    NestedFamANDAssem,
    NestedFamORAssem,
}

/// The visibility that the bits of `val` select under the mask `0x7`;
/// `NotPublic` absorbs the one unmatched pattern.
pub open spec fn visibility_of(val: usize) -> CorTypeVisibility {
    if val & 0x7 == 1 {
        CorTypeVisibility::Public
    } else if val & 0x7 == 2 {
        CorTypeVisibility::NestedPublic
    } else if val & 0x7 == 3 {
        CorTypeVisibility::NestedPrivate
    } else if val & 0x7 == 4 {
        CorTypeVisibility::NestedFamily
    } else if val & 0x7 == 5 {
        CorTypeVisibility::NestedAssembly
    } else if val & 0x7 == 6 {
        CorTypeVisibility::NestedFamANDAssem
    } else if val & 0x7 == 7 {
        CorTypeVisibility::NestedFamORAssem
    } else {
        CorTypeVisibility::NotPublic
    }
}

impl CorTypeVisibility {
    /// Decodes the visibility sub-field of a type-attribute word. Total:
    /// every raw value yields exactly one variant.
    pub fn new(val: usize) -> (res: Self)
        ensures
            res == visibility_of(val),
    {
        match val & 0x7 {
            1 => Self::Public,
            2 => Self::NestedPublic,
            3 => Self::NestedPrivate,
            4 => Self::NestedFamily,
            5 => Self::NestedAssembly,
            6 => Self::NestedFamANDAssem,
            7 => Self::NestedFamORAssem,
            _ => Self::NotPublic,
        }
    }
}

impl Default for CorTypeVisibility {
    fn default() -> (res: Self)
        ensures
            res == CorTypeVisibility::NotPublic,
    {
        Self::NotPublic
    }
}

/// When the masked bits match none of the defined visibility patterns, the
/// decoder yields the default variant.
pub proof fn lemma_visibility_unmatched(val: usize)
    requires
        val & 0x7 != 1,
        val & 0x7 != 2,
        val & 0x7 != 3,
        val & 0x7 != 4,
        val & 0x7 != 5,
        val & 0x7 != 6,
        val & 0x7 != 7,
    ensures
        visibility_of(val) == CorTypeVisibility::NotPublic,
{
}

/// Field layout of a type: a two-pattern categorical window inside `0x18`.
#[derive(Debug, Clone, Copy, PartialEq, Eq)]
pub enum CorTypeLayout {
    AutoLayout,
    SequentialLayout,
    ExplicitLayout,
}

/// The layout that the bits of `val` select under the mask `0x18`;
/// `AutoLayout` absorbs the unmatched patterns.
pub open spec fn layout_of(val: usize) -> CorTypeLayout {
    if val & 0x18 == 0x8 {
        CorTypeLayout::SequentialLayout
    } else if val & 0x18 == 0x10 {
        CorTypeLayout::ExplicitLayout
    } else {
        CorTypeLayout::AutoLayout
    }
}

impl CorTypeLayout {
    /// Decodes the layout sub-field of a type-attribute word. Total: every
    /// raw value yields exactly one variant.
    pub fn new(val: usize) -> (res: Self)
        ensures
            res == layout_of(val),
    {
        match val & 0x18 {
            0x8 => Self::SequentialLayout,
            0x10 => Self::ExplicitLayout,
            _ => Self::AutoLayout,
        }
    }
}

impl Default for CorTypeLayout {
    fn default() -> (res: Self)
        ensures
            res == CorTypeLayout::AutoLayout,
    {
        Self::AutoLayout
    }
}

/// When the masked bits match none of the defined layout patterns, the
/// decoder yields the default variant.
pub proof fn lemma_layout_unmatched(val: usize)
    requires
        val & 0x18 != 0x8,
        val & 0x18 != 0x10,
    ensures
        layout_of(val) == CorTypeLayout::AutoLayout,
{
}

/// Class semantics of a type: the one-bit categorical window `0x20`.
#[derive(Debug, Clone, Copy, PartialEq, Eq)]
pub enum CorTypeSemantics {
    Class,
    Interface,
}

/// The semantics that the bits of `val` select under the mask `0x20`;
/// `Class` absorbs the unmatched pattern.
pub open spec fn semantics_of(val: usize) -> CorTypeSemantics {
    if val & 0x20 == 0x20 {
        CorTypeSemantics::Interface
    } else {
        CorTypeSemantics::Class
    }
}

impl CorTypeSemantics {
    /// Decodes the class-semantics sub-field of a type-attribute word.
    /// Total: every raw value yields exactly one variant.
    pub fn new(val: usize) -> (res: Self)
        ensures
            res == semantics_of(val),
    {
        match val & 0x20 {
            0x20 => Self::Interface,
            _ => Self::Class,
        }
    }
}

impl Default for CorTypeSemantics {
    fn default() -> (res: Self)
        ensures
            res == CorTypeSemantics::Class,
    {
        Self::Class
    }
}

/// When the interface bit is clear, the decoder yields the default variant.
pub proof fn lemma_semantics_unmatched(val: usize)
    requires
        val & 0x20 != 0x20,
    ensures
        semantics_of(val) == CorTypeSemantics::Class,
{
}

/// The independent boolean flags of a type-attribute word, each tested by
/// its own bit.
#[derive(Debug, Clone, Copy, PartialEq, Eq)]
pub enum CorTypeAttrFlags {
    Abstract,
    Sealed,
    SpecialName,
    RTSpecialName,
    Import,
    Serializable,
    WindowsRuntime,
    HasSecurity,
    BeforeFieldInit,
    Forwarder,
}

/// The flags whose bits are set in `val`, in the declared bit order. A pure
/// function of `val`: the ordering is the same on every call.
pub open spec fn type_flags_of(val: usize) -> Seq<CorTypeAttrFlags> {
    let s = Seq::<CorTypeAttrFlags>::empty();
    let s = if val & 0x00000080 != 0 {
        s.push(CorTypeAttrFlags::Abstract)
    } else {
        s
    };
    let s = if val & 0x00000100 != 0 {
        s.push(CorTypeAttrFlags::Sealed)
    } else {
        s
    };
    let s = if val & 0x00000400 != 0 {
        s.push(CorTypeAttrFlags::SpecialName)
    } else {
        s
    };
    let s = if val & 0x00000800 != 0 {
        s.push(CorTypeAttrFlags::RTSpecialName)
    } else {
        s
    };
    let s = if val & 0x00001000 != 0 {
        s.push(CorTypeAttrFlags::Import)
    } else {
        s
    };
    let s = if val & 0x00002000 != 0 {
        s.push(CorTypeAttrFlags::Serializable)
    } else {
        s
    };
    let s = if val & 0x00004000 != 0 {
        s.push(CorTypeAttrFlags::WindowsRuntime)
    } else {
        s
    };
    let s = if val & 0x00040000 != 0 {
        s.push(CorTypeAttrFlags::HasSecurity)
    } else {
        s
    };
    let s = if val & 0x00100000 != 0 {
        s.push(CorTypeAttrFlags::BeforeFieldInit)
    } else {
        s
    };
    let s = if val & 0x00200000 != 0 {
        s.push(CorTypeAttrFlags::Forwarder)
    } else {
        s
    };
    s
}

/// How many of the qualifying flag bits are set in `val`.
pub open spec fn type_flags_count(val: usize) -> nat {
    (if val & 0x00000080 != 0 { 1nat } else { 0nat })
    + (if val & 0x00000100 != 0 { 1nat } else { 0nat })
    + (if val & 0x00000400 != 0 { 1nat } else { 0nat })
    + (if val & 0x00000800 != 0 { 1nat } else { 0nat })
    + (if val & 0x00001000 != 0 { 1nat } else { 0nat })
    + (if val & 0x00002000 != 0 { 1nat } else { 0nat })
    + (if val & 0x00004000 != 0 { 1nat } else { 0nat })
    + (if val & 0x00040000 != 0 { 1nat } else { 0nat })
    + (if val & 0x00100000 != 0 { 1nat } else { 0nat })
    + (if val & 0x00200000 != 0 { 1nat } else { 0nat })
}

impl CorTypeAttrFlags {
    /// Decodes the flag set of a type-attribute word: each flag is tested by
    /// its own bit, independently of the others, and appended in the
    /// declared bit order. Total, and a pure function of `val`.
    pub fn new(val: usize) -> (res: Vec<Self>)
        ensures
            res@ == type_flags_of(val),
    {
        let mut res: Vec<Self> = Vec::new();
        if val & 0x00000080 != 0 {
            res.push(Self::Abstract);
        }
        if val & 0x00000100 != 0 {
            res.push(Self::Sealed);
        }
        if val & 0x00000400 != 0 {
            res.push(Self::SpecialName);
        }
        if val & 0x00000800 != 0 {
            res.push(Self::RTSpecialName);
        }
        if val & 0x00001000 != 0 {
            res.push(Self::Import);
        }
        if val & 0x00002000 != 0 {
            res.push(Self::Serializable);
        }
        if val & 0x00004000 != 0 {
            res.push(Self::WindowsRuntime);
        }
        if val & 0x00040000 != 0 {
            res.push(Self::HasSecurity);
        }
        if val & 0x00100000 != 0 {
            res.push(Self::BeforeFieldInit);
        }
        if val & 0x00200000 != 0 {
            res.push(Self::Forwarder);
        }
        res
    }
}

/// A word with none of the qualifying flag bits set decodes to the empty
/// flag sequence.
pub proof fn lemma_type_flags_empty(val: usize)
    requires
        val & 0x00000080 == 0,
        val & 0x00000100 == 0,
        val & 0x00000400 == 0,
        val & 0x00000800 == 0,
        val & 0x00001000 == 0,
        val & 0x00002000 == 0,
        val & 0x00004000 == 0,
        val & 0x00040000 == 0,
        val & 0x00100000 == 0,
        val & 0x00200000 == 0,
    ensures
        type_flags_of(val) == Seq::<CorTypeAttrFlags>::empty(),
{
}

/// The decoded flag sequence has exactly one entry per set qualifying bit,
/// however many flags are set at once.
pub proof fn lemma_type_flags_len(val: usize)
    ensures
        type_flags_of(val).len() == type_flags_count(val),
{
}

/// String format of a type: the two-bit categorical window `0x30000`.
#[derive(Debug, Clone, Copy, PartialEq, Eq)]
pub enum CorTypeStringFormat {
    AnsiClass,
    UnicodeClass,
    AutoClass,
    CustomFormatClass,
}

/// The string format that the bits of `val` select under the mask
/// `0x30000`; `AnsiClass` absorbs the one unmatched pattern.
pub open spec fn string_format_of(val: usize) -> CorTypeStringFormat {
    if val & 0x00030000 == 0x00010000 {
        CorTypeStringFormat::UnicodeClass
    } else if val & 0x00030000 == 0x00020000 {
        CorTypeStringFormat::AutoClass
    } else if val & 0x00030000 == 0x00030000 {
        CorTypeStringFormat::CustomFormatClass
    } else {
        CorTypeStringFormat::AnsiClass
    }
}

impl CorTypeStringFormat {
    /// Decodes the string-format sub-field of a type-attribute word. Total:
    /// every raw value yields exactly one variant.
    pub fn new(val: usize) -> (res: Self)
        ensures
            res == string_format_of(val),
    {
        match val & 0x00030000 {
            0x00010000 => Self::UnicodeClass,
            0x00020000 => Self::AutoClass,
            0x00030000 => Self::CustomFormatClass,
            _ => Self::AnsiClass,
        }
    }
}

impl Default for CorTypeStringFormat {
    fn default() -> (res: Self)
        ensures
            res == CorTypeStringFormat::AnsiClass,
    {
        Self::AnsiClass
    }
}

/// When the masked bits match none of the defined string-format patterns,
/// the decoder yields the default variant.
pub proof fn lemma_string_format_unmatched(val: usize)
    requires
        val & 0x00030000 != 0x00010000,
        val & 0x00030000 != 0x00020000,
        val & 0x00030000 != 0x00030000,
    ensures
        string_format_of(val) == CorTypeStringFormat::AnsiClass,
{
}

/// The fully decoded type-attribute record: one value per categorical
/// sub-field plus the flag set, all derived from a single 32-bit word.
#[derive(Debug, Clone, PartialEq)]
pub struct ClrTypeAttr {
    pub visibility: CorTypeVisibility,
    pub layout: CorTypeLayout,
    pub class_semantics: CorTypeSemantics,
    pub flags: Vec<CorTypeAttrFlags>,
    pub string_format: CorTypeStringFormat,
}

impl ClrTypeAttr {
    /// Every sub-field of this record is the decoding of the single word
    /// `val`.
    pub open spec fn is_decoding_of(self, val: usize) -> bool {
        &&& self.visibility == visibility_of(val)
        &&& self.layout == layout_of(val)
        &&& self.class_semantics == semantics_of(val)
        &&& self.flags@ == type_flags_of(val)
        &&& self.string_format == string_format_of(val)
    }

    /// The default-constructed state: every categorical sub-field at its
    /// default variant and the flag set empty.
    pub open spec fn is_unset(self) -> bool {
        &&& self.visibility == CorTypeVisibility::NotPublic
        &&& self.layout == CorTypeLayout::AutoLayout
        &&& self.class_semantics == CorTypeSemantics::Class
        &&& self.flags@ == Seq::<CorTypeAttrFlags>::empty()
        &&& self.string_format == CorTypeStringFormat::AnsiClass
    }

    /// Populates every sub-field from a four-byte little-endian buffer in
    /// one atomic pass: on the exact expected length all sub-fields are
    /// decoded from the same word and the call succeeds; on any other
    /// length the length-mismatch error is returned and the record is left
    /// untouched.
    pub fn set(&mut self, data: &[u8]) -> (r: Result<(), DecodeError>)
        ensures
            data@.len() == 4 ==> r == Ok::<(), DecodeError>(()) && final(self).is_decoding_of(
                le_word(data@) as usize,
            ),
            data@.len() != 4 ==> r == Err::<(), DecodeError>(
                DecodeError::LengthMismatch { actual: data@.len() as usize, expected: 4 },
            ) && *final(self) == *old(self),
    {
        let val: usize = match read_le_word(data, 4) {
            Ok(v) => v,
            Err(e) => {
                return Err(e);
            },
        };
        self.visibility = CorTypeVisibility::new(val);
        self.layout = CorTypeLayout::new(val);
        self.class_semantics = CorTypeSemantics::new(val);
        self.flags = CorTypeAttrFlags::new(val);
        self.string_format = CorTypeStringFormat::new(val);
        Ok(())
    }
}

impl Default for ClrTypeAttr {
    fn default() -> (res: Self)
        ensures
            res.is_unset(),
    {
        ClrTypeAttr {
            visibility: CorTypeVisibility::default(),
            layout: CorTypeLayout::default(),
            class_semantics: CorTypeSemantics::default(),
            flags: Vec::new(),
            string_format: CorTypeStringFormat::default(),
        }
    }
}

/// Decoding is deterministic: any two records decoded from the same
/// attribute word agree on every sub-field, so repeating `set` with the
/// same buffer reproduces the record bit for bit.
pub proof fn lemma_type_attr_deterministic(a: ClrTypeAttr, b: ClrTypeAttr, val: usize)
    requires
        a.is_decoding_of(val),
        b.is_decoding_of(val),
    ensures
        a.visibility == b.visibility,
        a.layout == b.layout,
        a.class_semantics == b.class_semantics,
        a.flags@ == b.flags@,
        a.string_format == b.string_format,
{
}

} // verus!
