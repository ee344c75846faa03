use clrmeta::error::DecodeError;
use clrmeta::extract::read_le_word;
use clrmeta::typeattr::ClrTypeAttr;
use clrmeta::typeattr::CorTypeAttrFlags;
use clrmeta::typeattr::CorTypeLayout;
use clrmeta::typeattr::CorTypeSemantics;
use clrmeta::typeattr::CorTypeStringFormat;
use clrmeta::typeattr::CorTypeVisibility;

#[test]
fn read_le_word_exact_value() {
    assert_eq!(read_le_word(&[0x0d, 0x80, 0x00, 0x00], 4), Ok(0x800d));
    assert_eq!(read_le_word(&[0x0e, 0x80], 2), Ok(0x800e));
    assert_eq!(read_le_word(&[0x12, 0x34, 0x56, 0x78], 4), Ok(0x78563412));
    assert_eq!(read_le_word(&[0xff, 0xff, 0xff, 0xff], 4), Ok(0xffffffff));
    assert_eq!(read_le_word(&[], 0), Ok(0));
}

#[test]
fn read_le_word_wrong_length() {
    assert_eq!(
        read_le_word(&[0x01, 0x02], 4),
        Err(DecodeError::LengthMismatch { actual: 2, expected: 4 })
    );
    assert_eq!(
        read_le_word(&[0x01, 0x02, 0x03], 2),
        Err(DecodeError::LengthMismatch { actual: 3, expected: 2 })
    );
}

#[test]
fn visibility_every_pattern() {
    assert_eq!(CorTypeVisibility::new(0), CorTypeVisibility::NotPublic);
    assert_eq!(CorTypeVisibility::new(1), CorTypeVisibility::Public);
    assert_eq!(CorTypeVisibility::new(2), CorTypeVisibility::NestedPublic);
    assert_eq!(CorTypeVisibility::new(3), CorTypeVisibility::NestedPrivate);
    assert_eq!(CorTypeVisibility::new(4), CorTypeVisibility::NestedFamily);
    assert_eq!(CorTypeVisibility::new(5), CorTypeVisibility::NestedAssembly);
    assert_eq!(CorTypeVisibility::new(6), CorTypeVisibility::NestedFamANDAssem);
    assert_eq!(CorTypeVisibility::new(7), CorTypeVisibility::NestedFamORAssem);
}

#[test]
fn visibility_ignores_bits_outside_mask() {
    assert_eq!(CorTypeVisibility::new(0xfffffff9), CorTypeVisibility::Public);
    assert_eq!(CorTypeVisibility::new(0x100), CorTypeVisibility::NotPublic);
}

#[test]
fn layout_every_pattern() {
    assert_eq!(CorTypeLayout::new(0x8), CorTypeLayout::SequentialLayout);
    assert_eq!(CorTypeLayout::new(0x10), CorTypeLayout::ExplicitLayout);
    assert_eq!(CorTypeLayout::new(0x0), CorTypeLayout::AutoLayout);
    // Both window bits set matches no defined pattern: the default absorbs it.
    assert_eq!(CorTypeLayout::new(0x18), CorTypeLayout::AutoLayout);
    assert_eq!(CorTypeLayout::new(0x7), CorTypeLayout::AutoLayout);
}

#[test]
fn semantics_every_pattern() {
    assert_eq!(CorTypeSemantics::new(0x20), CorTypeSemantics::Interface);
    assert_eq!(CorTypeSemantics::new(0x0), CorTypeSemantics::Class);
    assert_eq!(CorTypeSemantics::new(0x1f), CorTypeSemantics::Class);
}

#[test]
fn string_format_every_pattern() {
    assert_eq!(CorTypeStringFormat::new(0x00010000), CorTypeStringFormat::UnicodeClass);
    assert_eq!(CorTypeStringFormat::new(0x00020000), CorTypeStringFormat::AutoClass);
    assert_eq!(CorTypeStringFormat::new(0x00030000), CorTypeStringFormat::CustomFormatClass);
    assert_eq!(CorTypeStringFormat::new(0x0), CorTypeStringFormat::AnsiClass);
    assert_eq!(CorTypeStringFormat::new(0x00040000), CorTypeStringFormat::AnsiClass);
}

#[test]
fn type_flags_empty_when_no_bit_set() {
    assert_eq!(CorTypeAttrFlags::new(0), Vec::new());
    // Bits outside every flag window do not qualify.
    assert_eq!(CorTypeAttrFlags::new(0x3f), Vec::new());
}

#[test]
fn type_flags_each_single_bit() {
    assert_eq!(CorTypeAttrFlags::new(0x00000080), vec![CorTypeAttrFlags::Abstract]);
    assert_eq!(CorTypeAttrFlags::new(0x00000100), vec![CorTypeAttrFlags::Sealed]);
    assert_eq!(CorTypeAttrFlags::new(0x00000400), vec![CorTypeAttrFlags::SpecialName]);
    assert_eq!(CorTypeAttrFlags::new(0x00000800), vec![CorTypeAttrFlags::RTSpecialName]);
    assert_eq!(CorTypeAttrFlags::new(0x00001000), vec![CorTypeAttrFlags::Import]);
    assert_eq!(CorTypeAttrFlags::new(0x00002000), vec![CorTypeAttrFlags::Serializable]);
    assert_eq!(CorTypeAttrFlags::new(0x00004000), vec![CorTypeAttrFlags::WindowsRuntime]);
    assert_eq!(CorTypeAttrFlags::new(0x00040000), vec![CorTypeAttrFlags::HasSecurity]);
    assert_eq!(CorTypeAttrFlags::new(0x00100000), vec![CorTypeAttrFlags::BeforeFieldInit]);
    assert_eq!(CorTypeAttrFlags::new(0x00200000), vec![CorTypeAttrFlags::Forwarder]);
}

#[test]
fn type_flags_all_bits_in_declared_order() {
    let all = 0x00000080
        | 0x00000100
        | 0x00000400
        | 0x00000800
        | 0x00001000
        | 0x00002000
        | 0x00004000
        | 0x00040000
        | 0x00100000
        | 0x00200000;
    let flags = CorTypeAttrFlags::new(all);
    assert_eq!(
        flags,
        vec![
            CorTypeAttrFlags::Abstract,
            CorTypeAttrFlags::Sealed,
            CorTypeAttrFlags::SpecialName,
            CorTypeAttrFlags::RTSpecialName,
            CorTypeAttrFlags::Import,
            CorTypeAttrFlags::Serializable,
            CorTypeAttrFlags::WindowsRuntime,
            CorTypeAttrFlags::HasSecurity,
            CorTypeAttrFlags::BeforeFieldInit,
            CorTypeAttrFlags::Forwarder,
        ]
    );
}

#[test]
fn type_flags_length_counts_set_bits() {
    // Three independent bits set at once: three flags, one per bit.
    let flags = CorTypeAttrFlags::new(0x00000080 | 0x00002000 | 0x00200000);
    assert_eq!(flags.len(), 3);
}

#[test]
fn type_flags_ordering_stable_across_calls() {
    let val = 0x00100080 | 0x00000400;
    let first = CorTypeAttrFlags::new(val);
    let second = CorTypeAttrFlags::new(val);
    assert_eq!(first, second);
}

#[test]
fn default_record_is_unset() {
    let rec = ClrTypeAttr::default();
    assert_eq!(rec.visibility, CorTypeVisibility::NotPublic);
    assert_eq!(rec.layout, CorTypeLayout::AutoLayout);
    assert_eq!(rec.class_semantics, CorTypeSemantics::Class);
    assert_eq!(rec.flags, Vec::new());
    assert_eq!(rec.string_format, CorTypeStringFormat::AnsiClass);
}

#[test]
fn set_decodes_public_class_word() {
    // Raw word 0x00000001: visibility Public, everything else at its default.
    let mut rec = ClrTypeAttr::default();
    let r = rec.set(&[0x01, 0x00, 0x00, 0x00]);
    assert_eq!(r, Ok(()));
    assert_eq!(rec.visibility, CorTypeVisibility::Public);
    assert_eq!(rec.layout, CorTypeLayout::AutoLayout);
    assert_eq!(rec.class_semantics, CorTypeSemantics::Class);
    assert_eq!(rec.flags, Vec::new());
    assert_eq!(rec.string_format, CorTypeStringFormat::AnsiClass);
}

#[test]
fn set_decodes_abstract_before_field_init_word() {
    // Raw word 0x00100080, little-endian bytes: flags are exactly
    // Abstract and BeforeFieldInit.
    let mut rec = ClrTypeAttr::default();
    let r = rec.set(&[0x80, 0x00, 0x10, 0x00]);
    assert_eq!(r, Ok(()));
    assert_eq!(
        rec.flags,
        vec![CorTypeAttrFlags::Abstract, CorTypeAttrFlags::BeforeFieldInit]
    );
    assert_eq!(rec.visibility, CorTypeVisibility::NotPublic);
    assert_eq!(rec.layout, CorTypeLayout::AutoLayout);
    assert_eq!(rec.class_semantics, CorTypeSemantics::Class);
    assert_eq!(rec.string_format, CorTypeStringFormat::AnsiClass);
}

#[test]
fn set_decodes_every_sub_field_from_one_word() {
    // Raw word 0x001234ad packs every sub-field at once: visibility 5
    // (NestedAssembly), layout 0x8 (Sequential), semantics 0x20 (Interface),
    // flag bits 0x80, 0x400, 0x1000, 0x2000 and 0x100000, and string-format
    // bits 0x20000 (AutoClass).
    let mut rec = ClrTypeAttr::default();
    let r = rec.set(&[0xad, 0x34, 0x12, 0x00]);
    assert_eq!(r, Ok(()));
    assert_eq!(rec.visibility, CorTypeVisibility::NestedAssembly);
    assert_eq!(rec.layout, CorTypeLayout::SequentialLayout);
    assert_eq!(rec.class_semantics, CorTypeSemantics::Interface);
    assert_eq!(
        rec.flags,
        vec![
            CorTypeAttrFlags::Abstract,
            CorTypeAttrFlags::SpecialName,
            CorTypeAttrFlags::Import,
            CorTypeAttrFlags::Serializable,
            CorTypeAttrFlags::BeforeFieldInit,
        ]
    );
    assert_eq!(rec.string_format, CorTypeStringFormat::AutoClass);
}

#[test]
fn set_rejects_short_buffer() {
    let mut rec = ClrTypeAttr::default();
    let r = rec.set(&[0x01, 0x02, 0x03]);
    assert_eq!(r, Err(DecodeError::LengthMismatch { actual: 3, expected: 4 }));
    // The record is left untouched.
    assert_eq!(rec, ClrTypeAttr::default());
}

#[test]
fn set_rejects_long_buffer() {
    let mut rec = ClrTypeAttr::default();
    let r = rec.set(&[0x01, 0x02, 0x03, 0x04, 0x05]);
    assert_eq!(r, Err(DecodeError::LengthMismatch { actual: 5, expected: 4 }));
    assert_eq!(rec, ClrTypeAttr::default());
}

#[test]
fn set_never_fails_on_exact_width() {
    // Any bit pattern of exactly four bytes succeeds.
    let mut rec = ClrTypeAttr::default();
    assert_eq!(rec.set(&[0xff, 0xff, 0xff, 0xff]), Ok(()));
    assert_eq!(rec.set(&[0x00, 0x00, 0x00, 0x00]), Ok(()));
    assert_eq!(rec.set(&[0x5a, 0xa5, 0x5a, 0xa5]), Ok(()));
}

#[test]
fn set_failure_leaves_previous_decoding_in_place() {
    let mut rec = ClrTypeAttr::default();
    assert_eq!(rec.set(&[0x01, 0x00, 0x00, 0x00]), Ok(()));
    let before = rec.clone();
    let r = rec.set(&[0x01, 0x02]);
    assert_eq!(r, Err(DecodeError::LengthMismatch { actual: 2, expected: 4 }));
    assert_eq!(rec, before);
}

#[test]
fn set_twice_same_buffer_is_idempotent() {
    let data = [0xad, 0x34, 0x12, 0x00];
    let mut first = ClrTypeAttr::default();
    assert_eq!(first.set(&data), Ok(()));
    let after_once = first.clone();
    assert_eq!(first.set(&data), Ok(()));
    assert_eq!(first, after_once);

    // A fresh record decodes to the same value as a re-used one.
    let mut second = ClrTypeAttr::default();
    assert_eq!(second.set(&data), Ok(()));
    assert_eq!(first, second);
}

#[test]
fn set_overwrites_previous_decoding() {
    let mut rec = ClrTypeAttr::default();
    assert_eq!(rec.set(&[0x80, 0x00, 0x10, 0x00]), Ok(()));
    assert_eq!(rec.set(&[0x01, 0x00, 0x00, 0x00]), Ok(()));
    assert_eq!(rec.visibility, CorTypeVisibility::Public);
    assert_eq!(rec.flags, Vec::new());
}
