use zbus_proxy::basic::Basic;
use zbus_proxy::wire::Format;
use zbus_proxy::wire::ValueKind;

fn all_kinds() -> Vec<ValueKind> {
    vec![
        ValueKind::U8,
        ValueKind::NonZeroU8,
        ValueKind::I8,
        ValueKind::NonZeroI8,
        ValueKind::Bool,
        ValueKind::I16,
        ValueKind::NonZeroI16,
        ValueKind::U16,
        ValueKind::NonZeroU16,
        ValueKind::I32,
        ValueKind::NonZeroI32,
        ValueKind::U32,
        ValueKind::NonZeroU32,
        ValueKind::I64,
        ValueKind::NonZeroI64,
        ValueKind::U64,
        ValueKind::NonZeroU64,
        ValueKind::F32,
        ValueKind::F64,
        ValueKind::Str,
        ValueKind::Char,
    ]
}

#[test]
fn signature_string_is_signature_char() {
    for k in all_kinds() {
        let s = k.signature_str();
        assert_eq!(s.chars().count(), 1);
        assert_eq!(s.chars().next().unwrap(), k.signature_char());
    }
}

#[test]
fn alignment_is_one_two_four_or_eight() {
    for k in all_kinds() {
        for f in [Format::DBus, Format::GVariant] {
            let a = k.alignment(f);
            assert!(a == 1 || a == 2 || a == 4 || a == 8);
        }
    }
}

#[test]
fn alignment_is_stable_across_repeated_calls() {
    for k in all_kinds() {
        for f in [Format::DBus, Format::GVariant] {
            assert_eq!(k.alignment(f), k.alignment(f));
        }
    }
}

#[test]
fn signature_chars_are_exact() {
    assert_eq!(ValueKind::U8.signature_char(), 'y');
    assert_eq!(ValueKind::Bool.signature_char(), 'b');
    assert_eq!(ValueKind::I16.signature_char(), 'n');
    assert_eq!(ValueKind::U16.signature_char(), 'q');
    assert_eq!(ValueKind::I32.signature_char(), 'i');
    assert_eq!(ValueKind::U32.signature_char(), 'u');
    assert_eq!(ValueKind::I64.signature_char(), 'x');
    assert_eq!(ValueKind::U64.signature_char(), 't');
    assert_eq!(ValueKind::F64.signature_char(), 'd');
    assert_eq!(ValueKind::Str.signature_char(), 's');
}

#[test]
fn alignments_are_exact() {
    for f in [Format::DBus, Format::GVariant] {
        assert_eq!(ValueKind::U8.alignment(f), 1);
        assert_eq!(ValueKind::Bool.alignment(f), 4);
        assert_eq!(ValueKind::I16.alignment(f), 2);
        assert_eq!(ValueKind::U16.alignment(f), 2);
        assert_eq!(ValueKind::I32.alignment(f), 4);
        assert_eq!(ValueKind::U32.alignment(f), 4);
        assert_eq!(ValueKind::I64.alignment(f), 8);
        assert_eq!(ValueKind::U64.alignment(f), 8);
        assert_eq!(ValueKind::F64.alignment(f), 8);
    }
    assert_eq!(ValueKind::Str.alignment(Format::DBus), 4);
    assert_eq!(ValueKind::Str.alignment(Format::GVariant), 1);
}

#[test]
fn signed_eight_bit_reports_as_sixteen_bit_signed() {
    assert_eq!(ValueKind::I8.signature_char(), ValueKind::I16.signature_char());
    assert_eq!(ValueKind::I8.signature_str(), ValueKind::I16.signature_str());
    for f in [Format::DBus, Format::GVariant] {
        assert_eq!(ValueKind::I8.alignment(f), ValueKind::I16.alignment(f));
    }
}

#[test]
fn thirty_two_bit_float_reports_as_sixty_four_bit_float() {
    assert_eq!(ValueKind::F32.signature_char(), ValueKind::F64.signature_char());
    assert_eq!(ValueKind::F32.signature_str(), ValueKind::F64.signature_str());
    for f in [Format::DBus, Format::GVariant] {
        assert_eq!(ValueKind::F32.alignment(f), ValueKind::F64.alignment(f));
    }
}

#[test]
fn char_reports_as_text() {
    assert_eq!(ValueKind::Char.signature_char(), ValueKind::Str.signature_char());
    assert_eq!(ValueKind::Char.signature_str(), ValueKind::Str.signature_str());
    for f in [Format::DBus, Format::GVariant] {
        assert_eq!(ValueKind::Char.alignment(f), ValueKind::Str.alignment(f));
    }
}

#[test]
fn range_refined_kinds_report_as_their_base() {
    let mut seen = 0;
    for k in all_kinds() {
        if let Some(b) = k.refined_base() {
            seen += 1;
            assert_eq!(k.signature_char(), b.signature_char());
            assert_eq!(k.signature_str(), b.signature_str());
            for f in [Format::DBus, Format::GVariant] {
                assert_eq!(k.alignment(f), b.alignment(f));
            }
        }
    }
    assert_eq!(seen, 8);
}

#[test]
fn basic_trait_matches_registry() {
    assert_eq!(<u8 as Basic>::signature_char(), 'y');
    assert_eq!(<u8 as Basic>::signature_str(), "y");
    assert_eq!(<bool as Basic>::signature_char(), 'b');
    assert_eq!(<bool as Basic>::alignment(Format::DBus), 4);
    assert_eq!(<bool as Basic>::alignment(Format::GVariant), 4);
    assert_eq!(<i8 as Basic>::signature_char(), 'n');
    assert_eq!(<i8 as Basic>::alignment(Format::DBus), 2);
    assert_eq!(<i16 as Basic>::signature_char(), 'n');
    assert_eq!(<u16 as Basic>::signature_char(), 'q');
    assert_eq!(<i32 as Basic>::signature_char(), 'i');
    assert_eq!(<u32 as Basic>::signature_char(), 'u');
    assert_eq!(<i64 as Basic>::signature_char(), 'x');
    assert_eq!(<u64 as Basic>::signature_char(), 't');
    assert_eq!(<String as Basic>::signature_char(), 's');
    assert_eq!(<String as Basic>::alignment(Format::DBus), 4);
    assert_eq!(<String as Basic>::alignment(Format::GVariant), 1);
    assert_eq!(<char as Basic>::signature_char(), 's');
}

#[test]
fn references_report_as_their_referent() {
    assert_eq!(<&u8 as Basic>::signature_char(), <u8 as Basic>::signature_char());
    assert_eq!(<&&u32 as Basic>::signature_char(), <u32 as Basic>::signature_char());
    assert_eq!(<&String as Basic>::signature_str(), <String as Basic>::signature_str());
    for f in [Format::DBus, Format::GVariant] {
        assert_eq!(<&String as Basic>::alignment(f), <String as Basic>::alignment(f));
        assert_eq!(<&i64 as Basic>::alignment(f), <i64 as Basic>::alignment(f));
    }
}
