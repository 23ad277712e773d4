use window_reconciler::utf16::{encode_title, encode_utf16};

#[test]
fn ascii_title() {
    assert_eq!(encode_utf16("hello"), vec![0x68, 0x65, 0x6C, 0x6C, 0x6F]);
    assert_eq!(encode_title("hello"), vec![0x68, 0x65, 0x6C, 0x6C, 0x6F, 0]);
}

#[test]
fn empty_title_is_just_the_terminator() {
    assert_eq!(encode_utf16(""), Vec::<u16>::new());
    assert_eq!(encode_title(""), vec![0]);
}

#[test]
fn basic_multilingual_plane_characters_are_single_units() {
    assert_eq!(encode_utf16("\u{4F60}\u{597D}"), vec![0x4F60, 0x597D]);
    assert_eq!(encode_title("\u{4F60}\u{597D}"), vec![0x4F60, 0x597D, 0]);
}

#[test]
fn supplementary_characters_become_surrogate_pairs() {
    // U+1D11E is encoded as the pair D834 DD1E.
    assert_eq!(encode_utf16("\u{1D11E}"), vec![0xD834, 0xDD1E]);
    // U+10FFFF, the last scalar, as DBFF DFFF.
    assert_eq!(encode_utf16("\u{10FFFF}"), vec![0xDBFF, 0xDFFF]);
    // The first supplementary scalar, U+10000, as D800 DC00.
    assert_eq!(encode_utf16("\u{10000}"), vec![0xD800, 0xDC00]);
}

#[test]
fn mixed_title_matches_the_standard_encoding() {
    let s = "a\u{4F60}\u{1D11E}b";
    let expected: Vec<u16> = s.encode_utf16().collect();
    assert_eq!(encode_utf16(s), expected);
    let mut with_null = expected.clone();
    with_null.push(0);
    assert_eq!(encode_title(s), with_null);
}
