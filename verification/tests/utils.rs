use winparsingtools::cursor::ByteCursor;
use winparsingtools::utils::read_cp1252_string;
use winparsingtools::utils::read_utf16_string;
use winparsingtools::utils::read_utf8_string;
use winparsingtools::utils::Rot13;
use winparsingtools::IoFailure;
use winparsingtools::ReaderError;

const TRUNCATED: ReaderError = ReaderError::IoError(IoFailure::Truncated);

#[test]
fn utf8_string_ends_at_its_zero() {
    let data = [b'a', b'b', 0, b'c'];
    let mut c = ByteCursor::new(&data);
    assert_eq!(read_utf8_string(&mut c, None), Ok("ab".to_string()));
    assert_eq!(c.pos(), 3);
}

#[test]
fn utf8_string_may_be_empty() {
    let data = [0, b'c'];
    let mut c = ByteCursor::new(&data);
    assert_eq!(read_utf8_string(&mut c, None), Ok(String::new()));
    assert_eq!(c.pos(), 1);
    assert_eq!(read_utf8_string(&mut c, Some(0)), Ok(String::new()));
    assert_eq!(c.pos(), 1);
}

#[test]
fn utf8_string_without_a_zero_is_truncated() {
    let data = [b'a', b'b'];
    let mut c = ByteCursor::new(&data);
    assert_eq!(read_utf8_string(&mut c, None), Err(TRUNCATED));
    assert_eq!(c.pos(), 2);
    let mut c = ByteCursor::new(&[]);
    assert_eq!(read_utf8_string(&mut c, None), Err(TRUNCATED));
}

#[test]
fn utf8_string_of_a_length_stops_at_a_zero_inside() {
    let data = [b'C', b'F', 0, 0, b'x'];
    let mut c = ByteCursor::new(&data);
    assert_eq!(read_utf8_string(&mut c, Some(4)), Ok("CF".to_string()));
    assert_eq!(c.pos(), 4);
    let mut c = ByteCursor::new(&data);
    assert_eq!(read_utf8_string(&mut c, Some(5)), Ok("CF".to_string()));
    assert_eq!(c.pos(), 5);
    let mut c = ByteCursor::new(&data);
    assert_eq!(read_utf8_string(&mut c, Some(6)), Err(TRUNCATED));
    assert_eq!(c.pos(), 5);
}

#[test]
fn utf8_string_decodes_more_than_ascii() {
    let data = [0xC3, 0xA9, 0xE2, 0x82, 0xAC, 0xF0, 0x9F, 0x98, 0x80, 0];
    let mut c = ByteCursor::new(&data);
    assert_eq!(read_utf8_string(&mut c, None), Ok("\u{E9}\u{20AC}\u{1F600}".to_string()));
}

#[test]
fn utf8_string_of_other_bytes_is_an_error() {
    let data = [b'a', 0xFF, 0, b'z'];
    let mut c = ByteCursor::new(&data);
    assert_eq!(read_utf8_string(&mut c, None), Err(ReaderError::Utf8Error));
    assert_eq!(c.pos(), 3);
    let data = [0xC3, 0];
    let mut c = ByteCursor::new(&data);
    assert_eq!(read_utf8_string(&mut c, Some(2)), Err(ReaderError::Utf8Error));
}

#[test]
fn utf16_string_ends_at_its_zero_unit() {
    let data = [b't', 0, b'e', 0, 0, 0, b'x', 0];
    let mut c = ByteCursor::new(&data);
    assert_eq!(read_utf16_string(&mut c, None), Ok("te".to_string()));
    assert_eq!(c.pos(), 6);
}

#[test]
fn utf16_string_without_a_zero_unit_is_truncated() {
    let data = [b't', 0, b'e', 0, 0];
    let mut c = ByteCursor::new(&data);
    assert_eq!(read_utf16_string(&mut c, None), Err(TRUNCATED));
    assert_eq!(c.pos(), 5);
}

#[test]
fn utf16_string_of_a_length_counts_units() {
    let data = [b'a', 0, b'b', 0, 0, 0, b'c', 0, b'd', 0];
    let mut c = ByteCursor::new(&data);
    assert_eq!(read_utf16_string(&mut c, Some(2)), Ok("ab".to_string()));
    assert_eq!(c.pos(), 4);
    let mut c = ByteCursor::new(&data);
    assert_eq!(read_utf16_string(&mut c, Some(5)), Ok("ab".to_string()));
    assert_eq!(c.pos(), 10);
    let mut c = ByteCursor::new(&data);
    assert_eq!(read_utf16_string(&mut c, Some(6)), Err(TRUNCATED));
    assert_eq!(c.pos(), 10);
    let mut c = ByteCursor::new(&data);
    assert_eq!(read_utf16_string(&mut c, Some(usize::MAX)), Err(TRUNCATED));
}

#[test]
fn utf16_string_pairs_its_surrogates() {
    let data = [0x3D, 0xD8, 0x00, 0xDE, 0xAC, 0x20, 0, 0];
    let mut c = ByteCursor::new(&data);
    assert_eq!(read_utf16_string(&mut c, None), Ok("\u{1F600}\u{20AC}".to_string()));
}

#[test]
fn utf16_string_with_a_lone_surrogate_is_an_error() {
    let data = [b'a', 0, 0x3D, 0xD8, b'b', 0, 0, 0];
    let mut c = ByteCursor::new(&data);
    assert_eq!(read_utf16_string(&mut c, None), Err(ReaderError::Utf16Error));
    assert_eq!(c.pos(), 8);
    let data = [0x00, 0xDE, 0, 0];
    let mut c = ByteCursor::new(&data);
    assert_eq!(read_utf16_string(&mut c, None), Err(ReaderError::Utf16Error));
    let data = [0x3D, 0xD8];
    let mut c = ByteCursor::new(&data);
    assert_eq!(read_utf16_string(&mut c, Some(1)), Err(ReaderError::Utf16Error));
}

#[test]
fn cp1252_string_maps_each_byte() {
    let data = [b'a', 0x80, 0xE9, 0, b'z'];
    let mut c = ByteCursor::new(&data);
    assert_eq!(read_cp1252_string(&mut c, None), Ok("a\u{20AC}\u{E9}".to_string()));
    assert_eq!(c.pos(), 4);
}

#[test]
fn cp1252_string_of_a_length_keeps_its_zeros() {
    let data = [b'a', 0, b'b'];
    let mut c = ByteCursor::new(&data);
    assert_eq!(read_cp1252_string(&mut c, Some(3)), Ok("a\0b".to_string()));
    assert_eq!(c.pos(), 3);
    let mut c = ByteCursor::new(&data);
    assert_eq!(read_cp1252_string(&mut c, Some(4)), Err(TRUNCATED));
}

#[test]
fn cp1252_string_behind_a_mark_of_utf8_is_read_as_utf8() {
    let data = [0xEF, 0xBB, 0xBF, b'a', 0];
    let mut c = ByteCursor::new(&data);
    assert_eq!(read_cp1252_string(&mut c, None), Ok("a".to_string()));
    let data = [0xEF, 0xBB, 0xBF, 0xFF, 0];
    let mut c = ByteCursor::new(&data);
    assert_eq!(read_cp1252_string(&mut c, None), Err(ReaderError::CP1252Error));
    assert_eq!(c.pos(), 5);
}

#[test]
fn cp1252_string_without_a_zero_is_truncated() {
    let data = [b'a'];
    let mut c = ByteCursor::new(&data);
    assert_eq!(read_cp1252_string(&mut c, None), Err(TRUNCATED));
}

#[test]
fn rot13_replaces_the_letters_only() {
    assert_eq!(Rot13::from("Uryyb, Jbeyq! 123".to_string()).to_string(), "Hello, World! 123");
    assert_eq!(Rot13::from("AMNZamnz".to_string()).decode(), "NZAMnzam");
    assert_eq!(Rot13::from("@[`{ \u{E9}\u{1F600}".to_string()).decode(), "@[`{ \u{E9}\u{1F600}");
    assert_eq!(Rot13::from(String::new()).decode(), "");
}

#[test]
fn rot13_twice_gives_the_text_back() {
    let text = "The Quick Brown Fox \u{20AC} 42".to_string();
    let once = Rot13::from(text.clone()).decode();
    assert_ne!(once, text);
    assert_eq!(Rot13::from(once).decode(), text);
}
