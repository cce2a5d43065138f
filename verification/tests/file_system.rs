use winparsingtools::file_system::FileAttributesFlags;
use winparsingtools::file_system::FileReference;
use winparsingtools::cursor::ByteCursor;

#[test]
fn attribute_flags_of_no_bits_are_none() {
    assert_eq!(FileAttributesFlags::from_u32(0), vec![]);
}

#[test]
fn attribute_flags_of_one_bit() {
    assert_eq!(FileAttributesFlags::from_u32(0x20), vec![FileAttributesFlags::ARCHIVE]);
    assert_eq!(FileAttributesFlags::from_u32(0x1), vec![FileAttributesFlags::READONLY]);
    assert_eq!(FileAttributesFlags::from_u32(0x2_0000), vec![FileAttributesFlags::NO_SCRUB_DATA]);
}

#[test]
fn attribute_flags_come_lowest_bit_first() {
    assert_eq!(
        FileAttributesFlags::from_u32(0x26),
        vec![
            FileAttributesFlags::HIDDEN,
            FileAttributesFlags::SYSTEM,
            FileAttributesFlags::ARCHIVE
        ]
    );
    assert_eq!(
        FileAttributesFlags::from_u32(0x11),
        vec![FileAttributesFlags::READONLY, FileAttributesFlags::DIRECTORY]
    );
}

#[test]
fn attribute_flags_of_all_bits() {
    let all = FileAttributesFlags::from_u32(u32::MAX);
    assert_eq!(
        all,
        vec![
            FileAttributesFlags::READONLY,
            FileAttributesFlags::HIDDEN,
            FileAttributesFlags::SYSTEM,
            FileAttributesFlags::VOLUME_LABEL,
            FileAttributesFlags::DIRECTORY,
            FileAttributesFlags::ARCHIVE,
            FileAttributesFlags::DEVICE,
            FileAttributesFlags::NORMAL,
            FileAttributesFlags::TEMPORARY,
            FileAttributesFlags::SPARSE_FILE,
            FileAttributesFlags::REPARSE_POINT,
            FileAttributesFlags::COMPRESSED,
            FileAttributesFlags::OFFLINE,
            FileAttributesFlags::NOT_CONTENT_INDEXED,
            FileAttributesFlags::ENCRYPTED,
            FileAttributesFlags::INTEGRITY_STREAM,
            FileAttributesFlags::VIRTUAL,
            FileAttributesFlags::NO_SCRUB_DATA
        ]
    );
    assert_eq!(FileAttributesFlags::from_u32(0xFFFC_0000), vec![]);
}

#[test]
fn attribute_flag_is_written_by_its_name() {
    assert_eq!(FileAttributesFlags::NOT_CONTENT_INDEXED.to_string(), "NOT_CONTENT_INDEXED");
    assert_eq!(FileAttributesFlags::ARCHIVE.to_string(), "ARCHIVE");
}

#[test]
fn file_reference_is_six_bytes_of_entry_and_two_of_sequence() {
    let r = FileReference::from_buffer(&[0x26, 0x74, 0x02, 0x00, 0x00, 0x00, 0x08, 0x00]).unwrap();
    assert_eq!(r.mft_entry, 0x0002_7426);
    assert_eq!(r.sequence_number, 8);
    let r = FileReference::from_buffer(&[1, 2, 3, 4, 5, 6, 7, 8, 9]).unwrap();
    assert_eq!(r.mft_entry, 0x0605_0403_0201);
    assert_eq!(r.sequence_number, 0x0807);
}

#[test]
fn file_reference_moves_the_cursor_by_eight() {
    let data = [0xFF, 1, 0, 0, 0, 0, 0, 2, 0, 0xEE];
    let mut cursor = ByteCursor::new(&data);
    cursor.skip(1);
    let r = FileReference::from_reader(&mut cursor).unwrap();
    assert_eq!(r, FileReference { mft_entry: 1, sequence_number: 2 });
    assert_eq!(cursor.pos(), 9);
}
