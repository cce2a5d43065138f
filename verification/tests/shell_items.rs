use winparsingtools::cursor::ByteCursor;
use winparsingtools::date_time::DosDateTime;
use winparsingtools::file_system::FileAttributesFlags;
use winparsingtools::structs::shell_items::ControlPanelCategory;
use winparsingtools::structs::shell_items::ControlPanelCategoryShellItem;
use winparsingtools::structs::shell_items::ControlPanelItemShellItem;
use winparsingtools::structs::shell_items::FileEntryShellItem;
use winparsingtools::structs::shell_items::IDList;
use winparsingtools::structs::shell_items::Name;
use winparsingtools::structs::shell_items::NetworkLocationShellItem;
use winparsingtools::structs::shell_items::RootShellItem;
use winparsingtools::structs::shell_items::RootShellItemSortIndex;
use winparsingtools::structs::shell_items::ShellItem;
use winparsingtools::structs::shell_items::ShellItemKind;
use winparsingtools::structs::shell_items::ShellItemTypes;
use winparsingtools::structs::shell_items::URIShellItem;
use winparsingtools::structs::shell_items::UnimplementedShellItem;
use winparsingtools::structs::shell_items::UsersFilesFolderShellItem;
use winparsingtools::structs::shell_items::VolumeShellItem;
use winparsingtools::traits::Path;
use winparsingtools::IoFailure;
use winparsingtools::ReaderError;

const TRUNCATED: ReaderError = ReaderError::IoError(IoFailure::Truncated);

const DELEGATE: [u8; 16] = [
    0x74, 0x1A, 0x59, 0x5E, 0x96, 0xDF, 0xD3, 0x48, 0x8D, 0x67, 0x17, 0x33, 0xBC, 0xEE, 0x28, 0xBA,
];

const MY_COMPUTER: [u8; 16] = [
    0xE0, 0x4F, 0xD0, 0x20, 0xEA, 0x3A, 0x69, 0x10, 0xA2, 0xD8, 0x08, 0x00, 0x2B, 0x30, 0x30, 0x9D,
];

fn record(payload: &[u8]) -> Vec<u8> {
    let mut r = ((payload.len() + 2) as u16).to_le_bytes().to_vec();
    r.extend_from_slice(payload);
    r
}

fn file_entry_payload(tag: u8, name: &[u8]) -> Vec<u8> {
    let mut p = vec![tag, 0x00];
    p.extend_from_slice(&[0x10, 0x20, 0x00, 0x00]);
    p.extend_from_slice(&[0x85, 0x51, 0x79, 0x62]);
    p.extend_from_slice(&[0x20, 0x00]);
    p.extend_from_slice(name);
    p
}

fn small_block(name: &[u8]) -> Vec<u8> {
    let mut b = vec![0x16, 0x00, 0x02, 0x00, 0x04, 0x00, 0xEF, 0xBE];
    b.extend_from_slice(&[0x85, 0x51, 0x79, 0x62, 0x85, 0x51, 0x79, 0x62, 0x2E, 0x00]);
    b.extend_from_slice(name);
    b
}

fn root_payload(sort_index: u8) -> Vec<u8> {
    let mut p = vec![0x1F, sort_index];
    p.extend_from_slice(&MY_COMPUTER);
    p
}

fn trailed_file_entry() -> Vec<u8> {
    vec![
        0x5A, 0x00, 0x32, 0x00, 0x00, 0x00, 0x00, 0x00, 0x85, 0x51, 0x79, 0x62, 0x20, 0x00, 0x74,
        0x65, 0x73, 0x74, 0x2E, 0x74, 0x78, 0x74, 0x00, 0x00, 0x42, 0x00, 0x08, 0x00, 0x04, 0x00,
        0xEF, 0xBE, 0x85, 0x51, 0x79, 0x62, 0x85, 0x51, 0x79, 0x62, 0x2E, 0x00, 0x00, 0x00, 0x26,
        0x74, 0x02, 0x00, 0x00, 0x00, 0x08, 0x00, 0x00, 0x00, 0x00, 0x00, 0x00, 0x00, 0x00, 0x00,
        0x00, 0x00, 0x00, 0x00, 0x00, 0x00, 0x39, 0xD2, 0x1B, 0x01, 0x74, 0x00, 0x65, 0x00, 0x73,
        0x00, 0x74, 0x00, 0x2E, 0x00, 0x74, 0x00, 0x78, 0x00, 0x74, 0x00, 0x00, 0x00, 0x00, 0x00,
    ]
}

#[test]
fn file_entry_with_a_trailing_extra_block() {
    let buffer = trailed_file_entry();
    assert_eq!(buffer.len(), 0x5A);
    let item = ShellItem::from_buffer(&buffer).unwrap();
    assert_eq!(item.size, 0x5A);
    assert_eq!(item.class_type, 0x32);
    assert_eq!(item.name(), "test.txt");
    match item.shell_item_data {
        Some(ShellItemTypes::FileEntry(entry)) => {
            assert!(entry.is_file);
            assert_eq!(entry.file_size, 0);
            assert_eq!(entry.mtime, DosDateTime::new(2020, 12, 5, 12, 19, 50));
            assert_eq!(entry.name, "test.txt");
            assert!(entry.file_attr_flags.contains(&FileAttributesFlags::ARCHIVE));
            assert_eq!(entry.file_attr_flags, vec![FileAttributesFlags::ARCHIVE]);
            let block = entry.extention_block.unwrap();
            assert_eq!(block.primary_name, "test.txt");
            assert_eq!(block.size, 0x42);
            assert_eq!(block.version, 8);
            assert_eq!(block.version_offset, Some(0));
        }
        other => panic!("not a file entry: {:?}", other),
    }
}

#[test]
fn file_entry_followed_by_a_terminator_in_a_list() {
    let mut buffer = trailed_file_entry();
    buffer.extend_from_slice(&[0x00, 0x00]);
    let list = IDList::from_buffer(&buffer).unwrap();
    assert_eq!(list.items().len(), 1);
    assert_eq!(list.path(), Some("test.txt".to_string()));
}

#[test]
fn file_entry_that_ends_with_its_name_has_no_extra_block() {
    let payload = file_entry_payload(0x31, b"Users\0");
    let mut c = ByteCursor::new(&payload);
    let entry = FileEntryShellItem::from_reader(&mut c).unwrap();
    assert_eq!(c.pos(), payload.len());
    assert!(!entry.is_file);
    assert_eq!(entry.file_size, 0x2010);
    assert_eq!(entry.name, "Users");
    assert!(entry.extention_block.is_none());
    assert_eq!(entry.name(), "Users");
}

#[test]
fn file_entry_followed_by_zeros_only_has_no_extra_block() {
    let payload = file_entry_payload(0x31, b"Users\0\0\0\0");
    let mut c = ByteCursor::new(&payload);
    let entry = FileEntryShellItem::from_reader(&mut c).unwrap();
    assert_eq!(c.pos(), payload.len());
    assert_eq!(entry.name, "Users");
    assert!(entry.extention_block.is_none());
}

#[test]
fn file_entry_tells_file_and_encoding_by_two_bits() {
    let mut payload = file_entry_payload(0x36, &[b'a', 0, b'b', 0, 0, 0]);
    payload.extend_from_slice(&small_block(b"long\0"));
    let entry = FileEntryShellItem::from_buffer(&payload).unwrap();
    assert!(entry.is_file);
    assert_eq!(entry.name, "ab");
    assert_eq!(entry.extention_block.as_ref().unwrap().primary_name, "long");
    assert_eq!(entry.name(), "long");
    let payload = file_entry_payload(0x34, &[b'a', 0, b'b', 0, 0, 0, 0, 0]);
    let entry = FileEntryShellItem::from_buffer(&payload).unwrap();
    assert!(!entry.is_file);
    assert_eq!(entry.name, "ab");
    assert!(entry.extention_block.is_none());
    let entry = FileEntryShellItem::from_buffer(&file_entry_payload(0x30, b"x\0")).unwrap();
    assert!(!entry.is_file);
    let entry = FileEntryShellItem::from_buffer(&file_entry_payload(0x32, b"x\0")).unwrap();
    assert!(entry.is_file);
}

#[test]
fn file_entry_finds_its_extra_block_behind_the_padding() {
    let mut payload = file_entry_payload(0x32, b"a.txt\0\0\0");
    payload.extend_from_slice(&small_block(b"a long name.txt\0"));
    payload.push(0xEE);
    let mut c = ByteCursor::new(&payload);
    let entry = FileEntryShellItem::from_reader(&mut c).unwrap();
    assert_eq!(c.pos(), payload.len() - 1);
    assert_eq!(entry.name, "a.txt");
    assert_eq!(entry.name(), "a long name.txt");
}

#[test]
fn file_entry_with_an_extra_block_that_fails_has_none() {
    let mut payload = file_entry_payload(0x32, b"a.txt\0");
    payload.extend_from_slice(&small_block(b"cut"));
    let mut c = ByteCursor::new(&payload);
    let entry = FileEntryShellItem::from_reader(&mut c).unwrap();
    assert_eq!(c.pos(), payload.len());
    assert_eq!(entry.name, "a.txt");
    assert!(entry.extention_block.is_none());
    assert_eq!(entry.name(), "a.txt");
    let mut payload = file_entry_payload(0x32, b"a.txt\0");
    payload.extend_from_slice(&small_block(&[0xFF, 0x00]));
    let entry = FileEntryShellItem::from_buffer(&payload).unwrap();
    assert!(entry.extention_block.is_none());
}

#[test]
fn file_entry_without_its_fields_or_name_fails() {
    let payload = file_entry_payload(0x32, b"a.txt");
    assert_eq!(FileEntryShellItem::from_buffer(&payload).err(), Some(TRUNCATED));
    assert_eq!(FileEntryShellItem::from_buffer(&payload[..11]).err(), Some(TRUNCATED));
    assert_eq!(FileEntryShellItem::from_buffer(&[]).err(), Some(TRUNCATED));
    let payload = file_entry_payload(0x32, &[0xFF, 0x00]);
    assert_eq!(FileEntryShellItem::from_buffer(&payload).err(), Some(ReaderError::Utf8Error));
    let payload = file_entry_payload(0x36, &[0x00, 0xDC, 0x00, 0x00]);
    assert_eq!(FileEntryShellItem::from_buffer(&payload).err(), Some(ReaderError::Utf16Error));
}

#[test]
fn volume_with_a_name() {
    let v = VolumeShellItem::from_buffer(&[0x2F, b'C', b':', b'\\', 0, 0xEE]).unwrap();
    assert!(v.has_name);
    assert!(!v.is_removable_media);
    assert_eq!(v.name, Some("C:\\".to_string()));
    assert_eq!(v.name(), "C:\\");
}

#[test]
fn volume_without_a_name_takes_one_more_byte() {
    let data = [0x2E, 0x00, 0xEE];
    let mut c = ByteCursor::new(&data);
    let v = VolumeShellItem::from_reader(&mut c).unwrap();
    assert_eq!(c.pos(), 2);
    assert!(!v.has_name);
    assert!(v.is_removable_media);
    assert_eq!(v.name, None);
    assert_eq!(v.name(), "");
    let v = VolumeShellItem::from_buffer(&[0x26, 0x00]).unwrap();
    assert!(!v.has_name);
    assert!(!v.is_removable_media);
    assert_eq!(VolumeShellItem::from_buffer(&[0x2E]).err(), Some(TRUNCATED));
    assert_eq!(VolumeShellItem::from_buffer(&[]).err(), Some(TRUNCATED));
}

#[test]
fn volume_with_a_name_that_fails_has_none() {
    let v = VolumeShellItem::from_buffer(&[0x2F, b'C', b':']).unwrap();
    assert!(v.has_name);
    assert_eq!(v.name, None);
    let v = VolumeShellItem::from_buffer(&[0x21, 0xFF, 0x00]).unwrap();
    assert!(v.has_name);
    assert_eq!(v.name, None);
    assert_eq!(v.name(), "");
}

#[test]
fn root_maps_its_sort_index() {
    let root = RootShellItem::from_buffer(&root_payload(0x50)).unwrap();
    assert_eq!(root.sort_index, RootShellItemSortIndex::MY_COMPUTER);
    assert_eq!(root.guid.to_string(), "20D04FE0-3AEA-1069-A2D8-08002B30309D");
    assert_eq!(root.name(), "MY_COMPUTER");
    let codes = [
        (0, RootShellItemSortIndex::INTERNET_EXPLORER1),
        (66, RootShellItemSortIndex::LIBRARIES),
        (68, RootShellItemSortIndex::USERS),
        (72, RootShellItemSortIndex::MY_DOCUMENTS),
        (80, RootShellItemSortIndex::MY_COMPUTER),
        (88, RootShellItemSortIndex::MY_NETWORK_PLACES),
        (96, RootShellItemSortIndex::RECYCLE_BIN),
        (104, RootShellItemSortIndex::INTERNET_EXPLORER2),
        (128, RootShellItemSortIndex::MY_GAMES),
        (112, RootShellItemSortIndex::UNKNOWN(112)),
        (1, RootShellItemSortIndex::UNKNOWN(1)),
        (255, RootShellItemSortIndex::UNKNOWN(255)),
    ];
    for (code, index) in codes {
        assert_eq!(RootShellItemSortIndex::from(code), index);
    }
}

#[test]
fn root_of_an_unknown_sort_index_is_named_by_its_guid() {
    let root = RootShellItem::from_buffer(&root_payload(0x99)).unwrap();
    assert_eq!(root.sort_index, RootShellItemSortIndex::UNKNOWN(0x99));
    assert_eq!(root.name(), "20D04FE0-3AEA-1069-A2D8-08002B30309D");
    assert_eq!(RootShellItem::from_buffer(&root_payload(0x50)[..17]).err(), Some(TRUNCATED));
}

#[test]
fn network_location_reads_what_its_flags_announce() {
    let mut p = vec![0x41, 0x00, 0xC0];
    p.extend_from_slice(b"\\\\srv\\share\0desc\0comm\0rest");
    let mut c = ByteCursor::new(&p);
    let n = NetworkLocationShellItem::from_reader(&mut c).unwrap();
    assert_eq!(c.pos(), p.len() - 4);
    assert_eq!(n.location, "\\\\srv\\share");
    assert_eq!(n.description, Some("desc".to_string()));
    assert_eq!(n.comments, Some("comm".to_string()));
    assert_eq!(n.name(), "\"\\\\\\\\srv\\\\share\"");
    p[2] = 0x80;
    let n = NetworkLocationShellItem::from_buffer(&p).unwrap();
    assert_eq!(n.description, Some("desc".to_string()));
    assert_eq!(n.comments, None);
    p[2] = 0x40;
    let n = NetworkLocationShellItem::from_buffer(&p).unwrap();
    assert_eq!(n.description, None);
    assert_eq!(n.comments, Some("desc".to_string()));
    p[2] = 0x3F;
    let n = NetworkLocationShellItem::from_buffer(&p).unwrap();
    assert_eq!(n.description, None);
    assert_eq!(n.comments, None);
}

#[test]
fn network_location_cut_short_is_truncated() {
    assert_eq!(NetworkLocationShellItem::from_buffer(&[0x41, 0x00]).err(), Some(TRUNCATED));
    assert_eq!(NetworkLocationShellItem::from_buffer(&[0x41, 0, 0, b'a']).err(), Some(TRUNCATED));
    assert_eq!(
        NetworkLocationShellItem::from_buffer(&[0x41, 0, 0x80, b'a', 0, b'd']).err(),
        Some(TRUNCATED)
    );
    assert_eq!(
        NetworkLocationShellItem::from_buffer(&[0x41, 0, 0x40, b'a', 0, 0xFF, 0]).err(),
        Some(ReaderError::Utf8Error)
    );
}

#[test]
fn control_panel_category_maps_its_code() {
    let mut p = vec![0x01, 0, 0, 0, 0, 0, 0, 0, 0x05, 0xEE];
    let mut c = ByteCursor::new(&p);
    let item = ControlPanelCategoryShellItem::from_reader(&mut c).unwrap();
    assert_eq!(c.pos(), 9);
    assert_eq!(item.cat_type, ControlPanelCategory::SystemAndSecurity);
    assert_eq!(item.name(), "System and Security");
    p[8] = 0x10;
    let item = ControlPanelCategoryShellItem::from_buffer(&p).unwrap();
    assert_eq!(item.cat_type, ControlPanelCategory::SecurityCenter);
    assert_eq!(ControlPanelCategoryShellItem::from_buffer(&p[..8]).err(), Some(TRUNCATED));
    let names = [
        (0x0, "All Control Panel Items"),
        (0x1, "Appearance and Personalization"),
        (0x2, "Hardware and Sound"),
        (0x3, "Network and Internet"),
        (0x4, "Sound, Speech and Audio Devices"),
        (0x5, "System and Security"),
        (0x6, "Clock, Language, and Region"),
        (0x7, "Ease of Access"),
        (0x8, "Programs"),
        (0x9, "User Accounts"),
        (0x10, "Security Center"),
        (0x11, "Mobile PC"),
        (0xA, "Unknwon Category : '0xA'"),
        (0xF, "Unknwon Category : '0xF'"),
        (0x12, "Unknwon Category : '0x12'"),
        (0xFF, "Unknwon Category : '0xFF'"),
    ];
    for (code, name) in names {
        assert_eq!(ControlPanelCategory::from(code).to_string(), name);
    }
    assert_eq!(ControlPanelCategory::from(0x2A), ControlPanelCategory::UNKNWON(0x2A));
}

#[test]
fn control_panel_item_has_a_guid_and_maybe_a_block() {
    let mut p = vec![0x71; 12];
    p.extend_from_slice(&MY_COMPUTER);
    let mut c = ByteCursor::new(&p);
    let item = ControlPanelItemShellItem::from_reader(&mut c).unwrap();
    assert_eq!(c.pos(), p.len());
    assert_eq!(item.name(), "20D04FE0-3AEA-1069-A2D8-08002B30309D");
    assert!(item.extention_block.is_none());
    p.extend_from_slice(&small_block(b"n\0"));
    let item = ControlPanelItemShellItem::from_buffer(&p).unwrap();
    assert_eq!(item.extention_block.unwrap().primary_name, "n");
    assert_eq!(ControlPanelItemShellItem::from_buffer(&p[..27]).err(), Some(TRUNCATED));
}

fn uri_with_data(flags: u8, texts: [&[u8]; 3], uri: &[u8]) -> Vec<u8> {
    let mut p = vec![0x61, flags, 0x30, 0x00];
    p.extend_from_slice(&[0xAA; 8]);
    p.extend_from_slice(&116_444_736_000_000_000u64.to_le_bytes());
    p.extend_from_slice(&[0xBB; 20]);
    let unit = if flags & 0x80 > 0 { 2 } else { 1 };
    for text in texts {
        p.extend_from_slice(&((text.len() / unit) as u32).to_le_bytes());
        p.extend_from_slice(text);
    }
    p.extend_from_slice(&[0, 0, 0]);
    p.extend_from_slice(uri);
    p
}

#[test]
fn uri_without_data() {
    let mut p = vec![0x61, 0x00, 0x00, 0x00, 0x00, 0x00];
    p.extend_from_slice(b"http://example.com/\0");
    p.extend_from_slice(&[0xAA, 0xBB]);
    p.extend_from_slice(&small_block(b"n\0"));
    let mut c = ByteCursor::new(&p);
    let uri = URIShellItem::from_reader(&mut c).unwrap();
    assert_eq!(c.pos(), p.len());
    assert_eq!(uri.connect_time, None);
    assert_eq!(uri.str1, None);
    assert_eq!(uri.str2, None);
    assert_eq!(uri.str3, None);
    assert_eq!(uri.uri, "http://example.com/");
    assert_eq!(uri.name(), "http://example.com/");
    assert_eq!(uri.extention_block.unwrap().primary_name, "n");
}

#[test]
fn uri_with_data_in_single_bytes() {
    let p = uri_with_data(0x00, [b"one", b"", b"three"], b"ftp://h/\0");
    let mut c = ByteCursor::new(&p);
    let uri = URIShellItem::from_reader(&mut c).unwrap();
    assert_eq!(c.pos(), p.len());
    assert_eq!(uri.connect_time.unwrap().to_string(), "1970-01-01T00:00:00Z");
    assert_eq!(uri.str1, Some("one".to_string()));
    assert_eq!(uri.str2, Some(String::new()));
    assert_eq!(uri.str3, Some("three".to_string()));
    assert_eq!(uri.uri, "ftp://h/");
    assert!(uri.extention_block.is_none());
}

#[test]
fn uri_with_data_in_utf16() {
    let p = uri_with_data(0x80, [&[b'a', 0], &[b'b', 0, b'c', 0], &[]], &[b'u', 0, b':', 0, 0, 0]);
    let uri = URIShellItem::from_buffer(&p).unwrap();
    assert_eq!(uri.str1, Some("a".to_string()));
    assert_eq!(uri.str2, Some("bc".to_string()));
    assert_eq!(uri.str3, Some(String::new()));
    assert_eq!(uri.uri, "u:");
}

#[test]
fn uri_cut_short_is_truncated() {
    let p = uri_with_data(0x00, [b"one", b"two", b"three"], b"ftp://h/\0");
    assert!(URIShellItem::from_buffer(&p).is_ok());
    for cut in 0..p.len() {
        assert_eq!(URIShellItem::from_buffer(&p[..cut]).err(), Some(TRUNCATED));
    }
    assert_eq!(URIShellItem::from_buffer(&[0x61, 0, 0, 0, 0, 0, 0]).err(), Some(TRUNCATED));
    let bad = uri_with_data(0x00, [b"one", &[0xFF], b"three"], b"ftp://h/\0");
    assert_eq!(URIShellItem::from_buffer(&bad).err(), Some(ReaderError::Utf8Error));
}

fn users_files_folder(signature: &[u8; 4], wrapped: &[u8], delegate: &[u8; 16], tail: &[u8]) -> Vec<u8> {
    let mut p = vec![0x74, 0x00];
    p.extend_from_slice(&((wrapped.len() + 6) as u16).to_le_bytes());
    p.extend_from_slice(signature);
    p.extend_from_slice(wrapped);
    p.extend_from_slice(&[0, 0]);
    p.extend_from_slice(delegate);
    p.extend_from_slice(&MY_COMPUTER);
    p.extend_from_slice(tail);
    p
}

#[test]
fn users_files_folder_wraps_a_shell_item() {
    let wrapped = record(&file_entry_payload(0x31, b"Documents\0"));
    let p = users_files_folder(b"CFSF", &wrapped, &DELEGATE, &small_block(b"n\0"));
    let mut c = ByteCursor::new(&p);
    let folder = UsersFilesFolderShellItem::from_reader(&mut c).unwrap();
    assert_eq!(c.pos(), p.len());
    assert_eq!(folder.name(), "Documents");
    assert_eq!(folder.delegate_guid.to_string(), "5E591A74-DF96-48D3-8D67-1733BCEE28BA");
    assert_eq!(folder.item_guid.to_string(), "20D04FE0-3AEA-1069-A2D8-08002B30309D");
    assert_eq!(folder.extention_block.as_ref().unwrap().primary_name, "n");
    let inner = (*folder.file_entry).as_ref().unwrap();
    assert_eq!(inner.class_type, 0x31);
    assert_eq!(inner.size as usize, wrapped.len());
}

#[test]
fn users_files_folder_may_have_no_block_but_must_have_its_size() {
    let wrapped = record(&file_entry_payload(0x31, b"Documents\0"));
    let p = users_files_folder(b"CFSF", &wrapped, &DELEGATE, &[0, 0]);
    let folder = UsersFilesFolderShellItem::from_buffer(&p).unwrap();
    assert!(folder.extention_block.is_none());
    let p = users_files_folder(b"CFSF", &wrapped, &DELEGATE, &[]);
    assert_eq!(UsersFilesFolderShellItem::from_buffer(&p).err(), Some(TRUNCATED));
    let p = users_files_folder(b"CFSF", &wrapped, &DELEGATE, &small_block(&[0xFF, 0]));
    assert_eq!(UsersFilesFolderShellItem::from_buffer(&p).err(), Some(ReaderError::Utf8Error));
}

#[test]
fn users_files_folder_of_another_signature_wraps_nothing() {
    let p = users_files_folder(b"ABCD", &[1, 2, 3], &DELEGATE, &[0, 0]);
    let folder = UsersFilesFolderShellItem::from_buffer(&p).unwrap();
    assert!(folder.file_entry.is_none());
    assert_eq!(folder.name(), "{NONE}");
}

#[test]
fn users_files_folder_with_the_short_signature_is_not_implemented() {
    let p = users_files_folder(b"CF\0\0", &[1, 2, 3], &DELEGATE, &[0, 0]);
    assert_eq!(
        UsersFilesFolderShellItem::from_buffer(&p).err(),
        Some(ReaderError::IoError(IoFailure::NotImplemented))
    );
}

#[test]
fn users_files_folder_with_another_delegate_is_invalid_data() {
    let wrapped = record(&file_entry_payload(0x31, b"Documents\0"));
    let mut other = DELEGATE;
    other[15] = 0xBB;
    for tail in [&[][..], &[0, 0][..], &small_block(b"n\0")[..], &[0xFF; 40][..]] {
        let p = users_files_folder(b"CFSF", &wrapped, &other, tail);
        assert_eq!(
            UsersFilesFolderShellItem::from_buffer(&p).err(),
            Some(ReaderError::IoError(IoFailure::InvalidData))
        );
    }
    let mut first = DELEGATE;
    first[0] = 0x75;
    let p = users_files_folder(b"ABCD", &[], &first, &[0, 0]);
    assert_eq!(
        UsersFilesFolderShellItem::from_buffer(&p).err(),
        Some(ReaderError::IoError(IoFailure::InvalidData))
    );
}

#[test]
fn users_files_folder_fails_with_its_wrapped_item() {
    let wrapped = record(&file_entry_payload(0x31, b"Documents"));
    let p = users_files_folder(b"CFSF", &wrapped, &DELEGATE, &[0, 0]);
    assert_eq!(UsersFilesFolderShellItem::from_buffer(&p).err(), Some(TRUNCATED));
    let p = [0x74, 0x00, 0x05, 0x00, b'C', b'F', b'S', b'F', 0, 0, 0, 0];
    assert_eq!(UsersFilesFolderShellItem::from_buffer(&p).err(), Some(TRUNCATED));
    let p = [0x74, 0x00, 0x10, 0x00, b'C', b'F', b'S', b'F', 0, 0];
    assert_eq!(UsersFilesFolderShellItem::from_buffer(&p).err(), Some(TRUNCATED));
}

#[test]
fn tags_are_told_by_their_class_bits_first() {
    for tag in [0x10u8, 0x1F, 0x90, 0x9F] {
        assert_eq!(ShellItemKind::of_tag(tag), ShellItemKind::Root);
    }
    for tag in [0x20u8, 0x2F, 0xA3] {
        assert_eq!(ShellItemKind::of_tag(tag), ShellItemKind::Volume);
    }
    for tag in [0x30u8, 0x31, 0x32, 0x36, 0xB1] {
        assert_eq!(ShellItemKind::of_tag(tag), ShellItemKind::FileEntry);
    }
    for tag in [0x40u8, 0x41, 0x47, 0xC3] {
        assert_eq!(ShellItemKind::of_tag(tag), ShellItemKind::NetworkLocation);
    }
    assert_eq!(ShellItemKind::of_tag(0x74), ShellItemKind::UsersFilesFolder);
    assert_eq!(ShellItemKind::of_tag(0x61), ShellItemKind::URI);
    assert_eq!(ShellItemKind::of_tag(0x01), ShellItemKind::ControlPanelCategory);
    assert_eq!(ShellItemKind::of_tag(0x71), ShellItemKind::ControlPanelItem);
    for tag in [0x00u8, 0x02, 0x05, 0x50, 0x60, 0x62, 0x70, 0x72, 0x75, 0x81, 0xF4, 0xFF] {
        assert_eq!(ShellItemKind::of_tag(tag), ShellItemKind::Unimplemented);
    }
}

#[test]
fn tag_01_is_a_control_panel_category() {
    let r = record(&[0x01, 0, 0, 0, 0, 0, 0, 0, 0x08]);
    let item = ShellItem::from_buffer(&r).unwrap();
    assert_eq!(item.class_type, 0x01);
    match item.shell_item_data {
        Some(ShellItemTypes::ControlPanelCategory(c)) => {
            assert_eq!(c.cat_type, ControlPanelCategory::Programs)
        }
        other => panic!("not a category: {:?}", other),
    }
    let r = record(&[0x01, 0xFF, 0xFF]);
    assert_eq!(ShellItem::from_buffer(&r).err(), Some(TRUNCATED));
}

#[test]
fn record_of_an_unknown_tag_keeps_its_bytes() {
    let mut r = record(&[0x05, 0xAB, 0xCD]);
    r.push(0xEE);
    let mut c = ByteCursor::new(&r);
    let item = ShellItem::from_reader(&mut c).unwrap();
    assert_eq!(c.pos(), 5);
    assert_eq!(item.size, 5);
    assert_eq!(item.class_type, 0x05);
    assert_eq!(item.name(), "{NONE}");
    match item.shell_item_data {
        Some(ShellItemTypes::Unimplemented(u)) => {
            assert_eq!(u.0, vec![0x05, 0xAB, 0xCD]);
            assert_eq!(u.to_string(), "05ABCD");
        }
        other => panic!("not kept: {:?}", other),
    }
    assert_eq!(UnimplementedShellItem(vec![]).to_string(), "");
    assert_eq!(UnimplementedShellItem(vec![0x00, 0x0F, 0xF0]).to_string(), "000FF0");
}

#[test]
fn record_moves_the_cursor_by_its_size_also_where_its_data_fails() {
    let mut r = record(&[0x2E]);
    r.extend_from_slice(&[0xEE, 0xEE]);
    let mut c = ByteCursor::new(&r);
    assert_eq!(ShellItem::from_reader(&mut c).err(), Some(TRUNCATED));
    assert_eq!(c.pos(), 3);
}

#[test]
fn record_cut_short_is_truncated() {
    assert_eq!(ShellItem::from_buffer(&[]).err(), Some(TRUNCATED));
    assert_eq!(ShellItem::from_buffer(&[0x05]).err(), Some(TRUNCATED));
    assert_eq!(ShellItem::from_buffer(&[0x05, 0x00]).err(), Some(TRUNCATED));
    assert_eq!(ShellItem::from_buffer(&[0x05, 0x00, 0x05, 0xAB]).err(), Some(TRUNCATED));
    assert_eq!(ShellItem::from_buffer(&[0x00, 0x00, 0x05, 0xAB]).err(), Some(TRUNCATED));
    assert_eq!(ShellItem::from_buffer(&[0x01, 0x00, 0x05, 0xAB]).err(), Some(TRUNCATED));
    let mut c = ByteCursor::new(&[0x05, 0x00, 0x05, 0xAB]);
    assert_eq!(ShellItem::from_reader(&mut c).err(), Some(TRUNCATED));
    assert_eq!(c.pos(), 4);
}

#[test]
fn record_of_each_kind_is_decoded_by_its_decoder() {
    let item = ShellItem::from_buffer(&record(&root_payload(0x50))).unwrap();
    assert!(matches!(item.shell_item_data, Some(ShellItemTypes::Root(_))));
    assert_eq!(item.name(), "MY_COMPUTER");
    let item = ShellItem::from_buffer(&record(&[0x2F, b'C', b':', b'\\', 0])).unwrap();
    assert!(matches!(item.shell_item_data, Some(ShellItemTypes::Volume(_))));
    assert_eq!(item.name(), "C:\\");
    let item = ShellItem::from_buffer(&record(&[0x41, 0, 0, b'n', 0])).unwrap();
    assert!(matches!(item.shell_item_data, Some(ShellItemTypes::NetworkLocation(_))));
    assert_eq!(item.name(), "{NONE}");
    let mut p = vec![0x61, 0x00, 0x00, 0x00];
    p.extend_from_slice(b"u:\0");
    let item = ShellItem::from_buffer(&record(&p)).unwrap();
    assert!(matches!(item.shell_item_data, Some(ShellItemTypes::URI(_))));
    assert_eq!(item.name(), "u:");
    let mut p = vec![0x71; 12];
    p.extend_from_slice(&MY_COMPUTER);
    let item = ShellItem::from_buffer(&record(&p)).unwrap();
    assert!(matches!(item.shell_item_data, Some(ShellItemTypes::ControlPanelItem(_))));
    assert_eq!(item.name(), "20D04FE0-3AEA-1069-A2D8-08002B30309D");
    let wrapped = record(&file_entry_payload(0x31, b"Documents\0"));
    let p = users_files_folder(b"CFSF", &wrapped, &DELEGATE, &[0, 0]);
    let item = ShellItem::from_buffer(&record(&p)).unwrap();
    assert!(matches!(item.shell_item_data, Some(ShellItemTypes::UsersFilesFolder(_))));
    assert_eq!(item.name(), "Documents");
    let item = ShellItem::from_buffer(&record(&[0x01, 0, 0, 0, 0, 0, 0, 0, 0x09])).unwrap();
    assert_eq!(item.name(), "User Accounts");
}

fn list_of(records: &[Vec<u8>]) -> Vec<u8> {
    let mut b = Vec::new();
    for r in records {
        b.extend_from_slice(r);
    }
    b.extend_from_slice(&[0, 0]);
    b
}

#[test]
fn id_list_holds_its_records_in_their_order() {
    let records = vec![
        record(&root_payload(0x50)),
        record(&[0x2F, b'C', b':', b'\\', 0]),
        record(&file_entry_payload(0x31, b"Users\0")),
        record(&[0x05, 0xAB]),
        record(&file_entry_payload(0x32, b"test.txt\0")),
    ];
    let mut b = list_of(&records);
    b.extend_from_slice(&[0xEE; 3]);
    let mut c = ByteCursor::new(&b);
    let list = IDList::from_reader(&mut c).unwrap();
    assert_eq!(c.pos(), b.len() - 3);
    let items = list.items();
    assert_eq!(items.len(), 5);
    let tags: Vec<u8> = items.iter().map(|i| i.class_type).collect();
    assert_eq!(tags, vec![0x1F, 0x2F, 0x31, 0x05, 0x32]);
    let sizes: Vec<usize> = items.iter().map(|i| i.size as usize).collect();
    let lens: Vec<usize> = records.iter().map(|r| r.len()).collect();
    assert_eq!(sizes, lens);
    assert_eq!(list.path(), Some("MY_COMPUTER\\C:\\Users\\{NONE}\\test.txt".to_string()));
}

#[test]
fn id_list_of_no_records() {
    let list = IDList::from_buffer(&[0, 0]).unwrap();
    assert_eq!(list.items().len(), 0);
    assert_eq!(list.path(), Some(String::new()));
}

#[test]
fn id_list_without_its_terminator_is_truncated() {
    let records = vec![record(&root_payload(0x50))];
    let b = list_of(&records);
    assert_eq!(IDList::from_buffer(&b[..b.len() - 2]).err(), Some(TRUNCATED));
    assert_eq!(IDList::from_buffer(&b[..b.len() - 1]).err(), Some(TRUNCATED));
    assert_eq!(IDList::from_buffer(&[]).err(), Some(TRUNCATED));
}

#[test]
fn id_list_fails_with_the_record_that_fails() {
    let records = vec![
        record(&root_payload(0x50)),
        record(&file_entry_payload(0x31, &[0xFF, 0x00])),
        record(&file_entry_payload(0x32, b"test.txt\0")),
    ];
    let b = list_of(&records);
    let mut c = ByteCursor::new(&b);
    assert_eq!(IDList::from_reader(&mut c).err(), Some(ReaderError::Utf8Error));
    assert_eq!(c.pos(), records[0].len() + records[1].len());
}

#[test]
fn path_leaves_out_empty_names_and_doubled_separators() {
    let records = vec![
        record(&[0x2F, b'C', b':', b'\\', 0]),
        record(&[0x2E, 0x00]),
        record(&file_entry_payload(0x31, b"\0")),
        record(&file_entry_payload(0x31, b"\\\\\\a\\\\b\\\0")),
        record(&[0x2E, 0x00]),
        record(&file_entry_payload(0x31, b"\\c\0")),
    ];
    let list = IDList::from_buffer(&list_of(&records)).unwrap();
    assert_eq!(list.items().len(), 6);
    let path = list.path().unwrap();
    assert_eq!(path, "C:\\a\\b\\c");
    assert!(!path.contains("\\\\"));
    assert!(path.split('\\').all(|part| !part.is_empty()));
}

#[test]
fn path_of_empty_names_only_is_empty() {
    let records = vec![record(&[0x2E, 0x00]), record(&file_entry_payload(0x31, b"\0"))];
    let list = IDList::from_buffer(&list_of(&records)).unwrap();
    assert_eq!(list.items().len(), 2);
    assert_eq!(list.path(), Some(String::new()));
}

fn wrapped_without_end(levels: usize) -> Vec<u8> {
    let mut inner: Vec<u8> = record(&[0x05]);
    for _ in 0..levels {
        let mut p = vec![0x74, 0x00];
        p.extend_from_slice(&((inner.len() + 6) as u16).to_le_bytes());
        p.extend_from_slice(b"CFSF");
        p.extend_from_slice(&inner);
        inner = record(&p);
    }
    inner
}

#[test]
fn users_files_folder_in_a_users_files_folder() {
    let innermost = record(&file_entry_payload(0x31, b"Deep\0"));
    let inner = record(&users_files_folder(b"CFSF", &innermost, &DELEGATE, &[0, 0]));
    let outer = record(&users_files_folder(b"CFSF", &inner, &DELEGATE, &[0, 0]));
    let item = ShellItem::from_buffer(&outer).unwrap();
    assert_eq!(item.name(), "Deep");
    match item.shell_item_data {
        Some(ShellItemTypes::UsersFilesFolder(folder)) => {
            let wrapped = (*folder.file_entry).as_ref().unwrap();
            assert_eq!(wrapped.class_type, 0x74);
            assert!(matches!(wrapped.shell_item_data, Some(ShellItemTypes::UsersFilesFolder(_))));
        }
        other => panic!("not a folder: {:?}", other),
    }
}

#[test]
fn shell_items_wrapped_too_deep_are_invalid_data() {
    assert_eq!(ShellItem::from_buffer(&wrapped_without_end(1)).err(), Some(TRUNCATED));
    assert_eq!(ShellItem::from_buffer(&wrapped_without_end(32)).err(), Some(TRUNCATED));
    let invalid = Some(ReaderError::IoError(IoFailure::InvalidData));
    assert_eq!(ShellItem::from_buffer(&wrapped_without_end(33)).err(), invalid);
    assert_eq!(ShellItem::from_buffer(&wrapped_without_end(34)).err(), invalid);
    assert_eq!(ShellItem::from_buffer(&wrapped_without_end(6000)).err(), invalid);
    let mut list = wrapped_without_end(6000);
    list.extend_from_slice(&[0, 0]);
    assert_eq!(IDList::from_buffer(&list).err(), invalid);
}

#[test]
fn shell_items_are_wrapped_as_deep_as_asked() {
    let folder = wrapped_without_end(1);
    let mut c = ByteCursor::new(&folder);
    assert_eq!(
        ShellItem::from_reader_nested(&mut c, 0).err(),
        Some(ReaderError::IoError(IoFailure::InvalidData))
    );
    assert_eq!(c.pos(), folder.len());
    let mut c = ByteCursor::new(&folder);
    assert_eq!(ShellItem::from_reader_nested(&mut c, 1).err(), Some(TRUNCATED));
    let plain = record(&[0x05, 0x01]);
    let mut c = ByteCursor::new(&plain);
    assert!(ShellItem::from_reader_nested(&mut c, 0).is_ok());
    let p = users_files_folder(b"ABCD", &[1, 2, 3], &DELEGATE, &[0, 0]);
    assert!(UsersFilesFolderShellItem::from_buffer_nested(&p, 0).is_ok());
    assert!(ShellItemTypes::from_buffer_nested(ShellItemKind::UsersFilesFolder, &p, 0).is_ok());
    assert!(ShellItemTypes::from_buffer(ShellItemKind::Unimplemented, &p).is_ok());
}
