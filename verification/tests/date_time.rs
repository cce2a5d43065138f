use winparsingtools::date_time::DosDateTime;
use winparsingtools::date_time::FileTime;

#[test]
fn dos_date_time_unpacks_every_field() {
    let d = DosDateTime::from_u32(0x6279_5185).unwrap();
    assert_eq!(d, DosDateTime::new(2020, 12, 5, 12, 19, 50));
    assert_eq!(d.to_string(), "2020-12-05T12:19:50Z");
}

#[test]
fn dos_date_time_of_zero_has_no_month_and_no_day() {
    let d = DosDateTime::from_u32(0).unwrap();
    assert_eq!(d, DosDateTime::new(1980, 0, 0, 0, 0, 0));
    assert_eq!(d.to_string(), "1980-01-01T00:00:00Z");
}

#[test]
fn dos_date_time_takes_sixty_seconds_as_fifty_nine() {
    let packed: u32 = (30 << 16) | (1 << 5) | 1;
    let d = DosDateTime::from_u32(packed).unwrap();
    assert_eq!(d.seconds, 59);
    assert_eq!(d.to_string(), "1980-01-01T00:00:59Z");
    let more: u32 = (31 << 16) | (1 << 5) | 1;
    assert_eq!(DosDateTime::from_u32(more).unwrap().seconds, 59);
    let fewer: u32 = (29 << 16) | (1 << 5) | 1;
    assert_eq!(DosDateTime::from_u32(fewer).unwrap().seconds, 58);
}

#[test]
fn dos_date_time_of_all_bits_is_the_last_year() {
    let d = DosDateTime::from_u32(u32::MAX).unwrap();
    assert_eq!(d, DosDateTime::new(2107, 15, 31, 31, 63, 59));
    assert_eq!(d.to_string(), "1980-01-01T00:00:00Z");
}

#[test]
fn dos_date_time_round_trips_through_its_text() {
    let packed: u32 = (23 << 27) | (59 << 21) | (29 << 16) | (44 << 9) | (2 << 5) | 29;
    let d = DosDateTime::from_u32(packed).unwrap();
    let text = d.to_string();
    assert_eq!(text, "2024-02-29T23:59:58Z");
    assert_eq!(text[0..4].parse::<u16>().unwrap(), d.year);
    assert_eq!(text[5..7].parse::<u8>().unwrap(), d.month);
    assert_eq!(text[8..10].parse::<u8>().unwrap(), d.day);
    assert_eq!(text[11..13].parse::<u8>().unwrap(), d.hour);
    assert_eq!(text[14..16].parse::<u8>().unwrap(), d.minutes);
    assert_eq!(text[17..19].parse::<u8>().unwrap(), d.seconds);
}

#[test]
fn dos_date_time_without_such_a_day_is_written_as_the_epoch() {
    assert_eq!(DosDateTime::new(2023, 2, 29, 1, 2, 3).to_string(), "1980-01-01T00:00:00Z");
    assert_eq!(DosDateTime::new(2023, 4, 31, 1, 2, 3).to_string(), "1980-01-01T00:00:00Z");
    assert_eq!(DosDateTime::new(2023, 4, 30, 24, 2, 3).to_string(), "1980-01-01T00:00:00Z");
    assert_eq!(DosDateTime::new(2023, 4, 30, 23, 60, 3).to_string(), "1980-01-01T00:00:00Z");
    assert_eq!(DosDateTime::new(2023, 4, 30, 23, 59, 60).to_string(), "1980-01-01T00:00:00Z");
    assert_eq!(DosDateTime::new(1900, 2, 29, 0, 0, 0).to_string(), "1980-01-01T00:00:00Z");
    assert_eq!(DosDateTime::new(2000, 2, 29, 0, 0, 0).to_string(), "2000-02-29T00:00:00Z");
}

#[test]
fn dos_date_time_writes_years_of_any_length() {
    assert_eq!(DosDateTime::new(0, 1, 2, 3, 4, 5).to_string(), "0000-01-02T03:04:05Z");
    assert_eq!(DosDateTime::new(987, 10, 20, 13, 14, 15).to_string(), "0987-10-20T13:14:15Z");
    assert_eq!(DosDateTime::new(9999, 12, 31, 23, 59, 59).to_string(), "9999-12-31T23:59:59Z");
    assert_eq!(DosDateTime::new(10000, 1, 1, 0, 0, 0).to_string(), "+10000-01-01T00:00:00Z");
    assert_eq!(DosDateTime::new(65535, 12, 31, 23, 59, 59).to_string(), "+65535-12-31T23:59:59Z");
}

#[test]
fn dos_date_time_default_is_the_epoch() {
    assert_eq!(DosDateTime::default(), DosDateTime::new(1980, 1, 1, 0, 0, 0));
    assert_eq!(DosDateTime::default().to_string(), "1980-01-01T00:00:00Z");
}

#[test]
fn file_time_counts_from_1601() {
    assert_eq!(FileTime::new(0).to_string(), "1601-01-01T00:00:00Z");
    assert_eq!(FileTime::new(9).microseconds, 0);
    assert_eq!(FileTime::new(10).microseconds, 1);
    assert_eq!(FileTime::new(116_444_736_000_000_000).to_string(), "1970-01-01T00:00:00Z");
    assert_eq!(FileTime::new(132_244_766_418_940_254).to_string(), "2020-01-26T01:44:01Z");
}

#[test]
fn file_time_of_all_bits_has_a_text() {
    let t = FileTime::new(u64::MAX);
    assert_eq!(t.microseconds, 1_844_674_407_370_955_161);
    assert_eq!(t.to_string(), "+60056-05-28T05:36:10Z");
}
