use temporal_codec::{CalendarDate, Error, Instant, Reader, Serializer, Writer};

#[test]
fn write_appends_eight_bytes_least_significant_first() {
    let t = Instant::new(CalendarDate::from_ymd(2024, 1, 1).unwrap(), 0, 0, 0, 0).unwrap();
    let mut writer = Writer::new();
    t.write(&mut writer);
    let bytes = writer.into_bytes();
    assert_eq!(bytes, 1704067200000u64.to_le_bytes().to_vec());
    assert_eq!(bytes, vec![0x00, 0xf4, 0x51, 0xc2, 0x8c, 0x01, 0x00, 0x00]);
}

#[test]
fn write_keeps_what_was_written_before() {
    let d = CalendarDate::from_ymd(2024, 1, 1).unwrap();
    let t = Instant::new(d, 12, 0, 0, 0).unwrap();
    let mut writer = Writer::new();
    writer.write_u64(7);
    d.write(&mut writer);
    t.write(&mut writer);
    let bytes = writer.into_bytes();
    assert_eq!(bytes.len(), 24);
    assert_eq!(&bytes[0..8], &7u64.to_le_bytes());
    assert_eq!(&bytes[8..16], &19723u64.to_le_bytes());
    assert_eq!(&bytes[16..24], &(1704067200000u64 + 43_200_000).to_le_bytes());
}

#[test]
fn read_gives_back_what_was_written() {
    let d = CalendarDate::from_ymd(2024, 2, 29).unwrap();
    let t = Instant::new(CalendarDate::from_ymd(1969, 7, 20).unwrap(), 20, 17, 40, 123).unwrap();
    let mut writer = Writer::new();
    d.write(&mut writer);
    t.write(&mut writer);
    let mut reader = Reader::new(writer.into_bytes());
    assert_eq!(reader.remaining(), 16);
    assert_eq!(CalendarDate::read(&mut reader), Ok(d));
    assert_eq!(reader.remaining(), 8);
    assert_eq!(Instant::read(&mut reader), Ok(t));
    assert_eq!(reader.remaining(), 0);
}

#[test]
fn read_moves_past_a_field_that_fails() {
    let mut bytes = u64::MAX.to_le_bytes().to_vec();
    bytes.extend_from_slice(&19723u64.to_le_bytes());
    let mut reader = Reader::new(bytes);
    assert_eq!(CalendarDate::read(&mut reader), Err(Error::InvalidDate));
    assert_eq!(reader.cursor, 8);
    assert_eq!(
        CalendarDate::read(&mut reader),
        Ok(CalendarDate::from_ymd(2024, 1, 1).unwrap())
    );
    assert_eq!(reader.cursor, 16);

    let mut reader = Reader::new((i64::MAX as u64).to_le_bytes().to_vec());
    assert_eq!(Instant::read(&mut reader), Err(Error::InvalidInstant));
    assert_eq!(reader.cursor, 8);
    assert_eq!(reader.remaining(), 0);
}

#[test]
fn buffers_carry_integers() {
    let mut writer = Writer::new();
    writer.write_u64(0x0102_0304_0506_0708);
    writer.write_u64(u64::MAX);
    let bytes = writer.into_bytes();
    assert_eq!(&bytes[0..8], &[8, 7, 6, 5, 4, 3, 2, 1]);
    let mut reader = Reader::new(bytes);
    assert_eq!(reader.read_u64(), 0x0102_0304_0506_0708);
    assert_eq!(reader.read_u64(), u64::MAX);
}
