use modtracker::bytereader::{ByteReader, Encoding};
use modtracker::song::SongError;

#[test]
fn test_seeking() {
    let mut reader = ByteReader::new(&[0x01, 0x02, 0x03], Encoding::LittleEndian);
    assert_eq!(reader.seek(2).unwrap(), 0);
    assert_eq!(reader.read_u8().unwrap(), 0x03);
    assert_eq!(reader.seek(0).unwrap(), 3);
    assert_eq!(reader.read_u8().unwrap(), 0x01);
    assert_eq!(reader.position(), 1);
}

#[test]
fn test_sample_data() {
    let data: [u8; 16] = [
        0x01, 0x02, 0x03, 0x04, 0x05, 0x06, 0x07, 0x08, 0x09, 0x0A, 0x0B, 0x0C, 0x0D, 0x0E, 0x0F,
        0x10,
    ];

    let mut le_reader = ByteReader::new(&data, Encoding::LittleEndian);
    assert_eq!(le_reader.read_u8().unwrap(), 0x01);
    assert_eq!(le_reader.read_u16().unwrap(), 0x0302);
    assert_eq!(le_reader.read_u32().unwrap(), 0x07060504);

    let mut be_reader = ByteReader::new(&data, Encoding::BigEndian);
    assert_eq!(be_reader.read_u8().unwrap(), 0x01);
    assert_eq!(be_reader.read_u16().unwrap(), 0x0203);
    assert_eq!(be_reader.read_u32().unwrap(), 0x04050607);
}

#[test]
fn read_multiple_bytes() {
    let data: [u8; 12] = [
        0x01, 0x02, 0x03, 0x04, 0x05, 0x06, 0x06, 0x05, 0x04, 0x03, 0x02, 0x01,
    ];

    let mut reader = ByteReader::new(&data, Encoding::LittleEndian);
    assert_eq!(
        reader.read_bytes(6).unwrap(),
        [0x01, 0x02, 0x03, 0x04, 0x05, 0x06]
    );
    assert_eq!(
        reader.read_bytes(6).unwrap(),
        [0x06, 0x05, 0x04, 0x03, 0x02, 0x01]
    );
}

#[test]
fn read_string() {
    let data: &[u8] = b"Hello, world!";
    let mut reader = ByteReader::new(&data, Encoding::LittleEndian);

    assert_eq!(reader.read_str(5).unwrap(), "Hello");
    assert_eq!(reader.read_str(8).unwrap(), ", world!");
}

#[test]
fn read_past_end_is_a_read_fault() {
    let data: [u8; 3] = [1, 2, 3];
    let mut reader = ByteReader::new(&data, Encoding::BigEndian);
    assert_eq!(reader.read_u8().unwrap(), 1);
    assert_eq!(
        reader.read_u32(),
        Err(SongError::Read { offset: 1, expected: 4 })
    );
    assert_eq!(reader.position(), 1);
    assert_eq!(
        reader.read_bytes(usize::MAX),
        Err(SongError::Read { offset: 1, expected: usize::MAX })
    );
    assert_eq!(reader.read_u16().unwrap(), 0x0203);
    assert_eq!(
        reader.read_u8(),
        Err(SongError::Read { offset: 3, expected: 1 })
    );
    assert_eq!(reader.read_bytes(0).unwrap(), []);
}

#[test]
fn read_then_seek_back_reads_the_same_bytes() {
    let data: Vec<u8> = (0u8..=40).collect();
    for offset in 0..=data.len() {
        for count in 0..=(data.len() - offset) {
            let mut reader = ByteReader::new(&data, Encoding::BigEndian);
            assert_eq!(reader.seek(offset).unwrap(), 0);
            let first = reader.read_bytes(count).unwrap().to_vec();
            assert_eq!(first, &data[offset..offset + count]);
            assert_eq!(reader.seek(offset).unwrap(), offset + count);
            let second = reader.read_bytes(count).unwrap().to_vec();
            assert_eq!(first, second);
        }
    }
}

#[test]
fn seek_behind_the_end_is_refused() {
    let data: [u8; 3] = [1, 2, 3];
    let mut reader = ByteReader::new(&data, Encoding::BigEndian);
    assert_eq!(reader.seek(3).unwrap(), 0);
    assert_eq!(
        reader.seek(4),
        Err(SongError::Read { offset: 4, expected: 0 })
    );
    assert_eq!(reader.position(), 3);
    assert_eq!(
        reader.read_u8(),
        Err(SongError::Read { offset: 3, expected: 1 })
    );
}

#[test]
fn signed_reads_are_twos_complement() {
    let data: [u8; 14] = [
        0xFF, 0x7F, 0x80, 0x00, 0xFF, 0xFE, 0x80, 0x00, 0x00, 0x00, 0xFF, 0xFF, 0xFF, 0xFE,
    ];
    let mut reader = ByteReader::new(&data, Encoding::BigEndian);
    assert_eq!(reader.read_i8().unwrap(), -1);
    assert_eq!(reader.read_i8().unwrap(), 127);
    assert_eq!(reader.read_i16().unwrap(), -32768);
    assert_eq!(reader.read_i16().unwrap(), -2);
    assert_eq!(reader.read_i32().unwrap(), i32::MIN);
    assert_eq!(reader.read_i32().unwrap(), -2);

    let mut reader = ByteReader::new(&data, Encoding::LittleEndian);
    assert_eq!(reader.read_i16().unwrap(), 0x7FFF);
    assert_eq!(reader.read_i16().unwrap(), 0x0080);
    assert_eq!(reader.read_i32().unwrap(), 0x0080FEFF);
    assert_eq!(reader.read_u32().unwrap(), 0xFFFF_0000);
    assert_eq!(reader.read_u16().unwrap(), 0xFEFF);
    assert!(matches!(reader.encoding(), Encoding::LittleEndian));
}

#[test]
fn read_str_drops_only_the_padding_at_the_end() {
    let data: &[u8] = b"ab\0cd\0\0\0\0\0\0\0";
    let mut reader = ByteReader::new(data, Encoding::BigEndian);
    assert_eq!(reader.read_str(8).unwrap(), "ab\0cd");
    assert_eq!(reader.position(), 8);
    assert_eq!(reader.read_str(4).unwrap(), "");
    assert_eq!(reader.read_str(0).unwrap(), "");
    assert_eq!(
        reader.read_str(1),
        Err(SongError::Read { offset: 12, expected: 1 })
    );
}

#[test]
fn read_str_refuses_what_is_no_text() {
    let data: [u8; 6] = [b'o', b'k', 0xC3, 0x28, 0xFF, b'!'];
    let mut reader = ByteReader::new(&data, Encoding::BigEndian);
    assert_eq!(reader.read_str(2).unwrap(), "ok");
    assert_eq!(
        reader.read_str(2),
        Err(SongError::Read { offset: 2, expected: 2 })
    );
    assert_eq!(reader.position(), 2);
    assert_eq!(
        reader.read_str(4),
        Err(SongError::Read { offset: 2, expected: 4 })
    );
    assert_eq!(reader.read_bytes(3).unwrap(), [0xC3, 0x28, 0xFF]);
    assert_eq!(reader.read_str(1).unwrap(), "!");
}

#[test]
fn read_str_decodes_more_than_ascii() {
    let data = "h\u{e9}llo \u{266b}\0\0".as_bytes();
    let mut reader = ByteReader::new(data, Encoding::BigEndian);
    assert_eq!(reader.read_str(data.len()).unwrap(), "h\u{e9}llo \u{266b}");
}
