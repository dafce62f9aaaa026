use speaker_codec::CodecError;
use speaker_codec::Speaker;
use speaker_codec::RECORD_BYTES;

fn demo_bytes() -> Vec<u8> {
    vec![
        0x4a, 0x6f, 0x73, 0x65, 0x70, 0x68, 0x00, 0x00, 0x00, 0x00, 0x00, 0x00, 0x00, 0x00, 0x00,
        0x00, 0x00, 0x00, 0x00, 0x00, 0x42, 0x6c, 0x6f, 0x67, 0x73, 0x00, 0x00, 0x00, 0x00, 0x00,
        0x00, 0x00, 0x00, 0x00, 0x00, 0x00, 0x00, 0x00, 0x00, 0x00, 0x31, 0x32, 0x33, 0x20, 0x46,
        0x61, 0x6b, 0x65, 0x20, 0x53, 0x74, 0x72, 0x65, 0x65, 0x74, 0x00, 0x00, 0x00, 0x00, 0x00,
        0x00, 0x00, 0x00, 0x00, 0x00, 0x00, 0x00, 0x00, 0x00, 0x00, 0x00, 0x00, 0x00, 0x00, 0x00,
        0x00, 0x00, 0x00, 0x00, 0x00, 0x4e, 0x65, 0x77, 0x20, 0x59, 0x6f, 0x72, 0x6b, 0x00, 0x00,
        0x00, 0x00, 0x00, 0x00, 0x00, 0x00, 0x00, 0x00, 0x00, 0x00, 0x00, 0x00, 0x00, 0x00, 0x00,
        0x00, 0x00, 0x00, 0x00, 0x00, 0x00, 0x00, 0x00, 0x00, 0x00, 0x00, 0x00, 0x00, 0x00, 0x00,
        0x32, 0x30, 0x32, 0x2d, 0x35, 0x35, 0x35, 0x2d, 0x30, 0x31, 0x31, 0x37, 0x00, 0x00, 0x00,
        0x00, 0x0f, 0xaa,
    ]
}

#[test]
fn deserialize_joe_bloggs() {
    let data = demo_bytes();

    let got = Speaker::from_bytes(&data).unwrap();

    assert_eq!(got.name().unwrap(), ("Joseph", "Blogs"));
    assert_eq!(got.address_line_1().unwrap(), "123 Fake Street");
    assert_eq!(got.address_line_2().unwrap(), "New York");
    assert_eq!(got.phone_number().unwrap(), "202-555-0117");
    assert_eq!(got.flags(), 0xAA0F);
}

#[test]
fn round_trip_reproduces_the_bytes() {
    let data = demo_bytes();

    let speaker = Speaker::from_bytes(&data).unwrap();

    assert_eq!(speaker.to_bytes(), data);
}

#[test]
fn round_trip_of_arbitrary_bit_patterns() {
    let mut data = Vec::new();
    for i in 0..RECORD_BYTES {
        data.push((i * 7 + 251) as u8);
    }

    let speaker = Speaker::from_bytes(&data).unwrap();

    assert_eq!(speaker.to_bytes(), data);
}

#[test]
fn truncated_source_yields_no_record() {
    let data = demo_bytes();

    let got = Speaker::from_bytes(&data[..RECORD_BYTES - 1]);

    assert_eq!(got.unwrap_err(), CodecError::Truncated);
}

#[test]
fn empty_source_yields_no_record() {
    let got = Speaker::from_bytes(&[]);

    assert_eq!(got.unwrap_err(), CodecError::Truncated);
}

#[test]
fn extra_bytes_beyond_the_record_are_ignored() {
    let mut data = demo_bytes();
    data.push(0x99);
    data.push(0x77);

    let got = Speaker::from_bytes(&data).unwrap();

    assert_eq!(got.to_bytes(), demo_bytes());
}

#[test]
fn bad_field_fails_alone() {
    let mut data = demo_bytes();
    // Make the first-name field invalid UTF-8 before its terminator.
    data[0] = 0xFF;
    data[1] = 0xFE;

    let got = Speaker::from_bytes(&data).unwrap();

    assert!(got.name().is_none());
    assert_eq!(got.address_line_1().unwrap(), "123 Fake Street");
    assert_eq!(got.address_line_2().unwrap(), "New York");
    assert_eq!(got.phone_number().unwrap(), "202-555-0117");
}

#[test]
fn name_pair_is_atomic() {
    let mut data = demo_bytes();
    // First name stays valid; the last-name field becomes invalid UTF-8.
    data[20] = 0xC0;

    let got = Speaker::from_bytes(&data).unwrap();

    assert!(got.name().is_none());
}

#[test]
fn serialized_record_has_the_fixed_size() {
    let data = demo_bytes();

    let speaker = Speaker::from_bytes(&data).unwrap();

    assert_eq!(speaker.to_bytes().len(), RECORD_BYTES);
}
