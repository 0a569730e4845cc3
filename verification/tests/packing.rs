//! The packed parameter record: layout, round trips, stride and padding.

use visualizer::field::Field;
use visualizer::matrix::{Mat3, Mat4, Vec2, ONE_BITS};
use visualizer::pad;
use visualizer::uniforms::{
    pack_records, read_u32_le, stride, Uniforms, OFF_BACK_READ, OFF_COLOR, OFF_COORDINATES,
    OFF_FIELD, OFF_FILTERS, OFF_FIT, OFF_FREQUENCY_RANGE, OFF_FRONT_OFFSET, OFF_FRONT_READ,
    OFF_GAIN, OFF_INDEX, OFF_OFFSET, OFF_POSITION, OFF_REPEAT, OFF_RESOLUTION, OFF_RMS,
    OFF_SAMPLE_RANGE, OFF_TILING, OFF_WRAP, RECORD_SIZE,
};

fn sample_record() -> Uniforms {
    let mut color = Mat4::identity();
    let mut position = Mat3::identity();
    for e in 0..16 {
        color.entries[e] = 0x4000_0000 + e as u32;
    }
    for e in 0..9 {
        position.entries[e] = 0x3f00_0000 + e as u32;
    }
    Uniforms {
        back_read: true,
        color,
        coordinates: false,
        field: Field::Circle,
        filters: 7,
        fit: true,
        frequency_range: 0.25f32.to_bits(),
        front_offset: (2, 1),
        front_read: false,
        gain: 1.5f32.to_bits(),
        index: 3,
        offset: (256, 512),
        position,
        repeat: true,
        resolution: (1024, 1024),
        rms: 0.125f32.to_bits(),
        sample_range: 0.5f32.to_bits(),
        tiling: 3,
        wrap: true,
    }
}

#[test]
fn record_fields_read_back_at_their_offsets() {
    let u = sample_record();
    let mut buffer = vec![0xAAu8; RECORD_SIZE];
    let size = u.write(&mut buffer, 0);
    assert_eq!(size, RECORD_SIZE);

    assert_eq!(read_u32_le(&buffer, OFF_BACK_READ), 1);
    for e in 0..16 {
        assert_eq!(read_u32_le(&buffer, OFF_COLOR + 4 * e), u.color.entries[e]);
    }
    assert_eq!(read_u32_le(&buffer, OFF_COORDINATES), 0);
    assert_eq!(read_u32_le(&buffer, OFF_FIELD), u.field.tag());
    assert_eq!(read_u32_le(&buffer, OFF_FILTERS), 7);
    assert_eq!(read_u32_le(&buffer, OFF_FIT), 1);
    assert_eq!(
        f32::from_bits(read_u32_le(&buffer, OFF_FREQUENCY_RANGE)),
        0.25
    );
    assert_eq!(read_u32_le(&buffer, OFF_FRONT_OFFSET), 2);
    assert_eq!(read_u32_le(&buffer, OFF_FRONT_OFFSET + 4), 1);
    assert_eq!(read_u32_le(&buffer, OFF_FRONT_READ), 0);
    assert_eq!(f32::from_bits(read_u32_le(&buffer, OFF_GAIN)), 1.5);
    assert_eq!(read_u32_le(&buffer, OFF_INDEX), 3);
    assert_eq!(read_u32_le(&buffer, OFF_OFFSET), 256);
    assert_eq!(read_u32_le(&buffer, OFF_OFFSET + 4), 512);
    for e in 0..9 {
        let off = OFF_POSITION + 16 * (e / 3) + 4 * (e % 3);
        assert_eq!(read_u32_le(&buffer, off), u.position.entries[e]);
    }
    assert_eq!(read_u32_le(&buffer, OFF_REPEAT), 1);
    assert_eq!(read_u32_le(&buffer, OFF_RESOLUTION), 1024);
    assert_eq!(read_u32_le(&buffer, OFF_RESOLUTION + 4), 1024);
    assert_eq!(f32::from_bits(read_u32_le(&buffer, OFF_RMS)), 0.125);
    assert_eq!(f32::from_bits(read_u32_le(&buffer, OFF_SAMPLE_RANGE)), 0.5);
    assert_eq!(read_u32_le(&buffer, OFF_TILING), 3);
    assert_eq!(read_u32_le(&buffer, OFF_WRAP), 1);
}

#[test]
fn record_bytes_are_little_endian() {
    let mut u = sample_record();
    u.gain = 0x0403_0201;
    let mut buffer = vec![0u8; RECORD_SIZE];
    u.write(&mut buffer, 0);
    assert_eq!(&buffer[OFF_GAIN..OFF_GAIN + 4], &[0x01, 0x02, 0x03, 0x04]);
}

#[test]
fn matrix_columns_are_padded_to_sixteen_bytes() {
    let u = sample_record();
    let mut buffer = vec![0xEEu8; RECORD_SIZE];
    u.write(&mut buffer, 0);
    // The fourth word of each 3x3 column slot is padding and left untouched.
    for col in 0..3 {
        let off = OFF_POSITION + 16 * col + 12;
        assert_eq!(&buffer[off..off + 4], &[0xEE; 4]);
    }
}

#[test]
fn field_tags_round_trip() {
    let fields = [
        Field::All,
        Field::Bottom,
        Field::Circle,
        Field::Frequencies,
        Field::Nothing,
        Field::Samples,
        Field::Top,
        Field::X,
    ];
    for (i, f) in fields.iter().enumerate() {
        assert_eq!(f.tag(), i as u32);
        assert_eq!(Field::from_tag(f.tag()), Some(*f));
    }
    assert_eq!(Field::from_tag(8), None);
}

#[test]
fn pad_rounds_up_to_alignment() {
    assert_eq!(pad(0, 16), 0);
    assert_eq!(pad(4, 16), 16);
    assert_eq!(pad(100, 8), 104);
    assert_eq!(pad(224, 16), 224);
}

#[test]
fn stride_is_a_multiple_of_the_device_alignment() {
    let s = stride(RECORD_SIZE as u32, 256);
    assert_eq!(s % 256, 0);
    assert_eq!(s, 256);
    assert_eq!(stride(256, 256), 256);
    assert_eq!(stride(257, 64), 320);
}

#[test]
fn records_pack_at_the_stride() {
    let a = sample_record();
    let mut b = sample_record();
    b.index = 4;
    b.gain = 0x1234_5678;
    let s = stride(RECORD_SIZE as u32, 256) as usize;
    let packed = pack_records(&vec![a, b], s);
    assert_eq!(packed.len(), 2 * s);
    assert_eq!(read_u32_le(&packed, OFF_INDEX), 3);
    assert_eq!(read_u32_le(&packed, s + OFF_INDEX), 4);
    assert_eq!(read_u32_le(&packed, s + OFF_GAIN), 0x1234_5678);
}

#[test]
fn vec2_helper_is_zero() {
    let v = Vec2::zero();
    assert_eq!((v.x, v.y), (0, 0));
}

#[test]
fn identity_matrices_hold_unit_bit_patterns() {
    let m3 = Mat3::identity();
    let m4 = Mat4::identity();
    assert_eq!(f32::from_bits(ONE_BITS), 1.0);
    for r in 0..3 {
        for c in 0..3 {
            let expected = if r == c { 1.0 } else { 0.0 };
            assert_eq!(f32::from_bits(m3.entries[3 * c + r]), expected);
        }
    }
    for r in 0..4 {
        for c in 0..4 {
            let expected = if r == c { 1.0 } else { 0.0 };
            assert_eq!(f32::from_bits(m4.entries[4 * c + r]), expected);
        }
    }
}
