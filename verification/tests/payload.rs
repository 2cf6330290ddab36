use noise_generator::params::{FloatBits, Rect, RenderParameters, PAYLOAD_SIZE};

fn bits(value: f32) -> FloatBits {
    FloatBits::new(value.to_bits())
}

fn unpack(payload: &[u8]) -> Vec<f32> {
    payload
        .chunks(4)
        .map(|chunk| f32::from_ne_bytes([chunk[0], chunk[1], chunk[2], chunk[3]]))
        .collect()
}

fn sample_parameters() -> RenderParameters {
    RenderParameters::new(
        bits(42.0),
        Rect::new(bits(10.0), bits(20.0), bits(110.0), bits(60.0)),
    )
}

#[test]
fn packed_payload_unpacks_to_the_five_values_in_order() {
    let payload = sample_parameters().pack();
    assert_eq!(unpack(&payload), vec![42.0f32, 10.0, 20.0, 110.0, 60.0]);
}

#[test]
fn packed_payload_is_twenty_bytes() {
    let payload = sample_parameters().pack();
    assert_eq!(payload.len(), 20);
    assert_eq!(PAYLOAD_SIZE, 20);
}

#[test]
fn packed_payload_is_the_words_in_native_byte_order() {
    let params = RenderParameters::new(
        FloatBits::new(0x0102_0304),
        Rect::new(
            FloatBits::new(0x1112_1314),
            FloatBits::new(0x2122_2324),
            FloatBits::new(0x3132_3334),
            FloatBits::new(0x4142_4344),
        ),
    );
    let mut expected: Vec<u8> = Vec::new();
    for word in [0x0102_0304u32, 0x1112_1314, 0x2122_2324, 0x3132_3334, 0x4142_4344] {
        expected.extend_from_slice(&word.to_ne_bytes());
    }
    assert_eq!(params.pack(), expected);
}

#[test]
fn packed_payload_is_little_or_big_endian_throughout() {
    let params = RenderParameters::new(
        FloatBits::new(0x0102_0304),
        Rect::new(
            FloatBits::new(0x0506_0708),
            FloatBits::new(0x090A_0B0C),
            FloatBits::new(0x0D0E_0F10),
            FloatBits::new(0x1112_1314),
        ),
    );
    let payload = params.pack();
    let little: Vec<u8> = vec![
        4, 3, 2, 1, 8, 7, 6, 5, 12, 11, 10, 9, 16, 15, 14, 13, 20, 19, 18, 17,
    ];
    let big: Vec<u8> = (1u8..=20).collect();
    assert!(payload == little || payload == big);
}

#[test]
fn packing_zero_and_all_ones() {
    let zero = RenderParameters::new(
        FloatBits::new(0),
        Rect::new(FloatBits::new(0), FloatBits::new(0), FloatBits::new(0), FloatBits::new(0)),
    );
    assert_eq!(zero.pack(), vec![0u8; 20]);
    let ones = RenderParameters::new(
        FloatBits::new(u32::MAX),
        Rect::new(
            FloatBits::new(u32::MAX),
            FloatBits::new(u32::MAX),
            FloatBits::new(u32::MAX),
            FloatBits::new(u32::MAX),
        ),
    );
    assert_eq!(ones.pack(), vec![0xFFu8; 20]);
}

#[test]
fn frame_parameters_take_the_measured_bounds() {
    let measured = Rect::new(bits(10.0), bits(20.0), bits(110.0), bits(60.0));
    let params = RenderParameters::for_frame(bits(7.0), Some(measured), bits(400.0), bits(300.0));
    assert_eq!(params.seed, bits(7.0));
    assert_eq!(params.overlay_bounds, measured);
}

#[test]
fn frame_parameters_fall_back_to_the_anchor() {
    let params = RenderParameters::for_frame(bits(7.0), None, bits(400.0), bits(300.0));
    assert_eq!(params.seed, bits(7.0));
    assert_eq!(
        params.overlay_bounds,
        Rect::new(bits(400.0), bits(300.0), bits(400.0), bits(300.0))
    );
    assert_eq!(unpack(&params.pack()), vec![7.0f32, 400.0, 300.0, 400.0, 300.0]);
}

#[test]
fn measured_or_anchor_picks_by_presence() {
    let measured = Rect::new(bits(1.0), bits(2.0), bits(3.0), bits(4.0));
    assert_eq!(Rect::measured_or_anchor(Some(measured), bits(9.0), bits(8.0)), measured);
    assert_eq!(
        Rect::measured_or_anchor(None, bits(9.0), bits(8.0)),
        Rect::new(bits(9.0), bits(8.0), bits(9.0), bits(8.0))
    );
}

#[test]
fn float_bits_keep_their_pattern() {
    assert_eq!(FloatBits::new(0x4228_0000).bits(), 0x4228_0000);
    assert_eq!(f32::from_bits(bits(42.0).bits()), 42.0);
}

#[test]
fn packed_payload_is_the_cast_of_the_five_numbers() {
    let numbers = [42.0f32, 10.0, 20.0, 110.0, 60.0];
    let expected: &[u8] = bytemuck::cast_slice(&numbers);
    assert_eq!(sample_parameters().pack(), expected);
    let back: &[f32] = bytemuck::cast_slice(expected);
    assert_eq!(back, &numbers[..]);
}
