//! Value types: parameters, messages, booleans, fields, presets, images.

use visualizer::boolean::{bool_bit_pattern, check, from_view, BoolError, BoolSerializer};
use visualizer::field::Field;
use visualizer::image::{analyze, pack_bilevel, reduce, ColorMode, Image};
use visualizer::into_usize::IntoUsize;
use visualizer::message::{Device, Event, Message, MessageError};
use visualizer::parameter::{Parameter, ParameterError};
use visualizer::program::Program;
use visualizer::recorder::Recorder;
use visualizer::state::{HudItem, State};

fn ok(value: bool, bytes: &[u8]) {
    let mut serializer = BoolSerializer::new(Vec::new());
    serializer.serialize(value);
    let state = serializer.state();
    assert_eq!(state, bytes);
    assert_eq!(check(state[0]), Ok(value));
    assert_eq!(from_view(&value), value);
}

#[test]
fn success() {
    ok(false, &[0x00]);
    ok(true, &[0x01]);
}

#[test]
fn u32_into_usize() {
    u32::MAX.into_usize();
}

#[test]
fn invalid_bool_bytes_are_rejected() {
    assert_eq!(bool_bit_pattern(true), 1);
    assert_eq!(bool_bit_pattern(false), 0);
    for value in 2..=255u8 {
        assert_eq!(check(value), Err(BoolError::Bool { value }));
    }
}

#[test]
fn parameters_clamp_and_saturate() {
    assert_eq!(Parameter::new(-100).value(), -64);
    assert_eq!(Parameter::new(12).value(), 12);
    assert_eq!(Parameter::new(100).value(), 63);
    assert_eq!(Parameter::new(5).value(), 5);
    assert_eq!(Parameter::new(60).saturating_add(10).value(), 63);
    assert_eq!(Parameter::new(-60).saturating_sub(10).value(), -64);
    assert_eq!(Parameter::new(1).saturating_add(2).value(), 3);
    assert_eq!(Parameter::default().value(), 0);
    assert_eq!(Parameter::from_midi(0).value(), -64);
    assert_eq!(Parameter::from_midi(127).value(), 63);
}

#[test]
fn unipolar() {
    let low = Parameter::new(-64).unipolar_numerator();
    let high = Parameter::new(63).unipolar_numerator();
    assert_eq!(low as f32 / 127.0, 0.0);
    assert_eq!(high as f32 / 127.0, 1.0);
}

#[test]
fn parameter_strings_parse_or_name_the_broken_bound() {
    assert_eq!(Parameter::from_str("0").map(Parameter::value), Ok(0));
    assert_eq!(Parameter::from_str("63").map(Parameter::value), Ok(63));
    assert_eq!(Parameter::from_str("-64").map(Parameter::value), Ok(-64));
    assert_eq!(Parameter::from_str("+5").map(Parameter::value), Ok(5));
    assert_eq!(Parameter::from_str("007").map(Parameter::value), Ok(7));
    assert_eq!(
        Parameter::from_str("64").map(Parameter::value),
        Err(ParameterError::PositiveOverflow { value: 64 })
    );
    assert_eq!(
        Parameter::from_str("-65").map(Parameter::value),
        Err(ParameterError::NegativeOverflow { value: -65 })
    );
    for junk in ["", "-", "+", "abc", "1x", "200", "-129", "999999999999"] {
        assert_eq!(
            Parameter::from_str(junk).map(Parameter::value),
            Err(ParameterError::Parse)
        );
    }
}

fn routed(bytes: &[u8]) -> (Device, u8, Event) {
    Message::parse(bytes).unwrap().tuple()
}

#[test]
fn note_events_route_to_their_controls() {
    // Channel 0: encoders on the Twister.
    let (device, control, event) = routed(&[0x90, 5, 100]);
    assert_eq!(device, Device::Twister);
    assert_eq!(control, 5);
    match event {
        Event::Encoder(p) => assert_eq!(p.value(), 100 - 64),
        Event::Button(_) => panic!("expected an encoder event"),
    }

    // Channel 1: Twister buttons, with note-off as release.
    let (device, control, event) = routed(&[0x91, 3, 127]);
    assert_eq!((device, control), (Device::Twister, 3));
    assert!(matches!(event, Event::Button(true)));
    let (_, _, event) = routed(&[0x81, 3, 0]);
    assert!(matches!(event, Event::Button(false)));

    // Channel 2: the Spectra pad grid, wired bottom row first.
    for (key, pad) in [
        (48u8, 0u8),
        (51, 3),
        (44, 4),
        (47, 7),
        (40, 8),
        (43, 11),
        (36, 12),
        (39, 15),
    ] {
        let (device, control, _) = routed(&[0x92, key, 1]);
        assert_eq!((device, control), (Device::Spectra, pad));
    }

    // Channel 3: the Spectra side buttons and the Twister's second bank.
    for (key, control) in [(22u8, 16u8), (21, 17), (20, 18), (25, 19), (24, 20), (23, 21)] {
        let (device, got, _) = routed(&[0x93, key, 1]);
        assert_eq!((device, got), (Device::Spectra, control));
    }
    for (key, control) in [(8u8, 16u8), (13, 21)] {
        let (device, got, _) = routed(&[0x93, key, 1]);
        assert_eq!((device, got), (Device::Twister, control));
    }
}

#[test]
fn unmapped_events_are_rejected() {
    // A key no surface owns.
    assert_eq!(
        Message::parse(&[0x94, 5, 1]).unwrap_err(),
        MessageError::Unrecognized
    );
    assert_eq!(
        Message::parse(&[0x93, 40, 1]).unwrap_err(),
        MessageError::Unrecognized
    );
    // A well-formed event that is not a note at all.
    assert_eq!(
        Message::parse(&[0xB0, 1, 1]).unwrap_err(),
        MessageError::Unrecognized
    );
    // Malformed bytes.
    assert_eq!(Message::parse(&[0x90]).unwrap_err(), MessageError::Parse);
    assert_eq!(Message::parse(&[]).unwrap_err(), MessageError::Parse);
}

#[test]
fn field_names_match_the_shader_conventions() {
    assert_eq!(Field::Frequencies.name(), "Frequencies");
    assert_eq!(Field::Frequencies.constant(), "FIELD_FREQUENCIES");
    assert_eq!(Field::Frequencies.function(), "field_frequencies");
    assert_eq!(Field::Nothing.name(), "None");
    assert_eq!(Field::Nothing.constant(), "FIELD_NONE");
    assert_eq!(Field::Nothing.function(), "field_none");
    assert_eq!(Field::All.icon(), 'A');
    assert_eq!(Field::Nothing.icon(), ' ');
    assert_eq!(Field::Samples.icon(), 'S');
}

#[test]
fn presets_build_their_chains() {
    let state = Program::Middle.state();
    assert_eq!(state.filters.len(), 2);
    assert_eq!(state.filters[0].field, Field::Top);
    assert_eq!(state.filters[1].field, Field::Bottom);

    let state = Program::Highwaystar.state();
    assert_eq!(state.filters.len(), 8);
    for filter in &state.filters {
        assert_eq!(filter.field, Field::Circle);
        assert_eq!(f32::from_bits(filter.position.entries[0]), 2.0);
    }

    let state = Program::Hello.state();
    assert_eq!(state.db, -40);
    let text = state.text.unwrap();
    assert_eq!(text.string, "hello world");
    assert_eq!(f32::from_bits(text.size), 0.05);
    assert_eq!(f32::from_bits(text.x), 0.10);
    assert_eq!(f32::from_bits(text.y), -0.10);

    let state = Program::Nothing.state();
    assert_eq!(state.filters.len(), 0);

    let state = Program::RedX.state();
    assert_eq!(state.filters[0].field, Field::X);
    assert_eq!(f32::from_bits(state.filters[0].color.entries[0]), -1.0);
    assert_eq!(f32::from_bits(state.filters[0].color.entries[5]), 1.0);
}

#[test]
fn builders_shape_the_pending_filter_only_until_push() {
    let state = State::default().invert().circle();
    assert_eq!(state.filters.len(), 0);
    let state = state.push().top().push();
    assert_eq!(state.filters.len(), 2);
    assert_eq!(state.filters[0].field, Field::Circle);
    assert_eq!(state.filters[1].field, Field::Top);
    assert_eq!(f32::from_bits(state.filters[1].color.entries[0]), -1.0);
    let state = state.times(3);
    assert_eq!(state.filters.len(), 5);
}

#[test]
fn recorder_schedules_frame_durations() {
    let mut recorder = Recorder::new();
    recorder.frame(100);
    recorder.frame(250);
    recorder.frame(240);
    assert_eq!(recorder.frames(), 3);
    assert_eq!(
        recorder.schedule(),
        vec![(0, Some(150)), (1, Some(0)), (2, None)]
    );
}

fn image_of(data: &[u8]) -> Image {
    let mut image = Image::default();
    image.resize(2, 1);
    *image.data_mut() = data.to_vec();
    image
}

fn decoded(bytes: &[u8]) -> (png::ColorType, png::BitDepth, Vec<u8>) {
    let decoder = png::Decoder::new(std::io::Cursor::new(bytes));
    let mut reader = decoder.read_info().unwrap();
    let mut buffer = vec![0; reader.output_buffer_size().unwrap()];
    let info = reader.next_frame(&mut buffer).unwrap();
    let size = info.buffer_size();
    (info.color_type, info.bit_depth, buffer[..size].to_vec())
}

#[test]
fn color_type_reduction() {
    fn case(data: &[u8], color_type: png::ColorType, bit_depth: png::BitDepth, expected: &[u8]) {
        let image = image_of(data);
        let encoded = image.encode().unwrap();
        let (got_color, got_depth, bytes) = decoded(&encoded);
        assert_eq!(got_color, color_type);
        assert_eq!(got_depth, bit_depth);
        assert_eq!(bytes, expected);
    }

    case(
        &[0, 0, 0, 255, 255, 255, 255, 255],
        png::ColorType::Grayscale,
        png::BitDepth::One,
        &[0b0100_0000],
    );

    case(
        &[0, 0, 0, 255, 127, 127, 127, 255],
        png::ColorType::Grayscale,
        png::BitDepth::Eight,
        &[0, 127],
    );

    case(
        &[0, 0, 0, 255, 255, 255, 255, 127],
        png::ColorType::GrayscaleAlpha,
        png::BitDepth::Eight,
        &[0, 255, 255, 127],
    );

    case(
        &[0, 0, 0, 255, 0, 127, 255, 255],
        png::ColorType::Rgb,
        png::BitDepth::Eight,
        &[0, 0, 0, 0, 127, 255],
    );

    case(
        &[0, 0, 0, 255, 0, 127, 255, 127],
        png::ColorType::Rgba,
        png::BitDepth::Eight,
        &[0, 0, 0, 255, 0, 127, 255, 127],
    );
}

#[test]
fn pixel_scan_classifies_images() {
    let data = vec![0, 0, 0, 255, 255, 255, 255, 255];
    assert_eq!(analyze(&data), (false, false, false));
    let data = vec![0, 0, 0, 255, 127, 127, 127, 255];
    assert_eq!(analyze(&data), (false, false, true));
    let data = vec![0, 0, 0, 255, 255, 255, 255, 127];
    assert_eq!(analyze(&data), (true, false, true));
    let data = vec![255, 0, 0, 255];
    assert_eq!(analyze(&data), (false, true, false));
}

#[test]
fn reductions_extract_the_kept_channels() {
    let data = vec![1, 2, 3, 4, 5, 6, 7, 8];
    assert_eq!(reduce(&data, ColorMode::Grayscale), vec![1, 5]);
    assert_eq!(reduce(&data, ColorMode::GrayscaleAlpha), vec![1, 4, 5, 8]);
    assert_eq!(reduce(&data, ColorMode::Rgb), vec![1, 2, 3, 5, 6, 7]);
    assert_eq!(reduce(&data, ColorMode::Rgba), data);
}

#[test]
fn bilevel_packing_sets_one_bit_per_white_pixel() {
    // A 9x1 white-black alternation needs two bytes, the second nearly empty.
    let mut data = Vec::new();
    for x in 0..9 {
        let v = if x % 2 == 0 { 255 } else { 0 };
        data.extend_from_slice(&[v, v, v, 255]);
    }
    assert_eq!(pack_bilevel(&data, 9, 1), vec![0b1010_1010, 0b1000_0000]);
}

#[test]
fn resize_zero_fills_and_data_mut_writes_through() {
    let mut image = Image::default();
    image.resize(2, 2);
    assert_eq!((image.width(), image.height()), (2, 2));
    assert_eq!(image.data().len(), 16);
    assert!(image.data().iter().all(|&b| b == 0));
    image.data_mut()[3] = 9;
    assert_eq!(image.data()[3], 9);
    image.resize(1, 1);
    assert_eq!(image.data().len(), 4);
    assert_eq!(image.data()[3], 9);
}

#[test]
fn status_items_list_rate_level_and_icons() {
    let state = Program::Rip.state();
    assert_eq!(
        state.hud_items(Some(60)),
        vec![
            HudItem::Fps(60),
            HudItem::Level(0),
            HudItem::Icon('T'),
            HudItem::Icon('S'),
        ]
    );
    assert_eq!(
        state.hud_items(None),
        vec![HudItem::Level(0), HudItem::Icon('T'), HudItem::Icon('S')]
    );
}
