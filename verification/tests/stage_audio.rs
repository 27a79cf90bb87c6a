use iced_ruffle::audio::{bias_to_unsigned, mix_output, MixOutput, SampleFormat};
use iced_ruffle::stage::{stage_extent, Stage};
use iced_ruffle::Error;

#[test]
fn stage_extent_rounds_up_to_whole_pixels() {
    assert_eq!(stage_extent(11000), 550);
    assert_eq!(stage_extent(8000), 400);
    assert_eq!(stage_extent(8001), 401);
    assert_eq!(stage_extent(8019), 401);
    assert_eq!(stage_extent(8020), 401);
    assert_eq!(stage_extent(8021), 402);
}

#[test]
fn stage_extent_is_at_least_one_pixel() {
    assert_eq!(stage_extent(0), 1);
    assert_eq!(stage_extent(1), 1);
    assert_eq!(stage_extent(20), 1);
    assert_eq!(stage_extent(21), 2);
    assert_eq!(stage_extent(-500), 1);
    assert_eq!(stage_extent(i32::MIN), 1);
    assert_eq!(stage_extent(i32::MAX), 107_374_183);
}

#[test]
fn stage_size_from_header() {
    let stage = Stage::from_twips(11000, 8000);
    assert_eq!(stage.size(), (550, 400));
}

#[test]
fn mix_output_for_formats() {
    assert_eq!(mix_output(SampleFormat::F32), Some(MixOutput::Float));
    assert_eq!(mix_output(SampleFormat::I16), Some(MixOutput::Signed16));
    assert_eq!(mix_output(SampleFormat::U16), Some(MixOutput::Unsigned16));
    for unsupported in [
        SampleFormat::I8,
        SampleFormat::I32,
        SampleFormat::I64,
        SampleFormat::U8,
        SampleFormat::U32,
        SampleFormat::U64,
        SampleFormat::F64,
        SampleFormat::Other,
    ] {
        assert_eq!(mix_output(unsupported), None);
    }
}

#[test]
fn bias_turns_signed_samples_into_offset_unsigned() {
    let signed: [i16; 5] = [i16::MIN, -1, 0, 1, i16::MAX];
    let mut buffer: Vec<u16> = signed.iter().map(|s| *s as u16).collect();
    bias_to_unsigned(&mut buffer);
    assert_eq!(buffer, vec![0, 32767, 32768, 32769, 65535]);
    for (s, u) in signed.iter().zip(buffer.iter()) {
        assert_eq!(*u as i32, *s as i32 + 32768);
    }
}

#[test]
fn bias_of_empty_buffer() {
    let mut buffer: Vec<u16> = Vec::new();
    bias_to_unsigned(&mut buffer);
    assert!(buffer.is_empty());
}

#[test]
fn error_messages() {
    assert_eq!(Error::Load("bad header".to_string()).message(), "failed to load SWF: bad header");
    assert_eq!(
        Error::Renderer("no adapter".to_string()).message(),
        "failed to create renderer: no adapter"
    );
}
