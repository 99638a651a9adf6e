use aiko::audio::{
    bytemuck_cast_i16, decoder_channels, decoder_sample_rate, frame_duration_ms, opus_pcm_capacity,
    pcm_samples, pcm_to_le_bytes, to_audiopus_channels, to_audiopus_sample_rate, AudioDecodeStage,
    OpusApplication, OpusChannels, OpusSampleRate, WebRtcAudioSinkConfig,
};
use aiko::error::ElementError;
use aiko::frame::FrameId;
use aiko::media::{AudioFrame, SampleFormat};

#[test]
fn audio_sink_test_config_default() {
    let config = WebRtcAudioSinkConfig::default();
    assert_eq!(config.sample_rate, 48000);
    assert_eq!(config.channels, 2);
}

#[test]
fn test_sample_rate_conversion() {
    assert!(to_audiopus_sample_rate(48000).is_ok());
    assert!(to_audiopus_sample_rate(44100).is_err());
}

#[test]
fn test_channel_conversion() {
    assert!(to_audiopus_channels(1).is_ok());
    assert!(to_audiopus_channels(2).is_ok());
    assert!(to_audiopus_channels(5).is_err());
}

#[test]
fn test_bytemuck_cast() {
    let bytes: Vec<u8> = vec![0x01, 0x00, 0xFF, 0x7F];
    let samples = bytemuck_cast_i16(&bytes);
    assert_eq!(samples.len(), 2);
    assert_eq!(samples[0], 1);
    assert_eq!(samples[1], 32767);
}

#[test]
fn configuration_errors_name_the_value() {
    match to_audiopus_sample_rate(44100) {
        Err(ElementError::Configuration(msg)) => {
            assert_eq!(msg, "Unsupported Opus sample rate: 44100. Must be 8000/12000/16000/24000/48000.")
        }
        _ => panic!("expected a configuration error"),
    }
    match to_audiopus_channels(5) {
        Err(ElementError::Configuration(msg)) => {
            assert_eq!(msg, "Unsupported channel count: 5. Must be 1 (mono) or 2 (stereo).")
        }
        _ => panic!("expected a configuration error"),
    }
    match decoder_sample_rate(0) {
        Err(ElementError::Processing(msg)) => assert_eq!(msg, "Unsupported Opus sample rate: 0"),
        _ => panic!("expected a processing error"),
    }
    match decoder_channels(3) {
        Err(ElementError::Processing(msg)) => assert_eq!(msg, "Unsupported channel count: 3"),
        _ => panic!("expected a processing error"),
    }
    assert_eq!(to_audiopus_sample_rate(8000).unwrap(), OpusSampleRate::Hz8000);
    assert_eq!(decoder_channels(2).unwrap(), OpusChannels::Stereo);
}

#[test]
fn pcm_bytes_roundtrip() {
    let samples: Vec<i16> = vec![0, 1, -1, i16::MIN, i16::MAX, 256];
    let bytes = pcm_to_le_bytes(&samples, samples.len());
    assert_eq!(&bytes[..6], &[0x00, 0x00, 0x01, 0x00, 0xFF, 0xFF]);
    assert_eq!(bytemuck_cast_i16(&bytes), samples);
    assert_eq!(pcm_to_le_bytes(&samples, 2), vec![0, 0, 1, 0]);
}

#[test]
fn sink_accepts_only_i16le() {
    let ok = AudioFrame::new(48000, 1, SampleFormat::I16Le, vec![0x02, 0x00, 0x00, 0x80]);
    assert_eq!(pcm_samples(&ok).unwrap(), vec![2, i16::MIN]);
    let float = AudioFrame::new(48000, 1, SampleFormat::F32Le, vec![0u8; 8]);
    match pcm_samples(&float) {
        Err(ElementError::Processing(msg)) => assert_eq!(msg, "WebRtcAudioSink requires I16Le audio frames"),
        _ => panic!("expected a processing error"),
    }
}

#[test]
fn frame_timing_and_buffer_size() {
    let frame = AudioFrame::silence(48000, 2, SampleFormat::I16Le, 960);
    assert_eq!(frame_duration_ms(&frame), 20);
    assert_eq!(opus_pcm_capacity(48000, 2), 11520);
    assert_eq!(WebRtcAudioSinkConfig::default().application, OpusApplication::Voip);
}

#[test]
fn decode_stage_numbers_frames() {
    let mut stage = AudioDecodeStage::new(48000, 2);
    assert_eq!(stage.decoder_settings().unwrap(), (OpusSampleRate::Hz48000, OpusChannels::Stereo));
    let pcm: Vec<i16> = vec![1, -2, 3, -4, 99, 99];
    let first = stage.frame_from_pcm(&pcm, 2);
    assert_eq!(first.frame_id(), FrameId(0));
    assert_eq!(first.payload.sample_rate, 48000);
    assert_eq!(first.payload.channels, 2);
    assert_eq!(first.payload.format, SampleFormat::I16Le);
    assert_eq!(first.payload.data, vec![1, 0, 0xFE, 0xFF, 3, 0, 0xFC, 0xFF]);
    let second = stage.frame_from_pcm(&pcm, 1);
    assert_eq!(second.frame_id(), FrameId(1));
    assert_eq!(second.stream_id(), first.stream_id());
    assert_eq!(stage.frame_count(), 2);
    let bad = AudioDecodeStage::new(44100, 2);
    assert!(bad.decoder_settings().is_err());
}
