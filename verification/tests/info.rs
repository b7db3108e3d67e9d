use dv_toolbox_core::ffutil::AVRationalConversionError;
use dv_toolbox_core::ffutil::AVRationalConverter;
use dv_toolbox_core::file::AudioStream;
use dv_toolbox_core::file::Info;
use dv_toolbox_core::file::InfoError;
use dv_toolbox_core::file::Ratio;
use dv_toolbox_core::file::StreamError;
use dv_toolbox_core::file::System;
use dv_toolbox_core::file::ValidInfo;
use dv_toolbox_core::file::VideoStream;

#[derive(Debug)]
struct DerivedFields {
    video_frame_count: u64,
    video_frame_size: u32,
    video_frame_channel_count: u8,
    video_frame_dif_sequence_count: u8,
    system: System,
    ideal_audio_samples_per_frame: Option<Ratio<u32>>,
}

impl DerivedFields {
    fn assert_info(&self, actual_info: &ValidInfo) {
        assert_eq!(actual_info.video_frame_count(), self.video_frame_count);
        assert_eq!(actual_info.video_frame_size(), self.video_frame_size);
        assert_eq!(actual_info.video_frame_channel_count(), self.video_frame_channel_count);
        assert_eq!(
            actual_info.video_frame_dif_sequence_count(),
            self.video_frame_dif_sequence_count
        );
        assert_eq!(actual_info.system(), self.system);
        assert_eq!(
            actual_info.ideal_audio_samples_per_frame(),
            self.ideal_audio_samples_per_frame
        );
    }
}

fn run_info_validation_test_case(
    name: &str,
    info: Info,
    err: Option<&str>,
    derived: Option<DerivedFields>,
) {
    let res = info.validate();
    if let Some(ref derived) = derived {
        let valid = res.unwrap();
        assert_eq!(valid.get(), info, "case {}", name);
        derived.assert_info(&valid);
    } else {
        assert_eq!(res.unwrap_err().message(), err.unwrap(), "case {}", name);
    }
}

fn run_info_check_similar_test_case(
    name: &str,
    expected: Info,
    comparison: Info,
    err: Option<&str>,
) {
    let expected = expected.validate().unwrap();
    let comparison = comparison.validate().unwrap();
    assert_eq!(
        expected.check_similar(&comparison).map_err(|e| e.message()),
        match err {
            Some(e) => Err(String::from(e)),
            None => Ok(()),
        },
        "case {}",
        name
    );
}

#[test]
fn test_info_validation() {
    run_info_validation_test_case(
        "ntsc_48k",
        Info {
            file_size: 600_000,
            video_frame_rate: Ratio { numer: 30_000, denom: 1_001 },
            video_duration: Ratio { numer: 1_001 * 5, denom: 30_000 },
            audio_stereo_stream_count: 2,
            audio_sample_rate: Some(32_000),
        },
        None,
        Some(DerivedFields {
            video_frame_count: 5,
            video_frame_size: 120_000,
            video_frame_channel_count: 1,
            video_frame_dif_sequence_count: 10,
            system: System::Sys525_60,
            ideal_audio_samples_per_frame: Some(Ratio { numer: 16_016, denom: 15 }),
        }),
    );
    run_info_validation_test_case(
        "pal_44_1k",
        Info {
            file_size: 1_008_000,
            video_frame_rate: Ratio { numer: 25, denom: 1 },
            video_duration: Ratio { numer: 7, denom: 25 },
            audio_stereo_stream_count: 1,
            audio_sample_rate: Some(44_100),
        },
        None,
        Some(DerivedFields {
            video_frame_count: 7,
            video_frame_size: 144_000,
            video_frame_channel_count: 1,
            video_frame_dif_sequence_count: 12,
            system: System::Sys625_50,
            ideal_audio_samples_per_frame: Some(Ratio { numer: 1_764, denom: 1 }),
        }),
    );
    run_info_validation_test_case(
        "ntsc_no_audio_2_channel",
        Info {
            file_size: 960_000,
            video_frame_rate: Ratio { numer: 30_000, denom: 1_001 },
            video_duration: Ratio { numer: 1_001 * 4, denom: 30_000 },
            audio_stereo_stream_count: 0,
            audio_sample_rate: None,
        },
        None,
        Some(DerivedFields {
            video_frame_count: 4,
            video_frame_size: 240_000,
            video_frame_channel_count: 2,
            video_frame_dif_sequence_count: 10,
            system: System::Sys525_60,
            ideal_audio_samples_per_frame: None,
        }),
    );
    run_info_validation_test_case(
        "pal_no_audio_2_channel",
        Info {
            file_size: 1_728_000,
            video_frame_rate: Ratio { numer: 25, denom: 1 },
            video_duration: Ratio { numer: 6, denom: 25 },
            audio_stereo_stream_count: 0,
            audio_sample_rate: None,
        },
        None,
        Some(DerivedFields {
            video_frame_count: 6,
            video_frame_size: 288_000,
            video_frame_channel_count: 2,
            video_frame_dif_sequence_count: 12,
            system: System::Sys625_50,
            ideal_audio_samples_per_frame: None,
        }),
    );
    run_info_validation_test_case(
        "non_integer_frame_count",
        Info {
            file_size: 600_000,
            video_frame_rate: Ratio { numer: 30_000, denom: 1_001 },
            video_duration: Ratio { numer: 1_001 * 5 + 1, denom: 30_000 },
            audio_stereo_stream_count: 2,
            audio_sample_rate: Some(32_000),
        },
        Some(
            "video_duration: Total video frame count 5006/1001 is not an integer; \
                it resulted from multiplying video frame rate 30000/1001 by video \
                duration 2503/15000\n",
        ),
        None,
    );
    run_info_validation_test_case(
        "zero_length",
        Info {
            file_size: 0,
            video_frame_rate: Ratio { numer: 30_000, denom: 1_001 },
            video_duration: Ratio { numer: 0, denom: 1 },
            audio_stereo_stream_count: 2,
            audio_sample_rate: Some(32_000),
        },
        Some(
            "video_duration: Video frame count is zero, so cannot calculate the frame size\n",
        ),
        None,
    );
    run_info_validation_test_case(
        "weird_file_size",
        Info {
            file_size: 600_001,
            video_frame_rate: Ratio { numer: 30_000, denom: 1_001 },
            video_duration: Ratio { numer: 1_001 * 5, denom: 30_000 },
            audio_stereo_stream_count: 2,
            audio_sample_rate: Some(32_000),
        },
        Some(
            "video_duration: File size 600001 is not evenly divisible by video frame count 5\n",
        ),
        None,
    );
    run_info_validation_test_case(
        "unsupported_frame_size",
        Info {
            file_size: 600_005,
            video_frame_rate: Ratio { numer: 30_000, denom: 1_001 },
            video_duration: Ratio { numer: 1_001 * 5, denom: 30_000 },
            audio_stereo_stream_count: 2,
            audio_sample_rate: Some(32_000),
        },
        Some("video_duration: Unsupported frame size 120001\n"),
        None,
    );
    run_info_validation_test_case(
        "unsupported_frame_rate",
        Info {
            file_size: 600_000,
            video_frame_rate: Ratio { numer: 30_001, denom: 1_001 },
            video_duration: Ratio { numer: 1_001 * 5, denom: 30_001 },
            audio_stereo_stream_count: 2,
            audio_sample_rate: Some(32_000),
        },
        Some(
            "video_frame_rate: Video frame rate 30001/1001 is not a \
            supported NTSC/PAL/SECAM rate\n",
        ),
        None,
    );
    run_info_validation_test_case(
        "unsupported_sample_rate",
        Info {
            file_size: 600_000,
            video_frame_rate: Ratio { numer: 30_000, denom: 1_001 },
            video_duration: Ratio { numer: 1_001 * 5, denom: 30_000 },
            audio_stereo_stream_count: 2,
            audio_sample_rate: Some(32_001),
        },
        Some("audio_sample_rate: Unsupported audio sample rate 32001\n"),
        None,
    );
    run_info_validation_test_case(
        "missing_sample_rate",
        Info {
            file_size: 600_000,
            video_frame_rate: Ratio { numer: 30_000, denom: 1_001 },
            video_duration: Ratio { numer: 1_001 * 5, denom: 30_000 },
            audio_stereo_stream_count: 2,
            audio_sample_rate: None,
        },
        Some("audio_sample_rate: Could not detect sample rate for audio streams\n"),
        None,
    );
    run_info_validation_test_case(
        "unexpected_sample_rate",
        Info {
            file_size: 600_000,
            video_frame_rate: Ratio { numer: 30_000, denom: 1_001 },
            video_duration: Ratio { numer: 1_001 * 5, denom: 30_000 },
            audio_stereo_stream_count: 0,
            audio_sample_rate: Some(48_000),
        },
        Some(
            "audio_sample_rate: Audio sample rate cannot be provided \
            if there are no audio streams\n",
        ),
        None,
    );
}

#[test]
fn test_info_check_similar() {
    run_info_check_similar_test_case(
        "matches",
        Info {
            file_size: 600_000,
            video_frame_rate: Ratio { numer: 30_000, denom: 1_001 },
            video_duration: Ratio { numer: 1_001 * 5, denom: 30_000 },
            audio_stereo_stream_count: 2,
            audio_sample_rate: Some(32_000),
        },
        Info {
            file_size: 600_000,
            video_frame_rate: Ratio { numer: 30_000, denom: 1_001 },
            video_duration: Ratio { numer: 1_001 * 5, denom: 30_000 },
            audio_stereo_stream_count: 2,
            audio_sample_rate: Some(32_000),
        },
        None,
    );
    run_info_check_similar_test_case(
        "frame_rate_mismatch",
        Info {
            file_size: 600_000,
            video_frame_rate: Ratio { numer: 30_000, denom: 1_001 },
            video_duration: Ratio { numer: 1_001 * 5, denom: 30_000 },
            audio_stereo_stream_count: 2,
            audio_sample_rate: Some(32_000),
        },
        Info {
            file_size: 720_000,
            video_frame_rate: Ratio { numer: 25, denom: 1 },
            video_duration: Ratio { numer: 5, denom: 25 },
            audio_stereo_stream_count: 2,
            audio_sample_rate: Some(32_000),
        },
        Some("Video frame rate 25 does not match 30000/1001"),
    );
    run_info_check_similar_test_case(
        "frame_size_mismatch",
        Info {
            file_size: 600_000,
            video_frame_rate: Ratio { numer: 30_000, denom: 1_001 },
            video_duration: Ratio { numer: 1_001 * 5, denom: 30_000 },
            audio_stereo_stream_count: 2,
            audio_sample_rate: Some(32_000),
        },
        Info {
            file_size: 1_200_000,
            video_frame_rate: Ratio { numer: 30_000, denom: 1_001 },
            video_duration: Ratio { numer: 1_001 * 5, denom: 30_000 },
            audio_stereo_stream_count: 2,
            audio_sample_rate: Some(32_000),
        },
        Some("Video frame size 240000 does not match 120000"),
    );
    run_info_check_similar_test_case(
        "audio_stream_count_mismatch",
        Info {
            file_size: 600_000,
            video_frame_rate: Ratio { numer: 30_000, denom: 1_001 },
            video_duration: Ratio { numer: 1_001 * 5, denom: 30_000 },
            audio_stereo_stream_count: 2,
            audio_sample_rate: Some(32_000),
        },
        Info {
            file_size: 600_000,
            video_frame_rate: Ratio { numer: 30_000, denom: 1_001 },
            video_duration: Ratio { numer: 1_001 * 5, denom: 30_000 },
            audio_stereo_stream_count: 1,
            audio_sample_rate: Some(32_000),
        },
        Some("Audio stereo stream count 1 does not match 2"),
    );
    run_info_check_similar_test_case(
        "audio_sample_rate_mismatch",
        Info {
            file_size: 600_000,
            video_frame_rate: Ratio { numer: 30_000, denom: 1_001 },
            video_duration: Ratio { numer: 1_001 * 5, denom: 30_000 },
            audio_stereo_stream_count: 2,
            audio_sample_rate: Some(32_000),
        },
        Info {
            file_size: 600_000,
            video_frame_rate: Ratio { numer: 30_000, denom: 1_001 },
            video_duration: Ratio { numer: 1_001 * 5, denom: 30_000 },
            audio_stereo_stream_count: 2,
            audio_sample_rate: Some(48_000),
        },
        Some("Audio sample rate 48000 does not match 32000"),
    );
}

fn video(rate: (i32, i32), duration: i64, time_base: (i32, i32)) -> VideoStream {
    VideoStream {
        r_frame_rate: AVRationalConverter { num: rate.0, den: rate.1 },
        duration,
        time_base: AVRationalConverter { num: time_base.0, den: time_base.1 },
    }
}

fn stereo(sample_rate: i32) -> AudioStream {
    AudioStream { sample_rate, is_signed_16_bit: true, is_stereo: true }
}

#[test]
fn test_info_read() {
    // five frames of a 525-60 file with two audio streams at 32 kHz
    let videos = vec![video((30_000, 1_001), 5, (1_001, 30_000))];
    let audios = vec![stereo(32_000), stereo(32_000)];
    let info = ValidInfo::from_streams(600_000, &videos, &audios).unwrap();
    assert_eq!(
        info.get(),
        Info {
            file_size: 600_000,
            video_frame_rate: Ratio { numer: 30_000, denom: 1_001 },
            video_duration: Ratio { numer: 1_001, denom: 6_000 },
            audio_stereo_stream_count: 2,
            audio_sample_rate: Some(32_000),
        }
    );
    assert_eq!(info.video_frame_count(), 5);
    assert_eq!(info.video_frame_size(), 120_000);
    assert_eq!(info.system(), System::Sys525_60);
    assert_eq!(info.ideal_audio_samples_per_frame(), Some(Ratio { numer: 16_016, denom: 15 }));

    // a 625-50 file without audio
    let videos = vec![video((25, 1), 6, (1, 25))];
    let info = ValidInfo::from_streams(1_728_000, &videos, &vec![]).unwrap();
    assert_eq!(info.system(), System::Sys625_50);
    assert_eq!(info.video_frame_channel_count(), 2);
    assert_eq!(info.video_frame_dif_sequence_count(), 12);
    assert_eq!(info.ideal_audio_samples_per_frame(), None);
}

fn stream_error(
    videos: Vec<VideoStream>,
    audios: Vec<AudioStream>,
) -> (Option<StreamError>, String) {
    match ValidInfo::from_streams(600_000, &videos, &audios) {
        Err(InfoError::Stream { source }) => {
            (Some(source), InfoError::Stream { source }.message())
        }
        Err(other) => (None, other.message()),
        Ok(_) => (None, String::new()),
    }
}

#[test]
fn info_from_streams_errors() {
    let good = video((30_000, 1_001), 5, (1_001, 30_000));
    assert_eq!(
        stream_error(vec![], vec![]),
        (
            Some(StreamError::VideoStreamCount),
            String::from("Could not find exactly one video stream")
        )
    );
    assert_eq!(stream_error(vec![good, good], vec![]).0, Some(StreamError::VideoStreamCount));
    assert_eq!(
        stream_error(vec![video((30_000, 0), 5, (1_001, 30_000))], vec![]),
        (
            Some(StreamError::FrameRate { source: AVRationalConversionError::DenominatorZero }),
            String::from("Video stream was missing a frame rate, or it was invalid")
        )
    );
    assert_eq!(
        stream_error(vec![video((-30_000, 1_001), 5, (1_001, 30_000))], vec![]).0,
        Some(StreamError::FrameRate { source: AVRationalConversionError::TryFromRational })
    );
    assert_eq!(
        stream_error(vec![video((30_000, 1_001), i64::MIN, (1_001, 30_000))], vec![]),
        (
            Some(StreamError::Duration),
            String::from("Video stream was missing a duration, or it was invalid")
        )
    );
    assert_eq!(
        stream_error(vec![video((30_000, 1_001), -5, (1_001, 30_000))], vec![]).0,
        Some(StreamError::Duration)
    );
    assert_eq!(
        stream_error(vec![video((30_000, 1_001), 5, (1_001, 0))], vec![]).0,
        Some(StreamError::Duration)
    );
    assert_eq!(
        stream_error(vec![good], vec![stereo(32_000); 256]).0,
        Some(StreamError::AudioStreamCount)
    );
    assert_eq!(stream_error(vec![good], vec![stereo(-1)]).0, Some(StreamError::SampleRate));
    assert_eq!(
        stream_error(vec![good], vec![stereo(32_000), stereo(48_000)]),
        (
            Some(StreamError::SampleRateMismatch),
            String::from("All audio streams must have the same sample rate")
        )
    );
    assert_eq!(
        stream_error(
            vec![good],
            vec![AudioStream { sample_rate: 32_000, is_signed_16_bit: false, is_stereo: true }]
        ),
        (
            Some(StreamError::SampleFormat),
            String::from("All audio streams must have 16-bit signed PCM samples")
        )
    );
    assert_eq!(
        stream_error(
            vec![good],
            vec![
                stereo(32_000),
                AudioStream { sample_rate: 32_000, is_signed_16_bit: true, is_stereo: false }
            ]
        ),
        (
            Some(StreamError::ChannelLayout),
            String::from("All audio streams must have a stereo channel layout")
        )
    );
    // the streams give metadata that breaks a rule: three audio streams
    match ValidInfo::from_streams(600_000, &vec![good], &vec![stereo(32_000); 3]) {
        Err(InfoError::Validation { source }) => {
            assert_eq!(source.message(), "audio_stereo_stream_count: greater than 2\n");
            assert_eq!(
                InfoError::Validation { source }.message(),
                "Validation failures on the video file metadata"
            );
        }
        other => panic!("unexpected {:?}", other),
    }
    assert_eq!(
        InfoError::Seek.message(),
        "Could not read file size by seeking within the file"
    );
    assert_eq!(InfoError::Open.message(), "Could not open file using FFmpeg");
}

#[test]
fn info_reports_every_violated_field() {
    let info = Info {
        file_size: 600_000,
        video_frame_rate: Ratio { numer: 24, denom: 1 },
        video_duration: Ratio { numer: 5, denom: 0 },
        audio_stereo_stream_count: 3,
        audio_sample_rate: None,
    };
    assert_eq!(
        info.validate().unwrap_err().message(),
        "audio_sample_rate: Could not detect sample rate for audio streams\n\
         audio_stereo_stream_count: greater than 2\n\
         video_duration: Video frame rate and video duration must not have a zero denominator\n\
         video_frame_rate: Video frame rate 24 is not a supported NTSC/PAL/SECAM rate\n"
    );
    let info = Info {
        file_size: u64::MAX,
        video_frame_rate: Ratio { numer: 25, denom: 1 },
        video_duration: Ratio { numer: 1 << 96, denom: 1 },
        audio_stereo_stream_count: 0,
        audio_sample_rate: None,
    };
    assert_eq!(
        info.validate().unwrap_err().message(),
        "video_duration: Video duration does not fit in 96 bits over 32 bits\n"
    );
    let info = Info { video_duration: Ratio { numer: 1 << 90, denom: 1 }, ..info };
    assert_eq!(
        info.validate().unwrap_err().message(),
        "video_duration: Frame count 30948500982134506872478105600 does not fit in a 64-bit \
         integer\n"
    );
    let info = Info { video_duration: Ratio { numer: 1, denom: 25 }, ..info };
    assert_eq!(
        info.validate().unwrap_err().message(),
        "video_duration: Video frame size count 18446744073709551615 does not fit in a 64-bit \
         integer\n"
    );
}
