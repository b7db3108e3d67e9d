use dv_toolbox_core::pack::TimeTextError;
use dv_toolbox_core::pack::TimeValue;
use dv_toolbox_core::pack::TimeValueWithOptionalFrame;
use dv_toolbox_core::pack::TimeValueWithRequiredFrame;

fn optional(text: &str) -> Result<TimeValueWithOptionalFrame, TimeTextError> {
    TimeValueWithOptionalFrame::from_text(text.as_bytes())
}

fn required(text: &str) -> Result<TimeValueWithRequiredFrame, TimeTextError> {
    TimeValueWithRequiredFrame::from_text(text.as_bytes())
}

#[test]
fn test_title_timecode_serde() {
    let time: TimeValueWithRequiredFrame =
        TimeValue { hour: 3, minute: 4, second: 5, drop_frame: true, frame: 6 };
    assert_eq!(time.message(), "03:04:05;06");
    assert_eq!(required("03:04:05;06"), Ok(time));
    let time: TimeValueWithRequiredFrame =
        TimeValue { hour: 3, minute: 4, second: 5, drop_frame: false, frame: 6 };
    assert_eq!(time.message(), "03:04:05:06");
    assert_eq!(required("03:04:05:06"), Ok(time));
}

#[test]
fn test_title_timecode_deserialize_error() {
    assert_eq!(required("03.04:05;06"), Err(TimeTextError::Format));
    assert_eq!(TimeTextError::Format.message(), "expected a time with optional frame number");
    assert_eq!(required("03:04:05"), Err(TimeTextError::MissingFrame));
    assert_eq!(TimeTextError::MissingFrame.message(), "input is missing a frame number");
}

#[test]
fn test_recording_time_serde() {
    let time: TimeValueWithOptionalFrame =
        TimeValue { hour: 3, minute: 4, second: 5, drop_frame: true, frame: Some(6) };
    assert_eq!(time.message(), "03:04:05;06");
    assert_eq!(optional("03:04:05;06"), Ok(time));
    let time: TimeValueWithOptionalFrame =
        TimeValue { hour: 23, minute: 59, second: 58, drop_frame: false, frame: Some(24) };
    assert_eq!(time.message(), "23:59:58:24");
    assert_eq!(optional("23:59:58:24"), Ok(time));
    let time: TimeValueWithOptionalFrame =
        TimeValue { hour: 3, minute: 4, second: 5, drop_frame: true, frame: None };
    assert_eq!(time.message(), "03:04:05");
    assert_eq!(optional("03:04:05"), Ok(time));
    // without a frame number the text does not say whether drop frame is on
    let time: TimeValueWithOptionalFrame =
        TimeValue { hour: 3, minute: 4, second: 5, drop_frame: false, frame: None };
    assert_eq!(time.message(), "03:04:05");
}

#[test]
fn times_of_texts() {
    assert_eq!(
        optional("1:2:3"),
        Ok(TimeValue { hour: 1, minute: 2, second: 3, drop_frame: true, frame: None })
    );
    assert_eq!(
        optional("001:002:003:004"),
        Ok(TimeValue { hour: 1, minute: 2, second: 3, drop_frame: false, frame: Some(4) })
    );
    assert_eq!(
        optional("255:255:255;255"),
        Ok(TimeValue { hour: 255, minute: 255, second: 255, drop_frame: true, frame: Some(255) })
    );
    assert_eq!(optional("256:00:00"), Err(TimeTextError::Number));
    assert_eq!(optional("00:256:00"), Err(TimeTextError::Number));
    assert_eq!(optional("00:00:99999999999999999999999"), Err(TimeTextError::Number));
    assert_eq!(optional("00:00:00:300"), Err(TimeTextError::Number));
    assert_eq!(TimeTextError::Number.message(), "number too large to fit in target type");
    for text in [
        "", ":", "::", "1", "1:2", "1:2:", "1::3", ":2:3", "1:2:3:", "1:2:3;", "1:2:3:4:5",
        "1:2:3 ", " 1:2:3", "1:2:3,4", "a:b:c", "1:2:x", "-1:2:3", "+1:2:3", "1:2:3;4;", "01:02:03\n",
        "1;2;3", "256:x",
    ] {
        assert_eq!(optional(text), Err(TimeTextError::Format), "{:?}", text);
    }
}

#[test]
fn times_are_read_back_from_their_text() {
    for hour in [0u8, 7, 23, 99, 100, 255] {
        for second in [0u8, 9, 10, 59] {
            for frame in [None, Some(0u8), Some(29), Some(255)] {
                for drop_frame in [false, true] {
                    let time: TimeValueWithOptionalFrame =
                        TimeValue { hour, minute: second, second, drop_frame, frame };
                    let expected = TimeValue { drop_frame: drop_frame || frame.is_none(), ..time };
                    assert_eq!(optional(&time.message()), Ok(expected));
                }
            }
        }
    }
}
