//! Times as text: `hh:mm:ss`, and `hh:mm:ss:ff` or `hh:mm:ss;ff` with a frame
//! number, where the semicolon says that drop frame mode is on.
use vstd::prelude::*;

use crate::pack::TimeValue;
use crate::pack::TimeValueWithOptionalFrame;
use crate::pack::TimeValueWithRequiredFrame;
use crate::text::push_text;
use crate::text::push_two_digits;
use crate::text::two_digits;

verus! {

/// Why a text is no time.
#[derive(Debug, PartialEq, Eq, Clone, Copy, Structural)]
pub enum TimeTextError {
    /// The text is not of one of the forms `h:m:s`, `h:m:s:f` and `h:m:s;f`
    /// with decimal numbers.
    Format,
    /// A number of the text is above 255.
    Number,
    /// The text has no frame number, and one is needed.
    MissingFrame,
}

impl TimeTextError {
    /// The text of the message.
    pub open spec fn text(&self) -> Seq<char> {
        match *self {
            TimeTextError::Format => "expected a time with optional frame number"@,
            TimeTextError::Number => "number too large to fit in target type"@,
            TimeTextError::MissingFrame => "input is missing a frame number"@,
        }
    }

    /// The message.
    pub fn message(&self) -> (r: &'static str)
        ensures
            r@ == self.text(),
    {
        match *self {
            TimeTextError::Format => "expected a time with optional frame number",
            TimeTextError::Number => "number too large to fit in target type",
            TimeTextError::MissingFrame => "input is missing a frame number",
        }
    }
}

/// Whether the byte is one of the digits `0` to `9`.
pub open spec fn is_digit(byte: u8) -> bool {
    0x30 <= byte <= 0x39
}

/// The place after the digits that begin at `from`: `from` itself where
/// no digit stands there.
pub open spec fn digits_end(text: Seq<u8>, from: int) -> int
    decreases text.len() - from,
{
    if 0 <= from < text.len() && is_digit(text[from]) {
        digits_end(text, from + 1)
    } else {
        from
    }
}

/// The number that the digits from `from` up to, and without, `to` stand for.
pub open spec fn digits_value(text: Seq<u8>, from: int, to: int) -> nat
    decreases to - from,
{
    if to <= from {
        0
    } else {
        digits_value(text, from, to - 1) * 10 + (text[to - 1] - 0x30) as nat
    }
}

/// The time that a text stands for.
///
/// The text is hour, minute and second as decimal numbers of one digit or
/// more, with colons between them; after them may stand a colon or a
/// semicolon and the frame number. Each number is at most 255. Drop frame is
/// on after a semicolon, and where there is no frame number.
pub open spec fn time_of_text(text: Seq<u8>) -> Result<TimeValueWithOptionalFrame, TimeTextError> {
    let hour_end = digits_end(text, 0);
    let minute_end = digits_end(text, hour_end + 1);
    let second_end = digits_end(text, minute_end + 1);
    let frame_end = digits_end(text, second_end + 1);
    let hour = digits_value(text, 0, hour_end);
    let minute = digits_value(text, hour_end + 1, minute_end);
    let second = digits_value(text, minute_end + 1, second_end);
    let frame = digits_value(text, second_end + 1, frame_end);
    let has_time = {
        &&& 0 < hour_end < text.len()
        &&& text[hour_end] == 0x3A
        &&& hour_end + 1 < minute_end < text.len()
        &&& text[minute_end] == 0x3A
        &&& minute_end + 1 < second_end
    };
    let has_frame = {
        &&& second_end < text.len()
        &&& (text[second_end] == 0x3A || text[second_end] == 0x3B)
        &&& second_end + 1 < frame_end
        &&& frame_end == text.len()
    };
    if !has_time || !(second_end == text.len() || has_frame) {
        Err(TimeTextError::Format)
    } else if hour > 255 || minute > 255 || second > 255 || (has_frame && frame > 255) {
        Err(TimeTextError::Number)
    } else {
        Ok(
            TimeValue {
                hour: hour as u8,
                minute: minute as u8,
                second: second as u8,
                drop_frame: !has_frame || text[second_end] == 0x3B,
                frame: if has_frame {
                    Some(frame as u8)
                } else {
                    None
                },
            },
        )
    }
}

/// Reads the digits that begin at `from`: the place after them, and the
/// number that they stand for, or 256 for a larger one.
fn scan_number(text: &[u8], from: usize) -> (r: (usize, u16))
    requires
        from <= text@.len() + 1,
    ensures
        r.0 == digits_end(text@, from as int),
        from <= r.0,
        r.0 <= text@.len() || r.0 == from,
        r.1 == if digits_value(text@, from as int, r.0 as int) > 255 {
            256
        } else {
            digits_value(text@, from as int, r.0 as int)
        },
{
    let mut i: usize = from;
    let mut value: u16 = 0;
    while i < text.len() && 0x30 <= text[i] && text[i] <= 0x39
        invariant
            from <= i,
            i <= text@.len() || i == from,
            digits_end(text@, from as int) == digits_end(text@, i as int),
            value == if digits_value(text@, from as int, i as int) > 255 {
                256
            } else {
                digits_value(text@, from as int, i as int)
            },
        decreases text@.len() - i,
    {
        let digit: u16 = (text[i] - 0x30) as u16;
        assert(digits_value(text@, from as int, i + 1) == digits_value(text@, from as int, i as int)
            * 10 + digit);
        value = if value >= 256 {
            256
        } else if value * 10 + digit > 255 {
            256
        } else {
            value * 10 + digit
        };
        i = i + 1;
    }
    (i, value)
}

impl TimeValueWithOptionalFrame {
    /// The time as text: hour, minute and second in two digits with colons
    /// between them, and after them the frame number, if there is one, in two
    /// digits after a semicolon where drop frame is on and after a colon
    /// where it is not.
    pub open spec fn text(&self) -> Seq<char> {
        let time = Seq::<char>::empty() + two_digits(self.hour as nat) + ":"@ + two_digits(
            self.minute as nat,
        ) + ":"@ + two_digits(self.second as nat);
        match self.frame {
            None => time,
            Some(frame) => if self.drop_frame {
                time + ";"@ + two_digits(frame as nat)
            } else {
                time + ":"@ + two_digits(frame as nat)
            },
        }
    }

    /// The time as text: see [`TimeValue::text`].
    pub fn message(&self) -> (r: String)
        ensures
            r@ == self.text(),
    {
        let mut s = String::new();
        push_two_digits(&mut s, self.hour as u128);
        push_text(&mut s, ":");
        push_two_digits(&mut s, self.minute as u128);
        push_text(&mut s, ":");
        push_two_digits(&mut s, self.second as u128);
        match self.frame {
            None => {},
            Some(frame) => {
                if self.drop_frame {
                    push_text(&mut s, ";");
                } else {
                    push_text(&mut s, ":");
                }
                push_two_digits(&mut s, frame as u128);
            },
        }
        s
    }

    /// Reads a time from the bytes of a text.
    pub fn from_text(text: &[u8]) -> (r: Result<TimeValueWithOptionalFrame, TimeTextError>)
        ensures
            r == time_of_text(text@),
    {
        let n = text.len();
        let (hour_end, hour) = scan_number(text, 0);
        if !(0 < hour_end && hour_end < n && text[hour_end] == 0x3A) {
            return Err(TimeTextError::Format);
        }
        let (minute_end, minute) = scan_number(text, hour_end + 1);
        if !(hour_end + 1 < minute_end && minute_end < n && text[minute_end] == 0x3A) {
            return Err(TimeTextError::Format);
        }
        let (second_end, second) = scan_number(text, minute_end + 1);
        if !(minute_end + 1 < second_end) {
            return Err(TimeTextError::Format);
        }
        if second_end == n {
            if hour > 255 || minute > 255 || second > 255 {
                return Err(TimeTextError::Number);
            }
            return Ok(
                TimeValue {
                    hour: hour as u8,
                    minute: minute as u8,
                    second: second as u8,
                    drop_frame: true,
                    frame: None,
                },
            );
        }
        let separator = text[second_end];
        if !(separator == 0x3A || separator == 0x3B) {
            return Err(TimeTextError::Format);
        }
        let (frame_end, frame) = scan_number(text, second_end + 1);
        if !(second_end + 1 < frame_end && frame_end == n) {
            return Err(TimeTextError::Format);
        }
        if hour > 255 || minute > 255 || second > 255 || frame > 255 {
            return Err(TimeTextError::Number);
        }
        Ok(
            TimeValue {
                hour: hour as u8,
                minute: minute as u8,
                second: second as u8,
                drop_frame: separator == 0x3B,
                frame: Some(frame as u8),
            },
        )
    }
}

/// The time with a required frame number that a time with an optional one
/// holds, if it holds the frame number.
pub open spec fn with_required_frame(time: TimeValueWithOptionalFrame) -> Result<
    TimeValueWithRequiredFrame,
    TimeTextError,
> {
    match time.frame {
        None => Err(TimeTextError::MissingFrame),
        Some(frame) => Ok(
            TimeValue {
                hour: time.hour,
                minute: time.minute,
                second: time.second,
                drop_frame: time.drop_frame,
                frame,
            },
        ),
    }
}

impl TimeValueWithRequiredFrame {
    /// The time as text: as [`TimeValue::text`] of the time with its frame
    /// number.
    pub open spec fn text(&self) -> Seq<char> {
        (TimeValue {
            hour: self.hour,
            minute: self.minute,
            second: self.second,
            drop_frame: self.drop_frame,
            frame: Some(self.frame),
        }).text()
    }

    /// The time as text.
    pub fn message(&self) -> (r: String)
        ensures
            r@ == self.text(),
    {
        let time = TimeValue {
            hour: self.hour,
            minute: self.minute,
            second: self.second,
            drop_frame: self.drop_frame,
            frame: Some(self.frame),
        };
        time.message()
    }

    /// Reads a time with a frame number from the bytes of a text.
    pub fn from_text(text: &[u8]) -> (r: Result<TimeValueWithRequiredFrame, TimeTextError>)
        ensures
            r == match time_of_text(text@) {
                Err(e) => Err(e),
                Ok(time) => with_required_frame(time),
            },
    {
        match TimeValueWithOptionalFrame::from_text(text) {
            Err(e) => Err(e),
            Ok(time) => match time.frame {
                None => Err(TimeTextError::MissingFrame),
                Some(frame) => Ok(
                    TimeValue {
                        hour: time.hour,
                        minute: time.minute,
                        second: time.second,
                        drop_frame: time.drop_frame,
                        frame,
                    },
                ),
            },
        }
    }
}

} // verus!
