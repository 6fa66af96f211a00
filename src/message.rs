//! Decoding of the two topics' payloads: partial settings and display commands.

use vstd::prelude::*;

use crate::display::DisplayControlMessage;
use crate::json::{member, member_of, object_members, parse_object, parsed_object, JsonMember, JsonObject};
use crate::settings::{NoiseGeneratorSettingsUpdate, Real};

verus! {

/// The members that messages define.
#[derive(Clone, Copy, Debug, PartialEq, Eq)]
pub enum MemberName {
    WidthDivider,
    HeightMultiplier,
    SegmentWidth,
    FrameTimeDivider,
    PerlinNoiseOctaves,
    DisplayOn,
}

/// Why a payload could not be decoded.
#[derive(Clone, Copy, Debug, PartialEq, Eq)]
pub enum DecodeError {
    /// The payload is not UTF-8 text.
    NotText,
    /// The text is not a JSON object.
    NotAnObject,
    /// A member that the message defines holds a value of the wrong type.
    BadMember(MemberName),
}

/// A member that holds a double: absent or null gives no value, a number its
/// value; anything else is refused (outer `None`).
pub open spec fn real_value(m: Option<JsonMember>) -> Option<Option<Real>> {
    match m {
        None => Some(None),
        Some(JsonMember::Null) => Some(None),
        Some(JsonMember::Number { whole: _, value }) => Some(Some(value)),
        Some(_) => None,
    }
}

/// A member that holds a count: absent or null gives no value, a
/// non-negative integer that fits in `usize` its value; anything else is
/// refused (outer `None`).
pub open spec fn count_value(m: Option<JsonMember>) -> Option<Option<usize>> {
    match m {
        None => Some(None),
        Some(JsonMember::Null) => Some(None),
        Some(JsonMember::Number { whole: Some(w), value: _ }) => if w <= usize::MAX {
            Some(Some(w as usize))
        } else {
            None
        },
        Some(_) => None,
    }
}

/// The settings update that an object's members make; unknown members are
/// ignored, and the first ill-typed known member, in field order, is the error.
pub open spec fn update_from_members(ms: Map<Seq<char>, JsonMember>) -> Result<NoiseGeneratorSettingsUpdate, DecodeError> {
    let w = real_value(member_of(ms, "width_divider"@));
    let h = real_value(member_of(ms, "height_multiplier"@));
    let s = real_value(member_of(ms, "segment_width"@));
    let f = real_value(member_of(ms, "frame_time_divider"@));
    let o = count_value(member_of(ms, "perlin_noise_octaves"@));
    if w is None {
        Err(DecodeError::BadMember(MemberName::WidthDivider))
    } else if h is None {
        Err(DecodeError::BadMember(MemberName::HeightMultiplier))
    } else if s is None {
        Err(DecodeError::BadMember(MemberName::SegmentWidth))
    } else if f is None {
        Err(DecodeError::BadMember(MemberName::FrameTimeDivider))
    } else if o is None {
        Err(DecodeError::BadMember(MemberName::PerlinNoiseOctaves))
    } else {
        Ok(NoiseGeneratorSettingsUpdate {
            width_divider: w->Some_0,
            height_multiplier: h->Some_0,
            segment_width: s->Some_0,
            frame_time_divider: f->Some_0,
            perlin_noise_octaves: o->Some_0,
        })
    }
}

/// What a settings payload decodes to.
pub open spec fn settings_message(text: Seq<char>) -> Result<NoiseGeneratorSettingsUpdate, DecodeError> {
    match parsed_object(text) {
        None => Err(DecodeError::NotAnObject),
        Some(ms) => update_from_members(ms),
    }
}

/// The display command that an object's members make.
pub open spec fn display_from_members(ms: Map<Seq<char>, JsonMember>) -> Result<DisplayControlMessage, DecodeError> {
    match member_of(ms, "display_on"@) {
        None => Ok(DisplayControlMessage { display_on: false }),
        Some(JsonMember::Bool(b)) => Ok(DisplayControlMessage { display_on: b }),
        Some(_) => Err(DecodeError::BadMember(MemberName::DisplayOn)),
    }
}

/// What a display payload decodes to.
pub open spec fn display_message(text: Seq<char>) -> Result<DisplayControlMessage, DecodeError> {
    match parsed_object(text) {
        None => Err(DecodeError::NotAnObject),
        Some(ms) => display_from_members(ms),
    }
}

fn real_member(obj: &JsonObject, key: &str, name: MemberName) -> (r: Result<Option<Real>, DecodeError>)
    ensures
        match real_value(member_of(object_members(*obj), key@)) {
            Some(v) => r == Ok::<Option<Real>, DecodeError>(v),
            None => r == Err::<Option<Real>, DecodeError>(DecodeError::BadMember(name)),
        },
{
    match member(obj, key) {
        None => Ok(None),
        Some(JsonMember::Null) => Ok(None),
        Some(JsonMember::Number { whole: _, value }) => Ok(Some(value)),
        Some(_) => Err(DecodeError::BadMember(name)),
    }
}

fn count_member(obj: &JsonObject, key: &str, name: MemberName) -> (r: Result<Option<usize>, DecodeError>)
    ensures
        match count_value(member_of(object_members(*obj), key@)) {
            Some(v) => r == Ok::<Option<usize>, DecodeError>(v),
            None => r == Err::<Option<usize>, DecodeError>(DecodeError::BadMember(name)),
        },
{
    match member(obj, key) {
        None => Ok(None),
        Some(JsonMember::Null) => Ok(None),
        Some(JsonMember::Number { whole: Some(w), value: _ }) => {
            if w <= usize::MAX as u64 {
                Ok(Some(w as usize))
            } else {
                Err(DecodeError::BadMember(name))
            }
        },
        Some(_) => Err(DecodeError::BadMember(name)),
    }
}

/// The settings update that a parsed object holds.
pub fn settings_from_object(obj: &JsonObject) -> (r: Result<NoiseGeneratorSettingsUpdate, DecodeError>)
    ensures
        r == update_from_members(object_members(*obj)),
{
    let width_divider = real_member(obj, "width_divider", MemberName::WidthDivider)?;
    let height_multiplier = real_member(obj, "height_multiplier", MemberName::HeightMultiplier)?;
    let segment_width = real_member(obj, "segment_width", MemberName::SegmentWidth)?;
    let frame_time_divider = real_member(obj, "frame_time_divider", MemberName::FrameTimeDivider)?;
    let perlin_noise_octaves = count_member(obj, "perlin_noise_octaves", MemberName::PerlinNoiseOctaves)?;
    Ok(NoiseGeneratorSettingsUpdate {
        width_divider,
        height_multiplier,
        segment_width,
        frame_time_divider,
        perlin_noise_octaves,
    })
}

/// Decodes a settings payload: a JSON object whose members are all optional;
/// unknown members are ignored.
pub fn decode_settings(text: &str) -> (r: Result<NoiseGeneratorSettingsUpdate, DecodeError>)
    ensures
        r == settings_message(text@),
{
    match parse_object(text) {
        Ok(obj) => settings_from_object(&obj),
        Err(_) => Err(DecodeError::NotAnObject),
    }
}

/// The display command that a parsed object holds.
pub fn display_from_object(obj: &JsonObject) -> (r: Result<DisplayControlMessage, DecodeError>)
    ensures
        r == display_from_members(object_members(*obj)),
{
    match member(obj, "display_on") {
        None => Ok(DisplayControlMessage { display_on: false }),
        Some(JsonMember::Bool(b)) => Ok(DisplayControlMessage { display_on: b }),
        Some(_) => Err(DecodeError::BadMember(MemberName::DisplayOn)),
    }
}

/// Decodes a display payload: a JSON object whose `display_on` member, when
/// present, is a boolean.
pub fn decode_display(text: &str) -> (r: Result<DisplayControlMessage, DecodeError>)
    ensures
        r == display_message(text@),
{
    match parse_object(text) {
        Ok(obj) => display_from_object(&obj),
        Err(_) => Err(DecodeError::NotAnObject),
    }
}

} // verus!
