//! Gesture classification and the flags reported with it.

use vstd::prelude::*;

verus! {

/// The gesture the device recognised in its last detection cycle.
#[derive(Copy, Clone, Eq, PartialEq, Ord, PartialOrd, Hash, Debug, Structural)]
pub enum GestureType {
    NoGesture,
    DoubleTap,
    ZoomIn,
    ZoomOut,
    SlideLeftToRight,
    SlideRightToLeft,
    SlideTopToBottom,
    SlideBottomToTop,
    Palm,
    SingleTap,
    LongPress,
    EndOfLongPress,
    Drag,
}

/// Result of the last gesture-detection cycle.
#[derive(Copy, Clone, Eq, PartialEq, Ord, PartialOrd, Hash, Debug, Structural)]
pub struct GestureInfo {
    pub gesture_type: GestureType,
    pub proximity: bool,
    pub water: bool,
}

/// The gesture table. Codes 13 to 15 are unassigned and stand for no
/// gesture, as does every number outside the table.
pub open spec fn gesture_of_code(code: int) -> GestureType {
    if code == 1 {
        GestureType::DoubleTap
    } else if code == 2 {
        GestureType::ZoomIn
    } else if code == 3 {
        GestureType::ZoomOut
    } else if code == 4 {
        GestureType::SlideLeftToRight
    } else if code == 5 {
        GestureType::SlideRightToLeft
    } else if code == 6 {
        GestureType::SlideTopToBottom
    } else if code == 7 {
        GestureType::SlideBottomToTop
    } else if code == 8 {
        GestureType::Palm
    } else if code == 9 {
        GestureType::SingleTap
    } else if code == 10 {
        GestureType::LongPress
    } else if code == 11 {
        GestureType::EndOfLongPress
    } else if code == 12 {
        GestureType::Drag
    } else {
        GestureType::NoGesture
    }
}

/// The code that the gesture table assigns to a gesture.
pub open spec fn code_of_gesture(g: GestureType) -> int {
    match g {
        GestureType::NoGesture => 0,
        GestureType::DoubleTap => 1,
        GestureType::ZoomIn => 2,
        GestureType::ZoomOut => 3,
        GestureType::SlideLeftToRight => 4,
        GestureType::SlideRightToLeft => 5,
        GestureType::SlideTopToBottom => 6,
        GestureType::SlideBottomToTop => 7,
        GestureType::Palm => 8,
        GestureType::SingleTap => 9,
        GestureType::LongPress => 10,
        GestureType::EndOfLongPress => 11,
        GestureType::Drag => 12,
    }
}

/// The gesture that a status byte reports: its low four bits, looked up
/// in the gesture table.
pub open spec fn gesture_of(raw: u8) -> GestureType {
    gesture_of_code(raw as int % 16)
}

/// The gesture information that a status byte reports: the gesture in
/// the low nibble, proximity in bit 6, water in bit 5.
pub open spec fn gesture_info_of(raw: u8) -> GestureInfo {
    GestureInfo {
        gesture_type: gesture_of(raw),
        proximity: (raw as int / 64) % 2 == 1,
        water: (raw as int / 32) % 2 == 1,
    }
}

impl GestureType {
    /// Decodes the gesture from a status byte. Total: every byte yields
    /// a gesture, and only the low four bits are read.
    pub fn from_u8(raw: u8) -> (g: GestureType)
        ensures
            g == gesture_of(raw),
    {
        let code: u8 = raw & 0x0f;
        assert(code == raw % 16) by (bit_vector)
            requires
                code == raw & 0x0f,
        ;
        match code {
            1 => GestureType::DoubleTap,
            2 => GestureType::ZoomIn,
            3 => GestureType::ZoomOut,
            4 => GestureType::SlideLeftToRight,
            5 => GestureType::SlideRightToLeft,
            6 => GestureType::SlideTopToBottom,
            7 => GestureType::SlideBottomToTop,
            8 => GestureType::Palm,
            9 => GestureType::SingleTap,
            10 => GestureType::LongPress,
            11 => GestureType::EndOfLongPress,
            12 => GestureType::Drag,
            _ => GestureType::NoGesture,
        }
    }
}

impl GestureInfo {
    /// Decodes the advanced touch information byte.
    pub fn from_raw(raw: u8) -> (info: GestureInfo)
        ensures
            info == gesture_info_of(raw),
    {
        let proximity: bool = raw & 0b0100_0000 != 0;
        let water: bool = raw & 0b0010_0000 != 0;
        assert((raw & 0b0100_0000 != 0) <==> (raw / 64) % 2 == 1) by (bit_vector);
        assert((raw & 0b0010_0000 != 0) <==> (raw / 32) % 2 == 1) by (bit_vector);
        GestureInfo { gesture_type: GestureType::from_u8(raw), proximity, water }
    }
}

/// Every four-bit pattern decodes: the assigned codes 0 to 12 to the
/// gesture whose code they are, the unassigned ones to no gesture.
pub proof fn lemma_gesture_decode_total(raw: u8)
    ensures
        raw % 16 <= 12 ==> code_of_gesture(gesture_of(raw)) == raw % 16,
        raw % 16 > 12 ==> gesture_of(raw) == GestureType::NoGesture,
        0 <= code_of_gesture(gesture_of(raw)) <= 12,
{
}

/// Each gesture is the decoding of its own code.
pub proof fn lemma_gesture_code_round_trip(g: GestureType)
    ensures
        0 <= code_of_gesture(g) <= 12,
        gesture_of_code(code_of_gesture(g)) == g,
{
}

/// The gesture depends on the low nibble of the status byte alone.
pub proof fn lemma_gesture_ignores_high_nibble(a: u8, b: u8)
    requires
        a & 0x0f == b & 0x0f,
    ensures
        gesture_of(a) == gesture_of(b),
{
    assert(a & 0x0f == b & 0x0f ==> a % 16 == b % 16) by (bit_vector);
}

} // verus!
