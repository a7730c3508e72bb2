//! The input-select values of the monitor control command set.
//!
//! A monitor reports and accepts its active video input as a one-byte code.
//! [`InputSource`] names the codes this crate knows; every other code is
//! folded into [`InputSource::Unknown`].

use vstd::prelude::*;

verus! {

/// The code that stands for every input this crate has no name for.
pub const UNKNOWN_CODE: u16 = 0xFF;

/// The lowest code with a name.
pub const FIRST_KNOWN_CODE: u16 = 0x01;

/// The highest code with a name.
pub const LAST_KNOWN_CODE: u16 = 0x17;

/// A video input of a monitor.
#[derive(Debug, Clone, Copy, PartialEq, Eq, Structural)]
pub enum InputSource {
    VGA1,
    VGA2,
    DVI1,
    DVI2,
    CompositeVideo1,
    CompositeVideo2,
    SVideo1,
    SVideo2,
    Tuner1,
    Tuner2,
    Tuner3,
    Component1,
    Component2,
    Component3,
    DisplayPort1,
    DisplayPort2,
    HDMI1,
    HDMI2,
    HDMI3,
    HDMI4,
    USBC1,
    USBC2,
    USBC3,
    Unknown,
}

/// Whether `code` is one of the codes that has a name.
pub open spec fn is_known_code(code: u16) -> bool {
    FIRST_KNOWN_CODE <= code <= LAST_KNOWN_CODE
}

impl InputSource {
    /// The code of this input on the wire.
    pub open spec fn code(self) -> u16 {
        match self {
            InputSource::VGA1 => 0x01,
            InputSource::VGA2 => 0x02,
            InputSource::DVI1 => 0x03,
            InputSource::DVI2 => 0x04,
            InputSource::CompositeVideo1 => 0x05,
            InputSource::CompositeVideo2 => 0x06,
            InputSource::SVideo1 => 0x07,
            InputSource::SVideo2 => 0x08,
            InputSource::Tuner1 => 0x09,
            InputSource::Tuner2 => 0x0A,
            InputSource::Tuner3 => 0x0B,
            InputSource::Component1 => 0x0C,
            InputSource::Component2 => 0x0D,
            InputSource::Component3 => 0x0E,
            InputSource::DisplayPort1 => 0x0F,
            InputSource::DisplayPort2 => 0x10,
            InputSource::HDMI1 => 0x11,
            InputSource::HDMI2 => 0x12,
            InputSource::HDMI3 => 0x13,
            InputSource::HDMI4 => 0x14,
            InputSource::USBC1 => 0x15,
            InputSource::USBC2 => 0x16,
            InputSource::USBC3 => 0x17,
            InputSource::Unknown => UNKNOWN_CODE,
        }
    }

    /// The input that `code` stands for: the named input whose code it is,
    /// and `Unknown` where there is none.
    pub open spec fn decode(code: u16) -> InputSource {
        match code {
            0x01 => InputSource::VGA1,
            0x02 => InputSource::VGA2,
            0x03 => InputSource::DVI1,
            0x04 => InputSource::DVI2,
            0x05 => InputSource::CompositeVideo1,
            0x06 => InputSource::CompositeVideo2,
            0x07 => InputSource::SVideo1,
            0x08 => InputSource::SVideo2,
            0x09 => InputSource::Tuner1,
            0x0A => InputSource::Tuner2,
            0x0B => InputSource::Tuner3,
            0x0C => InputSource::Component1,
            0x0D => InputSource::Component2,
            0x0E => InputSource::Component3,
            0x0F => InputSource::DisplayPort1,
            0x10 => InputSource::DisplayPort2,
            0x11 => InputSource::HDMI1,
            0x12 => InputSource::HDMI2,
            0x13 => InputSource::HDMI3,
            0x14 => InputSource::HDMI4,
            0x15 => InputSource::USBC1,
            0x16 => InputSource::USBC2,
            0x17 => InputSource::USBC3,
            _ => InputSource::Unknown,
        }
    }

    /// The label shown to a user for this input.
    pub open spec fn label(self) -> Seq<char> {
        match self {
            InputSource::VGA1 => "VGA 1"@,
            InputSource::VGA2 => "VGA 2"@,
            InputSource::DVI1 => "DVI 1"@,
            InputSource::DVI2 => "DVI 2"@,
            InputSource::CompositeVideo1 => "Composite 1"@,
            InputSource::CompositeVideo2 => "Composite 2"@,
            InputSource::SVideo1 => "S-Video 1"@,
            InputSource::SVideo2 => "S-Video 2"@,
            InputSource::Tuner1 => "Tuner 1"@,
            InputSource::Tuner2 => "Tuner 2"@,
            InputSource::Tuner3 => "Tuner 3"@,
            InputSource::Component1 => "Component 1"@,
            InputSource::Component2 => "Component 2"@,
            InputSource::Component3 => "Component 3"@,
            InputSource::DisplayPort1 => "DisplayPort 1"@,
            InputSource::DisplayPort2 => "DisplayPort 2"@,
            InputSource::HDMI1 => "HDMI 1"@,
            InputSource::HDMI2 => "HDMI 2"@,
            InputSource::HDMI3 => "HDMI 3"@,
            InputSource::HDMI4 => "HDMI 4"@,
            InputSource::USBC1 => "USB-C 1"@,
            InputSource::USBC2 => "USB-C 2"@,
            InputSource::USBC3 => "USB-C 3"@,
            InputSource::Unknown => "Unknown"@,
        }
    }

    /// Decodes a code read from a monitor. Never fails: a code without a name
    /// gives `Unknown`.
    pub fn from_vcp_value(value: u16) -> (source: InputSource)
        ensures
            source == InputSource::decode(value),
    {
        match value {
            0x01 => InputSource::VGA1,
            0x02 => InputSource::VGA2,
            0x03 => InputSource::DVI1,
            0x04 => InputSource::DVI2,
            0x05 => InputSource::CompositeVideo1,
            0x06 => InputSource::CompositeVideo2,
            0x07 => InputSource::SVideo1,
            0x08 => InputSource::SVideo2,
            0x09 => InputSource::Tuner1,
            0x0A => InputSource::Tuner2,
            0x0B => InputSource::Tuner3,
            0x0C => InputSource::Component1,
            0x0D => InputSource::Component2,
            0x0E => InputSource::Component3,
            0x0F => InputSource::DisplayPort1,
            0x10 => InputSource::DisplayPort2,
            0x11 => InputSource::HDMI1,
            0x12 => InputSource::HDMI2,
            0x13 => InputSource::HDMI3,
            0x14 => InputSource::HDMI4,
            0x15 => InputSource::USBC1,
            0x16 => InputSource::USBC2,
            0x17 => InputSource::USBC3,
            _ => InputSource::Unknown,
        }
    }

    /// Encodes this input for writing to a monitor. `Unknown` is written as
    /// [`UNKNOWN_CODE`].
    pub fn to_vcp_value(self) -> (code: u16)
        ensures
            code == self.code(),
    {
        match self {
            InputSource::VGA1 => 0x01,
            InputSource::VGA2 => 0x02,
            InputSource::DVI1 => 0x03,
            InputSource::DVI2 => 0x04,
            InputSource::CompositeVideo1 => 0x05,
            InputSource::CompositeVideo2 => 0x06,
            InputSource::SVideo1 => 0x07,
            InputSource::SVideo2 => 0x08,
            InputSource::Tuner1 => 0x09,
            InputSource::Tuner2 => 0x0A,
            InputSource::Tuner3 => 0x0B,
            InputSource::Component1 => 0x0C,
            InputSource::Component2 => 0x0D,
            InputSource::Component3 => 0x0E,
            InputSource::DisplayPort1 => 0x0F,
            InputSource::DisplayPort2 => 0x10,
            InputSource::HDMI1 => 0x11,
            InputSource::HDMI2 => 0x12,
            InputSource::HDMI3 => 0x13,
            InputSource::HDMI4 => 0x14,
            InputSource::USBC1 => 0x15,
            InputSource::USBC2 => 0x16,
            InputSource::USBC3 => 0x17,
            InputSource::Unknown => UNKNOWN_CODE,
        }
    }

    /// The label shown to a user for this input.
    pub fn name(&self) -> (text: &'static str)
        ensures
            text@ == self.label(),
    {
        match self {
            InputSource::VGA1 => "VGA 1",
            InputSource::VGA2 => "VGA 2",
            InputSource::DVI1 => "DVI 1",
            InputSource::DVI2 => "DVI 2",
            InputSource::CompositeVideo1 => "Composite 1",
            InputSource::CompositeVideo2 => "Composite 2",
            InputSource::SVideo1 => "S-Video 1",
            InputSource::SVideo2 => "S-Video 2",
            InputSource::Tuner1 => "Tuner 1",
            InputSource::Tuner2 => "Tuner 2",
            InputSource::Tuner3 => "Tuner 3",
            InputSource::Component1 => "Component 1",
            InputSource::Component2 => "Component 2",
            InputSource::Component3 => "Component 3",
            InputSource::DisplayPort1 => "DisplayPort 1",
            InputSource::DisplayPort2 => "DisplayPort 2",
            InputSource::HDMI1 => "HDMI 1",
            InputSource::HDMI2 => "HDMI 2",
            InputSource::HDMI3 => "HDMI 3",
            InputSource::HDMI4 => "HDMI 4",
            InputSource::USBC1 => "USB-C 1",
            InputSource::USBC2 => "USB-C 2",
            InputSource::USBC3 => "USB-C 3",
            InputSource::Unknown => "Unknown",
        }
    }
}

/// Two inputs with the same code are the same input.
pub proof fn lemma_code_injective(a: InputSource, b: InputSource)
    requires
        a.code() == b.code(),
    ensures
        a == b,
{
}

/// The code of a named input lies in the known range, and the code of
/// `Unknown` is the reserved code, outside that range.
pub proof fn lemma_code_range(v: InputSource)
    ensures
        v != InputSource::Unknown <==> is_known_code(v.code()),
        v == InputSource::Unknown <==> v.code() == UNKNOWN_CODE,
{
}

/// Decoding is lossless on what encoding produces: for every input `v`,
/// named or `Unknown`, decoding the code of `v` gives `v` back.
pub proof fn lemma_decode_of_code(v: InputSource)
    ensures
        InputSource::decode(v.code()) == v,
{
}

/// Decoding inverts encoding and nothing else: a code decodes to a named
/// input exactly when it is that input's code, and to `Unknown` exactly when
/// it is the code of no named input.
pub proof fn lemma_decode_known(code: u16, v: InputSource)
    ensures
        is_known_code(code) ==> InputSource::decode(code) != InputSource::Unknown
            && InputSource::decode(code).code() == code,
        !is_known_code(code) ==> InputSource::decode(code) == InputSource::Unknown,
        v != InputSource::Unknown ==> (InputSource::decode(code) == v <==> v.code() == code),
{
}

/// Decoding, encoding and decoding again gives what the first decoding gave,
/// for every code.
pub proof fn lemma_round_trip(code: u16)
    ensures
        InputSource::decode(InputSource::decode(code).code()) == InputSource::decode(code),
{
    lemma_decode_of_code(InputSource::decode(code));
}

/// The reserved code decodes to `Unknown` and `Unknown` encodes to the
/// reserved code. A code outside the known range is absorbed: it decodes to
/// `Unknown`, and encoding that gives the reserved code, not the code that
/// was decoded, unless that was the reserved code itself.
pub proof fn lemma_unknown_is_lossy(code: u16)
    ensures
        InputSource::decode(UNKNOWN_CODE) == InputSource::Unknown,
        InputSource::Unknown.code() == UNKNOWN_CODE,
        !is_known_code(code) ==> InputSource::decode(code) == InputSource::Unknown,
        !is_known_code(code) ==> InputSource::decode(code).code() == UNKNOWN_CODE,
        !is_known_code(code) && code != UNKNOWN_CODE ==> InputSource::decode(code).code() != code,
{
}

} // verus!
