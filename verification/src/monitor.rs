//! One attached display: its identity and the control of its input.
//!
//! The exchange with the display itself happens outside this crate. A
//! [`Monitor`] holds what an enumeration learned about a display, says what
//! is to be read from or written to its input-select register, and turns the
//! answers of the display into typed results.

use crate::input_source::InputSource;
use vstd::prelude::*;
use vstd::string::StringExecFns;

verus! {

/// The feature register that selects the active video input.
pub const VCP_INPUT_SELECT: u8 = 0x60;

/// Why an operation on a monitor failed.
#[derive(Debug, Clone, PartialEq, Eq)]
pub enum MonitorError {
    /// The exchange with the display failed; the text is the transport's
    /// account of it.
    DdcError(String),
    /// No monitor answers to the position or identity that was given.
    NotFound,
    /// The monitor declined the feature.
    NotSupported,
}

impl MonitorError {
    /// The text of this error, as shown to a user.
    pub open spec fn message_text(self) -> Seq<char> {
        match self {
            MonitorError::DdcError(detail) => "Failed to communicate with monitor: "@ + detail@,
            MonitorError::NotFound => "Monitor not found"@,
            MonitorError::NotSupported => "Operation not supported by this monitor"@,
        }
    }

    /// The text of this error, as shown to a user.
    pub fn message(&self) -> (text: String)
        ensures
            text@ == self.message_text(),
    {
        match self {
            MonitorError::DdcError(detail) => {
                String::from_str("Failed to communicate with monitor: ").concat(detail.as_str())
            },
            MonitorError::NotFound => String::from_str("Monitor not found"),
            MonitorError::NotSupported => String::from_str(
                "Operation not supported by this monitor",
            ),
        }
    }
}

/// The answer of a display to the read of one feature register.
#[derive(Debug, Clone, Copy, PartialEq, Eq)]
pub struct VcpValue {
    /// The type of the value, continuous or non-continuous.
    pub ty: u8,
    /// The high byte of the maximum allowed value.
    pub mh: u8,
    /// The low byte of the maximum allowed value.
    pub ml: u8,
    /// The high byte of the value.
    pub sh: u8,
    /// The low byte of the value.
    pub sl: u8,
}

impl VcpValue {
    /// The value that the two value bytes stand for, high byte first.
    pub open spec fn combined(self) -> int {
        self.sh * 256 + self.sl
    }

    /// The value that the two value bytes stand for, high byte first.
    ///
    /// Computed by `mccs::Value::value` on a value with the same five bytes.
    /// That function shifts the high byte left by eight bits and ors the low
    /// byte in; the contract states the same number arithmetically.
    #[verifier::external_body]
    pub(crate) fn value(&self) -> (value: u16)
        ensures
            value == self.combined(),
    {
        mccs::Value { ty: self.ty, mh: self.mh, ml: self.ml, sh: self.sh, sl: self.sl }.value()
    }
}

/// A write to one feature register of a display.
#[derive(Debug, Clone, Copy, PartialEq, Eq)]
pub struct VcpWrite {
    /// The register.
    pub feature: u8,
    /// The value to store in it.
    pub value: u16,
}

/// What an enumeration learned about one display.
#[derive(Debug, Clone)]
pub struct DisplayInfo {
    /// The identifier that the transport gives the display.
    pub id: String,
    /// The serial number as text, where the display reports one.
    pub serial_number: Option<String>,
    /// The numeric serial, where the display reports one.
    pub serial: Option<u32>,
    /// The model name, where the display reports one.
    pub model_name: Option<String>,
    /// The three-character manufacturer identifier, where the display
    /// reports one.
    pub manufacturer_id: Option<String>,
}

/// The text of one decimal digit.
pub open spec fn digit(d: nat) -> Seq<char> {
    if d == 0 {
        "0"@
    } else if d == 1 {
        "1"@
    } else if d == 2 {
        "2"@
    } else if d == 3 {
        "3"@
    } else if d == 4 {
        "4"@
    } else if d == 5 {
        "5"@
    } else if d == 6 {
        "6"@
    } else if d == 7 {
        "7"@
    } else if d == 8 {
        "8"@
    } else {
        "9"@
    }
}

/// The decimal numeral of `n`, without sign or leading zeros.
pub open spec fn decimal(n: nat) -> Seq<char>
    decreases n,
{
    if n < 10 {
        digit(n)
    } else {
        decimal(n / 10) + digit(n % 10)
    }
}

/// The text of an optional string.
pub open spec fn text_of(value: Option<String>) -> Option<Seq<char>> {
    match value {
        Some(text) => Some(text@),
        None => None,
    }
}

/// The part of an identity that tells displays with the same identifier
/// apart: the serial number where there is one, else the numeric serial, else
/// the position in the enumeration.
pub open spec fn discriminator(info: DisplayInfo, position: nat) -> Seq<char> {
    match info.serial_number {
        Some(text) => text@,
        None => match info.serial {
            Some(number) => decimal(number as nat),
            None => decimal(position),
        },
    }
}

/// The identity of a display: its identifier, a hyphen and its
/// discriminator.
pub open spec fn identity(info: DisplayInfo, position: nat) -> Seq<char> {
    info.id@ + "-"@ + discriminator(info, position)
}

/// The inputs offered for every monitor.
pub open spec fn common_inputs() -> Seq<InputSource> {
    seq![
        InputSource::HDMI1,
        InputSource::HDMI2,
        InputSource::DisplayPort1,
        InputSource::DisplayPort2,
        InputSource::USBC1,
        InputSource::USBC2,
    ]
}

/// A display found by an enumeration, at its position in that enumeration.
#[derive(Debug, Clone)]
pub struct Monitor {
    /// What the enumeration learned about the display.
    pub info: DisplayInfo,
    /// The position of the display in the enumeration, from zero.
    pub index: usize,
}

impl Monitor {
    /// The monitors of one enumeration: the displays in the order given, each
    /// with its position.
    pub fn enumerate(displays: Vec<DisplayInfo>) -> (monitors: Vec<Monitor>)
        ensures
            monitors@.len() == displays@.len(),
            forall|i: int|
                0 <= i < monitors@.len() ==> (#[trigger] monitors@[i]).info == displays@[i]
                    && monitors@[i].index == i,
    {
        let mut monitors: Vec<Monitor> = Vec::new();
        for info in it: displays
            invariant
                monitors@.len() == it.index(),
                forall|i: int|
                    0 <= i < monitors@.len() ==> (#[trigger] monitors@[i]).info == displays@[i]
                        && monitors@[i].index == i,
        {
            let index = monitors.len();
            monitors.push(Monitor { info, index });
        }
        monitors
    }

    /// The identity of this monitor.
    pub fn id(&self) -> (id: String)
        ensures
            id@ == identity(self.info, self.index as nat),
    {
        let base = self.info.id.clone().concat("-");
        match &self.info.serial_number {
            Some(text) => base.concat(text.as_str()),
            None => match self.info.serial {
                Some(number) => base.concat(decimal_text(number as u64).as_str()),
                None => base.concat(decimal_text(self.index as u64).as_str()),
            },
        }
    }

    /// The model name, where the display reported one.
    pub fn model_name(&self) -> (name: Option<String>)
        ensures
            text_of(name) == text_of(self.info.model_name),
    {
        match &self.info.model_name {
            Some(text) => Some(text.clone()),
            None => None,
        }
    }

    /// The manufacturer identifier, where the display reported one.
    pub fn manufacturer_id(&self) -> (id: Option<String>)
        ensures
            text_of(id) == text_of(self.info.manufacturer_id),
    {
        match &self.info.manufacturer_id {
            Some(text) => Some(text.clone()),
            None => None,
        }
    }

    /// The active input, from the display's answer to a read of
    /// [`VCP_INPUT_SELECT`]. An answer decodes to the input whose code its
    /// value is; a failed exchange is reported with the transport's text.
    pub fn get_current_input(&self, reply: Result<VcpValue, String>) -> (current: Result<
        InputSource,
        MonitorError,
    >)
        ensures
            match reply {
                Ok(answer) => current == Ok::<InputSource, MonitorError>(
                    InputSource::decode(answer.combined() as u16),
                ),
                Err(detail) => current == Err::<InputSource, MonitorError>(
                    MonitorError::DdcError(detail),
                ),
            },
    {
        match reply {
            Ok(answer) => Ok(InputSource::from_vcp_value(answer.value())),
            Err(detail) => Err(MonitorError::DdcError(detail)),
        }
    }

    /// The write that makes `input` the active input: the code of `input`
    /// into [`VCP_INPUT_SELECT`].
    pub fn input_select_write(&self, input: InputSource) -> (write: VcpWrite)
        ensures
            write == (VcpWrite { feature: VCP_INPUT_SELECT, value: input.code() }),
    {
        VcpWrite { feature: VCP_INPUT_SELECT, value: input.to_vcp_value() }
    }

    /// The result of switching the input, from the outcome of the write. An
    /// acknowledged write is a success; nothing is read back.
    pub fn set_input(&self, outcome: Result<(), String>) -> (done: Result<(), MonitorError>)
        ensures
            match outcome {
                Ok(_) => done == Ok::<(), MonitorError>(()),
                Err(detail) => done == Err::<(), MonitorError>(MonitorError::DdcError(detail)),
            },
    {
        match outcome {
            Ok(_) => Ok(()),
            Err(detail) => Err(MonitorError::DdcError(detail)),
        }
    }

    /// The inputs to offer for this monitor: always the same six, whatever
    /// the display says of itself.
    pub fn get_available_inputs(&self) -> (inputs: Result<Vec<InputSource>, MonitorError>)
        ensures
            inputs matches Ok(list) && list@ == common_inputs(),
    {
        Ok(self.get_common_inputs())
    }

    fn get_common_inputs(&self) -> (list: Vec<InputSource>)
        ensures
            list@ == common_inputs(),
    {
        let mut list: Vec<InputSource> = Vec::new();
        list.push(InputSource::HDMI1);
        list.push(InputSource::HDMI2);
        list.push(InputSource::DisplayPort1);
        list.push(InputSource::DisplayPort2);
        list.push(InputSource::USBC1);
        list.push(InputSource::USBC2);
        assert(list@ =~= common_inputs());
        list
    }
}

/// Every decimal digit is one character, and different digits are different
/// characters.
pub proof fn lemma_digits_differ(a: nat, b: nat)
    requires
        a < 10,
        b < 10,
    ensures
        digit(a).len() == 1,
        digit(a) == digit(b) ==> a == b,
{
    reveal_strlit("0");
    reveal_strlit("1");
    reveal_strlit("2");
    reveal_strlit("3");
    reveal_strlit("4");
    reveal_strlit("5");
    reveal_strlit("6");
    reveal_strlit("7");
    reveal_strlit("8");
    reveal_strlit("9");
    if digit(a) == digit(b) {
        assert(digit(a)[0] == digit(b)[0]);
    }
}

/// A numeral has at least one digit, and at least two from ten on.
pub proof fn lemma_decimal_length(n: nat)
    ensures
        decimal(n).len() >= 1,
        n >= 10 ==> decimal(n).len() >= 2,
    decreases n,
{
    lemma_digits_differ(n % 10, 0);
    if n >= 10 {
        lemma_decimal_length(n / 10);
    }
}

/// Different numbers have different numerals.
pub proof fn lemma_decimal_injective(a: nat, b: nat)
    requires
        decimal(a) == decimal(b),
    ensures
        a == b,
    decreases a,
{
    lemma_decimal_length(a);
    lemma_decimal_length(b);
    lemma_digits_differ(a % 10, b % 10);
    lemma_digits_differ(b % 10, a % 10);
    if a >= 10 && b >= 10 {
        let head_a = decimal(a / 10);
        let head_b = decimal(b / 10);
        assert(decimal(a).last() == digit(a % 10)[0]);
        assert(decimal(b).last() == digit(b % 10)[0]);
        assert(digit(a % 10) =~= digit(b % 10));
        assert(decimal(a).drop_last() =~= head_a);
        assert(decimal(b).drop_last() =~= head_b);
        lemma_decimal_injective(a / 10, b / 10);
    }
}

/// Displays with the same identifier and different discriminators have
/// different identities. In particular two displays that report no serial
/// and share an identifier differ by their positions. Nothing of the kind
/// holds of displays that report the same serial, or whose identifiers
/// differ: their identities can coincide.
pub proof fn lemma_identities_differ(a: DisplayInfo, i: nat, b: DisplayInfo, j: nat)
    requires
        a.id@ == b.id@,
    ensures
        discriminator(a, i) != discriminator(b, j) ==> identity(a, i) != identity(b, j),
        a.serial_number is None && b.serial_number is None && a.serial is None && b.serial is None
            && i != j ==> identity(a, i) != identity(b, j),
{
    let prefix = a.id@ + "-"@;
    if identity(a, i) == identity(b, j) {
        assert(identity(a, i).subrange(prefix.len() as int, identity(a, i).len() as int)
            =~= discriminator(a, i));
        assert(identity(b, j).subrange(prefix.len() as int, identity(b, j).len() as int)
            =~= discriminator(b, j));
    }
    if a.serial_number is None && b.serial_number is None && a.serial is None && b.serial is None
        && decimal(i) == decimal(j) {
        lemma_decimal_injective(i, j);
    }
}

/// The text of one decimal digit.
fn digit_text(d: u64) -> (text: &'static str)
    requires
        d < 10,
    ensures
        text@ == digit(d as nat),
{
    if d == 0 {
        "0"
    } else if d == 1 {
        "1"
    } else if d == 2 {
        "2"
    } else if d == 3 {
        "3"
    } else if d == 4 {
        "4"
    } else if d == 5 {
        "5"
    } else if d == 6 {
        "6"
    } else if d == 7 {
        "7"
    } else if d == 8 {
        "8"
    } else {
        "9"
    }
}

/// The decimal numeral of `n`.
pub fn decimal_text(n: u64) -> (text: String)
    ensures
        text@ == decimal(n as nat),
    decreases n,
{
    if n < 10 {
        String::from_str(digit_text(n))
    } else {
        decimal_text(n / 10).concat(digit_text(n % 10))
    }
}

} // verus!
