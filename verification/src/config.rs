//! Configuration values shared by the runtime: the HDMI inputs that LG Buddy
//! can own and the default idle timeout.

use vstd::prelude::*;

verus! {

/// Seconds of inactivity before LG Buddy blanks the screen, by default.
pub const DEFAULT_IDLE_TIMEOUT: u32 = 300;

/// One of the four HDMI inputs of the TV.
#[derive(Debug, Clone, Copy, PartialEq, Eq, Hash, Structural)]
pub enum HdmiInput {
    Hdmi1,
    Hdmi2,
    Hdmi3,
    Hdmi4,
}

impl HdmiInput {
    /// The configuration name of the input, such as `HDMI_1`.
    pub open spec fn name(self) -> Seq<char> {
        match self {
            HdmiInput::Hdmi1 => "HDMI_1"@,
            HdmiInput::Hdmi2 => "HDMI_2"@,
            HdmiInput::Hdmi3 => "HDMI_3"@,
            HdmiInput::Hdmi4 => "HDMI_4"@,
        }
    }

    /// The webOS application id of the input, such as `com.webos.app.hdmi1`.
    pub open spec fn app_id(self) -> Seq<char> {
        match self {
            HdmiInput::Hdmi1 => "com.webos.app.hdmi1"@,
            HdmiInput::Hdmi2 => "com.webos.app.hdmi2"@,
            HdmiInput::Hdmi3 => "com.webos.app.hdmi3"@,
            HdmiInput::Hdmi4 => "com.webos.app.hdmi4"@,
        }
    }

    pub fn as_str(self) -> (r: &'static str)
        ensures
            r@ == self.name(),
    {
        match self {
            HdmiInput::Hdmi1 => "HDMI_1",
            HdmiInput::Hdmi2 => "HDMI_2",
            HdmiInput::Hdmi3 => "HDMI_3",
            HdmiInput::Hdmi4 => "HDMI_4",
        }
    }

    /// The input whose configuration name is `value`.
    pub fn parse(value: &str) -> (r: Option<HdmiInput>)
        ensures
            match r {
                Some(input) => input.name() == value@,
                None => forall|input: HdmiInput| input.name() != value@,
            },
    {
        if crate::text::str_eq(value, "HDMI_1") {
            Some(HdmiInput::Hdmi1)
        } else if crate::text::str_eq(value, "HDMI_2") {
            Some(HdmiInput::Hdmi2)
        } else if crate::text::str_eq(value, "HDMI_3") {
            Some(HdmiInput::Hdmi3)
        } else if crate::text::str_eq(value, "HDMI_4") {
            Some(HdmiInput::Hdmi4)
        } else {
            assert forall|input: HdmiInput| input.name() != value@ by {
                match input {
                    HdmiInput::Hdmi1 => {},
                    HdmiInput::Hdmi2 => {},
                    HdmiInput::Hdmi3 => {},
                    HdmiInput::Hdmi4 => {},
                }
            }
            None
        }
    }

    /// The input whose webOS application id is `value`.
    pub fn from_app_id(value: &str) -> (r: Option<HdmiInput>)
        ensures
            match r {
                Some(input) => input.app_id() == value@,
                None => forall|input: HdmiInput| input.app_id() != value@,
            },
    {
        if crate::text::str_eq(value, "com.webos.app.hdmi1") {
            Some(HdmiInput::Hdmi1)
        } else if crate::text::str_eq(value, "com.webos.app.hdmi2") {
            Some(HdmiInput::Hdmi2)
        } else if crate::text::str_eq(value, "com.webos.app.hdmi3") {
            Some(HdmiInput::Hdmi3)
        } else if crate::text::str_eq(value, "com.webos.app.hdmi4") {
            Some(HdmiInput::Hdmi4)
        } else {
            assert forall|input: HdmiInput| input.app_id() != value@ by {
                match input {
                    HdmiInput::Hdmi1 => {},
                    HdmiInput::Hdmi2 => {},
                    HdmiInput::Hdmi3 => {},
                    HdmiInput::Hdmi4 => {},
                }
            }
            None
        }
    }
}

} // verus!
