//! The shell item of a category of the control panel.
use super::Name;
use crate::cursor::has_bytes;
use crate::cursor::ByteCursor;
use crate::reader_error::ReaderError;
use crate::text::hex_byte;
use crate::text::hex_digit;
use crate::text::hex_digit_char;
use crate::text::push_hex_byte;
use crate::text::push_text;
use crate::text::string_from_chars;
use vstd::prelude::*;

verus! {

/// The categories of the control panel.
#[derive(Clone, Copy, Debug, PartialEq, Eq, Structural)]
pub enum ControlPanelCategory {
    AllControlPanelItems,
    AppearanceAndPersonalization,
    HardwareAndSound,
    NetworkAndInternet,
    SoundSpeechAndAudioDevices,
    SystemAndSecurity,
    ClockLanguageRegion,
    EaseOfAccess,
    Programs,
    UserAccounts,
    SecurityCenter,
    MobilePC,
    /// A code that names none of the categories above.
    UNKNWON(u8),
}

/// A byte in hexadecimal digits, without a leading zero.
pub open spec fn hex_short(b: u8) -> Seq<char> {
    if b < 16 {
        seq![hex_digit(b as int)]
    } else {
        hex_byte(b)
    }
}

impl ControlPanelCategory {
    /// The category that a code stands for.
    pub open spec fn spec_from(num: u8) -> ControlPanelCategory {
        if num == 0x0 {
            ControlPanelCategory::AllControlPanelItems
        } else if num == 0x1 {
            ControlPanelCategory::AppearanceAndPersonalization
        } else if num == 0x2 {
            ControlPanelCategory::HardwareAndSound
        } else if num == 0x3 {
            ControlPanelCategory::NetworkAndInternet
        } else if num == 0x4 {
            ControlPanelCategory::SoundSpeechAndAudioDevices
        } else if num == 0x5 {
            ControlPanelCategory::SystemAndSecurity
        } else if num == 0x6 {
            ControlPanelCategory::ClockLanguageRegion
        } else if num == 0x7 {
            ControlPanelCategory::EaseOfAccess
        } else if num == 0x8 {
            ControlPanelCategory::Programs
        } else if num == 0x9 {
            ControlPanelCategory::UserAccounts
        } else if num == 0x10 {
            ControlPanelCategory::SecurityCenter
        } else if num == 0x11 {
            ControlPanelCategory::MobilePC
        } else {
            ControlPanelCategory::UNKNWON(num)
        }
    }

    /// The name under which the control panel shows the category.
    pub open spec fn label(self) -> Seq<char> {
        match self {
            ControlPanelCategory::AllControlPanelItems => "All Control Panel Items"@,
            ControlPanelCategory::AppearanceAndPersonalization => "Appearance and Personalization"@,
            ControlPanelCategory::HardwareAndSound => "Hardware and Sound"@,
            ControlPanelCategory::NetworkAndInternet => "Network and Internet"@,
            ControlPanelCategory::SoundSpeechAndAudioDevices => "Sound, Speech and Audio Devices"@,
            ControlPanelCategory::SystemAndSecurity => "System and Security"@,
            ControlPanelCategory::ClockLanguageRegion => "Clock, Language, and Region"@,
            ControlPanelCategory::EaseOfAccess => "Ease of Access"@,
            ControlPanelCategory::Programs => "Programs"@,
            ControlPanelCategory::UserAccounts => "User Accounts"@,
            ControlPanelCategory::SecurityCenter => "Security Center"@,
            ControlPanelCategory::MobilePC => "Mobile PC"@,
            ControlPanelCategory::UNKNWON(other) => "Unknwon Category : '0x"@ + hex_short(other)
                + seq!['\''],
        }
    }

    /// The name under which the control panel shows the category.
    pub fn to_string(&self) -> (text: String)
        ensures
            text@ == self.label(),
    {
        match self {
            ControlPanelCategory::AllControlPanelItems => "All Control Panel Items".to_string(),
            ControlPanelCategory::AppearanceAndPersonalization => "Appearance and Personalization".to_string(),
            ControlPanelCategory::HardwareAndSound => "Hardware and Sound".to_string(),
            ControlPanelCategory::NetworkAndInternet => "Network and Internet".to_string(),
            ControlPanelCategory::SoundSpeechAndAudioDevices => "Sound, Speech and Audio Devices".to_string(),
            ControlPanelCategory::SystemAndSecurity => "System and Security".to_string(),
            ControlPanelCategory::ClockLanguageRegion => "Clock, Language, and Region".to_string(),
            ControlPanelCategory::EaseOfAccess => "Ease of Access".to_string(),
            ControlPanelCategory::Programs => "Programs".to_string(),
            ControlPanelCategory::UserAccounts => "User Accounts".to_string(),
            ControlPanelCategory::SecurityCenter => "Security Center".to_string(),
            ControlPanelCategory::MobilePC => "Mobile PC".to_string(),
            ControlPanelCategory::UNKNWON(other) => {
                let mut out: Vec<char> = Vec::new();
                push_text(&mut out, "Unknwon Category : '0x");
                if *other < 16 {
                    out.push(hex_digit_char(*other));
                } else {
                    push_hex_byte(&mut out, *other);
                }
                out.push('\'');
                proof {
                    assert(out@ =~= self.label());
                }
                string_from_chars(out.as_slice())
            },
        }
    }
}

impl From<u8> for ControlPanelCategory {
    fn from(num: u8) -> (category: ControlPanelCategory) {
        match num {
            0x0 => ControlPanelCategory::AllControlPanelItems,
            0x1 => ControlPanelCategory::AppearanceAndPersonalization,
            0x2 => ControlPanelCategory::HardwareAndSound,
            0x3 => ControlPanelCategory::NetworkAndInternet,
            0x4 => ControlPanelCategory::SoundSpeechAndAudioDevices,
            0x5 => ControlPanelCategory::SystemAndSecurity,
            0x6 => ControlPanelCategory::ClockLanguageRegion,
            0x7 => ControlPanelCategory::EaseOfAccess,
            0x8 => ControlPanelCategory::Programs,
            0x9 => ControlPanelCategory::UserAccounts,
            0x10 => ControlPanelCategory::SecurityCenter,
            0x11 => ControlPanelCategory::MobilePC,
            other => ControlPanelCategory::UNKNWON(other),
        }
    }
}

impl vstd::std_specs::convert::FromSpecImpl<u8> for ControlPanelCategory {
    open spec fn obeys_from_spec() -> bool {
        true
    }

    open spec fn from_spec(num: u8) -> ControlPanelCategory {
        ControlPanelCategory::spec_from(num)
    }
}

/// A category of the control panel.
#[derive(Clone, Copy, Debug, PartialEq, Eq, Structural)]
pub struct ControlPanelCategoryShellItem {
    pub cat_type: ControlPanelCategory,
}

/// The number of bytes before the code of the category.
pub const CATEGORY_OFFSET: usize = 8;

/// What decoding a category at `p` gives, and where it leaves the
/// position: eight bytes that are passed over, then the code.
#[verifier::opaque]
pub open spec fn spec_control_panel_category(s: Seq<u8>, p: int) -> (
    Result<ControlPanelCategoryShellItem, ReaderError>,
    int,
) {
    if has_bytes(s, p, 9) {
        (
            Ok(ControlPanelCategoryShellItem { cat_type: ControlPanelCategory::spec_from(s[p + 8]) }),
            p + 9,
        )
    } else {
        (Err(ReaderError::truncated()), s.len() as int)
    }
}

impl ControlPanelCategoryShellItem {
    /// Decodes the category at the start of `buf`.
    pub fn from_buffer(buf: &[u8]) -> (r: Result<ControlPanelCategoryShellItem, ReaderError>)
        ensures
            r == spec_control_panel_category(buf@, 0).0,
    {
        let mut stream = ByteCursor::new(buf);
        ControlPanelCategoryShellItem::from_reader(&mut stream)
    }

    /// Decodes the category at the position of the stream.
    pub fn from_reader(r: &mut ByteCursor) -> (res: Result<
        ControlPanelCategoryShellItem,
        ReaderError,
    >)
        requires
            old(r).wf(),
        ensures
            final(r).wf(),
            final(r).bytes() == old(r).bytes(),
            (res, final(r).position()) == spec_control_panel_category(
                old(r).bytes(),
                old(r).position(),
            ),
    {
        reveal(spec_control_panel_category);
        r.skip(CATEGORY_OFFSET);
        let cat_type = ControlPanelCategory::from(r.read_u8()?);
        Ok(ControlPanelCategoryShellItem { cat_type })
    }
}

impl Name for ControlPanelCategoryShellItem {
    open spec fn spec_name(&self) -> Seq<char> {
        self.cat_type.label()
    }

    fn name(&self) -> (name: String) {
        self.cat_type.to_string()
    }
}

} // verus!
