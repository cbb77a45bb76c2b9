//! The categories of devices that a power source service tells apart.
//!
//! Every kind has a numeric code, under which the device source reports it,
//! and a canonical name in lower case with hyphens, under which a user
//! selects it. Both mappings are one-to-one.

use crate::text::{
    chars_of, is_plain, lemma_plain_is_as_written, lowered, spells, trim_range, trimmed,
};
use vstd::prelude::*;
use vstd::string::*;

verus! {

/// How many kinds there are; their codes are `0 .. KIND_COUNT`.
pub const KIND_COUNT: u32 = 30;

/// Why a text was not understood.
#[derive(Debug, PartialEq, Eq)]
pub enum ParseError {
    /// The text holds a name that is the canonical name of no kind. `token`
    /// is that name, without the white space around it.
    UnknownKindName { token: String },
}

/// A category of device.
#[derive(Clone, Copy, Debug, PartialEq, Eq, Structural)]
pub enum DeviceKind {
    Unknown,
    LinePower,
    Battery,
    Ups,
    Monitor,
    Mouse,
    Keyboard,
    Pda,
    Phone,
    MediaPlayer,
    Tablet,
    Computer,
    GamingInput,
    Pen,
    Touchpad,
    Modem,
    Network,
    Headset,
    Speakers,
    Headphones,
    Video,
    OtherAudio,
    RemoteControl,
    Printer,
    Scanner,
    Camera,
    Wearable,
    Toy,
    Generic,
    Last,
}

impl Default for DeviceKind {
    /// The kind of a device of which nothing is known.
    fn default() -> (kind: DeviceKind)
        ensures
            kind == DeviceKind::Unknown,
    {
        DeviceKind::Unknown
    }
}

impl DeviceKind {
    /// The code under which the device source reports this kind.
    pub open spec fn spec_code(self) -> u32 {
        match self {
            DeviceKind::Unknown => 0,
            DeviceKind::LinePower => 1,
            DeviceKind::Battery => 2,
            DeviceKind::Ups => 3,
            DeviceKind::Monitor => 4,
            DeviceKind::Mouse => 5,
            DeviceKind::Keyboard => 6,
            DeviceKind::Pda => 7,
            DeviceKind::Phone => 8,
            DeviceKind::MediaPlayer => 9,
            DeviceKind::Tablet => 10,
            DeviceKind::Computer => 11,
            DeviceKind::GamingInput => 12,
            DeviceKind::Pen => 13,
            DeviceKind::Touchpad => 14,
            DeviceKind::Modem => 15,
            DeviceKind::Network => 16,
            DeviceKind::Headset => 17,
            DeviceKind::Speakers => 18,
            DeviceKind::Headphones => 19,
            DeviceKind::Video => 20,
            DeviceKind::OtherAudio => 21,
            DeviceKind::RemoteControl => 22,
            DeviceKind::Printer => 23,
            DeviceKind::Scanner => 24,
            DeviceKind::Camera => 25,
            DeviceKind::Wearable => 26,
            DeviceKind::Toy => 27,
            DeviceKind::Generic => 28,
            DeviceKind::Last => 29,
        }
    }

    /// The kind that a code stands for, if it stands for one.
    pub open spec fn with_code(code: u32) -> Option<DeviceKind> {
        match code {
            0 => Some(DeviceKind::Unknown),
            1 => Some(DeviceKind::LinePower),
            2 => Some(DeviceKind::Battery),
            3 => Some(DeviceKind::Ups),
            4 => Some(DeviceKind::Monitor),
            5 => Some(DeviceKind::Mouse),
            6 => Some(DeviceKind::Keyboard),
            7 => Some(DeviceKind::Pda),
            8 => Some(DeviceKind::Phone),
            9 => Some(DeviceKind::MediaPlayer),
            10 => Some(DeviceKind::Tablet),
            11 => Some(DeviceKind::Computer),
            12 => Some(DeviceKind::GamingInput),
            13 => Some(DeviceKind::Pen),
            14 => Some(DeviceKind::Touchpad),
            15 => Some(DeviceKind::Modem),
            16 => Some(DeviceKind::Network),
            17 => Some(DeviceKind::Headset),
            18 => Some(DeviceKind::Speakers),
            19 => Some(DeviceKind::Headphones),
            20 => Some(DeviceKind::Video),
            21 => Some(DeviceKind::OtherAudio),
            22 => Some(DeviceKind::RemoteControl),
            23 => Some(DeviceKind::Printer),
            24 => Some(DeviceKind::Scanner),
            25 => Some(DeviceKind::Camera),
            26 => Some(DeviceKind::Wearable),
            27 => Some(DeviceKind::Toy),
            28 => Some(DeviceKind::Generic),
            29 => Some(DeviceKind::Last),
            _ => None,
        }
    }

    /// The canonical name of this kind.
    pub open spec fn spec_name(self) -> Seq<char> {
        match self {
            DeviceKind::Unknown => "unknown"@,
            DeviceKind::LinePower => "line-power"@,
            DeviceKind::Battery => "battery"@,
            DeviceKind::Ups => "ups"@,
            DeviceKind::Monitor => "monitor"@,
            DeviceKind::Mouse => "mouse"@,
            DeviceKind::Keyboard => "keyboard"@,
            DeviceKind::Pda => "pda"@,
            DeviceKind::Phone => "phone"@,
            DeviceKind::MediaPlayer => "media-player"@,
            DeviceKind::Tablet => "tablet"@,
            DeviceKind::Computer => "computer"@,
            DeviceKind::GamingInput => "gaming-input"@,
            DeviceKind::Pen => "pen"@,
            DeviceKind::Touchpad => "touchpad"@,
            DeviceKind::Modem => "modem"@,
            DeviceKind::Network => "network"@,
            DeviceKind::Headset => "headset"@,
            DeviceKind::Speakers => "speakers"@,
            DeviceKind::Headphones => "headphones"@,
            DeviceKind::Video => "video"@,
            DeviceKind::OtherAudio => "other-audio"@,
            DeviceKind::RemoteControl => "remote-control"@,
            DeviceKind::Printer => "printer"@,
            DeviceKind::Scanner => "scanner"@,
            DeviceKind::Camera => "camera"@,
            DeviceKind::Wearable => "wearable"@,
            DeviceKind::Toy => "toy"@,
            DeviceKind::Generic => "generic"@,
            DeviceKind::Last => "last"@,
        }
    }

    /// The code under which the device source reports this kind.
    #[verifier::when_used_as_spec(spec_code)]
    pub fn code(self) -> (code: u32)
        ensures
            code == self.spec_code(),
            code < KIND_COUNT,
    {
        match self {
            DeviceKind::Unknown => 0,
            DeviceKind::LinePower => 1,
            DeviceKind::Battery => 2,
            DeviceKind::Ups => 3,
            DeviceKind::Monitor => 4,
            DeviceKind::Mouse => 5,
            DeviceKind::Keyboard => 6,
            DeviceKind::Pda => 7,
            DeviceKind::Phone => 8,
            DeviceKind::MediaPlayer => 9,
            DeviceKind::Tablet => 10,
            DeviceKind::Computer => 11,
            DeviceKind::GamingInput => 12,
            DeviceKind::Pen => 13,
            DeviceKind::Touchpad => 14,
            DeviceKind::Modem => 15,
            DeviceKind::Network => 16,
            DeviceKind::Headset => 17,
            DeviceKind::Speakers => 18,
            DeviceKind::Headphones => 19,
            DeviceKind::Video => 20,
            DeviceKind::OtherAudio => 21,
            DeviceKind::RemoteControl => 22,
            DeviceKind::Printer => 23,
            DeviceKind::Scanner => 24,
            DeviceKind::Camera => 25,
            DeviceKind::Wearable => 26,
            DeviceKind::Toy => 27,
            DeviceKind::Generic => 28,
            DeviceKind::Last => 29,
        }
    }

    /// The kind that `code` stands for, or `None` where it stands for none.
    pub fn from_u32(code: u32) -> (kind: Option<DeviceKind>)
        ensures
            kind == Self::with_code(code),
    {
        match code {
            0 => Some(DeviceKind::Unknown),
            1 => Some(DeviceKind::LinePower),
            2 => Some(DeviceKind::Battery),
            3 => Some(DeviceKind::Ups),
            4 => Some(DeviceKind::Monitor),
            5 => Some(DeviceKind::Mouse),
            6 => Some(DeviceKind::Keyboard),
            7 => Some(DeviceKind::Pda),
            8 => Some(DeviceKind::Phone),
            9 => Some(DeviceKind::MediaPlayer),
            10 => Some(DeviceKind::Tablet),
            11 => Some(DeviceKind::Computer),
            12 => Some(DeviceKind::GamingInput),
            13 => Some(DeviceKind::Pen),
            14 => Some(DeviceKind::Touchpad),
            15 => Some(DeviceKind::Modem),
            16 => Some(DeviceKind::Network),
            17 => Some(DeviceKind::Headset),
            18 => Some(DeviceKind::Speakers),
            19 => Some(DeviceKind::Headphones),
            20 => Some(DeviceKind::Video),
            21 => Some(DeviceKind::OtherAudio),
            22 => Some(DeviceKind::RemoteControl),
            23 => Some(DeviceKind::Printer),
            24 => Some(DeviceKind::Scanner),
            25 => Some(DeviceKind::Camera),
            26 => Some(DeviceKind::Wearable),
            27 => Some(DeviceKind::Toy),
            28 => Some(DeviceKind::Generic),
            29 => Some(DeviceKind::Last),
            _ => None,
        }
    }

    /// The kind that `code` stands for. A code that stands for none is taken
    /// for [`DeviceKind::Unknown`]: the device source may know more kinds
    /// than this list, and a device of such a kind is still a device.
    pub fn from_code(code: u32) -> (kind: DeviceKind)
        ensures
            kind == Self::lenient(code),
            code >= KIND_COUNT ==> kind == DeviceKind::Unknown,
    {
        match Self::from_u32(code) {
            Some(kind) => kind,
            None => DeviceKind::Unknown,
        }
    }

    /// The kind that a code is taken for: the one it stands for, else
    /// [`DeviceKind::Unknown`].
    pub open spec fn lenient(code: u32) -> DeviceKind {
        match Self::with_code(code) {
            Some(kind) => kind,
            None => DeviceKind::Unknown,
        }
    }

    /// The canonical name of this kind: lower case, words joined by hyphens.
    pub fn canonical_name(self) -> (name: &'static str)
        ensures
            name@ == self.spec_name(),
    {
        match self {
            DeviceKind::Unknown => "unknown",
            DeviceKind::LinePower => "line-power",
            DeviceKind::Battery => "battery",
            DeviceKind::Ups => "ups",
            DeviceKind::Monitor => "monitor",
            DeviceKind::Mouse => "mouse",
            DeviceKind::Keyboard => "keyboard",
            DeviceKind::Pda => "pda",
            DeviceKind::Phone => "phone",
            DeviceKind::MediaPlayer => "media-player",
            DeviceKind::Tablet => "tablet",
            DeviceKind::Computer => "computer",
            DeviceKind::GamingInput => "gaming-input",
            DeviceKind::Pen => "pen",
            DeviceKind::Touchpad => "touchpad",
            DeviceKind::Modem => "modem",
            DeviceKind::Network => "network",
            DeviceKind::Headset => "headset",
            DeviceKind::Speakers => "speakers",
            DeviceKind::Headphones => "headphones",
            DeviceKind::Video => "video",
            DeviceKind::OtherAudio => "other-audio",
            DeviceKind::RemoteControl => "remote-control",
            DeviceKind::Printer => "printer",
            DeviceKind::Scanner => "scanner",
            DeviceKind::Camera => "camera",
            DeviceKind::Wearable => "wearable",
            DeviceKind::Toy => "toy",
            DeviceKind::Generic => "generic",
            DeviceKind::Last => "last",
        }
    }

    /// How a name is read: white space around it does not count, nor does
    /// the case of its ASCII letters.
    pub open spec fn normalized(name: Seq<char>) -> Seq<char> {
        lowered(trimmed(name))
    }

    /// Whether `text` is the canonical name of a kind.
    pub open spec fn is_name(text: Seq<char>) -> bool {
        exists|kind: DeviceKind| kind.spec_name() == text
    }

    /// The kind whose canonical name is `text`, if there is one.
    pub open spec fn named(text: Seq<char>) -> Option<DeviceKind> {
        if Self::is_name(text) {
            Some(choose|kind: DeviceKind| kind.spec_name() == text)
        } else {
            None
        }
    }

    /// The kind that the characters at `start .. end` name when taken in
    /// lower case.
    pub(crate) fn lookup(chars: &Vec<char>, start: usize, end: usize) -> (found: Option<DeviceKind>)
        requires
            start <= end <= chars.len(),
        ensures
            found == Self::named(lowered(chars@.subrange(start as int, end as int))),
    {
        let ghost text = lowered(chars@.subrange(start as int, end as int));
        let mut code: u32 = 0;
        while code < KIND_COUNT
            invariant
                start <= end <= chars.len(),
                code <= KIND_COUNT,
                text == lowered(chars@.subrange(start as int, end as int)),
                forall|c: u32| c < code ==> (#[trigger] Self::lenient(c)).spec_name() != text,
            decreases KIND_COUNT - code,
        {
            let kind = Self::from_code(code);
            let name = chars_of(kind.canonical_name());
            if spells(chars, start, end, &name) {
                proof {
                    lemma_name_tells_kind(kind, choose|k: DeviceKind| k.spec_name() == text);
                }
                return Some(kind);
            }
            code += 1;
        }
        proof {
            assert forall|kind: DeviceKind| kind.spec_name() != text by {
                lemma_code_round_trip(kind);
            }
        }
        None
    }

    /// The kind that `name` names. White space around the name does not
    /// count, nor does the case of its ASCII letters.
    pub fn from_name(name: &str) -> (result: Result<DeviceKind, ParseError>)
        ensures
            match result {
                Ok(kind) => Self::named(Self::normalized(name@)) == Some(kind),
                Err(ParseError::UnknownKindName { token }) => {
                    &&& Self::named(Self::normalized(name@)) is None
                    &&& token@ == trimmed(name@)
                },
            },
    {
        let chars = chars_of(name);
        assert(chars@.subrange(0, chars@.len() as int) == chars@);
        let (start, end) = trim_range(&chars, 0, chars.len());
        match Self::lookup(&chars, start, end) {
            Some(kind) => Ok(kind),
            None => Err(
                ParseError::UnknownKindName {
                    token: String::from_str(name.substring_char(start, end)),
                },
            ),
        }
    }
}

/// Every kind is the one that its code stands for, and a code stands for a
/// kind exactly when it is below [`KIND_COUNT`].
pub proof fn lemma_code_round_trip(kind: DeviceKind)
    ensures
        kind.spec_code() < KIND_COUNT,
        DeviceKind::with_code(kind.spec_code()) == Some(kind),
        DeviceKind::lenient(kind.spec_code()) == kind,
{
}

/// A code below [`KIND_COUNT`] stands for a kind, and that kind has this
/// code; any other code stands for none and is taken for
/// [`DeviceKind::Unknown`].
pub proof fn lemma_kind_of_code(code: u32)
    ensures
        code < KIND_COUNT ==> DeviceKind::with_code(code) is Some && DeviceKind::lenient(
            code,
        ).spec_code() == code,
        code >= KIND_COUNT ==> DeviceKind::with_code(code) is None && DeviceKind::lenient(code)
            == DeviceKind::Unknown,
{
}

/// No two kinds share a canonical name.
pub proof fn lemma_name_tells_kind(a: DeviceKind, b: DeviceKind)
    requires
        a.spec_name() == b.spec_name(),
    ensures
        a == b,
{
    lemma_names_revealed();
}

/// A canonical name is a word of lower-case letters and hyphens.
pub proof fn lemma_name_is_plain(kind: DeviceKind)
    ensures
        is_plain(kind.spec_name()),
{
    reveal_strlit("unknown");
    reveal_strlit("line-power");
    reveal_strlit("battery");
    reveal_strlit("ups");
    reveal_strlit("monitor");
    reveal_strlit("mouse");
    reveal_strlit("keyboard");
    reveal_strlit("pda");
    reveal_strlit("phone");
    reveal_strlit("media-player");
    reveal_strlit("tablet");
    reveal_strlit("computer");
    reveal_strlit("gaming-input");
    reveal_strlit("pen");
    reveal_strlit("touchpad");
    reveal_strlit("modem");
    reveal_strlit("network");
    reveal_strlit("headset");
    reveal_strlit("speakers");
    reveal_strlit("headphones");
    reveal_strlit("video");
    reveal_strlit("other-audio");
    reveal_strlit("remote-control");
    reveal_strlit("printer");
    reveal_strlit("scanner");
    reveal_strlit("camera");
    reveal_strlit("wearable");
    reveal_strlit("toy");
    reveal_strlit("generic");
    reveal_strlit("last");
}

/// A canonical name names its own kind, and reads as it is written: the
/// name of a kind is found to be the name of that kind.
pub proof fn lemma_name_round_trip(kind: DeviceKind)
    ensures
        DeviceKind::named(kind.spec_name()) == Some(kind),
        DeviceKind::normalized(kind.spec_name()) == kind.spec_name(),
        DeviceKind::named(DeviceKind::normalized(kind.spec_name())) == Some(kind),
{
    let found = choose|k: DeviceKind| k.spec_name() == kind.spec_name();
    lemma_name_tells_kind(found, kind);
    lemma_name_is_plain(kind);
    lemma_plain_is_as_written(kind.spec_name());
}

/// The length and the first three letters of every canonical name: enough
/// to tell any two names apart.
proof fn lemma_names_revealed()
    ensures
        "unknown"@.len() == 7 && "unknown"@[0] == 'u' && "unknown"@[1] == 'n' && "unknown"@[2] == 'k',
        "line-power"@.len() == 10 && "line-power"@[0] == 'l' && "line-power"@[1] == 'i' && "line-power"@[2] == 'n',
        "battery"@.len() == 7 && "battery"@[0] == 'b' && "battery"@[1] == 'a' && "battery"@[2] == 't',
        "ups"@.len() == 3 && "ups"@[0] == 'u' && "ups"@[1] == 'p' && "ups"@[2] == 's',
        "monitor"@.len() == 7 && "monitor"@[0] == 'm' && "monitor"@[1] == 'o' && "monitor"@[2] == 'n',
        "mouse"@.len() == 5 && "mouse"@[0] == 'm' && "mouse"@[1] == 'o' && "mouse"@[2] == 'u',
        "keyboard"@.len() == 8 && "keyboard"@[0] == 'k' && "keyboard"@[1] == 'e' && "keyboard"@[2] == 'y',
        "pda"@.len() == 3 && "pda"@[0] == 'p' && "pda"@[1] == 'd' && "pda"@[2] == 'a',
        "phone"@.len() == 5 && "phone"@[0] == 'p' && "phone"@[1] == 'h' && "phone"@[2] == 'o',
        "media-player"@.len() == 12 && "media-player"@[0] == 'm' && "media-player"@[1] == 'e' && "media-player"@[2] == 'd',
        "tablet"@.len() == 6 && "tablet"@[0] == 't' && "tablet"@[1] == 'a' && "tablet"@[2] == 'b',
        "computer"@.len() == 8 && "computer"@[0] == 'c' && "computer"@[1] == 'o' && "computer"@[2] == 'm',
        "gaming-input"@.len() == 12 && "gaming-input"@[0] == 'g' && "gaming-input"@[1] == 'a' && "gaming-input"@[2] == 'm',
        "pen"@.len() == 3 && "pen"@[0] == 'p' && "pen"@[1] == 'e' && "pen"@[2] == 'n',
        "touchpad"@.len() == 8 && "touchpad"@[0] == 't' && "touchpad"@[1] == 'o' && "touchpad"@[2] == 'u',
        "modem"@.len() == 5 && "modem"@[0] == 'm' && "modem"@[1] == 'o' && "modem"@[2] == 'd',
        "network"@.len() == 7 && "network"@[0] == 'n' && "network"@[1] == 'e' && "network"@[2] == 't',
        "headset"@.len() == 7 && "headset"@[0] == 'h' && "headset"@[1] == 'e' && "headset"@[2] == 'a',
        "speakers"@.len() == 8 && "speakers"@[0] == 's' && "speakers"@[1] == 'p' && "speakers"@[2] == 'e',
        "headphones"@.len() == 10 && "headphones"@[0] == 'h' && "headphones"@[1] == 'e' && "headphones"@[2] == 'a',
        "video"@.len() == 5 && "video"@[0] == 'v' && "video"@[1] == 'i' && "video"@[2] == 'd',
        "other-audio"@.len() == 11 && "other-audio"@[0] == 'o' && "other-audio"@[1] == 't' && "other-audio"@[2] == 'h',
        "remote-control"@.len() == 14 && "remote-control"@[0] == 'r' && "remote-control"@[1] == 'e' && "remote-control"@[2] == 'm',
        "printer"@.len() == 7 && "printer"@[0] == 'p' && "printer"@[1] == 'r' && "printer"@[2] == 'i',
        "scanner"@.len() == 7 && "scanner"@[0] == 's' && "scanner"@[1] == 'c' && "scanner"@[2] == 'a',
        "camera"@.len() == 6 && "camera"@[0] == 'c' && "camera"@[1] == 'a' && "camera"@[2] == 'm',
        "wearable"@.len() == 8 && "wearable"@[0] == 'w' && "wearable"@[1] == 'e' && "wearable"@[2] == 'a',
        "toy"@.len() == 3 && "toy"@[0] == 't' && "toy"@[1] == 'o' && "toy"@[2] == 'y',
        "generic"@.len() == 7 && "generic"@[0] == 'g' && "generic"@[1] == 'e' && "generic"@[2] == 'n',
        "last"@.len() == 4 && "last"@[0] == 'l' && "last"@[1] == 'a' && "last"@[2] == 's',
{
    reveal_strlit("unknown");
    reveal_strlit("line-power");
    reveal_strlit("battery");
    reveal_strlit("ups");
    reveal_strlit("monitor");
    reveal_strlit("mouse");
    reveal_strlit("keyboard");
    reveal_strlit("pda");
    reveal_strlit("phone");
    reveal_strlit("media-player");
    reveal_strlit("tablet");
    reveal_strlit("computer");
    reveal_strlit("gaming-input");
    reveal_strlit("pen");
    reveal_strlit("touchpad");
    reveal_strlit("modem");
    reveal_strlit("network");
    reveal_strlit("headset");
    reveal_strlit("speakers");
    reveal_strlit("headphones");
    reveal_strlit("video");
    reveal_strlit("other-audio");
    reveal_strlit("remote-control");
    reveal_strlit("printer");
    reveal_strlit("scanner");
    reveal_strlit("camera");
    reveal_strlit("wearable");
    reveal_strlit("toy");
    reveal_strlit("generic");
    reveal_strlit("last");
}

} // verus!
