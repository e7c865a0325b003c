//! The failures that the library reports.
use crate::extern_struct_storage::{ExternStruct, ExternStructKind};
use vstd::prelude::*;
use vstd::string::StringExecFns;

verus! {

/// The exception class under which the host sees an error.
#[derive(Clone, Copy, Debug, PartialEq, Eq, Structural)]
pub enum ErrorClass {
    /// The library's own error class.
    Fmod,
    /// The host's general run-time error.
    Runtime,
}

/// What went wrong.
#[derive(Clone, Copy, Debug, PartialEq, Eq, Structural)]
pub enum Error {
    /// A channel control was taken for a channel and is none.
    NotAChannel,
    /// A channel control was taken for a channel group and is none.
    NotAChannelGroup,
    /// The registry was asked about an object that it does not hold.
    NotRegistered(ExternStruct),
    /// A wrapper was used after its object had been released.
    UseAfterFree(ExternStruct),
    /// The engine refused a call; the number is its result code.
    Fmod(u32),
    /// An invocation was sent after the bridge thread had stopped.
    MailboxClosed,
    /// The reply channel of a synchronous call was dropped before a reply came.
    ReplyDropped,
}

/// The decimal digits of `n`, most significant first.
pub open spec fn spec_decimal(n: nat) -> Seq<char>
    decreases n,
{
    if n < 10 {
        seq![spec_digit(n)]
    } else {
        spec_decimal(n / 10).push(spec_digit(n % 10))
    }
}

/// The character for a single digit.
pub open spec fn spec_digit(d: nat) -> char {
    if d == 0 {
        '0'
    } else if d == 1 {
        '1'
    } else if d == 2 {
        '2'
    } else if d == 3 {
        '3'
    } else if d == 4 {
        '4'
    } else if d == 5 {
        '5'
    } else if d == 6 {
        '6'
    } else if d == 7 {
        '7'
    } else if d == 8 {
        '8'
    } else {
        '9'
    }
}

fn digit(d: u64) -> (s: &'static str)
    requires
        d < 10,
    ensures
        s@ == seq![spec_digit(d as nat)],
{
    proof {
        reveal_strlit("0");
        reveal_strlit("1");
        reveal_strlit("2");
        reveal_strlit("3");
        reveal_strlit("4");
        reveal_strlit("5");
        reveal_strlit("6");
        reveal_strlit("7");
        reveal_strlit("8");
        reveal_strlit("9");
    }
    let s = if d == 0 {
        "0"
    } else if d == 1 {
        "1"
    } else if d == 2 {
        "2"
    } else if d == 3 {
        "3"
    } else if d == 4 {
        "4"
    } else if d == 5 {
        "5"
    } else if d == 6 {
        "6"
    } else if d == 7 {
        "7"
    } else if d == 8 {
        "8"
    } else {
        "9"
    };
    assert(s@ =~= seq![spec_digit(d as nat)]);
    s
}

/// Writes `n` in decimal.
pub fn decimal(n: u64) -> (text: String)
    ensures
        text@ == spec_decimal(n as nat),
    decreases n,
{
    if n < 10 {
        String::from_str(digit(n))
    } else {
        let mut text = decimal(n / 10);
        text.append(digit(n % 10));
        text
    }
}

impl ExternStructKind {
    /// The name of the kind.
    pub open spec fn spec_name(self) -> Seq<char> {
        match self {
            ExternStructKind::StudioSystem => "StudioSystem"@,
            ExternStructKind::Bank => "Bank"@,
            ExternStructKind::EventDescription => "EventDescription"@,
            ExternStructKind::EventInstance => "EventInstance"@,
            ExternStructKind::CommandReplay => "CommandReplay"@,
            ExternStructKind::Bus => "Bus"@,
            ExternStructKind::Vca => "Vca"@,
            ExternStructKind::Reverb3D => "Reverb3D"@,
            ExternStructKind::SoundGroup => "SoundGroup"@,
            ExternStructKind::ChannelControl => "ChannelControl"@,
            ExternStructKind::Dsp => "Dsp"@,
            ExternStructKind::Sound => "Sound"@,
            ExternStructKind::Geometry => "Geometry"@,
            ExternStructKind::DspConnection => "DspConnection"@,
            ExternStructKind::SyncPoint => "SyncPoint"@,
            ExternStructKind::System => "System"@,
        }
    }

    /// The name of the kind.
    pub fn name(self) -> (name: &'static str)
        ensures
            name@ == self.spec_name(),
    {
        match self {
            ExternStructKind::StudioSystem => "StudioSystem",
            ExternStructKind::Bank => "Bank",
            ExternStructKind::EventDescription => "EventDescription",
            ExternStructKind::EventInstance => "EventInstance",
            ExternStructKind::CommandReplay => "CommandReplay",
            ExternStructKind::Bus => "Bus",
            ExternStructKind::Vca => "Vca",
            ExternStructKind::Reverb3D => "Reverb3D",
            ExternStructKind::SoundGroup => "SoundGroup",
            ExternStructKind::ChannelControl => "ChannelControl",
            ExternStructKind::Dsp => "Dsp",
            ExternStructKind::Sound => "Sound",
            ExternStructKind::Geometry => "Geometry",
            ExternStructKind::DspConnection => "DspConnection",
            ExternStructKind::SyncPoint => "SyncPoint",
            ExternStructKind::System => "System",
        }
    }
}

impl ExternStruct {
    /// The object in words: the name of its kind and, in brackets, its address in
    /// decimal.
    pub open spec fn spec_describe(self) -> Seq<char> {
        self.kind.spec_name() + "("@ + spec_decimal(self.id as nat) + ")"@
    }

    /// The object in words: the name of its kind and, in brackets, its address in
    /// decimal.
    pub fn describe(self) -> (text: String)
        ensures
            text@ == self.spec_describe(),
    {
        let mut text = String::from_str(self.kind.name());
        text.append("(");
        let digits = decimal(self.id as u64);
        text.append(digits.as_str());
        text.append(")");
        text
    }
}

impl Error {
    /// The class under which the host sees the error: a wrong narrowing of a channel
    /// control is a general run-time error, everything else is the library's own.
    pub open spec fn spec_class(self) -> ErrorClass {
        match self {
            Error::NotAChannel | Error::NotAChannelGroup => ErrorClass::Runtime,
            Error::NotRegistered(_)
            | Error::UseAfterFree(_)
            | Error::Fmod(_)
            | Error::MailboxClosed
            | Error::ReplyDropped => ErrorClass::Fmod,
        }
    }

    #[verifier::when_used_as_spec(spec_class)]
    pub fn class(self) -> (class: ErrorClass)
        ensures
            class == self.spec_class(),
    {
        match self {
            Error::NotAChannel | Error::NotAChannelGroup => ErrorClass::Runtime,
            Error::NotRegistered(_)
            | Error::UseAfterFree(_)
            | Error::Fmod(_)
            | Error::MailboxClosed
            | Error::ReplyDropped => ErrorClass::Fmod,
        }
    }

    /// The error in words.
    pub open spec fn spec_message(self) -> Seq<char> {
        match self {
            Error::NotAChannel => "ChannelControl is not a Channel"@,
            Error::NotAChannelGroup => "ChannelControl is not a ChannelGroup"@,
            Error::NotRegistered(value) => value.spec_describe() + " is not registered"@,
            Error::UseAfterFree(value) => "Use after free: "@ + value.spec_describe()
                + " has already been released!"@,
            Error::Fmod(code) => "FMOD error "@ + spec_decimal(code as nat),
            Error::MailboxClosed => "calling thread is dead. please report this"@,
            Error::ReplyDropped => "callback was dropped before it replied"@,
        }
    }

    /// The error in words.
    pub fn message(self) -> (text: String)
        ensures
            text@ == self.spec_message(),
    {
        match self {
            Error::NotAChannel => String::from_str("ChannelControl is not a Channel"),
            Error::NotAChannelGroup => String::from_str("ChannelControl is not a ChannelGroup"),
            Error::NotRegistered(value) => {
                let mut text = value.describe();
                text.append(" is not registered");
                text
            },
            Error::UseAfterFree(value) => {
                let mut text = String::from_str("Use after free: ");
                let what = value.describe();
                text.append(what.as_str());
                text.append(" has already been released!");
                text
            },
            Error::Fmod(code) => {
                let mut text = String::from_str("FMOD error ");
                let digits = decimal(code as u64);
                text.append(digits.as_str());
                text
            },
            Error::MailboxClosed => String::from_str("calling thread is dead. please report this"),
            Error::ReplyDropped => String::from_str("callback was dropped before it replied"),
        }
    }
}

/// The error for the use of a wrapper whose object has been released.
pub fn use_after_free(value: ExternStruct) -> (error: Error)
    ensures
        error == Error::UseAfterFree(value),
{
    Error::UseAfterFree(value)
}

/// The error for a result code with which the engine refused a call.
pub fn from_fmod(code: u32) -> (error: Error)
    ensures
        error == Error::Fmod(code),
{
    Error::Fmod(code)
}

} // verus!
