//! Severities, their names and colours, and the threshold that the logging
//! facility compares them with.

use vstd::prelude::*;

verus! {

/// The escape sequence that ends a coloured stretch of console text.
pub const RESET: &'static str = "\u{001B}[0m";

/// The severity of one message, from the most to the least serious.
#[derive(Clone, Copy, PartialEq, Eq, Structural, Debug)]
pub enum Level {
    Error,
    Warn,
    Info,
    Debug,
    Trace,
}

/// A ceiling on severities: messages less serious than it are dropped by the
/// logging facility before they reach any sink.
#[derive(Clone, Copy, PartialEq, Eq, Structural, Debug)]
pub enum LevelFilter {
    Off,
    Error,
    Warn,
    Info,
    Debug,
    Trace,
}

impl Level {
    /// Position in the order of severities: 1 for `Error` up to 5 for `Trace`.
    pub open spec fn rank(self) -> int {
        match self {
            Level::Error => 1,
            Level::Warn => 2,
            Level::Info => 3,
            Level::Debug => 4,
            Level::Trace => 5,
        }
    }

    /// The name under which the severity appears on the console.
    pub open spec fn name(self) -> Seq<char> {
        match self {
            Level::Error => "ERROR"@,
            Level::Warn => "WARN"@,
            Level::Info => "INFO"@,
            Level::Debug => "DEBUG"@,
            Level::Trace => "TRACE"@,
        }
    }

    /// The escape sequence that switches the console to the severity's colour:
    /// red, yellow, green, blue and cyan, from `Error` to `Trace`.
    pub open spec fn color(self) -> Seq<char> {
        match self {
            Level::Error => "\u{001B}[31m"@,
            Level::Warn => "\u{001B}[33m"@,
            Level::Info => "\u{001B}[32m"@,
            Level::Debug => "\u{001B}[34m"@,
            Level::Trace => "\u{001B}[36m"@,
        }
    }

    /// The colour escape sequence of the severity.
    pub fn color_code(self) -> (code: &'static str)
        ensures
            code@ == self.color(),
    {
        match self {
            Level::Error => "\u{001B}[31m",
            Level::Warn => "\u{001B}[33m",
            Level::Info => "\u{001B}[32m",
            Level::Debug => "\u{001B}[34m",
            Level::Trace => "\u{001B}[36m",
        }
    }

    /// The console name of the severity.
    pub fn as_str(self) -> (name: &'static str)
        ensures
            name@ == self.name(),
    {
        level_name(self)
    }
}

/// `log::Level::as_str`: the facility's own name for a severity, the same
/// text that its `Display` prints. Trusted to be the upper-case name of the
/// variant.
#[verifier::external_body]
fn level_name(level: Level) -> (name: &'static str)
    ensures
        name@ == level.name(),
{
    let outside = match level {
        Level::Error => log::Level::Error,
        Level::Warn => log::Level::Warn,
        Level::Info => log::Level::Info,
        Level::Debug => log::Level::Debug,
        Level::Trace => log::Level::Trace,
    };
    outside.as_str()
}

/// The lower-case form of an ASCII capital letter; any other character itself.
pub open spec fn ascii_lowercase(c: char) -> char {
    if 'A' <= c && c <= 'Z' {
        ((c as u32) + 32) as char
    } else {
        c
    }
}

/// Whether two texts are the same once ASCII capitals are read as lower case.
pub open spec fn eq_ignore_ascii_case(a: Seq<char>, b: Seq<char>) -> bool {
    &&& a.len() == b.len()
    &&& forall|i: int| 0 <= i < a.len() ==> ascii_lowercase(a[i]) == ascii_lowercase(b[i])
}

impl LevelFilter {
    /// Position in the order of thresholds: 0 for `Off`, then the rank of the
    /// least serious severity that still passes.
    pub open spec fn rank(self) -> int {
        match self {
            LevelFilter::Off => 0,
            LevelFilter::Error => 1,
            LevelFilter::Warn => 2,
            LevelFilter::Info => 3,
            LevelFilter::Debug => 4,
            LevelFilter::Trace => 5,
        }
    }

    /// The name of the threshold in configuration text.
    pub open spec fn name(self) -> Seq<char> {
        match self {
            LevelFilter::Off => "OFF"@,
            LevelFilter::Error => "ERROR"@,
            LevelFilter::Warn => "WARN"@,
            LevelFilter::Info => "INFO"@,
            LevelFilter::Debug => "DEBUG"@,
            LevelFilter::Trace => "TRACE"@,
        }
    }

    /// The threshold that `text` names, in any mix of upper and lower case.
    pub open spec fn named(text: Seq<char>) -> Option<LevelFilter> {
        if eq_ignore_ascii_case(LevelFilter::Off.name(), text) {
            Some(LevelFilter::Off)
        } else if eq_ignore_ascii_case(LevelFilter::Error.name(), text) {
            Some(LevelFilter::Error)
        } else if eq_ignore_ascii_case(LevelFilter::Warn.name(), text) {
            Some(LevelFilter::Warn)
        } else if eq_ignore_ascii_case(LevelFilter::Info.name(), text) {
            Some(LevelFilter::Info)
        } else if eq_ignore_ascii_case(LevelFilter::Debug.name(), text) {
            Some(LevelFilter::Debug)
        } else if eq_ignore_ascii_case(LevelFilter::Trace.name(), text) {
            Some(LevelFilter::Trace)
        } else {
            None
        }
    }

    /// The threshold that configuration text asks for: the one it names.
    /// Text that names none switches the filtering off, which is the
    /// threshold that holds no severity back.
    pub open spec fn configured(text: Seq<char>) -> LevelFilter {
        match LevelFilter::named(text) {
            Some(filter) => filter,
            None => LevelFilter::Trace,
        }
    }

    /// Whether the facility lets a message of severity `level` through under
    /// this threshold.
    pub open spec fn lets_through(self, level: Level) -> bool {
        level.rank() <= self.rank()
    }

    /// Reads a threshold from configuration text. Text that names no
    /// threshold is no error: it gives the threshold under which every
    /// severity passes.
    pub fn from_config(text: &str) -> (filter: LevelFilter)
        ensures
            filter == LevelFilter::configured(text@),
            LevelFilter::named(text@) is None ==> forall|level: Level|
                #[trigger] filter.lets_through(level),
    {
        match parse_level_filter(text) {
            Ok(filter) => filter,
            Err(_) => LevelFilter::Trace,
        }
    }

    /// Whether a message of severity `level` passes this threshold.
    pub fn permits(self, level: Level) -> (passes: bool)
        ensures
            passes == self.lets_through(level),
    {
        let ceiling: u8 = match self {
            LevelFilter::Off => 0,
            LevelFilter::Error => 1,
            LevelFilter::Warn => 2,
            LevelFilter::Info => 3,
            LevelFilter::Debug => 4,
            LevelFilter::Trace => 5,
        };
        let severity: u8 = match level {
            Level::Error => 1,
            Level::Warn => 2,
            Level::Info => 3,
            Level::Debug => 4,
            Level::Trace => 5,
        };
        severity <= ceiling
    }
}

/// Every threshold is named by its own name, and by no other threshold's.
pub proof fn lemma_own_name_is_understood(filter: LevelFilter)
    ensures
        LevelFilter::named(filter.name()) == Some(filter),
        LevelFilter::configured(filter.name()) == filter,
{
    reveal_strlit("OFF");
    reveal_strlit("ERROR");
    reveal_strlit("WARN");
    reveal_strlit("INFO");
    reveal_strlit("DEBUG");
    reveal_strlit("TRACE");
    let name = filter.name();
    assert(eq_ignore_ascii_case(name, name));
    assert(ascii_lowercase(LevelFilter::Error.name()[0]) != ascii_lowercase(
        LevelFilter::Debug.name()[0],
    ));
    assert(ascii_lowercase(LevelFilter::Error.name()[0]) != ascii_lowercase(
        LevelFilter::Trace.name()[0],
    ));
    assert(ascii_lowercase(LevelFilter::Debug.name()[0]) != ascii_lowercase(
        LevelFilter::Trace.name()[0],
    ));
    assert(ascii_lowercase(LevelFilter::Warn.name()[0]) != ascii_lowercase(
        LevelFilter::Info.name()[0],
    ));
}

/// A threshold name that is not understood suppresses nothing: under the
/// threshold it gives, a message of any severity passes.
pub proof fn lemma_unknown_name_holds_nothing_back(text: Seq<char>, level: Level)
    requires
        LevelFilter::named(text) is None,
    ensures
        LevelFilter::configured(text).lets_through(level),
{
}

/// The name `OFF`, in any mix of upper and lower case, gives the threshold
/// under which no message passes.
pub proof fn lemma_off_holds_everything_back(text: Seq<char>, level: Level)
    requires
        eq_ignore_ascii_case(LevelFilter::Off.name(), text),
    ensures
        LevelFilter::configured(text) == LevelFilter::Off,
        !LevelFilter::configured(text).lets_through(level),
{
}

/// The facility's error for text that names no threshold.
#[verifier::external_type_specification]
#[verifier::external_body]
pub struct ExParseLevelError(log::ParseLevelError);

/// `<log::LevelFilter as FromStr>::from_str`: the facility's reading of a
/// threshold name. Trusted to accept exactly the six names, in any mix of
/// ASCII upper and lower case, and to fail on every other text.
#[verifier::external_body]
fn parse_level_filter(text: &str) -> (parsed: Result<LevelFilter, log::ParseLevelError>)
    ensures
        match parsed {
            Ok(filter) => LevelFilter::named(text@) == Some(filter),
            Err(_) => LevelFilter::named(text@) is None,
        },
{
    match text.parse::<log::LevelFilter>() {
        Ok(log::LevelFilter::Off) => Ok(LevelFilter::Off),
        Ok(log::LevelFilter::Error) => Ok(LevelFilter::Error),
        Ok(log::LevelFilter::Warn) => Ok(LevelFilter::Warn),
        Ok(log::LevelFilter::Info) => Ok(LevelFilter::Info),
        Ok(log::LevelFilter::Debug) => Ok(LevelFilter::Debug),
        Ok(log::LevelFilter::Trace) => Ok(LevelFilter::Trace),
        Err(error) => Err(error),
    }
}

} // verus!
