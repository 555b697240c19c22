//! The sink: it decides for each message whether a console line is written,
//! and composes that line.

use vstd::prelude::*;
use vstd::string::StringExecFns;
use crate::level::{Level, LevelFilter, RESET};
use crate::targets::{any_prefix_of, segments, AllowList};

verus! {

/// What the sink is told of a message before the message itself is built.
pub struct Metadata<'a> {
    pub level: Level,
    pub target: &'a str,
}

/// One message as it reaches the sink.
pub struct Record<'a> {
    pub level: Level,
    pub target: &'a str,
    pub message: &'a str,
}

/// The text between the severity's name and the message.
pub const SEPARATOR: &'static str = " - ";

/// The console line of a message: the colour of its severity, the severity's
/// name, a separator, the message, and the end of the colour.
pub open spec fn console_line(level: Level, message: Seq<char>) -> Seq<char> {
    level.color() + level.name() + SEPARATOR@ + message + RESET@
}

/// Composes the console line of a message.
pub fn render(level: Level, message: &str) -> (line: String)
    ensures
        line@ == console_line(level, message@),
{
    let mut line = String::new();
    line.append(level.color_code());
    line.append(level.as_str());
    line.append(SEPARATOR);
    line.append(message);
    line.append(RESET);
    assert(line@ =~= console_line(level, message@));
    line
}

/// The console sink with its configuration: the allow-list of targets, and
/// the threshold that the logging facility is to be given.
pub struct SimpleLogger {
    targets: Option<AllowList>,
    max_level: Option<LevelFilter>,
}

impl SimpleLogger {
    /// The prefixes of the allow-list; `None` where no list is configured.
    pub closed spec fn targets(&self) -> Option<Seq<Seq<char>>> {
        match self.targets {
            Some(allowed) => Some(allowed@),
            None => None,
        }
    }

    /// The threshold to hand to the logging facility; `None` where none is
    /// configured and the facility keeps its own.
    pub closed spec fn threshold(&self) -> Option<LevelFilter> {
        self.max_level
    }

    /// Whether a message of this target passes the allow-list: always where
    /// there is no list, else where the target begins with a listed prefix.
    pub open spec fn admits(&self, target: Seq<char>) -> bool {
        match self.targets() {
            Some(prefixes) => any_prefix_of(prefixes, target),
            None => true,
        }
    }

    /// What the sink writes for a message: its console line where the target
    /// passes the allow-list, nothing where it does not. The severity plays
    /// no part in the decision.
    pub open spec fn output(&self, record: &Record) -> Option<Seq<char>> {
        if self.admits(record.target@) {
            Some(console_line(record.level, record.message@))
        } else {
            None
        }
    }

    /// Builds the sink from the two configuration values as the environment
    /// held them, each of which may be absent: the comma-separated allow-list
    /// of target prefixes, and the name of the threshold. A threshold name
    /// that is not understood gives the threshold that holds no severity
    /// back. Registering the sink and handing the threshold on are left to
    /// the caller.
    pub fn init_logger_from_env(targets: Option<&str>, level: Option<&str>) -> (logger: SimpleLogger)
        ensures
            logger.targets() == match targets {
                Some(list) => Some(segments(list@)),
                None => None,
            },
            logger.threshold() == match level {
                Some(name) => Some(LevelFilter::configured(name@)),
                None => None,
            },
            level matches Some(name) && LevelFilter::named(name@) is None ==> forall|severity: Level|
                #[trigger] logger.threshold()->0.lets_through(severity),
    {
        let targets = match targets {
            Some(list) => Some(AllowList::parse(list)),
            None => None,
        };
        let max_level = match level {
            Some(name) => Some(LevelFilter::from_config(name)),
            None => None,
        };
        SimpleLogger { targets, max_level }
    }

    /// The threshold to hand to the logging facility, if one is configured.
    pub fn max_level(&self) -> (threshold: Option<LevelFilter>)
        ensures
            threshold == self.threshold(),
    {
        self.max_level
    }

    /// Whether the sink wants a message with this metadata built at all. It
    /// always does: the allow-list is applied when the message arrives.
    pub fn enabled(&self, metadata: &Metadata) -> (wanted: bool)
        ensures
            wanted,
    {
        true
    }

    /// Takes a message and returns the line to write to the console, or
    /// `None` where the allow-list suppresses the message.
    pub fn log(&self, record: &Record) -> (line: Option<String>)
        ensures
            match line {
                Some(text) => self.output(record) == Some(text@),
                None => self.output(record) is None,
            },
    {
        match &self.targets {
            Some(allowed) => {
                if !allowed.admits(record.target) {
                    return None;
                }
            },
            None => {},
        }
        Some(render(record.level, record.message))
    }

    /// Nothing is buffered, so there is nothing to flush.
    pub fn flush(&self) {
    }
}

/// A message whose target begins with none of the prefixes of a configured
/// allow-list produces no console output, whatever its severity.
pub proof fn lemma_unlisted_target_is_silent(logger: SimpleLogger, record: Record)
    requires
        logger.targets() is Some,
        forall|i: int|
            0 <= i < logger.targets()->0.len() ==> !(#[trigger] logger.targets()->0[i]).is_prefix_of(
                record.target@,
            ),
    ensures
        logger.output(&record) is None,
{
}

/// Without an allow-list every message, whatever its severity and target,
/// produces exactly its console line, which begins with the colour of the
/// severity and ends with the reset sequence.
pub proof fn lemma_unfiltered_message_is_written(logger: SimpleLogger, record: Record)
    requires
        logger.targets() is None,
    ensures
        logger.output(&record) == Some(console_line(record.level, record.message@)),
        record.level.color().is_prefix_of(console_line(record.level, record.message@)),
        RESET@.is_suffix_of(console_line(record.level, record.message@)),
{
    let line = console_line(record.level, record.message@);
    let head = record.level.color();
    let body = head + record.level.name() + SEPARATOR@ + record.message@;
    assert(line == body + RESET@);
    assert(line.subrange(0, head.len() as int) =~= head);
    assert(line.subrange(line.len() - RESET@.len(), line.len() as int) =~= RESET@);
}

/// The sink does not filter by severity: whether a message is written
/// depends on its target alone.
pub proof fn lemma_severity_plays_no_part(logger: SimpleLogger, one: Record, other: Record)
    requires
        one.target@ == other.target@,
    ensures
        logger.output(&one) is Some <==> logger.output(&other) is Some,
{
}

} // verus!
