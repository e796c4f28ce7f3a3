//! The logging sink: a severity threshold in front of the console.

use vstd::prelude::*;
use vstd::string::StringExecFns;

verus! {

/// Severity of a log record, from the most verbose to the most urgent.
#[derive(Clone, Copy, Debug, PartialEq, Eq, Structural)]
pub enum Level {
    Trace,
    Debug,
    Info,
    Warn,
    Error,
}

impl Level {
    /// Position of the level in the order of severity, `Trace` lowest.
    pub open spec fn rank(self) -> nat {
        match self {
            Level::Trace => 0,
            Level::Debug => 1,
            Level::Info => 2,
            Level::Warn => 3,
            Level::Error => 4,
        }
    }

    /// The name of the level as configuration sources write it.
    pub open spec fn name_text(self) -> Seq<char> {
        match self {
            Level::Trace => "trace"@,
            Level::Debug => "debug"@,
            Level::Info => "info"@,
            Level::Warn => "warn"@,
            Level::Error => "error"@,
        }
    }

    pub fn severity(self) -> (r: u8)
        ensures
            r == self.rank(),
    {
        match self {
            Level::Trace => 0,
            Level::Debug => 1,
            Level::Info => 2,
            Level::Warn => 3,
            Level::Error => 4,
        }
    }

    /// Whether a record of this level passes a threshold of `floor`.
    pub fn at_least(self, floor: Level) -> (b: bool)
        ensures
            b == (self.rank() >= floor.rank()),
    {
        self.severity() >= floor.severity()
    }

    pub fn name(self) -> (s: &'static str)
        ensures
            s@ == self.name_text(),
    {
        match self {
            Level::Trace => "trace",
            Level::Debug => "debug",
            Level::Info => "info",
            Level::Warn => "warn",
            Level::Error => "error",
        }
    }
}

impl Level {
    /// The level that a configuration source names, if it names one.
    pub open spec fn parse_text(name: Seq<char>) -> Option<Level> {
        if name == "trace"@ {
            Some(Level::Trace)
        } else if name == "debug"@ {
            Some(Level::Debug)
        } else if name == "info"@ {
            Some(Level::Info)
        } else if name == "warn"@ {
            Some(Level::Warn)
        } else if name == "error"@ {
            Some(Level::Error)
        } else {
            None
        }
    }

    /// Reads a level from its lower-case name. Any other text is no level.
    pub fn parse(name: &str) -> (level: Option<Level>)
        ensures
            level == Level::parse_text(name@),
    {
        let given = String::from_str(name);
        if given == String::from_str("trace") {
            Some(Level::Trace)
        } else if given == String::from_str("debug") {
            Some(Level::Debug)
        } else if given == String::from_str("info") {
            Some(Level::Info)
        } else if given == String::from_str("warn") {
            Some(Level::Warn)
        } else if given == String::from_str("error") {
            Some(Level::Error)
        } else {
            None
        }
    }
}

/// Where forwarded records go. The console is the only sink there is.
#[derive(Clone, Copy, Debug, PartialEq, Eq, Structural)]
pub enum Sink {
    Console,
}

/// What the configuration source supplies before the sink is installed.
#[derive(Clone, Copy, Debug, PartialEq, Eq, Structural)]
pub struct LogConfig {
    pub minimum_level: Level,
    pub sink: Sink,
}

/// One line of console text with the severity it was written at.
#[derive(Debug)]
pub struct Line {
    pub level: Level,
    pub text: String,
}

/// A [`Line`] as contracts see it.
pub struct LineView {
    pub level: Level,
    pub text: Seq<char>,
}

impl View for Line {
    type V = LineView;

    open spec fn view(&self) -> LineView {
        LineView { level: self.level, text: self.text@ }
    }
}

impl Clone for Line {
    fn clone(&self) -> (copy: Line)
        ensures
            copy@ == self@,
    {
        Line { level: self.level, text: self.text.clone() }
    }
}

/// What became of a record handed to the sink.
#[derive(Debug)]
pub enum Delivery {
    /// The record met the threshold and goes to the console.
    Forwarded(Line),
    /// The record was below the threshold. Nothing remembers it.
    Discarded,
    /// The sink has not been installed yet. Nothing remembers the record.
    NotReady,
}

/// The state of the logging sink: its threshold once installed, nothing
/// before that.
#[derive(Clone, Copy, Debug, PartialEq, Eq, Structural)]
pub struct LogSink {
    pub floor: Option<Level>,
}

impl LogSink {
    /// Whether a record of `level` reaches the console through this sink.
    pub open spec fn admits(self, level: Level) -> bool {
        self.floor matches Some(floor) && level.rank() >= floor.rank()
    }

    /// The sink before `log_init`: every record handed to it is lost.
    pub fn uninstalled() -> (sink: LogSink)
        ensures
            sink.floor is None,
    {
        LogSink { floor: None }
    }

    pub fn is_ready(&self) -> (ready: bool)
        ensures
            ready == self.floor is Some,
    {
        self.floor.is_some()
    }

    /// Whether a record of `level` would be forwarded.
    pub fn passes(&self, level: Level) -> (yes: bool)
        ensures
            yes == self.admits(level),
    {
        match self.floor {
            Some(floor) => level.at_least(floor),
            None => false,
        }
    }

    /// Hands one record to the sink. It is forwarded when the sink is
    /// installed and the level meets the threshold, and dropped otherwise.
    pub fn submit(&self, level: Level, text: String) -> (delivery: Delivery)
        ensures
            self.floor is None ==> delivery is NotReady,
            self.floor is Some && !self.admits(level) ==> delivery is Discarded,
            self.admits(level) ==> (delivery matches Delivery::Forwarded(line) && line@ == (LineView {
                level,
                text: text@,
            })),
    {
        match self.floor {
            None => Delivery::NotReady,
            Some(floor) => {
                if level.at_least(floor) {
                    Delivery::Forwarded(Line { level, text })
                } else {
                    Delivery::Discarded
                }
            },
        }
    }
}

/// Installs the logging sink with the threshold that `config` names.
pub fn log_init(config: LogConfig) -> (sink: LogSink)
    ensures
        sink.floor == Some(config.minimum_level),
{
    LogSink { floor: Some(config.minimum_level) }
}

} // verus!
