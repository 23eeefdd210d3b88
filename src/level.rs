use vstd::prelude::*;

verus! {

/// Severity of a record, from most to least severe.
#[derive(Clone, Copy, Debug, PartialEq, Eq, Structural)]
pub enum Level {
    Error,
    Warn,
    Info,
    Debug,
    Trace,
}

/// Either `Off` or a threshold level: a record passes when it is at least
/// as severe as the threshold.
#[derive(Clone, Copy, Debug, PartialEq, Eq, Structural)]
pub enum LevelFilter {
    Off,
    Error,
    Warn,
    Info,
    Debug,
    Trace,
}

impl Level {
    /// Position in the order of severity: 1 is the most severe.
    pub open spec fn rank(self) -> nat {
        match self {
            Level::Error => 1,
            Level::Warn => 2,
            Level::Info => 3,
            Level::Debug => 4,
            Level::Trace => 5,
        }
    }

    /// The name that the built-in formats print.
    pub open spec fn name_spec(self) -> Seq<char> {
        match self {
            Level::Error => "Error"@,
            Level::Warn => "Warn"@,
            Level::Info => "Info"@,
            Level::Debug => "Debug"@,
            Level::Trace => "Trace"@,
        }
    }

    pub fn name(self) -> (r: &'static str)
        ensures
            r@ == self.name_spec(),
    {
        proof {
            reveal_strlit("Error");
            reveal_strlit("Warn");
            reveal_strlit("Info");
            reveal_strlit("Debug");
            reveal_strlit("Trace");
        }
        match self {
            Level::Error => "Error",
            Level::Warn => "Warn",
            Level::Info => "Info",
            Level::Debug => "Debug",
            Level::Trace => "Trace",
        }
    }

    /// The filter whose threshold is this level.
    pub fn to_level_filter(self) -> (r: LevelFilter)
        ensures
            r.rank() == self.rank(),
    {
        match self {
            Level::Error => LevelFilter::Error,
            Level::Warn => LevelFilter::Warn,
            Level::Info => LevelFilter::Info,
            Level::Debug => LevelFilter::Debug,
            Level::Trace => LevelFilter::Trace,
        }
    }

    /// Whether `self` is at least as severe as `other`.
    pub fn at_least(self, other: Level) -> (r: bool)
        ensures
            r == (self.rank() <= other.rank()),
    {
        self.rank_exec() <= other.rank_exec()
    }

    fn rank_exec(self) -> (r: u8)
        ensures
            r as nat == self.rank(),
    {
        match self {
            Level::Error => 1,
            Level::Warn => 2,
            Level::Info => 3,
            Level::Debug => 4,
            Level::Trace => 5,
        }
    }
}

impl LevelFilter {
    /// 0 for `Off`, else the rank of the threshold level.
    pub open spec fn rank(self) -> nat {
        match self {
            LevelFilter::Off => 0,
            LevelFilter::Error => 1,
            LevelFilter::Warn => 2,
            LevelFilter::Info => 3,
            LevelFilter::Debug => 4,
            LevelFilter::Trace => 5,
        }
    }

    pub open spec fn to_level_spec(self) -> Option<Level> {
        match self {
            LevelFilter::Off => None,
            LevelFilter::Error => Some(Level::Error),
            LevelFilter::Warn => Some(Level::Warn),
            LevelFilter::Info => Some(Level::Info),
            LevelFilter::Debug => Some(Level::Debug),
            LevelFilter::Trace => Some(Level::Trace),
        }
    }

    /// Whether a record at `level` passes this filter.
    pub open spec fn passes(self, level: Level) -> bool {
        match self.to_level_spec() {
            Some(threshold) => level.rank() <= threshold.rank(),
            None => false,
        }
    }

    /// The threshold level, or `None` for `Off`.
    pub fn to_level(self) -> (r: Option<Level>)
        ensures
            r == self.to_level_spec(),
    {
        match self {
            LevelFilter::Off => None,
            LevelFilter::Error => Some(Level::Error),
            LevelFilter::Warn => Some(Level::Warn),
            LevelFilter::Info => Some(Level::Info),
            LevelFilter::Debug => Some(Level::Debug),
            LevelFilter::Trace => Some(Level::Trace),
        }
    }

    /// Whether a record at `level` passes this filter.
    pub fn allows(self, level: Level) -> (r: bool)
        ensures
            r == self.passes(level),
    {
        match self.to_level() {
            Some(threshold) => level.at_least(threshold),
            None => false,
        }
    }
}

/// A record passes a filter exactly when the filter is not `Off` and the
/// record's level is at least as severe as the filter's threshold.
pub proof fn lemma_filter_passes(filter: LevelFilter, level: Level)
    ensures
        filter.passes(level) <==> (filter != LevelFilter::Off && level.rank() <= filter.rank()),
{
}

} // verus!
