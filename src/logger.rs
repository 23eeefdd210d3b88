use vstd::prelude::*;
use crate::format::{detail, detail_text, simple, simple_text};
use crate::level::{Level, LevelFilter};
use crate::record::Record;

verus! {

/// The active format function: one of the two built-in ones, or one the
/// caller supplied, which returns the rendered text or a description of why
/// it failed.
pub enum Formatter<F> {
    Simple,
    Detail,
    Custom(F),
}

/// A host console channel. Each level has a channel of its own; a failed
/// rendering is reported on the error channel.
#[derive(Clone, Copy, Debug, PartialEq, Eq, Structural)]
pub enum Channel {
    Error,
    Warn,
    Info,
    Debug,
    Trace,
}

/// One write to the host console.
#[derive(Clone, Debug)]
pub struct ConsoleWrite {
    pub channel: Channel,
    pub text: String,
}

/// The channel that carries records of `level`.
pub open spec fn channel_of(level: Level) -> Channel {
    match level {
        Level::Error => Channel::Error,
        Level::Warn => Channel::Warn,
        Level::Info => Channel::Info,
        Level::Debug => Channel::Debug,
        Level::Trace => Channel::Trace,
    }
}

/// `w` is the write for a record of `level` whose rendering came out as
/// `rendered`: the text on the level's channel, or the failure on the error
/// channel.
pub open spec fn routes(level: Level, rendered: Result<String, String>, w: ConsoleWrite) -> bool {
    match rendered {
        Ok(s) => w.channel == channel_of(level) && w.text@ == s@,
        Err(e) => w.channel == Channel::Error && w.text@ == e@,
    }
}

/// The channel that carries records of `level`.
pub fn channel_for(level: Level) -> (c: Channel)
    ensures
        c == channel_of(level),
{
    match level {
        Level::Error => Channel::Error,
        Level::Warn => Channel::Warn,
        Level::Info => Channel::Info,
        Level::Debug => Channel::Debug,
        Level::Trace => Channel::Trace,
    }
}

/// The one console write for a record of `level` whose rendering came out as
/// `rendered`.
pub fn dispatch(level: Level, rendered: Result<String, String>) -> (w: ConsoleWrite)
    ensures
        routes(level, rendered, w),
{
    match rendered {
        Ok(text) => ConsoleWrite { channel: channel_for(level), text },
        Err(text) => ConsoleWrite { channel: Channel::Error, text },
    }
}

/// The sink: a severity filter and a format function.
pub struct Logger<F> {
    pub filter: LevelFilter,
    pub format: Formatter<F>,
}

impl<F> Logger<F> {
    /// The default sink: everything passes, rendered by the simple format.
    fn new() -> (l: Logger<F>)
        ensures
            l.filter == LevelFilter::Trace,
            l.format is Simple,
    {
        Logger { filter: LevelFilter::Trace, format: Formatter::Simple }
    }
}

impl<F: Fn(&Record) -> Result<String, String>> Logger<F> {
    /// The format function accepts every record.
    pub open spec fn ready(&self) -> bool {
        match self.format {
            Formatter::Custom(f) => forall|r: &Record| #[trigger] f.requires((r,)),
            _ => true,
        }
    }

    /// `out` is a possible rendering of `r` by the active format function.
    pub open spec fn renders(&self, r: Record, out: Result<String, String>) -> bool {
        match self.format {
            Formatter::Simple => out matches Ok(s) && s@ == simple_text(r),
            Formatter::Detail => out matches Ok(s) && s@ == detail_text(r),
            Formatter::Custom(f) => f.ensures((&r,), out),
        }
    }

    /// `out` is what logging `r` may write: nothing when the filter stops
    /// it, else the one write for its rendering.
    pub open spec fn logged(&self, r: Record, out: Option<ConsoleWrite>) -> bool {
        match out {
            None => !self.filter.passes(r.level),
            Some(w) => self.filter.passes(r.level) && exists|res: Result<String, String>|
                self.renders(r, res) && routes(r.level, res, w),
        }
    }

    /// Whether a record at `level` passes the filter.
    pub fn enabled(&self, level: Level) -> (r: bool)
        ensures
            r == self.filter.passes(level),
    {
        self.filter.allows(level)
    }

    /// Renders `r` with the active format function.
    pub fn render(&self, r: &Record) -> (out: Result<String, String>)
        requires
            self.ready(),
        ensures
            self.renders(*r, out),
    {
        match &self.format {
            Formatter::Simple => Ok(simple(r)),
            Formatter::Detail => Ok(detail(r)),
            Formatter::Custom(f) => f(r),
        }
    }

    /// The console write for `r`, or `None` when the filter stops it.
    pub fn log(&self, r: &Record) -> (out: Option<ConsoleWrite>)
        requires
            self.ready(),
        ensures
            self.logged(*r, out),
    {
        if !self.enabled(r.level) {
            return None;
        }
        let rendered = self.render(r);
        let w = dispatch(r.level, rendered);
        Some(w)
    }

    /// Nothing is buffered, so there is nothing to flush.
    pub fn flush(&self) {
    }
}

/// Configures a sink step by step.
///
/// `build` hands out the configured sink. Installing it as the process-wide
/// sink succeeds once per process; later installations are ignored.
pub struct Builder<F> {
    pub logger: Logger<F>,
}

impl<F> Builder<F> {
    /// This builder with its format function replaced by `fmt`.
    pub open spec fn with_format<G>(self, fmt: G) -> Builder<G> {
        Builder { logger: Logger { filter: self.logger.filter, format: Formatter::Custom(fmt) } }
    }

    fn new() -> (b: Builder<F>)
        ensures
            b.logger.filter == LevelFilter::Trace,
            b.logger.format is Simple,
    {
        Builder { logger: Logger::new() }
    }

    /// Replaces the format function with `fmt`; the filter is kept.
    pub fn format<G: Fn(&Record) -> Result<String, String>>(self, fmt: G) -> (b: Builder<G>)
        ensures
            b == self.with_format(fmt),
    {
        Builder { logger: Logger { filter: self.logger.filter, format: Formatter::Custom(fmt) } }
    }

    /// Sets the severity filter; the format function is kept.
    pub fn filter(self, filter: LevelFilter) -> (b: Builder<F>)
        ensures
            b.logger.filter == filter,
            b.logger.format == self.logger.format,
    {
        Builder { logger: Logger { filter, format: self.logger.format } }
    }

    /// Switches to the detail format, which also shows file and line.
    pub fn detail(self) -> (b: Builder<F>)
        ensures
            b.logger.filter == self.logger.filter,
            b.logger.format is Detail,
    {
        Builder { logger: Logger { filter: self.logger.filter, format: Formatter::Detail } }
    }

    /// The configured sink.
    pub fn build(self) -> (l: Logger<F>)
        ensures
            l == self.logger,
    {
        self.logger
    }
}

/// The simple format, as a format function.
fn simple_format(r: &Record) -> (out: Result<String, String>)
    ensures
        out matches Ok(s) && s@ == simple_text(*r),
{
    Ok(simple(r))
}

/// Setting a format function after another leaves no trace of the first: the
/// builder is the one that setting only the second gives, and every record is
/// rendered by the second.
pub proof fn lemma_format_replaces<F, G, H: Fn(&Record) -> Result<String, String>>(
    b: Builder<F>,
    f1: G,
    f2: H,
)
    ensures
        b.with_format(f1).with_format(f2) == b.with_format(f2),
        forall|r: Record, out: Result<String, String>|
            #![trigger b.with_format(f1).with_format(f2).logger.renders(r, out)]
            b.with_format(f1).with_format(f2).logger.renders(r, out) <==> f2.ensures((&r,), out),
{
}

/// A record less severe than the filter's threshold (or any record, when the
/// filter is off) gives no write. One that passes gives exactly one write, and
/// when its rendering cannot fail, that write is on the channel of its own
/// level and holds the rendering.
pub proof fn lemma_routing<F: Fn(&Record) -> Result<String, String>>(
    l: Logger<F>,
    r: Record,
    out: Option<ConsoleWrite>,
)
    requires
        l.logged(r, out),
    ensures
        r.level.rank() > l.filter.rank() ==> out is None,
        l.filter == LevelFilter::Off ==> out is None,
        l.filter.passes(r.level) ==> out is Some,
        l.filter.passes(r.level) && (forall|res: Result<String, String>|
            #[trigger] l.renders(r, res) ==> res is Ok) ==> (out matches Some(w) && w.channel
            == channel_of(r.level) && exists|s: String| l.renders(r, Ok(s)) && w.text@ == s@),
{
}

/// When the format function fails on a record that passes the filter, the
/// one write is on the error channel and holds the failure's description.
pub proof fn lemma_failed_format<F: Fn(&Record) -> Result<String, String>>(
    l: Logger<F>,
    r: Record,
    out: Option<ConsoleWrite>,
)
    requires
        l.logged(r, out),
        l.filter.passes(r.level),
        forall|res: Result<String, String>| #[trigger] l.renders(r, res) ==> res is Err,
    ensures
        out matches Some(w) && w.channel == Channel::Error && exists|e: String|
            l.renders(r, Err(e)) && w.text@ == e@,
{
}

/// A builder with the default settings, typed to accept format functions of
/// the same type as `_f` (a builder's format type must be named even while the
/// built-in format is active).
fn builder_of<F>(_f: F) -> (b: Builder<F>)
    ensures
        b.logger.filter == LevelFilter::Trace,
        b.logger.format is Simple,
{
    Builder::new()
}

/// A builder with the default settings: everything passes, rendered by the
/// simple format.
pub fn builder() -> (b: Builder<impl Fn(&Record) -> Result<String, String>>)
    ensures
        b.logger.filter == LevelFilter::Trace,
        b.logger.format is Simple,
{
    builder_of(simple_format)
}

/// The sink with the default settings.
pub fn init() -> (l: Logger<impl Fn(&Record) -> Result<String, String>>)
    ensures
        l.filter == LevelFilter::Trace,
        l.format is Simple,
{
    builder().build()
}

/// The sink with the default settings but for a filter at `level`.
pub fn init_with_level(level: Level) -> (l: Logger<impl Fn(&Record) -> Result<String, String>>)
    ensures
        l.filter.to_level_spec() == Some(level),
        l.format is Simple,
{
    builder().filter(level.to_level_filter()).build()
}

} // verus!
