//! The logging backend: one process-wide severity filter, a registration slot
//! that accepts one backend, the level gate, and the leveled helpers that
//! derive their target from the scope they are called in.
use crate::level::{level_passes, parse_level_filter, passes, Level, LevelFilter};
use crate::render::{opt_text, record_block, render, LogRecord, RecordView};
use vstd::prelude::*;

verus! {

/// Length of `::Dummy`: the name of the marker type that a call site declares,
/// with the path separator before it.
pub const MARKER_SUFFIX_LEN: usize = 7;

/// The error of a registration made when a backend is already registered.
#[derive(Clone, Copy, Debug, PartialEq, Eq, Structural)]
pub struct AlreadyRegisteredError;

/// The text of an optional string slice.
pub open spec fn opt_str_text(o: Option<&str>) -> Option<Seq<char>> {
    match o {
        Some(s) => Some(s@),
        None => None,
    }
}

/// The threshold set by an initialization: the value of the environment
/// variable where it names a threshold, the most verbose threshold where it is
/// set to anything else, and the caller's default where it is not set.
pub open spec fn effective_filter(env: Option<Seq<char>>, default: LevelFilter) -> LevelFilter {
    match env {
        None => default,
        Some(e) => match parse_level_filter(e) {
            Some(f) => f,
            None => LevelFilter::Trace,
        },
    }
}

/// Chooses the threshold from the environment variable's value (if it is set)
/// and the caller's default.
pub fn select_max_level(env_level: Option<&str>, default_max_level: LevelFilter) -> (r:
    LevelFilter)
    ensures
        r == effective_filter(opt_str_text(env_level), default_max_level),
{
    match env_level {
        Some(e) => match LevelFilter::parse(e) {
            Some(f) => f,
            None => LevelFilter::max(),
        },
        None => default_max_level,
    }
}

/// The scope path that a marker type's full name leaves once the marker's own
/// name is taken off its end.
pub open spec fn marker_scope(marker_name: Seq<char>) -> Seq<char> {
    marker_name.subrange(0, marker_name.len() - MARKER_SUFFIX_LEN)
}

/// The target of an event emitted from the scope where a marker type named
/// `marker_name` was declared: the scope's qualified path.
pub fn scope_target(marker_name: &str) -> (r: String)
    requires
        marker_name@.len() >= MARKER_SUFFIX_LEN,
    ensures
        r@ == marker_scope(marker_name@),
{
    let n = marker_name.unicode_len();
    String::from_str(marker_name.substring_char(0, n - MARKER_SUFFIX_LEN))
}

/// Where a leveled helper was called: the full name of a marker type declared
/// there, and the source location, each part optional.
pub struct CallSite {
    pub marker_type_name: String,
    pub module: Option<String>,
    pub file: Option<String>,
    pub line: Option<u32>,
}

/// The event that a helper emits at `site` with severity `level`.
pub open spec fn site_record(level: Level, site: &CallSite, message: Seq<char>) -> RecordView {
    RecordView {
        level: level,
        target: marker_scope(site.marker_type_name@),
        message: message,
        module: opt_text(site.module),
        file: opt_text(site.file),
        line: site.line,
    }
}

/// Relies on log's `set_max_level`: sets the facade's global threshold, which
/// its leveled macros test before they reach the backend.
#[verifier::external_body]
fn set_facade_max_level(f: LevelFilter) {
    log::set_max_level(
        match f {
            LevelFilter::Off => log::LevelFilter::Off,
            LevelFilter::Error => log::LevelFilter::Error,
            LevelFilter::Warn => log::LevelFilter::Warn,
            LevelFilter::Info => log::LevelFilter::Info,
            LevelFilter::Debug => log::LevelFilter::Debug,
            LevelFilter::Trace => log::LevelFilter::Trace,
        },
    )
}

/// The backend: the process-wide threshold and whether the backend has been
/// registered.
pub struct GalactaLogger {
    filter: LevelFilter,
    registered: bool,
}

/// What one initialization does: it sets the threshold from the environment
/// variable and the default, registers the backend, and fails exactly when a
/// backend was registered before.
pub open spec fn init_outcome(
    before: GalactaLogger,
    env: Option<Seq<char>>,
    default: LevelFilter,
    after: GalactaLogger,
    r: Result<(), AlreadyRegisteredError>,
) -> bool {
    &&& after.spec_max_level() == effective_filter(env, default)
    &&& after.spec_registered()
    &&& (r is Err <==> before.spec_registered())
}

/// What a leveled helper does: it initializes with the most verbose default,
/// then renders the event with the target taken from the call site, unless the
/// threshold holds it back.
pub open spec fn emit_outcome(
    before: GalactaLogger,
    env: Option<Seq<char>>,
    level: Level,
    site: &CallSite,
    message: Seq<char>,
    after: GalactaLogger,
    r: Option<String>,
) -> bool {
    &&& after.spec_max_level() == effective_filter(env, LevelFilter::Trace)
    &&& after.spec_registered()
    &&& (r is Some <==> level_passes(level, after.spec_max_level()))
    &&& (r matches Some(text) ==> exists|ts: Seq<char>|
        text@ == record_block(ts, site_record(level, site, message)))
}

impl GalactaLogger {
    /// The current threshold.
    pub closed spec fn spec_max_level(self) -> LevelFilter {
        self.filter
    }

    /// Whether the backend has been registered.
    pub closed spec fn spec_registered(self) -> bool {
        self.registered
    }

    /// A backend not yet registered, with the most verbose threshold (the
    /// facade's compiled-in maximum).
    pub fn new() -> (r: GalactaLogger)
        ensures
            r.spec_max_level() == LevelFilter::Trace,
            !r.spec_registered(),
    {
        GalactaLogger { filter: LevelFilter::max(), registered: false }
    }

    /// The threshold in force.
    pub fn max_level(&self) -> (r: LevelFilter)
        ensures
            r == self.spec_max_level(),
    {
        self.filter
    }

    /// Whether a registration has already been accepted.
    pub fn is_registered(&self) -> (r: bool)
        ensures
            r == self.spec_registered(),
    {
        self.registered
    }

    /// Sets the threshold from `env_level`, the value of `GALACTA_LOG_LEVEL`
    /// where it is set, and `default_max_level`, then registers the backend.
    /// The threshold is set even when the registration is refused.
    pub fn init(&mut self, env_level: Option<&str>, default_max_level: LevelFilter) -> (r: Result<
        (),
        AlreadyRegisteredError,
    >)
        ensures
            init_outcome(*old(self), opt_str_text(env_level), default_max_level, *final(self), r),
    {
        let f = select_max_level(env_level, default_max_level);
        self.filter = f;
        set_facade_max_level(f);
        if self.registered {
            Err(AlreadyRegisteredError)
        } else {
            self.registered = true;
            Ok(())
        }
    }

    /// Whether an event of severity `level` passes the current threshold.
    pub fn is_enabled(&self, level: Level) -> (r: bool)
        ensures
            r == level_passes(level, self.spec_max_level()),
    {
        passes(level, self.filter)
    }

    /// The block to write for `rec`, stamped with the local time now, or
    /// `None` where the threshold holds the event back.
    pub fn log(&self, rec: &LogRecord) -> (r: Option<String>)
        ensures
            r is Some <==> level_passes(rec.level, self.spec_max_level()),
            r matches Some(text) ==> exists|ts: Seq<char>| text@ == record_block(ts, rec@),
    {
        if self.is_enabled(rec.level) {
            Some(render(rec))
        } else {
            None
        }
    }

    /// Emits `message` with severity `level` from `site`: initializes again
    /// with the most verbose default (a refused registration is ignored),
    /// takes the target from the site's marker, and renders the event if it
    /// passes the threshold.
    pub fn emit(&mut self, env_level: Option<&str>, level: Level, site: &CallSite, message: &str) -> (r:
        Option<String>)
        requires
            site.marker_type_name@.len() >= MARKER_SUFFIX_LEN,
        ensures
            emit_outcome(*old(self), opt_str_text(env_level), level, site, message@, *final(self), r),
    {
        let _ = self.init(env_level, LevelFilter::max());
        let rec = LogRecord {
            level: level,
            target: scope_target(site.marker_type_name.as_str()),
            message: String::from_str(message),
            module: site.module.clone(),
            file: site.file.clone(),
            line: site.line,
        };
        self.log(&rec)
    }

    /// Emits `message` as error from `site`, as `emit` does.
    pub fn gerror(&mut self, env_level: Option<&str>, site: &CallSite, message: &str) -> (r: Option<
        String,
    >)
        requires
            site.marker_type_name@.len() >= MARKER_SUFFIX_LEN,
        ensures
            emit_outcome(
                *old(self),
                opt_str_text(env_level),
                Level::Error,
                site,
                message@,
                *final(self),
                r,
            ),
    {
        self.emit(env_level, Level::Error, site, message)
    }

    /// Emits `message` as warning from `site`, as `emit` does.
    pub fn gwarn(&mut self, env_level: Option<&str>, site: &CallSite, message: &str) -> (r: Option<
        String,
    >)
        requires
            site.marker_type_name@.len() >= MARKER_SUFFIX_LEN,
        ensures
            emit_outcome(
                *old(self),
                opt_str_text(env_level),
                Level::Warn,
                site,
                message@,
                *final(self),
                r,
            ),
    {
        self.emit(env_level, Level::Warn, site, message)
    }

    /// Emits `message` as information from `site`, as `emit` does.
    pub fn ginfo(&mut self, env_level: Option<&str>, site: &CallSite, message: &str) -> (r: Option<
        String,
    >)
        requires
            site.marker_type_name@.len() >= MARKER_SUFFIX_LEN,
        ensures
            emit_outcome(
                *old(self),
                opt_str_text(env_level),
                Level::Info,
                site,
                message@,
                *final(self),
                r,
            ),
    {
        self.emit(env_level, Level::Info, site, message)
    }

    /// Emits `message` as debugging from `site`, as `emit` does.
    pub fn gdebug(&mut self, env_level: Option<&str>, site: &CallSite, message: &str) -> (r: Option<
        String,
    >)
        requires
            site.marker_type_name@.len() >= MARKER_SUFFIX_LEN,
        ensures
            emit_outcome(
                *old(self),
                opt_str_text(env_level),
                Level::Debug,
                site,
                message@,
                *final(self),
                r,
            ),
    {
        self.emit(env_level, Level::Debug, site, message)
    }

    /// Emits `message` as tracing from `site`, as `emit` does.
    pub fn gtrace(&mut self, env_level: Option<&str>, site: &CallSite, message: &str) -> (r: Option<
        String,
    >)
        requires
            site.marker_type_name@.len() >= MARKER_SUFFIX_LEN,
        ensures
            emit_outcome(
                *old(self),
                opt_str_text(env_level),
                Level::Trace,
                site,
                message@,
                *final(self),
                r,
            ),
    {
        self.emit(env_level, Level::Trace, site, message)
    }
}

/// After an initialization with default `d` and the environment variable
/// unset, an event of severity `l` passes exactly when `l` is at most as
/// verbose as `d`.
pub proof fn lemma_default_governs_without_env(
    before: GalactaLogger,
    d: LevelFilter,
    after: GalactaLogger,
    r: Result<(), AlreadyRegisteredError>,
    l: Level,
)
    requires
        init_outcome(before, None, d, after, r),
    ensures
        level_passes(l, after.spec_max_level()) <==> l.spec_rank() <= d.spec_rank(),
{
}

/// After an initialization with the environment variable set to a threshold's
/// name, that threshold is in force, whatever the default was.
pub proof fn lemma_env_level_overrides_default(
    before: GalactaLogger,
    e: Seq<char>,
    d: LevelFilter,
    after: GalactaLogger,
    r: Result<(), AlreadyRegisteredError>,
)
    requires
        init_outcome(before, Some(e), d, after, r),
        parse_level_filter(e) is Some,
    ensures
        after.spec_max_level() == parse_level_filter(e)->0,
{
}

/// After an initialization with the environment variable set to text that
/// names no threshold, the most verbose threshold is in force, whatever the
/// default was.
pub proof fn lemma_invalid_env_level_is_most_verbose(
    before: GalactaLogger,
    e: Seq<char>,
    d: LevelFilter,
    after: GalactaLogger,
    r: Result<(), AlreadyRegisteredError>,
)
    requires
        init_outcome(before, Some(e), d, after, r),
        parse_level_filter(e) is None,
    ensures
        after.spec_max_level() == LevelFilter::Trace,
{
}

/// A second initialization is refused, and still sets the threshold from its
/// own environment value and default.
pub proof fn lemma_second_init_refused_but_sets_filter(
    s0: GalactaLogger,
    env1: Option<Seq<char>>,
    d1: LevelFilter,
    s1: GalactaLogger,
    r1: Result<(), AlreadyRegisteredError>,
    env2: Option<Seq<char>>,
    d2: LevelFilter,
    s2: GalactaLogger,
    r2: Result<(), AlreadyRegisteredError>,
)
    requires
        init_outcome(s0, env1, d1, s1, r1),
        init_outcome(s1, env2, d2, s2, r2),
    ensures
        r2 is Err,
        s2.spec_registered(),
        s2.spec_max_level() == effective_filter(env2, d2),
{
}

/// Markers declared in two different scopes give two different targets, each
/// the path of its own scope.
pub proof fn lemma_scopes_give_distinct_targets(
    p1: Seq<char>,
    p2: Seq<char>,
    m1: Seq<char>,
    m2: Seq<char>,
)
    requires
        m1.len() == MARKER_SUFFIX_LEN,
        m2.len() == MARKER_SUFFIX_LEN,
        p1 != p2,
    ensures
        marker_scope(p1 + m1) == p1,
        marker_scope(p2 + m2) == p2,
        marker_scope(p1 + m1) != marker_scope(p2 + m2),
{
    assert(marker_scope(p1 + m1) =~= p1);
    assert(marker_scope(p2 + m2) =~= p2);
}

} // verus!
