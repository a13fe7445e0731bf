//! Log levels, log records and the thread-local logger state.

use vstd::prelude::*;

verus! {

/// Loglevel for log records, from most to least severe.
#[derive(Clone, Copy, Debug, PartialEq, Eq, Structural, PartialOrd, Ord, Hash)]
pub enum Loglevel {
    /// A fatal error: the owner of the logger got into an illegal state from
    /// which it cannot recover.
    Fatal,
    /// A non-fatal error caused by the API caller doing something wrong.
    Error,
    /// Something unexpected that can still be recovered from.
    Warn,
    /// Information specifically requested by the user.
    Note,
    /// Information not specifically requested by the user.
    Info,
    /// Debugging information for users of the logged instance.
    Debug,
    /// Debugging information for the internals of the logged instance.
    Trace,
}

/// LoglevelFilter for implementors of the Log trait.
#[derive(Clone, Copy, Debug, PartialEq, Eq, Structural, PartialOrd, Ord, Hash)]
pub enum LoglevelFilter {
    /// A level lower than all log levels.
    Off,
    /// Corresponds to the `Fatal` log level.
    Fatal,
    /// Corresponds to the `Error` log level.
    Error,
    /// Corresponds to the `Warn` log level.
    Warn,
    /// Corresponds to the `Note` log level.
    Note,
    /// Corresponds to the `Info` log level.
    Info,
    /// Corresponds to the `Debug` log level.
    Debug,
    /// Corresponds to the `Trace` log level.
    Trace,
}

impl Loglevel {
    /// The numeric value of the level: `Fatal` is 1, `Trace` is 7. Levels are
    /// ordered by it, and the declaration order agrees with it.
    pub open spec fn rank(self) -> int {
        match self {
            Loglevel::Fatal => 1,
            Loglevel::Error => 2,
            Loglevel::Warn => 3,
            Loglevel::Note => 4,
            Loglevel::Info => 5,
            Loglevel::Debug => 6,
            Loglevel::Trace => 7,
        }
    }

    /// Returns the numeric value of the level.
    pub fn value(self) -> (r: u8)
        ensures
            r == self.rank(),
    {
        match self {
            Loglevel::Fatal => 1,
            Loglevel::Error => 2,
            Loglevel::Warn => 3,
            Loglevel::Note => 4,
            Loglevel::Info => 5,
            Loglevel::Debug => 6,
            Loglevel::Trace => 7,
        }
    }

    /// The level that a filter names: every filter but `Off` names the
    /// level of the same name.
    pub open spec fn spec_try_from(levelfilter: LoglevelFilter) -> Option<Loglevel> {
        match levelfilter {
            LoglevelFilter::Off => None,
            LoglevelFilter::Fatal => Some(Loglevel::Fatal),
            LoglevelFilter::Error => Some(Loglevel::Error),
            LoglevelFilter::Warn => Some(Loglevel::Warn),
            LoglevelFilter::Note => Some(Loglevel::Note),
            LoglevelFilter::Info => Some(Loglevel::Info),
            LoglevelFilter::Debug => Some(Loglevel::Debug),
            LoglevelFilter::Trace => Some(Loglevel::Trace),
        }
    }

    /// Attempt to convert a LoglevelFilter to a Loglevel: every filter but
    /// `Off` names the level of the same name; `Off` gives `Err(())`.
    pub fn try_from(levelfilter: LoglevelFilter) -> (r: Result<Loglevel, ()>)
        ensures
            r == match Self::spec_try_from(levelfilter) {
                Some(level) => Ok::<Loglevel, ()>(level),
                None => Err(()),
            },
    {
        match levelfilter {
            LoglevelFilter::Fatal => Ok(Loglevel::Fatal),
            LoglevelFilter::Error => Ok(Loglevel::Error),
            LoglevelFilter::Warn => Ok(Loglevel::Warn),
            LoglevelFilter::Note => Ok(Loglevel::Note),
            LoglevelFilter::Info => Ok(Loglevel::Info),
            LoglevelFilter::Debug => Ok(Loglevel::Debug),
            LoglevelFilter::Trace => Ok(Loglevel::Trace),
            LoglevelFilter::Off => Err(()),
        }
    }
}

impl LoglevelFilter {
    /// The numeric value of the filter: `Off` is 0, `Trace` is 7.
    pub open spec fn rank(self) -> int {
        match self {
            LoglevelFilter::Off => 0,
            LoglevelFilter::Fatal => 1,
            LoglevelFilter::Error => 2,
            LoglevelFilter::Warn => 3,
            LoglevelFilter::Note => 4,
            LoglevelFilter::Info => 5,
            LoglevelFilter::Debug => 6,
            LoglevelFilter::Trace => 7,
        }
    }

    /// Returns the numeric value of the filter.
    pub fn value(self) -> (r: u8)
        ensures
            r == self.rank(),
    {
        match self {
            LoglevelFilter::Off => 0,
            LoglevelFilter::Fatal => 1,
            LoglevelFilter::Error => 2,
            LoglevelFilter::Warn => 3,
            LoglevelFilter::Note => 4,
            LoglevelFilter::Info => 5,
            LoglevelFilter::Debug => 6,
            LoglevelFilter::Trace => 7,
        }
    }

    /// The filter that corresponds to a level.
    pub open spec fn spec_from(level: Loglevel) -> LoglevelFilter {
        match level {
            Loglevel::Fatal => LoglevelFilter::Fatal,
            Loglevel::Error => LoglevelFilter::Error,
            Loglevel::Warn => LoglevelFilter::Warn,
            Loglevel::Note => LoglevelFilter::Note,
            Loglevel::Info => LoglevelFilter::Info,
            Loglevel::Debug => LoglevelFilter::Debug,
            Loglevel::Trace => LoglevelFilter::Trace,
        }
    }
}

impl From<Loglevel> for LoglevelFilter {
    fn from(level: Loglevel) -> (r: LoglevelFilter) {
        match level {
            Loglevel::Fatal => LoglevelFilter::Fatal,
            Loglevel::Error => LoglevelFilter::Error,
            Loglevel::Warn => LoglevelFilter::Warn,
            Loglevel::Note => LoglevelFilter::Note,
            Loglevel::Info => LoglevelFilter::Info,
            Loglevel::Debug => LoglevelFilter::Debug,
            Loglevel::Trace => LoglevelFilter::Trace,
        }
    }
}

impl vstd::std_specs::convert::FromSpecImpl<Loglevel> for LoglevelFilter {
    open spec fn obeys_from_spec() -> bool {
        true
    }

    open spec fn from_spec(level: Loglevel) -> LoglevelFilter {
        LoglevelFilter::spec_from(level)
    }
}

} // verus!


verus! {

/// The clock of the machine: a point in time.
#[verifier::external_type_specification]
#[verifier::external_body]
pub struct ExSystemTime(std::time::SystemTime);

/// `Clone` of `std::time::SystemTime`: the type is `Copy`, so a clone is
/// the same point in time.
pub assume_specification[ <std::time::SystemTime as Clone>::clone ](t: &std::time::SystemTime) -> (r: std::time::SystemTime)
    ensures
        r == *t,
;

/// Reads the system clock (`std::time::SystemTime::now`). What it returns
/// depends on the time of the call, so nothing is promised of it.
#[verifier::external_body]
fn system_time_now() -> std::time::SystemTime {
    std::time::SystemTime::now()
}

/// Log record metadata.
#[derive(Clone, Debug)]
pub struct Metadata {
    level: Loglevel,
    module: Option<String>,
    file: Option<String>,
    line: Option<u32>,
    timestamp: std::time::SystemTime,
    process: u32,
    thread: u64,
}

/// A log record: a payload, its metadata and the name of the logger that
/// produced it.
#[derive(Clone, Debug)]
pub struct Record {
    payload: String,
    metadata: Metadata,
    logger: String,
}

/// A sink for log records, implemented by the users of the library.
/// Implementors name themselves, and receive the records that the
/// thread-local logger lets through.
pub trait Log {
    /// Whether this logger has been handed the record.
    spec fn received(&self, record: Record) -> bool;

    /// Whether this logger goes by the name.
    spec fn named(&self, name: &str) -> bool;

    /// Returns the name of this logger.
    fn name(&self) -> (r: &str)
        ensures
            self.named(r),
    ;

    /// Log the incoming record.
    fn log(&self, record: Record)
        ensures
            self.received(record),
    ;
}

impl Record {
    /// The payload of the record.
    pub closed spec fn spec_payload(&self) -> Seq<char> {
        self.payload@
    }

    /// The level of the record.
    pub closed spec fn spec_level(&self) -> Loglevel {
        self.metadata.level
    }

    /// The module path the record was logged from, if known.
    pub closed spec fn spec_module(&self) -> Option<Seq<char>> {
        match self.metadata.module {
            Some(s) => Some(s@),
            None => None,
        }
    }

    /// The source file the record was logged from, if known.
    pub closed spec fn spec_file(&self) -> Option<Seq<char>> {
        match self.metadata.file {
            Some(s) => Some(s@),
            None => None,
        }
    }

    /// The source line the record was logged from, if known.
    pub closed spec fn spec_line(&self) -> Option<u32> {
        self.metadata.line
    }

    /// The time at which the record was made.
    pub closed spec fn spec_timestamp(&self) -> std::time::SystemTime {
        self.metadata.timestamp
    }

    /// The id of the process that logged the record.
    pub closed spec fn spec_process(&self) -> u32 {
        self.metadata.process
    }

    /// The id of the thread that logged the record.
    pub closed spec fn spec_thread(&self) -> u64 {
        self.metadata.thread
    }

    /// The name of the logger that produced the record.
    pub closed spec fn spec_logger(&self) -> Seq<char> {
        self.logger@
    }

    /// Returns the payload.
    pub fn payload(&self) -> (r: &str)
        ensures
            r@ == self.spec_payload(),
    {
        self.payload.as_str()
    }

    /// Returns the level.
    pub fn level(&self) -> (r: Loglevel)
        ensures
            r == self.spec_level(),
    {
        self.metadata.level
    }

    /// Returns the module path, if known.
    pub fn module(&self) -> (r: Option<&str>)
        ensures
            r matches Some(s) ==> self.spec_module() == Some(s@),
            r is None ==> self.spec_module() is None,
    {
        match &self.metadata.module {
            Some(s) => Some(s.as_str()),
            None => None,
        }
    }

    /// Returns the source file, if known.
    pub fn file(&self) -> (r: Option<&str>)
        ensures
            r matches Some(s) ==> self.spec_file() == Some(s@),
            r is None ==> self.spec_file() is None,
    {
        match &self.metadata.file {
            Some(s) => Some(s.as_str()),
            None => None,
        }
    }

    /// Returns the source line, if known.
    pub fn line(&self) -> (r: Option<u32>)
        ensures
            r == self.spec_line(),
    {
        self.metadata.line
    }

    /// Returns the time at which the record was made.
    pub fn timestamp(&self) -> (r: std::time::SystemTime)
        ensures
            r == self.spec_timestamp(),
    {
        self.metadata.timestamp
    }

    /// Returns the process id.
    pub fn process(&self) -> (r: u32)
        ensures
            r == self.spec_process(),
    {
        self.metadata.process
    }

    /// Returns the thread id.
    pub fn thread(&self) -> (r: u64)
        ensures
            r == self.spec_thread(),
    {
        self.metadata.thread
    }

    /// Returns the name of the logger that produced the record.
    pub fn logger(&self) -> (r: &str)
        ensures
            r@ == self.spec_logger(),
    {
        self.logger.as_str()
    }

    /// A record with the given payload, metadata and logger name.
    pub fn new(
        payload: String,
        level: Loglevel,
        module: Option<String>,
        file: Option<String>,
        line: Option<u32>,
        timestamp: std::time::SystemTime,
        process: u32,
        thread: u64,
        logger: String,
    ) -> (r: Record)
        ensures
            r.spec_payload() == payload@,
            r.spec_level() == level,
            r.spec_module() == (match module {
                Some(s) => Some(s@),
                None => None::<Seq<char>>,
            }),
            r.spec_file() == (match file {
                Some(s) => Some(s@),
                None => None::<Seq<char>>,
            }),
            r.spec_line() == line,
            r.spec_timestamp() == timestamp,
            r.spec_process() == process,
            r.spec_thread() == thread,
            r.spec_logger() == logger@,
    {
        Record {
            payload,
            metadata: Metadata { level, module, file, line, timestamp, process, thread },
            logger,
        }
    }

    /// The text of the record as it is displayed: its payload.
    pub fn to_string(&self) -> (r: String)
        ensures
            r@ == self.spec_payload(),
    {
        self.payload.clone()
    }
}

} // verus!

verus! {

/// The thread-local logger state: the logger that records go to, if any,
/// and the most verbose level that is let through. A fresh state has no
/// logger and lets nothing through.
pub struct ThreadLogger<L: Log> {
    /// The logger that receives records.
    pub logger: Option<L>,
    /// The maximum log level; records of a less severe level are dropped.
    pub level: LoglevelFilter,
}

impl<L: Log> ThreadLogger<L> {
    /// A state without a logger whose level is `Off`.
    pub fn new() -> (r: Self)
        ensures
            r.logger is None,
            r.level == LoglevelFilter::Off,
    {
        ThreadLogger { logger: None, level: LoglevelFilter::Off }
    }

    /// Whether a record of the given level passes the level filter: its
    /// filter is no more verbose than the thread's level.
    pub open spec fn spec_enabled(&self, level: Loglevel) -> bool {
        LoglevelFilter::spec_from(level).rank() <= self.level.rank()
    }

    /// Whether a record of the given level passes the level filter.
    pub fn enabled(&self, level: Loglevel) -> (r: bool)
        ensures
            r == self.spec_enabled(level),
    {
        LoglevelFilter::from(level).value() <= self.level.value()
    }
}

/// Update the thread-local logger: the logger is replaced by `log`, and the
/// level by `level`, `Off` where none is given.
fn update<L: Log>(state: &mut ThreadLogger<L>, log: Option<L>, level: Option<LoglevelFilter>) -> (r:
    crate::error::Result<()>)
    ensures
        r is Ok,
        final(state).logger == log,
        final(state).level == match level {
            Some(l) => l,
            None => LoglevelFilter::Off,
        },
{
    state.logger = log;
    state.level = match level {
        Some(l) => l,
        None => LoglevelFilter::Off,
    };
    Ok(())
}

/// Initialize the thread-local logger with a logger and a maximum level.
pub fn init<L: Log>(state: &mut ThreadLogger<L>, log: L, level: LoglevelFilter) -> (r:
    crate::error::Result<()>)
    ensures
        r is Ok,
        final(state).logger == Some(log),
        final(state).level == level,
{
    update(state, Some(log), Some(level))
}

/// Deinitialize the thread-local logger: no logger, level `Off`.
pub fn deinit<L: Log>(state: &mut ThreadLogger<L>) -> (r: crate::error::Result<()>)
    ensures
        r is Ok,
        final(state).logger is None,
        final(state).level == LoglevelFilter::Off,
{
    update(state, None, None)
}

impl Record {
    /// The record that the thread's logger makes of a message, if there is a
    /// logger: the payload, level, module path, source file, line, process
    /// and thread as given, stamped with the time of the call, and carrying
    /// the name that the logger's `name` returns.
    pub fn for_logger<L: Log>(
        state: &ThreadLogger<L>,
        payload: String,
        level: Loglevel,
        module: String,
        file: String,
        line: u32,
        process: u32,
        thread: u64,
    ) -> (r: Option<Record>)
        ensures
            r is Some <==> state.logger is Some,
            r matches Some(rec) ==> is_record_of(
                rec,
                payload@,
                level,
                module@,
                file@,
                line,
                process,
                thread,
            ) && carries_name_of(rec, state.logger->Some_0),
    {
        match &state.logger {
            Some(logger) => {
                let name = logger.name();
                assert(logger.named(name));
                Some(
                    Record::new(
                        payload,
                        level,
                        Some(module),
                        Some(file),
                        Some(line),
                        system_time_now(),
                        process,
                        thread,
                        name.to_owned(),
                    ),
                )
            },
            None => None,
        }
    }

    /// Hands a record of the message to the thread's logger, if there is
    /// one (see `for_logger`); returns whether there was.
    pub fn log<L: Log>(
        state: &ThreadLogger<L>,
        payload: String,
        level: Loglevel,
        module: String,
        file: String,
        line: u32,
        process: u32,
        thread: u64,
    ) -> (sent: bool)
        ensures
            sent == state.logger is Some,
            sent ==> exists|rec: Record|
                #[trigger] state.logger->Some_0.received(rec) && is_record_of(
                    rec,
                    payload@,
                    level,
                    module@,
                    file@,
                    line,
                    process,
                    thread,
                ) && carries_name_of(rec, state.logger->Some_0),
    {
        match &state.logger {
            Some(logger) => {
                match Self::for_logger(state, payload, level, module, file, line, process, thread) {
                    Some(record) => {
                        let ghost rec = record;
                        logger.log(record);
                        assert(state.logger->Some_0.received(rec));
                        true
                    },
                    None => false,
                }
            },
            None => false,
        }
    }
}

/// `rec` carries a name that `logger` goes by.
pub open spec fn carries_name_of<L: Log>(rec: Record, logger: L) -> bool {
    exists|n: &str| #[trigger] logger.named(n) && n@ == rec.spec_logger()
}

/// `rec` is a record of the given message: its payload, level, module path,
/// source file, line, process and thread are the given ones.
pub open spec fn is_record_of(
    rec: Record,
    payload: Seq<char>,
    level: Loglevel,
    module: Seq<char>,
    file: Seq<char>,
    line: u32,
    process: u32,
    thread: u64,
) -> bool {
    &&& rec.spec_payload() == payload
    &&& rec.spec_level() == level
    &&& rec.spec_module() == Some(module)
    &&& rec.spec_file() == Some(file)
    &&& rec.spec_line() == Some(line)
    &&& rec.spec_process() == process
    &&& rec.spec_thread() == thread
}

/// Logs a message at the given level: when the level passes the thread's
/// filter, a record of the message goes to the thread's logger (see
/// `Record::log`). Returns whether a record was handed to a logger.
pub fn log_at<L: Log>(
    state: &ThreadLogger<L>,
    level: Loglevel,
    payload: String,
    module: String,
    file: String,
    line: u32,
    process: u32,
    thread: u64,
) -> (sent: bool)
    ensures
        sent == (state.spec_enabled(level) && state.logger is Some),
        sent ==> exists|rec: Record|
            #[trigger] state.logger->Some_0.received(rec) && is_record_of(
                rec,
                payload@,
                level,
                module@,
                file@,
                line,
                process,
                thread,
            ) && carries_name_of(rec, state.logger->Some_0),
{
    if state.enabled(level) {
        Record::log(state, payload, level, module, file, line, process, thread)
    } else {
        false
    }
}

} // verus!

verus! {

/// Levels are ordered by their value, from `Fatal` (1) to `Trace` (7), and
/// distinct levels have distinct values; the filter of a level has the
/// level's value, and `Off` (0) is below the filter of every level.
pub proof fn law_level_order(a: Loglevel, b: Loglevel)
    ensures
        1 <= a.rank() <= 7,
        a.rank() == b.rank() <==> a == b,
        LoglevelFilter::spec_from(a).rank() == a.rank(),
        LoglevelFilter::Off.rank() < LoglevelFilter::spec_from(a).rank(),
        a.rank() < b.rank() <==> LoglevelFilter::spec_from(a).rank() < LoglevelFilter::spec_from(
            b,
        ).rank(),
{
}

/// Converting a level to its filter and back gives the level; a filter
/// that names a level is that level's filter; only `Off` names no level.
pub proof fn law_level_filter_roundtrip(level: Loglevel, filter: LoglevelFilter)
    ensures
        Loglevel::spec_try_from(LoglevelFilter::spec_from(level)) == Some(level),
        Loglevel::spec_try_from(filter) matches Some(l) ==> LoglevelFilter::spec_from(l) == filter,
        Loglevel::spec_try_from(filter) is None <==> filter == LoglevelFilter::Off,
{
}

/// A thread whose level is `Off` lets no record through; one whose level is
/// `Trace` lets every record through.
pub proof fn law_off_and_trace<L: Log>(state: ThreadLogger<L>, level: Loglevel)
    ensures
        state.level == LoglevelFilter::Off ==> !state.spec_enabled(level),
        state.level == LoglevelFilter::Trace ==> state.spec_enabled(level),
{
}

/// When a level passes the filter, every more severe level passes too.
pub proof fn law_enabled_monotone<L: Log>(state: ThreadLogger<L>, severe: Loglevel, verbose: Loglevel)
    requires
        severe.rank() <= verbose.rank(),
        state.spec_enabled(verbose),
    ensures
        state.spec_enabled(severe),
{
}

/// A level passes the filter exactly when its value is at most the
/// filter's: with filter `f`, level `l` passes iff `l <= f`.
pub proof fn law_enabled_iff_within<L: Log>(state: ThreadLogger<L>, level: Loglevel)
    ensures
        state.spec_enabled(level) <==> level.rank() <= state.level.rank(),
{
}

} // verus!
