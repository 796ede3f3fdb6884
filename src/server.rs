//! What the source server must be, and where its binlog stands.
//!
//! Connecting asks the server a fixed series of questions; `probe_next` takes
//! the answers so far and says what to ask next, or what the server is.

use vstd::prelude::*;
use crate::decimal::{parse_u64, parse_u64_spec};
use crate::error::{ErrorKind, StreamError};
use crate::text::{concat, contains, has_infix};

verus! {

/// The characters of `s` in upper case.
pub uninterp spec fn upper_of(s: Seq<char>) -> Seq<char>;

/// The characters of `s` in lower case.
pub uninterp spec fn lower_of(s: Seq<char>) -> Seq<char>;

/// Relies on `str::to_uppercase`: the result depends on the characters alone.
#[verifier::external_body]
fn uppercase(s: &str) -> (r: String)
    ensures
        r@ == upper_of(s@),
{
    s.to_uppercase()
}

/// Relies on `str::to_lowercase`: the result depends on the characters alone.
#[verifier::external_body]
fn lowercase(s: &str) -> (r: String)
    ensures
        r@ == lower_of(s@),
{
    s.to_lowercase()
}

/// A question put to the server while connecting.
#[derive(Clone, Copy, Debug, PartialEq, Eq, Structural)]
pub enum ProbeQuery {
    BinlogFormat,
    BinlogRowImage,
    BinlogRowMetadata,
    Version,
    GtidMode,
}

/// The kind of source, and with it how positions are kept.
#[derive(Clone, Copy, Debug, PartialEq, Eq, Structural)]
pub enum ServerKind {
    /// MySQL with `gtid_mode=ON`: positions are GTID sets.
    MySqlGtid,
    /// MariaDB: positions are a file and an offset.
    MariaDb,
}

impl ProbeQuery {
    pub open spec fn sql_spec(&self) -> Seq<char> {
        match self {
            ProbeQuery::BinlogFormat => "SHOW VARIABLES LIKE 'binlog_format'"@,
            ProbeQuery::BinlogRowImage => "SHOW VARIABLES LIKE 'binlog_row_image'"@,
            ProbeQuery::BinlogRowMetadata => "SHOW VARIABLES LIKE 'binlog_row_metadata'"@,
            ProbeQuery::Version => "SELECT VERSION()"@,
            ProbeQuery::GtidMode => "SHOW VARIABLES LIKE 'gtid_mode'"@,
        }
    }

    /// The statement that asks the question. All but `Version` answer with a
    /// row of variable name and value; the answer is the value.
    pub fn sql(&self) -> (r: &'static str)
        ensures
            r@ == self.sql_spec(),
    {
        match self {
            ProbeQuery::BinlogFormat => "SHOW VARIABLES LIKE 'binlog_format'",
            ProbeQuery::BinlogRowImage => "SHOW VARIABLES LIKE 'binlog_row_image'",
            ProbeQuery::BinlogRowMetadata => "SHOW VARIABLES LIKE 'binlog_row_metadata'",
            ProbeQuery::Version => "SELECT VERSION()",
            ProbeQuery::GtidMode => "SHOW VARIABLES LIKE 'gtid_mode'",
        }
    }

    pub open spec fn variable_spec(&self) -> Seq<char> {
        match self {
            ProbeQuery::BinlogFormat => "binlog_format"@,
            ProbeQuery::BinlogRowImage => "binlog_row_image"@,
            ProbeQuery::BinlogRowMetadata => "binlog_row_metadata"@,
            ProbeQuery::Version => "version"@,
            ProbeQuery::GtidMode => "gtid_mode"@,
        }
    }

    /// The value the server must answer, compared without regard to case.
    pub open spec fn required_spec(&self) -> Seq<char> {
        match self {
            ProbeQuery::BinlogFormat => seq!['R', 'O', 'W'],
            ProbeQuery::BinlogRowImage => seq!['F', 'U', 'L', 'L'],
            ProbeQuery::BinlogRowMetadata => seq!['F', 'U', 'L', 'L'],
            ProbeQuery::Version => Seq::empty(),
            ProbeQuery::GtidMode => seq!['O', 'N'],
        }
    }

    /// The name of the server variable asked about.
    pub fn variable(&self) -> (r: &'static str)
        ensures
            r@ == self.variable_spec(),
    {
        match self {
            ProbeQuery::BinlogFormat => "binlog_format",
            ProbeQuery::BinlogRowImage => "binlog_row_image",
            ProbeQuery::BinlogRowMetadata => "binlog_row_metadata",
            ProbeQuery::Version => "version",
            ProbeQuery::GtidMode => "gtid_mode",
        }
    }

    fn required(&self) -> (r: &'static str)
        ensures
            r@ == self.required_spec(),
    {
        proof {
            reveal_strlit("ROW");
            reveal_strlit("FULL");
            reveal_strlit("ON");
            reveal_strlit("");
        }
        match self {
            ProbeQuery::BinlogFormat => "ROW",
            ProbeQuery::BinlogRowImage => "FULL",
            ProbeQuery::BinlogRowMetadata => "FULL",
            ProbeQuery::Version => "",
            ProbeQuery::GtidMode => "ON",
        }
    }
}

/// A setting of the server that replication cannot work with.
#[derive(Clone, Debug, PartialEq)]
pub struct ConfigError {
    pub query: ProbeQuery,
    /// The value the server gave.
    pub actual: String,
}

impl ConfigError {
    pub open spec fn message_spec(&self) -> Seq<char> {
        self.query.variable_spec() + " must be "@ + self.query.required_spec() + ", got: "@
            + self.actual@
    }

    /// `<variable> must be <value>, got: <actual>`.
    pub fn message(&self) -> (r: String)
        ensures
            r@ == self.message_spec(),
    {
        let mut r = concat(self.query.variable(), " must be ");
        r.append(self.query.required());
        r.append(", got: ");
        r.append(self.actual.as_str());
        r
    }

    /// The error that connecting fails with.
    pub fn to_stream_error(&self) -> (r: StreamError)
        ensures
            r.kind == ErrorKind::Configuration,
            r.message@ == "MySQL configuration invalid: "@ + self.message_spec(),
    {
        let m = self.message();
        StreamError::new(ErrorKind::Configuration, concat("MySQL configuration invalid: ", m.as_str()))
    }
}

/// What to do after the answers so far.
#[derive(Clone, Debug, PartialEq)]
pub enum ProbeOutcome {
    /// Ask this question next.
    Ask(ProbeQuery),
    /// The server is fit for replication, and of this kind.
    Done(ServerKind),
    /// The server is not fit for replication.
    Rejected(ConfigError),
}

pub enum ProbeOutcomeView {
    Ask(ProbeQuery),
    Done(ServerKind),
    Rejected(ProbeQuery, Seq<char>),
}

impl View for ProbeOutcome {
    type V = ProbeOutcomeView;

    open spec fn view(&self) -> ProbeOutcomeView {
        match self {
            ProbeOutcome::Ask(q) => ProbeOutcomeView::Ask(*q),
            ProbeOutcome::Done(k) => ProbeOutcomeView::Done(*k),
            ProbeOutcome::Rejected(e) => ProbeOutcomeView::Rejected(e.query, e.actual@),
        }
    }
}

/// Whether `answer` gives the value that `q` requires.
pub open spec fn satisfies(q: ProbeQuery, answer: Seq<char>) -> bool {
    upper_of(answer) == q.required_spec()
}

/// Whether a version string names MariaDB, in any case.
pub open spec fn names_mariadb(version: Seq<char>) -> bool {
    contains(lower_of(version), "mariadb"@)
}

/// The questions, in the order they are asked: the binlog format must be
/// `ROW`, the row image and the row metadata `FULL`; then the version tells
/// MariaDB from MySQL, and MySQL must have `gtid_mode=ON`.
pub open spec fn probe_spec(answers: Seq<Seq<char>>) -> ProbeOutcomeView {
    if answers.len() == 0 {
        ProbeOutcomeView::Ask(ProbeQuery::BinlogFormat)
    } else if !satisfies(ProbeQuery::BinlogFormat, answers[0]) {
        ProbeOutcomeView::Rejected(ProbeQuery::BinlogFormat, answers[0])
    } else if answers.len() == 1 {
        ProbeOutcomeView::Ask(ProbeQuery::BinlogRowImage)
    } else if !satisfies(ProbeQuery::BinlogRowImage, answers[1]) {
        ProbeOutcomeView::Rejected(ProbeQuery::BinlogRowImage, answers[1])
    } else if answers.len() == 2 {
        ProbeOutcomeView::Ask(ProbeQuery::BinlogRowMetadata)
    } else if !satisfies(ProbeQuery::BinlogRowMetadata, answers[2]) {
        ProbeOutcomeView::Rejected(ProbeQuery::BinlogRowMetadata, answers[2])
    } else if answers.len() == 3 {
        ProbeOutcomeView::Ask(ProbeQuery::Version)
    } else if names_mariadb(answers[3]) {
        ProbeOutcomeView::Done(ServerKind::MariaDb)
    } else if answers.len() == 4 {
        ProbeOutcomeView::Ask(ProbeQuery::GtidMode)
    } else if !satisfies(ProbeQuery::GtidMode, answers[4]) {
        ProbeOutcomeView::Rejected(ProbeQuery::GtidMode, answers[4])
    } else {
        ProbeOutcomeView::Done(ServerKind::MySqlGtid)
    }
}

pub open spec fn strings_view(v: Seq<String>) -> Seq<Seq<char>> {
    v.map_values(|s: String| s@)
}

fn check(q: ProbeQuery, answer: &String) -> (r: Option<ProbeOutcome>)
    ensures
        match r {
            None => satisfies(q, answer@),
            Some(o) => !satisfies(q, answer@) && o@ == ProbeOutcomeView::Rejected(q, answer@),
        },
{
    let upper = uppercase(answer.as_str());
    let required = String::from_str(q.required());
    if upper == required {
        None
    } else {
        Some(ProbeOutcome::Rejected(ConfigError { query: q, actual: answer.clone() }))
    }
}

/// What to ask the server next, given the answers to the questions asked so
/// far, or what it was found to be.
pub fn probe_next(answers: &Vec<String>) -> (r: ProbeOutcome)
    ensures
        r@ == probe_spec(strings_view(answers@)),
{
    let n = answers.len();
    if n == 0 {
        return ProbeOutcome::Ask(ProbeQuery::BinlogFormat);
    }
    if let Some(o) = check(ProbeQuery::BinlogFormat, &answers[0]) {
        return o;
    }
    if n == 1 {
        return ProbeOutcome::Ask(ProbeQuery::BinlogRowImage);
    }
    if let Some(o) = check(ProbeQuery::BinlogRowImage, &answers[1]) {
        return o;
    }
    if n == 2 {
        return ProbeOutcome::Ask(ProbeQuery::BinlogRowMetadata);
    }
    if let Some(o) = check(ProbeQuery::BinlogRowMetadata, &answers[2]) {
        return o;
    }
    if n == 3 {
        return ProbeOutcome::Ask(ProbeQuery::Version);
    }
    let lower = lowercase(answers[3].as_str());
    proof {
        reveal_strlit("mariadb");
    }
    if has_infix(lower.as_str(), "mariadb") {
        return ProbeOutcome::Done(ServerKind::MariaDb);
    }
    if n == 4 {
        return ProbeOutcome::Ask(ProbeQuery::GtidMode);
    }
    if let Some(o) = check(ProbeQuery::GtidMode, &answers[4]) {
        return o;
    }
    ProbeOutcome::Done(ServerKind::MySqlGtid)
}

impl ServerKind {
    pub open spec fn status_query_spec(&self) -> Seq<char> {
        match self {
            ServerKind::MySqlGtid => "SHOW BINARY LOG STATUS"@,
            ServerKind::MariaDb => "SHOW MASTER STATUS"@,
        }
    }

    /// The statement that gives the current binlog file and offset.
    pub fn status_query(&self) -> (r: &'static str)
        ensures
            r@ == self.status_query_spec(),
    {
        match self {
            ServerKind::MySqlGtid => "SHOW BINARY LOG STATUS",
            ServerKind::MariaDb => "SHOW MASTER STATUS",
        }
    }

    pub open spec fn gtid_query_spec(&self) -> Option<Seq<char>> {
        match self {
            ServerKind::MySqlGtid => Some("SELECT @@global.gtid_executed"@),
            ServerKind::MariaDb => None,
        }
    }

    /// The statement that gives the executed GTID set, where positions are
    /// GTID sets.
    pub fn gtid_query(&self) -> (r: Option<&'static str>)
        ensures
            match r {
                Some(q) => self.gtid_query_spec() == Some(q@),
                None => self.gtid_query_spec() is None,
            },
    {
        match self {
            ServerKind::MySqlGtid => Some("SELECT @@global.gtid_executed"),
            ServerKind::MariaDb => None,
        }
    }
}

/// The `Position` column of a binlog status row, as the server typed it.
#[derive(Clone, Debug, PartialEq)]
pub enum StatusPosition {
    Number(u64),
    Text(String),
    Missing,
}

/// The row that the binlog status statement returned.
#[derive(Clone, Debug, PartialEq)]
pub struct StatusRow {
    pub file: Option<String>,
    pub position: StatusPosition,
}

/// The binlog file and offset that a status row gives, or the kind and
/// description of the error.
pub open spec fn status_spec(row: Option<StatusRow>) -> Result<(Seq<char>, u64), (ErrorKind, Seq<char>)> {
    let prefix = "Failed to get binlog position: "@;
    match row {
        None => Err(
            (
                ErrorKind::Configuration,
                prefix + "No master status available - is binary logging enabled?"@,
            ),
        ),
        Some(s) => match s.file {
            None => Err(
                (ErrorKind::Protocol, prefix + "Missing File column in SHOW MASTER STATUS"@),
            ),
            Some(f) => match s.position {
                StatusPosition::Number(n) => Ok((f@, n)),
                StatusPosition::Text(t) => match parse_u64_spec(t@) {
                    Ok(n) => Ok((f@, n)),
                    Err(e) => Err(
                        (
                            ErrorKind::Protocol,
                            prefix + "Failed to parse binlog position '"@ + t@ + "': "@
                                + e.message_spec(),
                        ),
                    ),
                },
                StatusPosition::Missing => Err(
                    (
                        ErrorKind::Protocol,
                        prefix + "Missing or invalid Position column in SHOW MASTER STATUS"@,
                    ),
                ),
            },
        },
    }
}

/// The binlog file and offset in a status row. Fails where there is no row
/// (binary logging is off), no file, or no offset that reads as an unsigned
/// integer.
pub fn binlog_status(row: Option<StatusRow>) -> (r: Result<(String, u64), StreamError>)
    ensures
        match r {
            Ok((file, offset)) => status_spec(row) == Ok::<_, (ErrorKind, Seq<char>)>(
                (file@, offset),
            ),
            Err(e) => status_spec(row) == Err::<(Seq<char>, u64), _>((e.kind, e.message@)),
        },
{
    let prefix = "Failed to get binlog position: ";
    match row {
        None => Err(
            StreamError::new(
                ErrorKind::Configuration,
                concat(prefix, "No master status available - is binary logging enabled?"),
            ),
        ),
        Some(s) => {
            let file = match s.file {
                Some(f) => f,
                None => {
                    return Err(
                        StreamError::new(
                            ErrorKind::Protocol,
                            concat(prefix, "Missing File column in SHOW MASTER STATUS"),
                        ),
                    );
                },
            };
            match s.position {
                StatusPosition::Number(n) => Ok((file, n)),
                StatusPosition::Text(t) => match parse_u64(t.as_str()) {
                    Ok(n) => Ok((file, n)),
                    Err(e) => {
                        let mut m = concat(prefix, "Failed to parse binlog position '");
                        m.append(t.as_str());
                        m.append("': ");
                        let cause = e.message();
                        m.append(cause.as_str());
                        Err(StreamError::new(ErrorKind::Protocol, m))
                    },
                },
                StatusPosition::Missing => Err(
                    StreamError::new(
                        ErrorKind::Protocol,
                        concat(prefix, "Missing or invalid Position column in SHOW MASTER STATUS"),
                    ),
                ),
            }
        },
    }
}

} // verus!
