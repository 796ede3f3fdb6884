//! Checkpoints: the text form of a replication position.
//!
//! A position is either a GTID set, written `gtid:<set>`, or a binlog file and
//! a byte offset in it, written `file:<name>:<offset>`. The last colon parts
//! the file name from the offset.

use vstd::prelude::*;
use crate::decimal::{decimal, format_u64, lemma_decimal_scan, lemma_parse_format_u64, parse_u64, parse_u64_spec, is_digit, IntTextError};
use crate::text::{concat, find_last, has_prefix, last_index_of, lemma_last_index_of, lemma_last_index_of_append, starts_with};

verus! {

/// A position in the source's binary log.
#[derive(Clone, Debug, PartialEq, Eq)]
pub enum Position {
    /// A GTID executed set, as the server writes it.
    Gtid { set: String },
    /// A binlog file name and a byte offset in that file.
    FilePos { file: String, offset: u64 },
}

/// What a `Position` stands for.
pub enum PositionView {
    Gtid(Seq<char>),
    FilePos(Seq<char>, u64),
}

impl View for Position {
    type V = PositionView;

    open spec fn view(&self) -> PositionView {
        match self {
            Position::Gtid { set } => PositionView::Gtid(set@),
            Position::FilePos { file, offset } => PositionView::FilePos(file@, *offset),
        }
    }
}

/// Why a checkpoint could not be read.
#[derive(Clone, Copy, Debug, PartialEq, Eq, Structural)]
pub enum CheckpointFault {
    /// It starts with neither `gtid:` nor `file:`.
    UnknownPrefix,
    /// A `file:` checkpoint with no colon after the prefix.
    MissingOffset,
    /// A `file:` checkpoint whose offset is not an unsigned integer.
    BadOffset(IntTextError),
}

/// A checkpoint that could not be read, with the text that was given.
#[derive(Clone, Debug, PartialEq, Eq)]
pub struct CheckpointError {
    pub fault: CheckpointFault,
    pub checkpoint: String,
}

pub open spec fn gtid_prefix() -> Seq<char> {
    seq!['g', 't', 'i', 'd', ':']
}

pub open spec fn file_prefix() -> Seq<char> {
    seq!['f', 'i', 'l', 'e', ':']
}

/// The position that checkpoint `c` stands for, or why it stands for none.
pub open spec fn parse_checkpoint_spec(c: Seq<char>) -> Result<PositionView, CheckpointFault> {
    if starts_with(c, gtid_prefix()) {
        Ok(PositionView::Gtid(c.subrange(5, c.len() as int)))
    } else if starts_with(c, file_prefix()) {
        let tail = c.subrange(5, c.len() as int);
        match last_index_of(tail, ':') {
            None => Err(CheckpointFault::MissingOffset),
            Some(k) => match parse_u64_spec(tail.subrange(k + 1, tail.len() as int)) {
                Ok(offset) => Ok(PositionView::FilePos(tail.subrange(0, k), offset)),
                Err(e) => Err(CheckpointFault::BadOffset(e)),
            },
        }
    } else {
        Err(CheckpointFault::UnknownPrefix)
    }
}

/// The checkpoint text of position `p`.
pub open spec fn checkpoint_text(p: PositionView) -> Seq<char> {
    match p {
        PositionView::Gtid(set) => gtid_prefix() + set,
        PositionView::FilePos(file, offset) => file_prefix() + file + seq![':'] + decimal(
            offset as nat,
        ),
    }
}

/// The description of why checkpoint `c` could not be read.
pub open spec fn checkpoint_error_message(fault: CheckpointFault, c: Seq<char>) -> Seq<char> {
    match fault {
        CheckpointFault::UnknownPrefix => "Invalid checkpoint format: '"@ + c
            + "'. Must start with 'gtid:' or 'file:'"@,
        CheckpointFault::MissingOffset => "Invalid file checkpoint format: '"@ + c + "'"@,
        CheckpointFault::BadOffset(e) => "Invalid binlog position in checkpoint '"@ + c + "': "@
            + e.message_spec(),
    }
}

/// Reads a checkpoint.
pub fn parse_checkpoint(checkpoint: &str) -> (r: Result<Position, CheckpointError>)
    ensures
        match r {
            Ok(p) => parse_checkpoint_spec(checkpoint@) == Ok::<PositionView, CheckpointFault>(p@),
            Err(e) => parse_checkpoint_spec(checkpoint@) == Err::<PositionView, CheckpointFault>(
                e.fault,
            ) && e.checkpoint@ == checkpoint@,
        },
{
    proof {
        reveal_strlit("gtid:");
        reveal_strlit("file:");
        assert("gtid:"@ =~= gtid_prefix());
        assert("file:"@ =~= file_prefix());
    }
    let n = checkpoint.unicode_len();
    if has_prefix(checkpoint, "gtid:") {
        let set = String::from_str(checkpoint.substring_char(5, n));
        return Ok(Position::Gtid { set });
    }
    if !has_prefix(checkpoint, "file:") {
        return Err(
            CheckpointError {
                fault: CheckpointFault::UnknownPrefix,
                checkpoint: String::from_str(checkpoint),
            },
        );
    }
    let tail = checkpoint.substring_char(5, n);
    match find_last(tail, ':') {
        None => Err(
            CheckpointError {
                fault: CheckpointFault::MissingOffset,
                checkpoint: String::from_str(checkpoint),
            },
        ),
        Some(k) => {
            proof {
                lemma_last_index_of(tail@, ':');
            }
            let m = tail.unicode_len();
            match parse_u64(tail.substring_char(k + 1, m)) {
                Ok(offset) => Ok(
                    Position::FilePos { file: String::from_str(tail.substring_char(0, k)), offset },
                ),
                Err(e) => Err(
                    CheckpointError {
                        fault: CheckpointFault::BadOffset(e),
                        checkpoint: String::from_str(checkpoint),
                    },
                ),
            }
        },
    }
}

impl Position {
    /// The checkpoint text of this position.
    pub fn to_checkpoint(&self) -> (r: String)
        ensures
            r@ == checkpoint_text(self@),
    {
        proof {
            reveal_strlit("gtid:");
            reveal_strlit("file:");
            reveal_strlit(":");
            assert("gtid:"@ =~= gtid_prefix());
            assert("file:"@ =~= file_prefix());
            assert(":"@ =~= seq![':']);
        }
        match self {
            Position::Gtid { set } => concat("gtid:", set.as_str()),
            Position::FilePos { file, offset } => {
                let mut r = concat("file:", file.as_str());
                r.append(":");
                let digits = format_u64(*offset);
                r.append(digits.as_str());
                proof {
                    assert(r@ =~= checkpoint_text(self@));
                }
                r
            },
        }
    }
}

impl CheckpointError {
    /// The error's description, quoting the checkpoint.
    pub fn message(&self) -> (r: String)
        ensures
            r@ == self.message_spec(),
    {
        proof {
            reveal_strlit("Invalid checkpoint format: '");
            reveal_strlit("'. Must start with 'gtid:' or 'file:'");
            reveal_strlit("Invalid file checkpoint format: '");
            reveal_strlit("'");
            reveal_strlit("Invalid binlog position in checkpoint '");
            reveal_strlit("': ");
        }
        match self.fault {
            CheckpointFault::UnknownPrefix => {
                let mut r = concat("Invalid checkpoint format: '", self.checkpoint.as_str());
                r.append("'. Must start with 'gtid:' or 'file:'");
                r
            },
            CheckpointFault::MissingOffset => {
                let mut r = concat("Invalid file checkpoint format: '", self.checkpoint.as_str());
                r.append("'");
                r
            },
            CheckpointFault::BadOffset(e) => {
                let mut r = concat("Invalid binlog position in checkpoint '", self.checkpoint.as_str());
                r.append("': ");
                let cause = e.message();
                r.append(cause.as_str());
                r
            },
        }
    }

    pub open spec fn message_spec(&self) -> Seq<char> {
        checkpoint_error_message(self.fault, self.checkpoint@)
    }
}

/// Writing a position as a checkpoint and reading it back gives that position,
/// for GTID sets and for file names alike, colons in them included.
pub proof fn lemma_checkpoint_round_trip(p: PositionView)
    ensures
        parse_checkpoint_spec(checkpoint_text(p)) == Ok::<PositionView, CheckpointFault>(p),
{
    let c = checkpoint_text(p);
    match p {
        PositionView::Gtid(set) => {
            assert(c.subrange(0, 5) =~= gtid_prefix());
            assert(c.subrange(5, c.len() as int) =~= set);
        },
        PositionView::FilePos(file, offset) => {
            let digits = decimal(offset as nat);
            assert(c.subrange(0, 5) =~= file_prefix());
            assert(!starts_with(c, gtid_prefix())) by {
                assert(c.subrange(0, 5)[0] != gtid_prefix()[0]);
            }
            let tail = c.subrange(5, c.len() as int);
            assert(tail =~= (file + seq![':']) + digits);
            lemma_decimal_scan(offset);
            assert forall|j: int| 0 <= j < digits.len() implies digits[j] != ':' by {
                assert(is_digit(digits[j]));
            }
            lemma_last_index_of_append(file + seq![':'], digits, ':');
            assert((file + seq![':']).drop_last() =~= file);
            let k = file.len() as int;
            assert(tail.subrange(k + 1, tail.len() as int) =~= digits);
            assert(tail.subrange(0, k) =~= file);
            lemma_parse_format_u64(offset);
        },
    }
}

} // verus!
