//! Properties of the stream engine, proved over the contracts of its steps.

use vstd::prelude::*;
use crate::checkpoint::{checkpoint_text, lemma_checkpoint_round_trip, parse_checkpoint_spec, PositionView, CheckpointFault};
use crate::driver::{after_feed, emitted_position, feed_spec, filter_question, key_of, next_position, row_change, BinlogEvent, DriverView, EventHeader, FeedView};
use crate::text::starts_with;

verus! {

/// A successful `next` takes the key one up; at the top of the 32-bit range
/// it wraps to the bottom, as the key is the position cut to 32 bits.
pub proof fn lemma_next_advances_key(before: DriverView, after: DriverView)
    requires
        after == (DriverView { position: next_position(before.position), ..before }),
    ensures
        key_of(after) == (if key_of(before) == i32::MAX {
            i32::MIN
        } else {
            (key_of(before) + 1) as i32
        }),
        key_of(before) < i32::MAX ==> key_of(after) == key_of(before) + 1,
{
    let p = before.position;
    if p == u64::MAX {
        assert(p as i32 == -1i32) by (bit_vector)
            requires
                p == 0xffff_ffff_ffff_ffffu64,
        ;
        assert(0u64 as i32 == 0i32) by (bit_vector);
    } else {
        let q = (p + 1) as u64;
        assert(p as i32 == 0x7fff_ffffi32 ==> q as i32 == -0x8000_0000i32) by (bit_vector)
            requires
                q == p + 1,
        ;
        assert(p as i32 != 0x7fff_ffffi32 ==> q as i32 == (p as i32) + 1) by (bit_vector)
            requires
                q == p + 1,
        ;
    }
}

/// Opening a session starts the key at zero.
pub proof fn lemma_session_starts_at_key_zero(before: DriverView, after: DriverView, file: Seq<char>)
    requires
        after == (DriverView {
            session_file: Some(file),
            position: 0,
            started: true,
            pending: Seq::empty(),
            ..before
        }),
    ensures
        key_of(after) == 0,
{
    assert(0u64 as i32 == 0) by (bit_vector);
}

/// Every checkpoint the engine writes reads back as the position it was
/// written from, and that position written out again is the same text.
pub proof fn lemma_emitted_checkpoint_reads_back(v: DriverView, next: u32)
    ensures
        parse_checkpoint_spec(checkpoint_text(emitted_position(v, next))) == Ok::<
            PositionView,
            CheckpointFault,
        >(emitted_position(v, next)),
        checkpoint_text(
            parse_checkpoint_spec(checkpoint_text(emitted_position(v, next)))->Ok_0,
        ) == checkpoint_text(emitted_position(v, next)),
{
    lemma_checkpoint_round_trip(emitted_position(v, next));
}

/// An event that the filter turns down, or on which it fails, is not queued
/// and leaves the key where it was.
pub proof fn lemma_declined_event_skipped(
    v: DriverView,
    h: EventHeader,
    e: BinlogEvent,
    verdict: Option<Result<bool, Seq<char>>>,
)
    requires
        filter_question(v, e) is Some,
        verdict matches Some(answer) && (answer matches Ok(false) || answer is Err),
    ensures
        after_feed(v, h, e, verdict) == v,
        !(feed_spec(v, h, e, verdict) is Queued),
{
}

/// A rows event on a table whose map has not been seen is skipped in
/// silence, whatever the filter would say, and leaves the key where it was.
pub proof fn lemma_unmapped_rows_skipped(
    v: DriverView,
    h: EventHeader,
    e: BinlogEvent,
    verdict: Option<Result<bool, Seq<char>>>,
)
    requires
        row_change(e) matches Some((_, id)) && !v.tables.contains_key(id),
    ensures
        after_feed(v, h, e, verdict) == v,
        feed_spec(v, h, e, verdict) == FeedView::Skipped,
{
}

/// Where checkpoints are GTID sets and a non-empty set is known, every
/// checkpoint is a `gtid:` one; on MariaDB, or without GTID checkpoints, every
/// checkpoint is a `file:` one.
pub proof fn lemma_checkpoint_form(v: DriverView, next: u32)
    ensures
        v.use_gtid && !v.is_mariadb && (v.gtid matches Some(g) && g.len() > 0) ==> starts_with(
            checkpoint_text(emitted_position(v, next)),
            "gtid:"@,
        ),
        v.is_mariadb || !v.use_gtid ==> starts_with(
            checkpoint_text(emitted_position(v, next)),
            "file:"@,
        ),
{
    reveal_strlit("gtid:");
    reveal_strlit("file:");
    let c = checkpoint_text(emitted_position(v, next));
    match emitted_position(v, next) {
        PositionView::Gtid(set) => {
            assert(c.subrange(0, 5) =~= "gtid:"@);
        },
        PositionView::FilePos(f, o) => {
            assert(c.subrange(0, 5) =~= "file:"@);
        },
    }
}

} // verus!
