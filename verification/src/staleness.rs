use vstd::prelude::*;
use crate::math::Vec3;

verus! {

/// Frames for which an unchanged cursor is not held against a participant.
pub const ORIGIN_STALE_FRAMES: u32 = 30;

/// Frames after which a participant whose cursor has not changed is taken for gone.
pub const ORIGIN_GONE_FRAMES: u32 = 240;

/// What is remembered of a slot between frames.
#[derive(Clone, Copy, Debug, PartialEq, Eq, Structural)]
pub struct StalenessRecord {
    /// Position reported when the cursor last changed.
    pub origin: Vec3,
    /// The cursor as last observed.
    pub cursor: usize,
    /// Frame at which the cursor last changed; zero while none is recorded.
    pub frame: u32,
}

impl StalenessRecord {
    /// The remembered position is finite, and it is not the zero vector once
    /// a frame is recorded.
    pub open spec fn wf(self) -> bool {
        self.origin.finite() && (self.frame != 0 ==> !self.origin.zero())
    }

    pub fn new() -> (r: StalenessRecord)
        ensures
            r == (StalenessRecord { origin: Vec3 { x: 0, y: 0, z: 0 }, cursor: 0, frame: 0 }),
            r.wf(),
    {
        StalenessRecord { origin: Vec3::origin(), cursor: 0, frame: 0 }
    }
}

/// Frames passed from `last` to `frame`, the frame counter wrapping at 2^32.
pub open spec fn age_of(frame: u32, last: u32) -> u32 {
    if frame >= last {
        (frame - last) as u32
    } else {
        (frame - last + 0x1_0000_0000) as u32
    }
}

/// The record after a slot is observed with `cursor` at `frame`, a usable
/// position `fresh` having been read for it. A changed cursor refreshes the
/// record; an unchanged one leaves it as it is.
pub open spec fn record_after(
    record: StalenessRecord,
    cursor: usize,
    frame: u32,
    fresh: Vec3,
) -> StalenessRecord {
    if record.cursor != cursor {
        StalenessRecord { origin: fresh, cursor, frame }
    } else {
        record
    }
}

/// The position reported for that observation, if any. A changed cursor
/// reports the fresh position. An unchanged one reports nothing while no
/// frame is recorded; else the fresh position within the grace window, the
/// remembered one within the extended window, and nothing beyond it.
pub open spec fn reported(record: StalenessRecord, cursor: usize, frame: u32, fresh: Vec3) -> Option<
    Vec3,
> {
    if record.cursor != cursor {
        Some(fresh)
    } else if record.frame == 0 {
        None
    } else {
        let age = age_of(frame, record.frame);
        if age <= 30 {
            Some(fresh)
        } else if age <= 240 {
            if record.origin.zero() {
                None
            } else {
                Some(record.origin)
            }
        } else {
            None
        }
    }
}

/// Observes a slot: updates its record and tells which position to report.
pub fn observe(record: &mut StalenessRecord, cursor: usize, frame: u32, fresh: Vec3) -> (r: Option<
    Vec3,
>)
    requires
        old(record).wf(),
        fresh.usable(),
    ensures
        *final(record) == record_after(*old(record), cursor, frame, fresh),
        r == reported(*old(record), cursor, frame, fresh),
        final(record).wf(),
        r matches Some(p) ==> p.usable(),
{
    if record.cursor != cursor {
        record.cursor = cursor;
        record.frame = frame;
        record.origin = fresh;
        Some(fresh)
    } else {
        let last = record.frame;
        if last == 0 {
            return None;
        }
        let age = frame.wrapping_sub(last);
        assert(age == age_of(frame, last));
        if age > ORIGIN_STALE_FRAMES {
            if age <= ORIGIN_GONE_FRAMES {
                let cached = record.origin;
                if cached.is_zero() {
                    None
                } else {
                    Some(cached)
                }
            } else {
                None
            }
        } else {
            Some(fresh)
        }
    }
}

/// The frame `k` frames after `frame`, the counter wrapping at 2^32.
pub open spec fn frame_after(frame: u32, k: nat) -> u32 {
    ((frame + k) % 0x1_0000_0000) as u32
}

/// The record after the cursor was observed unchanged at each of the `k`
/// frames that follow the frame of the record, with the fresh positions
/// `fresh(1), .., fresh(k)`.
pub open spec fn record_after_run(
    record: StalenessRecord,
    fresh: spec_fn(nat) -> Vec3,
    k: nat,
) -> StalenessRecord
    decreases k,
{
    if k == 0 {
        record
    } else {
        record_after(
            record_after_run(record, fresh, (k - 1) as nat),
            record.cursor,
            frame_after(record.frame, k),
            fresh(k),
        )
    }
}

/// The position reported at the last of those `k` frames.
pub open spec fn reported_after_run(
    record: StalenessRecord,
    fresh: spec_fn(nat) -> Vec3,
    k: nat,
) -> Option<Vec3>
    recommends
        k > 0,
{
    reported(
        record_after_run(record, fresh, (k - 1) as nat),
        record.cursor,
        frame_after(record.frame, k),
        fresh(k),
    )
}

/// Observations with an unchanged cursor leave the record as it is.
pub proof fn unchanged_cursor_keeps_record(
    record: StalenessRecord,
    fresh: spec_fn(nat) -> Vec3,
    k: nat,
)
    ensures
        record_after_run(record, fresh, k) == record,
    decreases k,
{
    if k > 0 {
        unchanged_cursor_keeps_record(record, fresh, (k - 1) as nat);
    }
}

/// Staleness over a run of frames. Let the cursor of a slot whose record
/// holds a frame be observed unchanged for `k` consecutive frames. Up to the
/// grace window the fresh position is reported; past it and up to eight
/// times the window, the remembered position; past that, nothing.
pub proof fn staleness_over_run(record: StalenessRecord, fresh: spec_fn(nat) -> Vec3, k: nat)
    requires
        record.wf(),
        record.frame != 0,
        0 < k < 0x1_0000_0000,
    ensures
        k <= 30 ==> reported_after_run(record, fresh, k) == Some(fresh(k)),
        30 < k <= 30 * 8 ==> reported_after_run(record, fresh, k) == Some(record.origin),
        k > 30 * 8 ==> reported_after_run(record, fresh, k) is None,
{
    unchanged_cursor_keeps_record(record, fresh, (k - 1) as nat);
    assert(age_of(frame_after(record.frame, k), record.frame) == k);
}

} // verus!
