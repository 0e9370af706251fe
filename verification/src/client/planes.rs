//! Side planes: queue depths, the packets they carry, and the cursor-shape
//! queue that keeps the newest.

use std::collections::VecDeque;
use vstd::prelude::*;

verus! {

/// Audio packets: 320 ms of slack at the 5 ms frame. Overflow drops the newest.
pub const AUDIO_QUEUE: usize = 64;

/// Rumble updates. Overflow drops the newest; the host renews.
pub const RUMBLE_QUEUE: usize = 16;

/// HID output. Overflow drops the newest.
pub const HIDOUT_QUEUE: usize = 32;

/// Pad audio, every pad on one queue.
pub const PAD_AUDIO_QUEUE: usize = 64;

/// Static HDR metadata.
pub const HDR_META_QUEUE: usize = 8;

/// Host timings, one per access unit.
pub const HOST_TIMING_QUEUE: usize = 512;

/// Clipboard events.
pub const CLIP_EVENT_QUEUE: usize = 32;

/// Cursor shapes. Overflow drops the oldest: the newest is the one in use.
pub const CURSOR_SHAPE_QUEUE: usize = 8;

/// Cursor states, the latest of which wins.
pub const CURSOR_STATE_QUEUE: usize = 8;

/// A rumble update for the embedder: pad, low and high motor, and how long to
/// render it where the host said so.
pub type RumbleUpdate = (u16, u16, u16, Option<u16>);

/// One audio packet. How its bytes are read is the session's codec.
#[derive(Clone, Debug, PartialEq, Eq)]
pub struct AudioPacket {
    pub seq: u32,
    pub pts_ns: u64,
    /// Empty is a silence marker.
    pub data: Vec<u8>,
}

/// A pointer image.
#[derive(Clone, Debug, PartialEq, Eq)]
pub struct CursorShape {
    pub serial: u32,
    pub w: u16,
    pub h: u16,
    pub hot_x: u16,
    pub hot_y: u16,
    pub rgba: Vec<u8>,
}

/// Why no shape came out.
#[derive(Clone, Copy, Debug, PartialEq, Eq, Structural)]
pub enum ShapeError {
    /// Nothing was queued when the wait ended.
    Timeout,
    /// Nothing is queued and the sender is gone.
    Disconnected,
}

/// A bounded queue of shapes that drops the oldest when full.
pub struct ShapeQueue {
    pub q: VecDeque<CursorShape>,
    /// The sender is gone: the session ended.
    pub closed: bool,
}

impl ShapeQueue {
    /// The queue is within its bound.
    pub open spec fn wf(self) -> bool {
        self.q@.len() <= CURSOR_SHAPE_QUEUE
    }

    pub fn new() -> (s: Self)
        ensures
            s.wf(),
            s.q@ == Seq::<CursorShape>::empty(),
            !s.closed,
    {
        ShapeQueue { q: VecDeque::new(), closed: false }
    }

    /// What the queue holds once `shape` was sent.
    pub open spec fn sent(q: Seq<CursorShape>, shape: CursorShape) -> Seq<CursorShape> {
        if q.len() == CURSOR_SHAPE_QUEUE {
            q.drop_first().push(shape)
        } else {
            q.push(shape)
        }
    }

    /// Queue a shape; a full queue loses its oldest.
    pub fn send(&mut self, shape: CursorShape)
        requires
            old(self).wf(),
        ensures
            final(self).wf(),
            final(self).q@ == ShapeQueue::sent(old(self).q@, shape),
            final(self).closed == old(self).closed,
    {
        let ghost before = self.q@;
        if self.q.len() == CURSOR_SHAPE_QUEUE {
            let _ = self.q.pop_front();
            assert(self.q@ =~= before.drop_first());
        }
        self.q.push_back(shape);
    }

    /// The sender is gone.
    pub fn close(&mut self)
        requires
            old(self).wf(),
        ensures
            final(self).wf(),
            final(self).q@ == old(self).q@,
            final(self).closed,
    {
        self.closed = true;
    }

    /// What comes out, and what is left.
    pub open spec fn taken(q: Seq<CursorShape>, closed: bool) -> (
        Seq<CursorShape>,
        Result<CursorShape, ShapeError>,
    ) {
        if q.len() > 0 {
            (q.drop_first(), Ok(q.first()))
        } else if closed {
            (q, Err(ShapeError::Disconnected))
        } else {
            (q, Err(ShapeError::Timeout))
        }
    }

    /// The oldest queued shape, as the queue stands once any wait is over.
    pub fn recv(&mut self) -> (r: Result<CursorShape, ShapeError>)
        requires
            old(self).wf(),
        ensures
            final(self).wf(),
            final(self).closed == old(self).closed,
            (final(self).q@, r) == ShapeQueue::taken(old(self).q@, old(self).closed),
            old(self).q@.len() > 0 ==> r == Ok::<CursorShape, ShapeError>(old(self).q@.first())
                && final(self).q@ == old(self).q@.drop_first(),
            old(self).q@.len() == 0 ==> final(self).q@ == old(self).q@ && r == Err::<
                CursorShape,
                ShapeError,
            >(
                if old(self).closed {
                    ShapeError::Disconnected
                } else {
                    ShapeError::Timeout
                },
            ),
    {
        let ghost before = self.q@;
        match self.q.pop_front() {
            Some(shape) => {
                assert(self.q@ =~= before.drop_first());
                Ok(shape)
            },
            None => {
                assert(self.q@ =~= before);
                if self.closed {
                    Err(ShapeError::Disconnected)
                } else {
                    Err(ShapeError::Timeout)
                }
            },
        }
    }
}

/// The shape just sent is always in the queue, as its newest: an embedder is
/// never left on a stale pointer by an overflow.
pub proof fn law_the_newest_shape_is_kept(q: Seq<CursorShape>, shape: CursorShape)
    requires
        q.len() <= CURSOR_SHAPE_QUEUE,
    ensures
        ShapeQueue::sent(q, shape).last() == shape,
        ShapeQueue::sent(q, shape).len() <= CURSOR_SHAPE_QUEUE,
        q.len() < CURSOR_SHAPE_QUEUE ==> ShapeQueue::sent(q, shape) == q.push(shape),
{
}

/// Shapes come out in the order they went in, the oldest of the last eight
/// first.
pub proof fn law_shapes_come_out_in_order(q: Seq<CursorShape>, shape: CursorShape, closed: bool)
    requires
        q.len() <= 8,
    ensures
        q.len() == 8 ==> ShapeQueue::sent(q, shape).len() == 8 && (forall|i: int|
            0 <= i < 7 ==> ShapeQueue::sent(q, shape)[i] == q[i + 1]),
        q.len() < 8 ==> ShapeQueue::sent(q, shape).len() == q.len() + 1 && (forall|i: int|
            0 <= i < q.len() ==> ShapeQueue::sent(q, shape)[i] == q[i]),
        ShapeQueue::sent(q, shape)[ShapeQueue::sent(q, shape).len() - 1] == shape,
        q.len() > 0 ==> ({
            let (left, out) = ShapeQueue::taken(q, closed);
            &&& out == Ok::<CursorShape, ShapeError>(q[0])
            &&& left.len() == q.len() - 1
            &&& forall|i: int| 0 <= i < left.len() ==> left[i] == q[i + 1]
        }),
        q.len() == 0 ==> ShapeQueue::taken(q, closed).1 is Err && ShapeQueue::taken(q, closed).0
            == q,
        q.len() == 0 && closed ==> ShapeQueue::taken(q, closed).1 == Err::<CursorShape, ShapeError>(
            ShapeError::Disconnected,
        ),
        q.len() == 0 && !closed ==> ShapeQueue::taken(q, closed).1 == Err::<
            CursorShape,
            ShapeError,
        >(ShapeError::Timeout),
{
}

} // verus!
