//! Message framing over a byte stream.
//!
//! Frames are delimited byte spans: a start byte, an externally encoded
//! payload, an end byte. The framer accumulates pushed bytes and yields
//! complete frames one at a time; bytes of an incomplete frame — including
//! a dangling start byte that has not yet seen its end byte — stay buffered
//! for later pushes. The protocol has no escaping, so a payload byte equal
//! to the end delimiter would truncate its frame; the payload encoding is
//! assumed never to emit it.

use vstd::prelude::*;

verus! {

/// Frame start delimiter.
pub const FRAME_START: u8 = 0x02;

/// Frame end delimiter.
pub const FRAME_END: u8 = 0x03;

/// Index of the first occurrence of `b` in `s` at or after `from`, or
/// `s.len()` when there is none.
pub open spec fn spec_find(s: Seq<u8>, b: u8, from: int) -> int
    decreases s.len() - from
    when 0 <= from <= s.len()
{
    if from >= s.len() {
        s.len() as int
    } else if s[from] == b {
        from
    } else {
        spec_find(s, b, from + 1)
    }
}

/// One complete frame extracted from the stream, delimiters included.
#[derive(Debug)]
pub struct FramedMessage {
    pub frame: Vec<u8>,
}

impl FramedMessage {
    /// The bytes between the delimiters: the encoded command payload.
    pub fn payload(&self) -> (p: Vec<u8>)
        requires
            self.frame@.len() >= 2,
        ensures
            p@ == self.frame@.subrange(1, self.frame@.len() - 1),
    {
        let mut p: Vec<u8> = Vec::new();
        let mut k: usize = 1;
        proof {
            assert(p@ =~= self.frame@.subrange(1, 1));
        }
        while k < self.frame.len() - 1
            invariant
                1 <= k <= self.frame@.len() - 1,
                self.frame@.len() >= 2,
                p@ == self.frame@.subrange(1, k as int),
            decreases self.frame@.len() - k,
        {
            p.push(self.frame[k]);
            proof {
                assert(p@ =~= self.frame@.subrange(1, k + 1));
            }
            k = k + 1;
        }
        p
    }
}

/// Stateful accumulator that turns an unbounded incoming byte stream into
/// discrete frames. This layer imposes no length limit; a transport that
/// never closes a frame grows the buffer, and the embedding may bound it.
#[derive(Debug)]
pub struct MessageFramer {
    pub buffer: Vec<u8>,
}

/// Index of the first byte of the first complete frame in `s`, paired with
/// the index of that frame's end delimiter; both `s.len()` when no start
/// delimiter, the end index `s.len()` when the frame is still incomplete.
pub open spec fn spec_frame_span(s: Seq<u8>) -> (int, int) {
    let start = spec_find(s, FRAME_START, 0);
    if start < s.len() {
        (start, spec_find(s, FRAME_END, start))
    } else {
        (start, s.len() as int)
    }
}

impl MessageFramer {
    /// A fresh framer holds no bytes.
    pub fn new() -> (f: MessageFramer)
        ensures
            f.buffer@ == Seq::<u8>::empty(),
    {
        MessageFramer { buffer: Vec::new() }
    }

    /// Appends freshly received bytes to the pending buffer.
    pub fn push(&mut self, bytes: &Vec<u8>)
        ensures
            final(self).buffer@ == old(self).buffer@ + bytes@,
    {
        let mut k: usize = 0;
        proof {
            assert(self.buffer@ =~= old(self).buffer@ + bytes@.subrange(0, 0));
        }
        while k < bytes.len()
            invariant
                k <= bytes@.len(),
                self.buffer@ == old(self).buffer@ + bytes@.subrange(0, k as int),
            decreases bytes@.len() - k,
        {
            self.buffer.push(bytes[k]);
            proof {
                assert(old(self).buffer@ + bytes@.subrange(0, k + 1) =~= (old(self).buffer@
                    + bytes@.subrange(0, k as int)).push(bytes@[k as int]));
            }
            k = k + 1;
        }
        proof {
            assert(bytes@.subrange(0, bytes@.len() as int) =~= bytes@);
        }
    }

    /// Extracts the first complete frame, delimiters included, draining the
    /// buffer through the frame's end delimiter; bytes before the frame's
    /// start delimiter are discarded with it. Without a complete frame the
    /// buffer is kept whole — a dangling start delimiter is pending data,
    /// not an error. A single push may complete several frames, so callers
    /// extract until `None`.
    pub fn try_extract(&mut self) -> (r: Option<FramedMessage>)
        ensures
            ({
                let s = old(self).buffer@;
                let (start, end) = spec_frame_span(s);
                if start < s.len() && end < s.len() {
                    &&& r matches Some(m) && m.frame@ == s.subrange(start, end + 1)
                    &&& final(self).buffer@ == s.subrange(end + 1, s.len() as int)
                    &&& s == s.subrange(0, start) + s.subrange(start, end + 1)
                        + final(self).buffer@
                } else {
                    &&& r is None
                    &&& final(self).buffer@ == s
                }
            }),
    {
        let ghost s = self.buffer@;
        let start = find_byte(&self.buffer, FRAME_START, 0);
        if start >= self.buffer.len() {
            return None;
        }
        let end = find_byte(&self.buffer, FRAME_END, start);
        if end >= self.buffer.len() {
            return None;
        }
        let mut frame: Vec<u8> = Vec::new();
        let mut k: usize = start;
        proof {
            assert(frame@ =~= s.subrange(start as int, start as int));
        }
        while k <= end
            invariant
                start <= k <= end + 1,
                end < usize::MAX,
                end < self.buffer@.len(),
                self.buffer@ == s,
                frame@ == s.subrange(start as int, k as int),
            decreases end + 1 - k,
        {
            frame.push(self.buffer[k]);
            proof {
                assert(s.subrange(start as int, k + 1) =~= s.subrange(start as int, k as int).push(
                    s[k as int],
                ));
            }
            k = k + 1;
        }
        let mut rest: Vec<u8> = Vec::new();
        let mut k2: usize = end + 1;
        proof {
            assert(rest@ =~= s.subrange(end + 1, end + 1));
        }
        while k2 < self.buffer.len()
            invariant
                end + 1 <= k2 <= self.buffer@.len(),
                self.buffer@ == s,
                rest@ == s.subrange(end + 1, k2 as int),
            decreases self.buffer@.len() - k2,
        {
            rest.push(self.buffer[k2]);
            proof {
                assert(s.subrange(end + 1, k2 + 1) =~= s.subrange(end + 1, k2 as int).push(
                    s[k2 as int],
                ));
            }
            k2 = k2 + 1;
        }
        self.buffer = rest;
        proof {
            assert(s =~= s.subrange(0, start as int) + s.subrange(start as int, end + 1)
                + s.subrange(end + 1, s.len() as int));
        }
        Some(FramedMessage { frame })
    }
}

/// Finds the first occurrence of `b` in the buffer at or after `from`,
/// returning the buffer length when there is none.
fn find_byte(buffer: &Vec<u8>, b: u8, from: usize) -> (idx: usize)
    requires
        from <= buffer@.len(),
    ensures
        idx == spec_find(buffer@, b, from as int),
        from <= idx <= buffer@.len(),
        idx < buffer@.len() ==> buffer@[idx as int] == b,
{
    let mut i: usize = from;
    while i < buffer.len()
        invariant
            from <= i <= buffer@.len(),
            spec_find(buffer@, b, from as int) == spec_find(buffer@, b, i as int),
        decreases buffer@.len() - i,
    {
        if buffer[i] == b {
            return i;
        }
        i = i + 1;
    }
    i
}

} // verus!
