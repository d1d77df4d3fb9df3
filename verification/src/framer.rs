//! Recovery of discrete frames from the raw serial byte stream.
//!
//! A frame is one type byte (high bit set, low seven bits the type code),
//! two length bytes (high bit clear, seven bits each, most significant
//! first), and a payload. The declared length counts the three header bytes.
//! Bytes without the high bit that precede a header are discarded: that is
//! how the reader resynchronizes after losing frame alignment; a high-bit
//! byte in a length position restarts the scan at that byte.

use vstd::prelude::*;

verus! {

/// A complete three-byte header begins at position `c`: a byte with the
/// high bit set followed by two bytes with the high bit clear.
pub open spec fn header_at(s: Seq<u8>, c: int) -> bool {
    &&& 0 <= c
    &&& c + 2 < s.len()
    &&& s[c] & 0x80 != 0
    &&& s[c + 1] & 0x80 == 0
    &&& s[c + 2] & 0x80 == 0
}

/// No complete header begins before position `c`.
pub open spec fn no_header_before(s: Seq<u8>, c: int) -> bool {
    forall|j: int| 0 <= j < c ==> !header_at(s, j)
}

/// The total length declared by the header at `c`: fourteen bits, seven
/// from each length byte, counting the three header bytes themselves.
pub open spec fn declared_len(s: Seq<u8>, c: int) -> int {
    (s[c + 1] as int) * 128 + (s[c + 2] as int)
}

/// The outcome of scanning a buffered prefix of the byte stream.
#[derive(Debug, PartialEq, Eq)]
pub enum FrameOutcome {
    /// One complete frame: the type code from the first header in the
    /// buffer, its payload, and how many bytes the frame runs to.
    Frame { type_code: u8, payload: Vec<u8>, consumed: usize },
    /// The buffer holds no complete frame yet; more bytes are needed.
    Incomplete,
    /// The first header declares a total length below three. Such a frame
    /// is corrupt and offers no way to know how many bytes to skip, so it
    /// is a hard error, not a resync opportunity.
    BadLength { consumed: usize },
}

/// Find the first complete header in the buffer.
fn find_header(input: &[u8]) -> (r: Option<usize>)
    ensures
        match r {
            Some(c) => header_at(input@, c as int) && no_header_before(input@, c as int),
            None => forall|c: int| !header_at(input@, c),
        },
{
    let n = input.len();
    let mut pos: usize = 0;
    while pos < n
        invariant
            pos <= n,
            n == input@.len(),
            no_header_before(input@, pos as int),
        decreases n - pos,
    {
        if input[pos] & 0x80 == 0 {
            // not a type byte: discard it and keep scanning
            pos += 1;
        } else if pos + 1 >= n {
            proof {
                assert forall|c: int| !header_at(input@, c) by {
                    if pos <= c {
                        assert(!(c + 2 < n));
                    }
                }
            }
            return None;
        } else if input[pos + 1] & 0x80 != 0 {
            // the would-be high length byte is itself a type byte:
            // restart the scan at it
            proof {
                assert(!header_at(input@, pos as int));
            }
            pos += 1;
        } else if pos + 2 >= n {
            proof {
                assert forall|c: int| !header_at(input@, c) by {
                    if pos < c {
                        assert(!(c + 2 < n));
                    }
                }
            }
            return None;
        } else if input[pos + 2] & 0x80 != 0 {
            // the would-be low length byte is itself a type byte:
            // restart the scan at it
            proof {
                assert(!header_at(input@, pos as int));
                assert(!header_at(input@, pos as int + 1));
            }
            pos += 2;
        } else {
            return Some(pos);
        }
    }
    proof {
        assert forall|c: int| !header_at(input@, c) by {
            if pos <= c {
                assert(!(c + 2 < n));
            }
        }
    }
    None
}

/// Scan the buffer for one complete frame.
///
/// The outcome speaks of the first complete header in the buffer: a later
/// frame is never taken while an earlier header is present, and no byte
/// beyond the recovered frame is consumed.
pub fn extract_frame(input: &[u8]) -> (r: FrameOutcome)
    ensures
        match r {
            FrameOutcome::Frame { type_code, payload, consumed } => {
                let c = consumed - payload@.len() - 3;
                &&& header_at(input@, c)
                &&& no_header_before(input@, c)
                &&& type_code == input@[c] & 0x7f
                &&& declared_len(input@, c) >= 3
                &&& payload@.len() == declared_len(input@, c) - 3
                &&& consumed <= input@.len()
                &&& payload@ == input@.subrange(c + 3, consumed as int)
            },
            FrameOutcome::Incomplete => forall|c: int|
                header_at(input@, c) && no_header_before(input@, c) ==> c + declared_len(input@, c)
                    > input@.len(),
            FrameOutcome::BadLength { consumed } => {
                let c = consumed - 3;
                &&& header_at(input@, c)
                &&& no_header_before(input@, c)
                &&& declared_len(input@, c) < 3
                &&& consumed <= input@.len()
            },
        },
{
    let n = input.len();
    let pos = match find_header(input) {
        Some(p) => p,
        None => {
            return FrameOutcome::Incomplete;
        },
    };
    let hi = input[pos + 1];
    let lo = input[pos + 2];
    let total: usize = (hi as usize) * 128 + (lo as usize);
    if total < 3 {
        return FrameOutcome::BadLength { consumed: pos + 3 };
    }
    let payload_len = total - 3;
    proof {
        // the header found is the only first header
        assert forall|c: int|
            header_at(input@, c) && no_header_before(input@, c) implies c == pos as int by {
            if c < pos as int {
                assert(!header_at(input@, c));
            } else if (pos as int) < c {
                assert(!header_at(input@, pos as int));
            }
        }
    }
    if n - (pos + 3) < payload_len {
        return FrameOutcome::Incomplete;
    }
    let mut payload: Vec<u8> = Vec::new();
    let mut k: usize = 0;
    while k < payload_len
        invariant
            n == input@.len(),
            pos + 3 + payload_len <= n,
            k <= payload_len,
            payload@.len() == k,
            payload@ == input@.subrange(pos + 3, pos + 3 + k),
        decreases payload_len - k,
    {
        payload.push(input[pos + 3 + k]);
        proof {
            assert(payload@ =~= input@.subrange(pos + 3, pos + 3 + k + 1));
        }
        k += 1;
    }
    FrameOutcome::Frame { type_code: input[pos] & 0x7f, payload, consumed: pos + 3 + payload_len }
}

/// Resynchronization: where every byte before position `n` lacks the high
/// bit, none of them can begin a header, so the header at `n` is the first
/// one, and the outcome of the frame scan speaks of it alone.
pub proof fn lemma_frame_resync(s: Seq<u8>, n: int)
    requires
        forall|j: int| 0 <= j < n ==> #[trigger] (s[j] & 0x80) == 0,
        header_at(s, n),
    ensures
        no_header_before(s, n),
{
    assert forall|j: int| 0 <= j < n implies !header_at(s, j) by {
        assert(s[j] & 0x80 == 0);
    }
}

} // verus!
