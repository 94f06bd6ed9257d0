//! Buffer utilities: copying driver output into caller buffers and
//! walking a batched receive buffer packet by packet.
//!
//! A batched receive hands back one contiguous buffer with no per-packet
//! length table, so the buffer must be split by each packet's own
//! header-declared length: the IPv4 total-length field, or the IPv6 fixed
//! header size plus its payload-length field.  The reflect layer instead
//! carries nul-terminated filter strings, split at each terminator.

use vstd::prelude::*;

use crate::spec_min;
use crate::wire::{be16_get, spec_be16};

verus! {

/// Copies `src` into the front of `buffer`, as the driver writes its
/// output into the caller's buffer: at most `buffer.len()` bytes are
/// written and the bytes past the copy are untouched.
pub fn copy_into(buffer: &mut Vec<u8>, src: &Vec<u8>) -> (n: usize)
    ensures
        n == spec_min(src.len() as int, old(buffer).len() as int),
        final(buffer).len() == old(buffer).len(),
        forall|k: int| 0 <= k < n ==> final(buffer)@[k] == src@[k],
        forall|k: int| n <= k < old(buffer).len() ==> final(buffer)@[k] == old(buffer)@[k],
{
    let n = if src.len() <= buffer.len() {
        src.len()
    } else {
        buffer.len()
    };
    let mut i: usize = 0;
    while i < n
        invariant
            i <= n,
            n <= src.len(),
            n <= buffer.len(),
            buffer.len() == old(buffer).len(),
            forall|k: int| 0 <= k < i ==> buffer@[k] == src@[k],
            forall|k: int| i <= k < buffer.len() ==> buffer@[k] == old(buffer)@[k],
        decreases n - i,
    {
        let b = src[i];
        buffer[i] = b;
        i = i + 1;
    }
    n
}

/// A copy of the bytes of `v` from `start` to `end`.
pub fn sub_vec(v: &Vec<u8>, start: usize, end: usize) -> (r: Vec<u8>)
    requires
        start <= end <= v.len(),
    ensures
        r@ == v@.subrange(start as int, end as int),
{
    let mut r: Vec<u8> = Vec::new();
    let mut i: usize = start;
    while i < end
        invariant
            start <= i <= end <= v.len(),
            r@ == v@.subrange(start as int, i as int),
        decreases end - i,
    {
        let b = v[i];
        r.push(b);
        proof {
            assert(r@ =~= v@.subrange(start as int, i + 1 as int));
        }
        i = i + 1;
    }
    r
}

/// The length of the IP packet starting at `pos` of `b[..end]`, declared
/// by its own header: the IPv4 total-length field, or forty bytes plus
/// the IPv6 payload-length field.  `None` when the bytes there are not a
/// whole IP packet.
pub open spec fn spec_ip_len(b: Seq<u8>, pos: int, end: int) -> Option<int> {
    if pos >= end {
        None
    } else if b[pos] >> 4u8 == 4 {
        if pos + 4 <= end {
            let l = spec_be16(b, pos + 2) as int;
            if 20 <= l && pos + l <= end {
                Some(l)
            } else {
                None
            }
        } else {
            None
        }
    } else if b[pos] >> 4u8 == 6 {
        if pos + 6 <= end {
            let l = 40 + spec_be16(b, pos + 4) as int;
            if pos + l <= end {
                Some(l)
            } else {
                None
            }
        } else {
            None
        }
    } else {
        None
    }
}

/// The start offset of the `k`-th IP packet of `b[..end]`, walking the
/// buffer by header-declared lengths; `None` as soon as the walk fails.
pub open spec fn spec_ip_start(b: Seq<u8>, end: int, k: int) -> Option<int>
    decreases k,
{
    if k <= 0 {
        Some(0)
    } else {
        match spec_ip_start(b, end, k - 1) {
            None => None,
            Some(p) => match spec_ip_len(b, p, end) {
                None => None,
                Some(l) => Some(p + l),
            },
        }
    }
}

/// Once the walk fails, it stays failed.
pub proof fn lemma_ip_start_none(b: Seq<u8>, end: int, k: int, m: int)
    requires
        0 <= k <= m,
        spec_ip_start(b, end, k) is None,
    ensures
        spec_ip_start(b, end, m) is None,
    decreases m - k,
{
    if k < m {
        lemma_ip_start_none(b, end, k, m - 1);
    }
}

/// Reads the header-declared length of the IP packet at `pos` of
/// `buffer[..end]`, exactly as [`spec_ip_len`] defines it.
pub fn ip_packet_length(buffer: &Vec<u8>, pos: usize, end: usize) -> (r: Option<usize>)
    requires
        pos <= end <= buffer.len(),
    ensures
        match r {
            Some(l) => spec_ip_len(buffer@, pos as int, end as int) == Some(l as int),
            None => spec_ip_len(buffer@, pos as int, end as int) is None,
        },
{
    if pos >= end {
        return None;
    }
    let version = buffer[pos] >> 4;
    if version == 4 {
        if end - pos >= 4 {
            let l = be16_get(buffer, pos + 2) as usize;
            if 20 <= l && l <= end - pos {
                Some(l)
            } else {
                None
            }
        } else {
            None
        }
    } else if version == 6 {
        if end - pos >= 6 {
            let l = 40 + be16_get(buffer, pos + 4) as usize;
            if l <= end - pos {
                Some(l)
            } else {
                None
            }
        } else {
            None
        }
    } else {
        None
    }
}

/// The position of the first nul byte at or after `pos` in `b[..end]`.
pub open spec fn spec_nul_pos(b: Seq<u8>, pos: int, end: int) -> Option<int>
    decreases end - pos,
{
    if pos < 0 || pos >= end {
        None
    } else if b[pos] == 0 {
        Some(pos)
    } else {
        spec_nul_pos(b, pos + 1, end)
    }
}

/// The start offset of the `k`-th nul-terminated string of `b[..end]`:
/// each string runs to its terminator and the next starts past it.
pub open spec fn spec_str_start(b: Seq<u8>, end: int, k: int) -> Option<int>
    decreases k,
{
    if k <= 0 {
        Some(0)
    } else {
        match spec_str_start(b, end, k - 1) {
            None => None,
            Some(p) => match spec_nul_pos(b, p, end) {
                None => None,
                Some(q) => Some(q + 1),
            },
        }
    }
}

/// Once the string walk fails, it stays failed.
pub proof fn lemma_str_start_none(b: Seq<u8>, end: int, k: int, m: int)
    requires
        0 <= k <= m,
        spec_str_start(b, end, k) is None,
    ensures
        spec_str_start(b, end, m) is None,
    decreases m - k,
{
    if k < m {
        lemma_str_start_none(b, end, k, m - 1);
    }
}

/// Finds the first nul byte at or after `pos` in `buffer[..end]`, exactly
/// as [`spec_nul_pos`] defines it.
pub fn find_nul(buffer: &Vec<u8>, pos: usize, end: usize) -> (r: Option<usize>)
    requires
        pos <= end <= buffer.len(),
    ensures
        match r {
            Some(q) => pos <= q < end && spec_nul_pos(buffer@, pos as int, end as int) == Some(
                q as int,
            ),
            None => spec_nul_pos(buffer@, pos as int, end as int) is None,
        },
{
    let mut j: usize = pos;
    while j < end
        invariant
            pos <= j <= end <= buffer.len(),
            spec_nul_pos(buffer@, pos as int, end as int) == spec_nul_pos(
                buffer@,
                j as int,
                end as int,
            ),
        decreases end - j,
    {
        if buffer[j] == 0 {
            return Some(j);
        }
        j = j + 1;
    }
    None
}

} // verus!
