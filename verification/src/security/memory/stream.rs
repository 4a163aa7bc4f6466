//! Adaptive chunk streams: a transfer cut into 64 KiB chunks, the last one
//! matching the remainder exactly.
use vstd::prelude::*;

verus! {

/// Hard cap on a chunk: 64 KiB.
pub const MAX_CHUNK_CAP: usize = 65536;

/// The chunk sizes of a transfer of `total` bytes: full 64 KiB chunks, then
/// the remainder if any.
pub open spec fn stream_chunks(total: nat) -> Seq<usize>
    decreases total,
{
    if total == 0 {
        Seq::empty()
    } else if total <= MAX_CHUNK_CAP {
        seq![total as usize]
    } else {
        seq![MAX_CHUNK_CAP].add(stream_chunks((total - MAX_CHUNK_CAP) as nat))
    }
}

/// Sum of a sequence of chunk sizes.
pub open spec fn sum_chunks(s: Seq<usize>) -> nat
    decreases s.len(),
{
    if s.len() == 0 {
        0
    } else {
        (s[0] + sum_chunks(s.drop_first())) as nat
    }
}

/// A generator of chunk sizes for a transfer.
pub struct MatchChunkStream {
    remaining_bytes: usize,
}

impl MatchChunkStream {
    /// Bytes not yet handed out as chunks.
    pub closed spec fn remaining_spec(&self) -> usize {
        self.remaining_bytes
    }

    /// A stream over `total_bytes`.
    pub fn new(total_bytes: usize) -> (r: MatchChunkStream)
        ensures
            r.remaining_spec() == total_bytes,
    {
        MatchChunkStream { remaining_bytes: total_bytes }
    }

    /// Bytes not yet handed out as chunks.
    pub fn remaining(&self) -> (r: usize)
        ensures
            r == self.remaining_spec(),
    {
        self.remaining_bytes
    }

    /// The next chunk size: the whole remainder if it is at most 64 KiB,
    /// else 64 KiB; `None` once everything was handed out.
    pub fn next(&mut self) -> (r: Option<usize>)
        ensures
            old(self).remaining_spec() == 0 ==> r is None && final(self).remaining_spec() == 0,
            old(self).remaining_spec() > 0 ==> {
                let c = if old(self).remaining_spec() <= MAX_CHUNK_CAP {
                    old(self).remaining_spec()
                } else {
                    MAX_CHUNK_CAP
                };
                &&& r == Some(c)
                &&& final(self).remaining_spec() == old(self).remaining_spec() - c
            },
            r matches Some(c) ==> stream_chunks(old(self).remaining_spec() as nat) == seq![c].add(
                stream_chunks(final(self).remaining_spec() as nat),
            ),
    {
        if self.remaining_bytes == 0 {
            return None;
        }
        let chunk_size = if self.remaining_bytes < MAX_CHUNK_CAP {
            self.remaining_bytes
        } else {
            MAX_CHUNK_CAP
        };
        self.remaining_bytes = self.remaining_bytes - chunk_size;
        proof {
            if self.remaining_bytes == 0 {
                assert(stream_chunks(0) =~= Seq::<usize>::empty());
                assert(seq![chunk_size].add(Seq::<usize>::empty()) =~= seq![chunk_size]);
            }
        }
        Some(chunk_size)
    }
}

/// A stream hands out chunks that add up to the whole transfer, each
/// between 1 byte and 64 KiB, all but the last exactly 64 KiB, and as many
/// as 64 KiB windows are needed to cover the transfer.
pub proof fn lemma_stream_chunks(total: nat)
    ensures
        sum_chunks(stream_chunks(total)) == total,
        forall|i: int|
            0 <= i < stream_chunks(total).len() ==> 0 < #[trigger] stream_chunks(total)[i]
                <= MAX_CHUNK_CAP,
        forall|i: int|
            0 <= i < stream_chunks(total).len() - 1 ==> #[trigger] stream_chunks(total)[i]
                == MAX_CHUNK_CAP,
        stream_chunks(total).len() == (total + MAX_CHUNK_CAP - 1) / (MAX_CHUNK_CAP as int),
    decreases total,
{
    if total == 0 {
    } else if total <= MAX_CHUNK_CAP {
        let s = stream_chunks(total);
        assert(s.drop_first() =~= Seq::<usize>::empty());
        assert(sum_chunks(Seq::<usize>::empty()) == 0);
        assert(s[0] == total);
        assert(sum_chunks(s) == s[0] + sum_chunks(s.drop_first()));
    } else {
        let rest = (total - MAX_CHUNK_CAP) as nat;
        lemma_stream_chunks(rest);
        let s = stream_chunks(total);
        assert(s.drop_first() =~= stream_chunks(rest));
        assert(sum_chunks(s) == s[0] + sum_chunks(s.drop_first()));
        assert forall|i: int| 0 <= i < s.len() implies 0 < #[trigger] s[i] <= MAX_CHUNK_CAP by {
            if i > 0 {
                assert(s[i] == stream_chunks(rest)[i - 1]);
            }
        }
        assert forall|i: int| 0 <= i < s.len() - 1 implies #[trigger] s[i] == MAX_CHUNK_CAP by {
            if i > 0 {
                assert(s[i] == stream_chunks(rest)[i - 1]);
            }
        }
    }
}

/// Sum of the first `i` chunk sizes: the offset at which chunk `i` starts.
pub open spec fn chunk_offset(chunks: Seq<usize>, i: int) -> nat
    decreases i,
{
    if i <= 0 || i > chunks.len() {
        0
    } else {
        (chunk_offset(chunks, i - 1) + chunks[i - 1]) as nat
    }
}

/// A run of `next` calls that each returned a chunk: starting from
/// `rems[0]` remaining bytes, call `i` returned `cs[i]` and left `rems[i +
/// 1]` (as `next` ensures). After any `k` calls, the chunks returned are the
/// first `k` of `stream_chunks(rems[0])`, and they add up to what is no
/// longer remaining.
pub proof fn lemma_stream_progress(rems: Seq<usize>, cs: Seq<usize>)
    requires
        rems.len() == cs.len() + 1,
        forall|i: int|
            0 <= i < cs.len() ==> {
                &&& rems[i + 1] == rems[i] - cs[i]
                &&& stream_chunks(rems[i] as nat) == seq![cs[i]].add(
                    stream_chunks(#[trigger] rems[i + 1] as nat),
                )
            },
    ensures
        forall|k: int|
            0 <= k <= cs.len() ==> {
                &&& #[trigger] rems[k] + chunk_offset(cs, k) == rems[0]
                &&& stream_chunks(rems[0] as nat) == cs.take(k) + stream_chunks(rems[k] as nat)
            },
{
    lemma_stream_prefix(rems, cs, cs.len() as int);
}

proof fn lemma_stream_prefix(rems: Seq<usize>, cs: Seq<usize>, n: int)
    requires
        rems.len() == cs.len() + 1,
        0 <= n <= cs.len(),
        forall|i: int|
            0 <= i < cs.len() ==> {
                &&& rems[i + 1] == rems[i] - cs[i]
                &&& stream_chunks(rems[i] as nat) == seq![cs[i]].add(
                    stream_chunks(#[trigger] rems[i + 1] as nat),
                )
            },
    ensures
        forall|k: int|
            0 <= k <= n ==> {
                &&& #[trigger] rems[k] + chunk_offset(cs, k) == rems[0]
                &&& stream_chunks(rems[0] as nat) == cs.take(k) + stream_chunks(rems[k] as nat)
            },
    decreases n,
{
    if n == 0 {
        assert(cs.take(0) + stream_chunks(rems[0] as nat) =~= stream_chunks(rems[0] as nat));
    } else {
        lemma_stream_prefix(rems, cs, n - 1);
        let i = n - 1;
        assert(rems[i] + chunk_offset(cs, i) == rems[0]);
        assert(rems[i + 1] == rems[i] - cs[i]);
        assert(stream_chunks(rems[i] as nat) == seq![cs[i]].add(stream_chunks(rems[i + 1] as nat)));
        assert(cs.take(i + 1) =~= cs.take(i).push(cs[i]));
        assert(cs.take(i) + (seq![cs[i]] + stream_chunks(rems[i + 1] as nat)) =~= cs.take(i + 1)
            + stream_chunks(rems[i + 1] as nat));
    }
}

/// Whether `f`'s call on chunk `i` of `chunks`, at its offset, returned
/// `result`.
pub open spec fn chunk_call<F: FnMut(usize, usize) -> Result<(), &'static str>>(
    f: F,
    chunks: Seq<usize>,
    i: int,
    result: Result<(), &'static str>,
) -> bool {
    call_ensures(f, (chunks[i], chunk_offset(chunks, i) as usize), result)
}

/// The calls on chunks `0..k` returned `Ok`, and either `k` is the number
/// of chunks or the call on chunk `k` returned an error.
pub open spec fn stopped_after<F: FnMut(usize, usize) -> Result<(), &'static str>>(
    f: F,
    chunks: Seq<usize>,
    k: int,
) -> bool {
    &&& 0 <= k <= chunks.len()
    &&& forall|i: int| 0 <= i < k ==> #[trigger] chunk_call(f, chunks, i, Ok(()))
    &&& k == chunks.len() || exists|e: &'static str| #[trigger] chunk_call(f, chunks, k, Err(e))
}

/// Runs `transfer_fn(chunk_size, offset)` over the chunks of a transfer of
/// `total_bytes`, in order and at consecutive offsets, stopping at the first
/// failed chunk. Returns `None` when every chunk was transferred, and
/// `Some(k)` when the call on chunk `k` failed and the transfer was
/// interrupted there (the calls on chunks `0..k` succeeded).
pub fn process_data_stream<F: FnMut(usize, usize) -> Result<(), &'static str>>(
    total_bytes: usize,
    transfer_fn: F,
) -> (r: Option<usize>)
    requires
        forall|chunk_size: usize, offset: usize| call_requires(transfer_fn, (chunk_size, offset)),
    ensures
        match r {
            None => stopped_after(transfer_fn, stream_chunks(total_bytes as nat), stream_chunks(
                total_bytes as nat,
            ).len() as int),
            Some(k) => k < stream_chunks(total_bytes as nat).len() && stopped_after(
                transfer_fn,
                stream_chunks(total_bytes as nat),
                k as int,
            ),
        },
{
    let ghost chunks = stream_chunks(total_bytes as nat);
    let mut callback = transfer_fn;
    let mut stream = MatchChunkStream::new(total_bytes);
    let mut offset: usize = 0;
    let ghost mut k: int = 0;
    let mut index: usize = 0;
    let mut failed: Option<usize> = None;
    loop
        invariant_except_break
            callback == transfer_fn,
            forall|chunk_size: usize, offset: usize| call_requires(transfer_fn, (chunk_size, offset)),
            offset + stream.remaining_spec() == total_bytes,
            0 <= k <= chunks.len(),
            index == k,
            index <= offset,
            failed is None,
            chunks == chunks.take(k) + stream_chunks(stream.remaining_spec() as nat),
            offset == chunk_offset(chunks, k),
            forall|i: int| 0 <= i < k ==> #[trigger] chunk_call(transfer_fn, chunks, i, Ok(())),
        ensures
            stopped_after(transfer_fn, chunks, k),
            match failed {
                None => k == chunks.len(),
                Some(f) => f == k && k < chunks.len(),
            },
        decreases stream.remaining_spec(),
    {
        let ghost rem = stream.remaining_spec();
        match stream.next() {
            None => {
                assert(stream_chunks(0) =~= Seq::<usize>::empty());
                assert(chunks.take(k) =~= chunks);
                break;
            },
            Some(chunk_size) => {
                assert(chunks[k] == chunk_size) by {
                    assert((chunks.take(k) + stream_chunks(rem as nat))[k] == stream_chunks(rem as nat)[0]);
                }
                let result = callback(chunk_size, offset);
                assert(call_ensures(transfer_fn, (chunk_size, offset), result));
                if let Err(e) = result {
                    assert(chunk_call(transfer_fn, chunks, k, Err(e)));
                    failed = Some(index);
                    break;
                }
                proof {
                    if let Ok(u) = result {
                        assert(u == ());
                        assert(result == Ok::<(), &'static str>(()));
                    }
                }
                assert(chunk_call(transfer_fn, chunks, k, Ok(())));
                proof {
                    assert(chunks.take(k + 1) =~= chunks.take(k).push(chunk_size));
                    assert(chunks == chunks.take(k + 1) + stream_chunks(stream.remaining_spec() as nat));
                    k = k + 1;
                }
                offset = offset + chunk_size;
                index = index + 1;
                assert(index <= offset);
            },
        }
    }
    assert(stopped_after(transfer_fn, chunks, k));
    failed
}

} // verus!
