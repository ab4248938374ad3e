use vstd::prelude::*;
use vstd::arithmetic::div_mod::lemma_fundamental_div_mod;

verus! {

/// Target size of one extracted chunk: 20 MB, a safety margin below the
/// remote endpoint's 25 MB request ceiling.
pub const TARGET_CHUNK_BYTES: usize = 20 * 1024 * 1024;

/// A chunk whose clamped duration falls below this many milliseconds is
/// skipped: neither extracted nor transcribed.
pub const MIN_CHUNK_DURATION_MS: u64 = 100;

/// How a large payload is split: the number of chunks and the common target
/// duration of each chunk in milliseconds.  The final chunk's effective
/// duration is clamped so that it never reaches past the total duration.
pub struct ChunkPlan {
    pub chunk_count: usize,
    pub chunk_duration_ms: u64,
}

/// One chunk to extract: its 0-based index, its start offset and its clamped
/// duration, both in milliseconds.
#[derive(PartialEq, Eq, Structural, Clone, Copy, Debug)]
pub struct ChunkSpec {
    pub index: usize,
    pub start_ms: u64,
    pub duration_ms: u64,
}

/// Number of chunks for a payload of the given size: the size divided by the
/// target chunk size, rounded up, and never less than one.
pub open spec fn spec_chunk_count(file_size_bytes: nat) -> nat {
    if file_size_bytes == 0 {
        1
    } else {
        ((file_size_bytes - 1) / (TARGET_CHUNK_BYTES as int) + 1) as nat
    }
}

/// Target duration of each chunk: the total duration divided by the chunk
/// count, rounded up, so that the chunks always cover the whole recording.
pub open spec fn spec_chunk_duration_ms(total_ms: nat, count: nat) -> nat
    recommends
        count >= 1,
{
    if total_ms == 0 {
        0
    } else {
        ((total_ms - 1) / (count as int) + 1) as nat
    }
}

/// Start offset of chunk `i`.
pub open spec fn spec_chunk_start_ms(i: nat, dur: nat) -> nat {
    i * dur
}

/// Effective duration of chunk `i`: the target duration, clamped so that the
/// chunk never reaches past the total duration.
pub open spec fn spec_clamped_ms(i: nat, dur: nat, total: nat) -> nat {
    if i * dur >= total {
        0
    } else if total - i * dur < dur {
        (total - i * dur) as nat
    } else {
        dur
    }
}

/// Sum of the clamped durations of the first `k` chunks.
pub open spec fn spec_sum_clamped(k: nat, dur: nat, total: nat) -> nat
    decreases k,
{
    if k == 0 {
        0
    } else {
        spec_sum_clamped((k - 1) as nat, dur, total) + spec_clamped_ms((k - 1) as nat, dur, total)
    }
}

/// The chunks of the first `k` indices that are actually extracted: those
/// whose clamped duration reaches the minimum threshold, in index order.
pub open spec fn spec_chunk_specs(k: nat, dur: nat, total: nat) -> Seq<ChunkSpec>
    decreases k,
{
    if k == 0 {
        Seq::empty()
    } else {
        let i = (k - 1) as nat;
        let prev = spec_chunk_specs(i, dur, total);
        if spec_clamped_ms(i, dur, total) >= MIN_CHUNK_DURATION_MS {
            prev.push(ChunkSpec {
                index: i as usize,
                start_ms: (i * dur) as u64,
                duration_ms: spec_clamped_ms(i, dur, total) as u64,
            })
        } else {
            prev
        }
    }
}

/// Computes the chunking plan for a payload of `file_size_bytes` bytes whose
/// total playable duration is `total_duration_ms` milliseconds.
pub fn plan(file_size_bytes: usize, total_duration_ms: u64) -> (p: ChunkPlan)
    ensures
        p.chunk_count == spec_chunk_count(file_size_bytes as nat),
        p.chunk_duration_ms == spec_chunk_duration_ms(
            total_duration_ms as nat,
            p.chunk_count as nat,
        ),
        1 <= p.chunk_count,
{
    let chunk_count: usize = if file_size_bytes == 0 {
        1
    } else {
        (file_size_bytes - 1) / TARGET_CHUNK_BYTES + 1
    };
    let chunk_duration_ms: u64 = if total_duration_ms == 0 {
        0
    } else {
        (total_duration_ms - 1) / (chunk_count as u64) + 1
    };
    ChunkPlan { chunk_count, chunk_duration_ms }
}

/// The chunk count is the file size in target-chunk units rounded up, and is
/// at least one: for a non-empty payload, `count` chunks of the target size
/// are enough to hold it, while `count - 1` are not.
pub proof fn lemma_chunk_count_is_ceiling(file_size_bytes: nat)
    ensures
        spec_chunk_count(file_size_bytes) >= 1,
        file_size_bytes == 0 ==> spec_chunk_count(file_size_bytes) == 1,
        file_size_bytes > 0 ==> spec_chunk_count(file_size_bytes) * (TARGET_CHUNK_BYTES as nat)
            >= file_size_bytes,
        file_size_bytes > 0 ==> (spec_chunk_count(file_size_bytes) - 1) * (
        TARGET_CHUNK_BYTES as nat) < file_size_bytes,
{
    if file_size_bytes > 0 {
        let t = TARGET_CHUNK_BYTES as int;
        let s = file_size_bytes as int;
        let d = (s - 1) / t;
        lemma_fundamental_div_mod(s - 1, t);
        assert((d + 1) * t == d * t + t) by (nonlinear_arith);
        assert(d * t <= s - 1) by {
            assert(s - 1 == t * d + (s - 1) % t);
            assert(t * d == d * t) by (nonlinear_arith);
        }
    }
}

/// The common chunk duration is the total duration in `count` equal parts,
/// rounded up: `count` chunks of that duration always cover the recording,
/// and the duration never exceeds the total.
pub proof fn lemma_chunk_duration_covers(total_ms: nat, count: nat)
    requires
        count >= 1,
    ensures
        spec_chunk_duration_ms(total_ms, count) * count >= total_ms,
        spec_chunk_duration_ms(total_ms, count) <= total_ms,
        total_ms > 0 ==> spec_chunk_duration_ms(total_ms, count) >= 1,
{
    if total_ms > 0 {
        let c = count as int;
        let s = total_ms as int;
        let d = (s - 1) / c;
        lemma_fundamental_div_mod(s - 1, c);
        assert((d + 1) * c == d * c + c) by (nonlinear_arith);
        assert(d * c <= s - 1 && d >= 0) by {
            assert(s - 1 == c * d + (s - 1) % c);
            assert(c * d == d * c) by (nonlinear_arith);
        }
        assert(d + 1 <= s) by {
            assert(c * d >= d) by (nonlinear_arith)
                requires
                    c >= 1,
                    d >= 0,
            ;
            assert(c * d == d * c) by (nonlinear_arith);
        }
    }
}

proof fn lemma_sum_clamped_partial(k: nat, dur: nat, total: nat)
    ensures
        spec_sum_clamped(k, dur, total) == if k * dur >= total {
            total
        } else {
            (k * dur) as nat
        },
    decreases k,
{
    if k > 0 {
        let i = (k - 1) as nat;
        lemma_sum_clamped_partial(i, dur, total);
        assert(k * dur == i * dur + dur) by (nonlinear_arith)
            requires
                k >= 1,
                i == k - 1,
        ;
        if i * dur >= total {
            assert(spec_clamped_ms(i, dur, total) == 0);
            assert(k * dur >= total);
        } else if total - i * dur < dur {
            assert(spec_sum_clamped(k, dur, total) == i * dur + (total - i * dur));
            assert(k * dur >= total);
        } else {
            assert(spec_sum_clamped(k, dur, total) == i * dur + dur);
        }
    } else {
        assert(k * dur == 0) by (nonlinear_arith)
            requires
                k == 0,
        ;
    }
}

/// The clamped durations of a plan's chunks sum to exactly the total
/// duration: splitting loses no audio and invents none.  Moreover no chunk
/// that is actually extracted reaches past the end of the recording.
pub proof fn lemma_chunks_cover_duration(total_ms: nat, count: nat)
    requires
        count >= 1,
    ensures
        spec_sum_clamped(count, spec_chunk_duration_ms(total_ms, count), total_ms) == total_ms,
        forall|i: nat|
            i * spec_chunk_duration_ms(total_ms, count) < total_ms ==> spec_chunk_start_ms(
                i,
                spec_chunk_duration_ms(total_ms, count),
            ) + #[trigger] spec_clamped_ms(i, spec_chunk_duration_ms(total_ms, count), total_ms)
                <= total_ms,
{
    let dur = spec_chunk_duration_ms(total_ms, count);
    lemma_chunk_duration_covers(total_ms, count);
    lemma_sum_clamped_partial(count, dur, total_ms);
    assert(count * dur == dur * count) by (nonlinear_arith);
}

/// Builds the list of chunks to extract for the given plan: every chunk whose
/// clamped duration reaches the minimum threshold, in ascending index order.
pub fn chunk_specs(p: &ChunkPlan, total_duration_ms: u64) -> (v: Vec<ChunkSpec>)
    ensures
        v@ == spec_chunk_specs(
            p.chunk_count as nat,
            p.chunk_duration_ms as nat,
            total_duration_ms as nat,
        ),
{
    let count = p.chunk_count;
    let dur = p.chunk_duration_ms;
    let total = total_duration_ms;
    let mut v: Vec<ChunkSpec> = Vec::new();
    let mut cur: u64 = 0;
    let mut i: usize = 0;
    while i < count
        invariant
            i <= count,
            v@ == spec_chunk_specs(i as nat, dur as nat, total as nat),
            i as nat * dur as nat <= total as nat ==> cur == i as nat * dur as nat,
            i as nat * dur as nat > total as nat ==> cur == total,
        decreases count - i,
    {
        let ghost gi = i as nat;
        let ghost gd = dur as nat;
        let ghost gt = total as nat;
        assert((gi + 1) * gd == gi * gd + gd) by (nonlinear_arith);
        if cur < total {
            let clamped: u64 = if total - cur < dur {
                total - cur
            } else {
                dur
            };
            assert(clamped == spec_clamped_ms(gi, gd, gt));
            if clamped >= MIN_CHUNK_DURATION_MS {
                v.push(ChunkSpec { index: i, start_ms: cur, duration_ms: clamped });
            }
            if dur > total - cur {
                cur = total;
            } else {
                cur = cur + dur;
            }
        } else {
            assert(spec_clamped_ms(gi, gd, gt) == 0);
        }
        i = i + 1;
    }
    v
}

/// Whether the extraction list holds an entry for chunk index `i`.
pub open spec fn spec_has_chunk(s: Seq<ChunkSpec>, i: nat) -> bool {
    exists|j: int| 0 <= j < s.len() && (#[trigger] s[j]).index == i
}

/// Exactly the chunks whose clamped duration reaches the minimum threshold
/// appear in the extraction list, in ascending index order, each carrying its
/// true start offset and clamped duration and never reaching past the total;
/// a chunk whose clamped duration falls below the threshold is excluded
/// outright.
pub proof fn lemma_chunk_specs_exact(count: nat, dur: nat, total: nat)
    requires
        total <= u64::MAX,
        count <= usize::MAX,
    ensures
        ({
            let s = spec_chunk_specs(count, dur, total);
            &&& forall|j: int|
                0 <= j < s.len() ==> {
                    let c = #[trigger] s[j];
                    &&& c.index < count
                    &&& c.duration_ms >= MIN_CHUNK_DURATION_MS
                    &&& c.start_ms == spec_chunk_start_ms(c.index as nat, dur)
                    &&& c.duration_ms == spec_clamped_ms(c.index as nat, dur, total)
                    &&& c.start_ms + c.duration_ms <= total
                }
            &&& forall|j1: int, j2: int|
                0 <= j1 < j2 < s.len() ==> (#[trigger] s[j1]).index < (#[trigger] s[j2]).index
            &&& forall|i: nat|
                i < count ==> (#[trigger] spec_has_chunk(s, i) <==> spec_clamped_ms(i, dur, total)
                    >= MIN_CHUNK_DURATION_MS)
        }),
    decreases count,
{
    if count > 0 {
        let i = (count - 1) as nat;
        lemma_chunk_specs_exact(i, dur, total);
        let prev = spec_chunk_specs(i, dur, total);
        let s = spec_chunk_specs(count, dur, total);
        if spec_clamped_ms(i, dur, total) >= MIN_CHUNK_DURATION_MS {
            assert(i * dur < total);
            let c = ChunkSpec {
                index: i as usize,
                start_ms: (i * dur) as u64,
                duration_ms: spec_clamped_ms(i, dur, total) as u64,
            };
            assert(s == prev.push(c));
            assert(forall|j: int| 0 <= j < prev.len() ==> #[trigger] s[j] == prev[j]);
            assert(s[s.len() - 1] == c);
            assert(c.start_ms + c.duration_ms <= total);
            assert forall|i2: nat| i2 < count implies (#[trigger] spec_has_chunk(s, i2)
                <==> spec_clamped_ms(i2, dur, total) >= MIN_CHUNK_DURATION_MS) by {
                if i2 < i {
                    if spec_has_chunk(prev, i2) {
                        let j = choose|j: int| 0 <= j < prev.len() && (#[trigger] prev[j]).index
                            == i2;
                        assert((s[j]).index == i2);
                    }
                    if spec_has_chunk(s, i2) {
                        let j = choose|j: int| 0 <= j < s.len() && (#[trigger] s[j]).index == i2;
                        assert(j < prev.len() || s[j] == c);
                        assert(j < prev.len() && prev[j].index == i2);
                    }
                } else {
                    assert(i2 == i);
                    assert((s[s.len() - 1]).index == i);
                    assert(spec_has_chunk(s, i));
                }
            }
        } else {
            assert(s == prev);
            assert forall|i2: nat| i2 < count implies (#[trigger] spec_has_chunk(s, i2)
                <==> spec_clamped_ms(i2, dur, total) >= MIN_CHUNK_DURATION_MS) by {
                if i2 < i {
                } else {
                    assert(i2 == i);
                    if spec_has_chunk(s, i) {
                        let j = choose|j: int| 0 <= j < s.len() && (#[trigger] s[j]).index == i;
                        assert(s[j].index < i);
                    }
                }
            }
        }
    }
}

} // verus!
