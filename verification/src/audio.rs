//! Captured audio on its way to the services: frames are mixed to one channel, the rate is
//! changed, and the samples become 16-bit PCM. What a sample is, and how samples are mixed,
//! blended and rounded, the caller says.
use vstd::prelude::*;

verus! {

/// Where an output sample lies between two input samples: the index of the left one, and
/// how far it is from there.
#[derive(Debug)]
pub struct GridPoint<P> {
    pub left: usize,
    pub frac: P,
}

/// The frame `i` of interleaved samples: those from `i * channels` on, as many as there are
/// channels, or what is left of them.
pub open spec fn frame<T>(input: Seq<T>, channels: int, i: int) -> Seq<T> {
    let start = i * channels;
    let end = if start + channels <= input.len() {
        start + channels
    } else {
        input.len() as int
    };
    input.subrange(start, end)
}

/// The number of frames that are complete.
pub open spec fn full_frames(len: int, channels: int) -> int {
    len / channels
}

/// The number of frames, an incomplete one at the end included.
pub open spec fn all_frames(len: int, channels: int) -> int {
    (len + channels - 1) / channels
}

/// The first `count` frames, one after the other.
pub open spec fn joined_frames<T>(input: Seq<T>, channels: int, count: int) -> Seq<T>
    decreases count,
{
    if count <= 0 {
        seq![]
    } else {
        joined_frames(input, channels, count - 1) + frame(input, channels, count - 1)
    }
}

/// Whether `mix` may give `out` of the samples `part`.
pub open spec fn mixes<T, S, F: Fn(&[T]) -> S>(mix: F, part: Seq<T>, out: S) -> bool {
    exists|x: &[T]| x@ == part && #[trigger] call_ensures(mix, (x,), out)
}

/// Whether `quantize` may give of the sample `s` the 16-bit number whose bytes are `low` and
/// `high`, in two's complement.
pub open spec fn rounds<S, Q: Fn(S) -> i16>(quantize: Q, s: S, low: u8, high: u8) -> bool {
    exists|p: i16|
        #[trigger] call_ensures(quantize, (s,), p) && low + 256 * high == p + (if p < 0 {
            65536int
        } else {
            0
        })
}

/// Whether `blend` may give of the samples `a` and `b`, `t` of the way from one to the other, a
/// sample of which `quantize` may give the 16-bit number whose bytes are `low` and `high`.
pub open spec fn blends_and_rounds<S, P, B: Fn(S, S, P) -> S, Q: Fn(S) -> i16>(
    blend: B,
    quantize: Q,
    a: S,
    b: S,
    t: P,
    low: u8,
    high: u8,
) -> bool {
    exists|s: S| #[trigger] call_ensures(blend, (a, b, t), s) && rounds(quantize, s, low, high)
}

/// Whether `out` holds for each of the first `count` frames what `mix` gives of it.
pub open spec fn is_mixed<T, S, F: Fn(&[T]) -> S>(
    out: Seq<S>,
    input: Seq<T>,
    channels: int,
    count: int,
    mix: F,
) -> bool {
    &&& out.len() == count
    &&& forall|i: int| 0 <= i < count ==> mixes(mix, frame(input, channels, i), #[trigger] out[i])
}

/// The index right of `left` in an input of `len` samples: the next one, or the last.
pub open spec fn right_index(left: int, len: int) -> int {
    if left + 1 <= len - 1 {
        left + 1
    } else {
        len - 1
    }
}

/// Whether each point lies in an input of `len` samples.
pub open spec fn grid_in<P>(grid: Seq<GridPoint<P>>, len: int) -> bool {
    forall|i: int| 0 <= i < grid.len() ==> (#[trigger] grid[i]).left < len
}

/// Whether `out` holds for each point what `blend` gives of the two samples around it.
pub open spec fn is_blended<S, P, F: Fn(S, S, P) -> S>(
    out: Seq<S>,
    input: Seq<S>,
    grid: Seq<GridPoint<P>>,
    blend: F,
) -> bool {
    &&& out.len() == grid.len()
    &&& forall|i: int|
        0 <= i < grid.len() ==> call_ensures(
            blend,
            (
                input[grid[i].left as int],
                input[right_index(grid[i].left as int, input.len() as int)],
                grid[i].frac,
            ),
            #[trigger] out[i],
        )
}

/// Whether `pcm` holds for each sample what `quantize` gives of it.
pub open spec fn is_quantized<S, F: Fn(S) -> i16>(
    pcm: Seq<i16>,
    samples: Seq<S>,
    quantize: F,
) -> bool {
    &&& pcm.len() == samples.len()
    &&& forall|i: int|
        0 <= i < samples.len() ==> call_ensures(quantize, (samples[i],), #[trigger] pcm[i])
}

/// Whether `bytes` is the PCM of `samples`, as `quantize` rounds them.
pub open spec fn is_pcm_of<S, F: Fn(S) -> i16>(
    bytes: Seq<u8>,
    samples: Seq<S>,
    quantize: F,
) -> bool {
    exists|pcm: Seq<i16>|
        #[trigger] is_quantized(pcm, samples, quantize) && bytes == pcm_bytes(pcm)
}

/// The value of a 16-bit sample as an unsigned number, in two's complement.
pub open spec fn unsigned(p: i16) -> int {
    if p >= 0 {
        p as int
    } else {
        p + 65536
    }
}

/// The bytes of 16-bit samples: two for each, the low one first.
pub open spec fn pcm_bytes(pcm: Seq<i16>) -> Seq<u8> {
    Seq::new(
        2 * pcm.len(),
        |i: int|
            if i % 2 == 0 {
                (unsigned(pcm[i / 2]) % 256) as u8
            } else {
                (unsigned(pcm[i / 2]) / 256) as u8
            },
    )
}

/// The sample whose bytes are `low` and `high`.
pub open spec fn sample_of(low: u8, high: u8) -> int {
    let u = low + 256 * high;
    if u < 32768 {
        u
    } else {
        u - 65536
    }
}

/// The samples of 16-bit PCM bytes.
pub open spec fn pcm_samples(bytes: Seq<u8>) -> Seq<i16> {
    Seq::new(
        bytes.len() / 2,
        |i: int| sample_of(bytes[2 * i], bytes[2 * i + 1]) as i16,
    )
}

fn index_right(left: usize, len: usize) -> (r: usize)
    requires
        left < len,
    ensures
        r == right_index(left as int, len as int),
{
    if left < len - 1 {
        left + 1
    } else {
        len - 1
    }
}

fn mix_each<T, S, F: Fn(&[T]) -> S>(input: &[T], channels: usize, count: usize, mix: F) -> (r:
    Vec<S>)
    requires
        channels > 0,
        count <= all_frames(input@.len() as int, channels as int),
        forall|x: &[T]| #[trigger] call_requires(mix, (x,)),
    ensures
        is_mixed(r@, input@, channels as int, count as int, mix),
{
    let mut r: Vec<S> = Vec::new();
    let mut start: usize = 0;
    assert(0 * channels == 0) by (nonlinear_arith);
    for i in 0..count
        invariant
            channels > 0,
            count <= all_frames(input@.len() as int, channels as int),
            forall|x: &[T]| #[trigger] call_requires(mix, (x,)),
            i < count ==> start == i * channels,
            is_mixed(r@, input@, channels as int, i as int, mix),
    {
        proof {
            lemma_frame_starts_inside(input@.len() as int, channels as int, i as int);
        }
        let end: usize = if channels <= input.len() - start {
            start + channels
        } else {
            input.len()
        };
        let x = vstd::slice::slice_subrange(input, start, end);
        let out = mix(x);
        assert(x@ == frame(input@, channels as int, i as int));
        assert(mixes(mix, frame(input@, channels as int, i as int), out));
        r.push(out);
        proof {
            if i + 1 < count {
                lemma_frame_starts_inside(input@.len() as int, channels as int, i + 1);
                assert((i + 1) * channels == i * channels + channels) by (nonlinear_arith);
            }
        }
        start = end;
    }
    r
}

proof fn lemma_frame_starts_inside(len: int, channels: int, i: int)
    requires
        len >= 0,
        channels > 0,
        0 <= i < all_frames(len, channels),
    ensures
        0 <= i * channels < len,
{
    let q = all_frames(len, channels);
    assert(q * channels <= len + channels - 1) by (nonlinear_arith)
        requires
            channels > 0,
            q == (len + channels - 1) / channels,
    ;
    assert(0 <= i * channels && i * channels + channels <= q * channels) by (nonlinear_arith)
        requires
            channels > 0,
            0 <= i < q,
    ;
}

/// Mixes the frames of interleaved samples, each by `mix`, an incomplete one at the end
/// included, and adds them to `samples`. Nothing comes of no channels.
pub fn push_frames<T, S, F: Fn(&[T]) -> S>(
    input: &[T],
    channels: usize,
    samples: &mut Vec<S>,
    mix: F,
)
    requires
        forall|x: &[T]| #[trigger] call_requires(mix, (x,)),
    ensures
        channels == 0 ==> final(samples)@ == old(samples)@,
        channels > 0 ==> exists|new: Seq<S>|
            final(samples)@ == old(samples)@ + new && #[trigger] is_mixed(
                new,
                input@,
                channels as int,
                all_frames(input@.len() as int, channels as int),
                mix,
            ),
        final(samples)@.len() >= old(samples)@.len(),
        final(samples)@.take(old(samples)@.len() as int) == old(samples)@,
        channels > 0 ==> input@.len() <= (final(samples)@.len() - old(samples)@.len()) * channels
            < input@.len() + channels,
        channels > 0 ==> forall|i: int|
            0 <= i < final(samples)@.len() - old(samples)@.len() ==> mixes(
                mix,
                input@.subrange(
                        i * channels,
                        if i * channels + channels <= input@.len() {
                            i * channels + channels
                        } else {
                            input@.len() as int
                        },
                    ),
                #[trigger] final(samples)@[old(samples)@.len() + i],
            ),
{
    if channels == 0 {
        assert(samples@.take(samples@.len() as int) =~= samples@);
        return;
    }
    proof {
        lemma_all_frames(input@.len() as int, channels as int);
    }
    let count: usize = if input.len() % channels == 0 {
        input.len() / channels
    } else {
        input.len() / channels + 1
    };
    let mut new = mix_each(input, channels, count, mix);
    let ghost added = new@;
    let ghost before = samples@;
    samples.append(&mut new);
    proof {
        law_frame_count(input@.len() as int, channels as int);
        assert(samples@ == before + added);
        assert(samples@.take(before.len() as int) =~= before);
        assert forall|i: int| 0 <= i < samples@.len() - before.len() implies mixes(
            mix,
            input@.subrange(
                    i * channels,
                    if i * channels + channels <= input@.len() {
                        i * channels + channels
                    } else {
                        input@.len() as int
                    },
                ),
            #[trigger] samples@[before.len() + i],
        ) by {
            assert(samples@[before.len() + i] == added[i]);
            assert(mixes(mix, frame(input@, channels as int, i), added[i]));
        }
    }
}

proof fn lemma_all_frames(len: int, channels: int)
    requires
        len >= 0,
        channels > 0,
    ensures
        all_frames(len, channels) == len / channels + if len % channels == 0 {
            0int
        } else {
            1
        },
        full_frames(len, channels) <= all_frames(len, channels),
        len / channels <= len,
        len % channels != 0 ==> len / channels + 1 <= len,
{
    let q = len / channels;
    let r = len % channels;
    vstd::arithmetic::div_mod::lemma_fundamental_div_mod(len, channels);
    vstd::arithmetic::div_mod::lemma_mod_bound(len, channels);
    if r == 0 {
        assert((len + channels - 1) / channels == q) by (nonlinear_arith)
            requires
                channels > 0,
                len == channels * q,
        ;
    } else {
        assert((len + channels - 1) / channels == q + 1) by (nonlinear_arith)
            requires
                channels > 0,
                len == channels * q + r,
                0 < r < channels,
        ;
    }
    assert(q >= 0 && q <= channels * q) by (nonlinear_arith)
        requires
            channels > 0,
            q == len / channels,
            len >= 0,
    ;
}

/// Mixes interleaved samples to one channel: each complete frame by `mix`. The samples of
/// one channel, or of none, stay as they are.
pub fn downmix_to_mono<S: Copy, F: Fn(&[S]) -> S>(samples: &[S], channels: u16, mix: F) -> (r: Vec<
    S,
>)
    requires
        forall|x: &[S]| #[trigger] call_requires(mix, (x,)),
    ensures
        channels <= 1 ==> r@ == samples@,
        channels > 1 ==> is_mixed(
            r@,
            samples@,
            channels as int,
            full_frames(samples@.len() as int, channels as int),
            mix,
        ),
        channels > 1 ==> r@.len() == samples@.len() / channels as nat,
        channels > 1 ==> forall|i: int|
            0 <= i < r@.len() ==> mixes(
                mix,
                samples@.subrange(i * channels, i * channels + channels),
                #[trigger] r@[i],
            ),
{
    if channels <= 1 {
        return vstd::slice::slice_to_vec(samples);
    }
    let width: usize = channels as usize;
    proof {
        lemma_all_frames(samples@.len() as int, channels as int);
    }
    let r = mix_each(samples, width, samples.len() / width, mix);
    assert forall|i: int| 0 <= i < r@.len() implies mixes(
            mix,
            samples@.subrange(i * channels, i * channels + channels),
            #[trigger] r@[i],
        ) by {
        law_full_frame(samples@, channels as int, i);
        assert(mixes(mix, frame(samples@, channels as int, i), r@[i]));
    }
    r
}

/// Takes all samples out of the buffer.
pub fn drain_samples<S>(samples: &mut Vec<S>) -> (r: Vec<S>)
    ensures
        r@ == old(samples)@,
        final(samples)@.len() == 0,
{
    let mut r: Vec<S> = Vec::new();
    std::mem::swap(&mut r, samples);
    r
}

/// Whether each point lies in an input of `len` samples.
pub fn grid_fits<P>(grid: &[GridPoint<P>], len: usize) -> (r: bool)
    ensures
        r == grid_in(grid@, len as int),
        r <==> forall|i: int| 0 <= i < grid@.len() ==> (#[trigger] grid@[i]).left < len,
{
    for i in 0..grid.len()
        invariant
            forall|j: int| 0 <= j < i ==> (#[trigger] grid@[j]).left < len,
    {
        if grid[i].left >= len {
            assert(grid@[i as int].left >= len);
            return false;
        }
    }
    true
}

fn blend_each<S: Copy, P: Copy, B: Fn(S, S, P) -> S>(
    input: &[S],
    grid: &[GridPoint<P>],
    blend: B,
) -> (r: Vec<S>)
    requires
        grid_in(grid@, input@.len() as int),
        forall|a: S, b: S, t: P| #[trigger] call_requires(blend, (a, b, t)),
    ensures
        is_blended(r@, input@, grid@, blend),
{
    let mut r: Vec<S> = Vec::new();
    for i in 0..grid.len()
        invariant
            grid_in(grid@, input@.len() as int),
            forall|a: S, b: S, t: P| #[trigger] call_requires(blend, (a, b, t)),
            is_blended(r@, input@, grid@.take(i as int), blend),
    {
        let ghost before = r@;
        assert(grid@[i as int].left < input@.len());
        let left = grid[i].left;
        let right = index_right(left, input.len());
        r.push(blend(input[left], input[right], grid[i].frac));
        assert forall|j: int| 0 <= j < i + 1 implies call_ensures(
            blend,
            (
                input@[grid@.take(i + 1)[j].left as int],
                input@[right_index(grid@.take(i + 1)[j].left as int, input@.len() as int)],
                grid@.take(i + 1)[j].frac,
            ),
            #[trigger] r@[j],
        ) by {
            if j < i {
                assert(grid@.take(i as int)[j] == grid@[j]);
                assert(r@[j] == before[j]);
            }
        }
    }
    assert(grid@.take(grid@.len() as int) =~= grid@);
    r
}

fn quantize_each<S: Copy, Q: Fn(S) -> i16>(samples: &[S], quantize: Q) -> (r: Vec<i16>)
    requires
        forall|x: S| #[trigger] call_requires(quantize, (x,)),
    ensures
        is_quantized(r@, samples@, quantize),
{
    let mut r: Vec<i16> = Vec::new();
    for i in 0..samples.len()
        invariant
            forall|x: S| #[trigger] call_requires(quantize, (x,)),
            r@.len() == i,
            forall|j: int| 0 <= j < i ==> call_ensures(quantize, (samples@[j],), #[trigger] r@[j]),
    {
        r.push(quantize(samples[i]));
    }
    r
}

/// The bytes of 16-bit samples: two for each, the low one first.
pub fn pcm16_le_bytes(pcm: &[i16]) -> (r: Vec<u8>)
    ensures
        r@ == pcm_bytes(pcm@),
{
    let mut r: Vec<u8> = Vec::new();
    for i in 0..pcm.len()
        invariant
            r@ == pcm_bytes(pcm@.take(i as int)),
    {
        let ghost before = r@;
        let p = pcm[i];
        let u: u32 = if p >= 0 {
            p as u32
        } else {
            (p as i32 + 65536) as u32
        };
        r.push((u % 256) as u8);
        r.push((u / 256) as u8);
        assert(u == unsigned(p));
        assert forall|j: int| 0 <= j < 2 * (i + 1) implies r@[j] == pcm_bytes(pcm@.take(i + 1))[j] by {
            if j < 2 * i {
                assert(before[j] == pcm_bytes(pcm@.take(i as int))[j]);
            }
        }
        assert(r@ =~= pcm_bytes(pcm@.take(i + 1)));
    }
    assert(pcm@.take(pcm@.len() as int) =~= pcm@);
    r
}

/// Brings mono samples to another rate and makes 16-bit PCM of them. `grid` says where the
/// output samples lie in the input, `blend` what lies between two input samples, and
/// `quantize` rounds. At equal rates the samples stay as they are.
pub fn resample_to_pcm16<S: Copy, P: Copy, B: Fn(S, S, P) -> S, Q: Fn(S) -> i16>(
    input: &[S],
    from_hz: u32,
    to_hz: u32,
    grid: &[GridPoint<P>],
    blend: B,
    quantize: Q,
) -> (r: Vec<u8>)
    requires
        input@.len() > 0 && from_hz != to_hz ==> grid_in(grid@, input@.len() as int),
        forall|a: S, b: S, t: P| #[trigger] call_requires(blend, (a, b, t)),
        forall|x: S| #[trigger] call_requires(quantize, (x,)),
    ensures
        input@.len() == 0 ==> r@.len() == 0,
        input@.len() > 0 && from_hz == to_hz ==> is_pcm_of(r@, input@, quantize),
        input@.len() > 0 && from_hz != to_hz ==> exists|mono: Seq<S>|
            #[trigger] is_blended(mono, input@, grid@, blend) && is_pcm_of(r@, mono, quantize),
        input@.len() > 0 && from_hz == to_hz ==> r@.len() == 2 * input@.len(),
        input@.len() > 0 && from_hz == to_hz ==> forall|i: int|
            0 <= i < input@.len() ==> rounds(
                quantize,
                #[trigger] input@[i],
                r@[2 * i],
                r@[2 * i + 1],
            ),
        input@.len() > 0 && from_hz != to_hz ==> r@.len() == 2 * grid@.len(),
        input@.len() > 0 && from_hz != to_hz ==> forall|i: int|
            0 <= i < grid@.len() ==> blends_and_rounds(
                blend,
                quantize,
                input@[(#[trigger] grid@[i]).left as int],
                input@[if grid@[i].left + 1 < input@.len() {
                    grid@[i].left + 1
                } else {
                    input@.len() - 1
                }],
                grid@[i].frac,
                r@[2 * i],
                r@[2 * i + 1],
            ),
{
    if input.len() == 0 {
        return Vec::new();
    }
    if from_hz == to_hz {
        let pcm = quantize_each(input, quantize);
        let bytes = pcm16_le_bytes(pcm.as_slice());
        proof {
            assert forall|i: int| 0 <= i < input@.len() implies rounds(
                quantize,
                #[trigger] input@[i],
                bytes@[2 * i],
                bytes@[2 * i + 1],
            ) by {
                law_low_byte_first(pcm@, i);
                assert(call_ensures(quantize, (input@[i],), pcm@[i]));
            }
        }
        return bytes;
    }
    let mono = blend_each(input, grid, blend);
    let pcm = quantize_each(mono.as_slice(), quantize);
    let bytes = pcm16_le_bytes(pcm.as_slice());
    proof {
        law_resampled(bytes@, input@, grid@, mono@, blend, quantize);
    }
    bytes
}

/// Makes 16-bit PCM of mono samples at another rate: `grid` says where the output samples
/// lie in the input, `blend` what lies between two input samples, and `quantize` rounds.
pub fn resample_to_pcm16le<S: Copy, P: Copy, B: Fn(S, S, P) -> S, Q: Fn(S) -> i16>(
    input: &[S],
    grid: &[GridPoint<P>],
    blend: B,
    quantize: Q,
) -> (r: Vec<u8>)
    requires
        input@.len() > 0 ==> grid_in(grid@, input@.len() as int),
        forall|a: S, b: S, t: P| #[trigger] call_requires(blend, (a, b, t)),
        forall|x: S| #[trigger] call_requires(quantize, (x,)),
    ensures
        input@.len() == 0 ==> r@.len() == 0,
        input@.len() > 0 ==> exists|mono: Seq<S>|
            #[trigger] is_blended(mono, input@, grid@, blend) && is_pcm_of(r@, mono, quantize),
        input@.len() > 0 ==> r@.len() == 2 * grid@.len(),
        input@.len() > 0 ==> forall|i: int|
            0 <= i < grid@.len() ==> blends_and_rounds(
                blend,
                quantize,
                input@[(#[trigger] grid@[i]).left as int],
                input@[if grid@[i].left + 1 < input@.len() {
                    grid@[i].left + 1
                } else {
                    input@.len() - 1
                }],
                grid@[i].frac,
                r@[2 * i],
                r@[2 * i + 1],
            ),
{
    if input.len() == 0 {
        return Vec::new();
    }
    let mono = blend_each(input, grid, blend);
    let pcm = quantize_each(mono.as_slice(), quantize);
    let bytes = pcm16_le_bytes(pcm.as_slice());
    proof {
        law_resampled(bytes@, input@, grid@, mono@, blend, quantize);
    }
    bytes
}

/// Each sample is in one frame, in order: the frames, an incomplete one at the end included,
/// make up the input.
pub proof fn law_frames_make_up_input<T>(input: Seq<T>, channels: int)
    requires
        channels > 0,
    ensures
        joined_frames(input, channels, all_frames(input.len() as int, channels)) == input,
{
    let len = input.len() as int;
    let n = all_frames(len, channels);
    lemma_all_frames(len, channels);
    vstd::arithmetic::div_mod::lemma_fundamental_div_mod(len, channels);
    vstd::arithmetic::div_mod::lemma_mod_bound(len, channels);
    assert(n >= 0);
    lemma_joined_frames(input, channels, n);
    let q = len / channels;
    if len % channels == 0 {
        assert(n * channels == len) by (nonlinear_arith)
            requires
                n == q,
                len == channels * q,
        ;
    } else {
        let r = len % channels;
        assert(n * channels >= len) by (nonlinear_arith)
            requires
                n == q + 1,
                len == channels * q + r,
                r < channels,
        ;
    }
    assert(input.take(len) =~= input);
}

/// The complete frames make up the input but for less than one frame at its end.
pub proof fn law_full_frames_make_up_prefix<T>(input: Seq<T>, channels: int)
    requires
        channels > 0,
    ensures
        joined_frames(input, channels, full_frames(input.len() as int, channels)) == input.take(
            full_frames(input.len() as int, channels) * channels,
        ),
        0 <= input.len() - full_frames(input.len() as int, channels) * channels < channels,
{
    let len = input.len() as int;
    let n = full_frames(len, channels);
    lemma_all_frames(len, channels);
    vstd::arithmetic::div_mod::lemma_fundamental_div_mod(len, channels);
    vstd::arithmetic::div_mod::lemma_mod_bound(len, channels);
    let r = len % channels;
    assert(0 <= len - n * channels < channels) by (nonlinear_arith)
        requires
            len == channels * n + r,
            0 <= r < channels,
    ;
    lemma_joined_frames(input, channels, n);
}

proof fn lemma_joined_frames<T>(input: Seq<T>, channels: int, count: int)
    requires
        channels > 0,
        0 <= count <= all_frames(input.len() as int, channels),
    ensures
        joined_frames(input, channels, count) == input.take(
            if count * channels <= input.len() {
                count * channels
            } else {
                input.len() as int
            },
        ),
    decreases count,
{
    if count == 0 {
        assert(count * channels == 0) by (nonlinear_arith)
            requires
                count == 0,
        ;
        assert(input.take(0) =~= seq![]);
    } else {
        let i = count - 1;
        lemma_joined_frames(input, channels, i);
        lemma_frame_starts_inside(input.len() as int, channels, i);
        assert(count * channels == i * channels + channels) by (nonlinear_arith)
            requires
                count == i + 1,
        ;
        let end = if count * channels <= input.len() {
            count * channels
        } else {
            input.len() as int
        };
        assert(input.take(i * channels) + frame(input, channels, i) =~= input.take(end));
    }
}

/// What the bytes were made of can be read back from them.
pub proof fn law_pcm_round_trip(pcm: Seq<i16>)
    ensures
        pcm_samples(pcm_bytes(pcm)) == pcm,
{
    let bytes = pcm_bytes(pcm);
    assert forall|i: int| 0 <= i < pcm.len() implies pcm_samples(bytes)[i] == pcm[i] by {
        assert(bytes[2 * i] == (unsigned(pcm[i]) % 256) as u8);
        assert(bytes[2 * i + 1] == (unsigned(pcm[i]) / 256) as u8);
    }
    assert(pcm_samples(bytes) =~= pcm);
}

/// The bytes of 16-bit samples are two for each, and read with the low one first, as a number
/// in two's complement, they are the sample.
pub proof fn law_low_byte_first(pcm: Seq<i16>, i: int)
    requires
        0 <= i < pcm.len(),
    ensures
        pcm_bytes(pcm).len() == 2 * pcm.len(),
        pcm_bytes(pcm)[2 * i] + 256 * pcm_bytes(pcm)[2 * i + 1] == pcm[i] + (if pcm[i] < 0 {
            65536int
        } else {
            0
        }),
{
    let bytes = pcm_bytes(pcm);
    assert(bytes[2 * i] == (unsigned(pcm[i]) % 256) as u8);
    assert(bytes[2 * i + 1] == (unsigned(pcm[i]) / 256) as u8);
}

/// Each output sample is the blend of the two input samples around its own grid point: the
/// input sample at the point and the one after it, or the last where there is none.
pub proof fn law_blend_around_point<S, P, B: Fn(S, S, P) -> S>(
    out: Seq<S>,
    input: Seq<S>,
    grid: Seq<GridPoint<P>>,
    blend: B,
    i: int,
)
    requires
        is_blended(out, input, grid, blend),
        forall|k: int| 0 <= k < grid.len() ==> (#[trigger] grid[k]).left < input.len(),
        0 <= i < grid.len(),
    ensures
        out.len() == grid.len(),
        call_ensures(
            blend,
            (
                input[grid[i].left as int],
                input[if grid[i].left + 1 < input.len() {
                    grid[i].left + 1
                } else {
                    input.len() - 1
                }],
                grid[i].frac,
            ),
            out[i],
        ),
{
    assert(out[i] == out[i]);
}

/// With a blend that takes the left sample, output sample `i` is the input sample at its grid
/// point; with one that takes the right sample, the one after that, or the last.
pub proof fn law_blend_of_one_side<S, P, B: Fn(S, S, P) -> S>(
    out: Seq<S>,
    input: Seq<S>,
    grid: Seq<GridPoint<P>>,
    blend: B,
    i: int,
)
    requires
        is_blended(out, input, grid, blend),
        forall|k: int| 0 <= k < grid.len() ==> (#[trigger] grid[k]).left < input.len(),
        0 <= i < grid.len(),
    ensures
        (forall|a: S, b: S, t: P, s: S| #[trigger] call_ensures(blend, (a, b, t), s) ==> s == a)
            ==> out[i] == input[grid[i].left as int],
        (forall|a: S, b: S, t: P, s: S| #[trigger] call_ensures(blend, (a, b, t), s) ==> s == b)
            ==> out[i] == input[if grid[i].left + 1 < input.len() {
            grid[i].left + 1
        } else {
            input.len() - 1
        }],
{
    law_blend_around_point(out, input, grid, blend, i);
}

/// Where blend and rounding are functions of what they are given, the two bytes for grid point
/// `i` are those of the rounded blend of the two input samples around that very point, and
/// nothing else has a say in them.
pub proof fn law_resampled_by_functions<S, P, B: Fn(S, S, P) -> S, Q: Fn(S) -> i16>(
    bytes: Seq<u8>,
    input: Seq<S>,
    grid: Seq<GridPoint<P>>,
    mono: Seq<S>,
    blend: B,
    quantize: Q,
    f: spec_fn(S, S, P) -> S,
    q: spec_fn(S) -> i16,
    i: int,
)
    requires
        is_blended(mono, input, grid, blend),
        is_pcm_of(bytes, mono, quantize),
        forall|k: int| 0 <= k < grid.len() ==> (#[trigger] grid[k]).left < input.len(),
        forall|a: S, b: S, t: P, s: S|
            #[trigger] call_ensures(blend, (a, b, t), s) ==> s == f(a, b, t),
        forall|s: S, p: i16| #[trigger] call_ensures(quantize, (s,), p) ==> p == q(s),
        0 <= i < grid.len(),
    ensures
        bytes.len() == 2 * grid.len(),
        ({
            let left = grid[i].left as int;
            let right = if left + 1 < input.len() {
                left + 1
            } else {
                left
            };
            let p = q(f(input[left], input[right], grid[i].frac));
            bytes[2 * i] + 256 * bytes[2 * i + 1] == p + (if p < 0 {
                65536int
            } else {
                0
            })
        }),
{
    law_blend_around_point(mono, input, grid, blend, i);
    let pcm = choose|pcm: Seq<i16>|
        #[trigger] is_quantized(pcm, mono, quantize) && bytes == pcm_bytes(pcm);
    law_low_byte_first(pcm, i);
    assert(call_ensures(quantize, (mono[i],), pcm[i]));
}

/// The bytes of resampled audio are two for each grid point, and are the rounding of the blend
/// of the two input samples around that point.
pub proof fn law_resampled<S, P, B: Fn(S, S, P) -> S, Q: Fn(S) -> i16>(
    bytes: Seq<u8>,
    input: Seq<S>,
    grid: Seq<GridPoint<P>>,
    mono: Seq<S>,
    blend: B,
    quantize: Q,
)
    requires
        is_blended(mono, input, grid, blend),
        is_pcm_of(bytes, mono, quantize),
        forall|k: int| 0 <= k < grid.len() ==> (#[trigger] grid[k]).left < input.len(),
    ensures
        bytes.len() == 2 * grid.len(),
        forall|i: int|
            0 <= i < grid.len() ==> blends_and_rounds(
                blend,
                quantize,
                input[(#[trigger] grid[i]).left as int],
                input[if grid[i].left + 1 < input.len() {
                    grid[i].left + 1
                } else {
                    input.len() - 1
                }],
                grid[i].frac,
                bytes[2 * i],
                bytes[2 * i + 1],
            ),
{
    let pcm = choose|pcm: Seq<i16>|
        #[trigger] is_quantized(pcm, mono, quantize) && bytes == pcm_bytes(pcm);
    assert forall|i: int| 0 <= i < grid.len() implies blends_and_rounds(
        blend,
        quantize,
        input[(#[trigger] grid[i]).left as int],
        input[if grid[i].left + 1 < input.len() {
            grid[i].left + 1
        } else {
            input.len() - 1
        }],
        grid[i].frac,
        bytes[2 * i],
        bytes[2 * i + 1],
    ) by {
        law_blend_around_point(mono, input, grid, blend, i);
        law_low_byte_first(pcm, i);
        assert(call_ensures(quantize, (mono[i],), pcm[i]));
        assert(rounds(quantize, mono[i], bytes[2 * i], bytes[2 * i + 1]));
    }
}

/// The bytes of audio that is rounded sample by sample.
pub proof fn law_rounded<S, Q: Fn(S) -> i16>(
    bytes: Seq<u8>,
    samples: Seq<S>,
    quantize: Q,
    i: int,
)
    requires
        is_pcm_of(bytes, samples, quantize),
        0 <= i < samples.len(),
    ensures
        bytes.len() == 2 * samples.len(),
        rounds(quantize, samples[i], bytes[2 * i], bytes[2 * i + 1]),
{
    let pcm = choose|pcm: Seq<i16>|
        #[trigger] is_quantized(pcm, samples, quantize) && bytes == pcm_bytes(pcm);
    law_low_byte_first(pcm, i);
    assert(call_ensures(quantize, (samples[i],), pcm[i]));
}

/// Frame `i` of interleaved samples starts at sample `i * channels`, and a complete one holds as
/// many samples from there on as there are channels.
pub proof fn law_full_frame<T>(input: Seq<T>, channels: int, i: int)
    requires
        channels > 0,
        0 <= i < input.len() as int / channels,
    ensures
        0 <= i * channels,
        i * channels + channels <= input.len(),
        frame(input, channels, i) == input.subrange(i * channels, i * channels + channels),
{
    let q = input.len() as int / channels;
    let len = input.len() as int;
    vstd::arithmetic::div_mod::lemma_fundamental_div_mod(len, channels);
    vstd::arithmetic::div_mod::lemma_mod_bound(len, channels);
    assert(0 <= i * channels && i * channels + channels <= channels * q) by (nonlinear_arith)
        requires
            channels > 0,
            0 <= i < q,
    ;
}

/// There are as many frames as it takes to hold all samples, and no more.
pub proof fn law_frame_count(len: int, channels: int)
    requires
        len >= 0,
        channels > 0,
    ensures
        len <= all_frames(len, channels) * channels < len + channels,
        full_frames(len, channels) * channels <= len < full_frames(len, channels) * channels
            + channels,
{
    let q = len / channels;
    let r = len % channels;
    let n = all_frames(len, channels);
    vstd::arithmetic::div_mod::lemma_fundamental_div_mod(len, channels);
    vstd::arithmetic::div_mod::lemma_mod_bound(len, channels);
    lemma_all_frames(len, channels);
    assert(q * channels <= len < q * channels + channels) by (nonlinear_arith)
        requires
            len == channels * q + r,
            0 <= r < channels,
    ;
    assert(len <= n * channels < len + channels) by (nonlinear_arith)
        requires
            len == channels * q + r,
            0 <= r < channels,
            n == q + if r == 0 {
                0int
            } else {
                1
            },
    ;
}

/// Where the mix is a function of the samples of a frame, mixed sample `i` is that of frame `i`:
/// of the samples from `i * channels` on, as many as there are channels, or what is left.
pub proof fn law_mixed_by_function<T, S, F: Fn(&[T]) -> S>(
    out: Seq<S>,
    input: Seq<T>,
    channels: int,
    count: int,
    mix: F,
    f: spec_fn(Seq<T>) -> S,
    i: int,
)
    requires
        is_mixed(out, input, channels, count, mix),
        forall|x: &[T], s: S| #[trigger] call_ensures(mix, (x,), s) ==> s == f(x@),
        0 <= i < count,
    ensures
        out.len() == count,
        out[i] == f(
            input.subrange(
                i * channels,
                if i * channels + channels <= input.len() {
                    i * channels + channels
                } else {
                    input.len() as int
                },
            ),
        ),
{
    assert(mixes(mix, frame(input, channels, i), out[i]));
}

/// Where blend and rounding are functions, the bytes are those of the rounded blend.
pub proof fn law_blends_and_rounds<S, P, B: Fn(S, S, P) -> S, Q: Fn(S) -> i16>(
    blend: B,
    quantize: Q,
    f: spec_fn(S, S, P) -> S,
    q: spec_fn(S) -> i16,
    a: S,
    b: S,
    t: P,
    low: u8,
    high: u8,
)
    requires
        blends_and_rounds(blend, quantize, a, b, t, low, high),
        forall|x: S, y: S, u: P, s: S|
            #[trigger] call_ensures(blend, (x, y, u), s) ==> s == f(x, y, u),
        forall|s: S, p: i16| #[trigger] call_ensures(quantize, (s,), p) ==> p == q(s),
    ensures
        rounds(quantize, f(a, b, t), low, high),
        low + 256 * high == q(f(a, b, t)) + (if q(f(a, b, t)) < 0 {
            65536int
        } else {
            0
        }),
{
}

} // verus!
