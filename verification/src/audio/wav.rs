use vstd::prelude::*;

verus! {

/// Sample rate of every synthesized sound effect, in Hz.
pub const SAMPLE_RATE: u32 = 44_100;

/// Little-endian bytes of the low 16 bits of `x` (`x` >= 0).
pub open spec fn le16(x: int) -> Seq<u8> {
    seq![(x % 256) as u8, ((x / 256) % 256) as u8]
}

/// Little-endian bytes of the low 32 bits of `x` (`x` >= 0).
pub open spec fn le32(x: int) -> Seq<u8> {
    seq![
        (x % 256) as u8,
        ((x / 256) % 256) as u8,
        ((x / 65536) % 256) as u8,
        ((x / 16777216) % 256) as u8,
    ]
}

/// Two's-complement bit pattern of a sample, as an unsigned 16-bit value.
pub open spec fn sample_bits(sample: i16) -> int {
    if sample < 0 {
        sample + 65536
    } else {
        sample as int
    }
}

/// The 44-byte header of a mono, 16-bit PCM WAV file at [`SAMPLE_RATE`]
/// holding `count` samples.
pub open spec fn wav_header(count: int) -> Seq<u8> {
    seq![82u8, 73, 70, 70]  // "RIFF"
    + le32(36 + 2 * count)
    + seq![87u8, 65, 86, 69, 102, 109, 116, 32]  // "WAVEfmt "
    + le32(16)  // fmt chunk size
    + le16(1)  // PCM
    + le16(1)  // channels
    + le32(SAMPLE_RATE as int)
    + le32(2 * SAMPLE_RATE as int)  // byte rate
    + le16(2)  // block align
    + le16(16)  // bits per sample
    + seq![100u8, 97, 116, 97]  // "data"
    + le32(2 * count)
}

/// Sample data of the file: each sample as two little-endian bytes.
pub open spec fn pcm16_data(samples: Seq<i16>) -> Seq<u8> {
    Seq::new(
        2 * samples.len(),
        |n: int| le16(sample_bits(samples[n / 2]))[n % 2],
    )
}

/// The complete WAV file of `samples`.
pub open spec fn wav_file(samples: Seq<i16>) -> Seq<u8> {
    wav_header(samples.len() as int) + pcm16_data(samples)
}

fn push_le16(out: &mut Vec<u8>, x: u32)
    requires
        x < 65536,
    ensures
        final(out)@ == old(out)@ + le16(x as int),
{
    out.push((x % 256) as u8);
    out.push(((x / 256) % 256) as u8);
    assert(final(out)@ =~= old(out)@ + le16(x as int));
}

fn push_le32(out: &mut Vec<u8>, x: u32)
    ensures
        final(out)@ == old(out)@ + le32(x as int),
{
    out.push((x % 256) as u8);
    out.push(((x / 256) % 256) as u8);
    out.push(((x / 65536) % 256) as u8);
    out.push(((x / 16777216) % 256) as u8);
    assert(final(out)@ =~= old(out)@ + le32(x as int));
}

fn push_bytes4(out: &mut Vec<u8>, a: u8, b: u8, c: u8, d: u8)
    ensures
        final(out)@ == old(out)@ + seq![a, b, c, d],
{
    out.push(a);
    out.push(b);
    out.push(c);
    out.push(d);
    assert(final(out)@ =~= old(out)@ + seq![a, b, c, d]);
}

/// Wrap mono 16-bit PCM samples in a minimal WAV container.
pub fn pcm16_wav(samples: &[i16]) -> (wav: Vec<u8>)
    requires
        36 + 2 * samples@.len() <= u32::MAX,
    ensures
        wav@ == wav_file(samples@),
        wav@.len() == 44 + 2 * samples@.len(),
{
    let count = samples.len();
    let data_size = (count * 2) as u32;
    let mut wav: Vec<u8> = Vec::new();
    push_bytes4(&mut wav, 82, 73, 70, 70);
    push_le32(&mut wav, 36 + data_size);
    push_bytes4(&mut wav, 87, 65, 86, 69);
    push_bytes4(&mut wav, 102, 109, 116, 32);
    push_le32(&mut wav, 16);
    push_le16(&mut wav, 1);
    push_le16(&mut wav, 1);
    push_le32(&mut wav, SAMPLE_RATE);
    push_le32(&mut wav, SAMPLE_RATE * 2);
    push_le16(&mut wav, 2);
    push_le16(&mut wav, 16);
    push_bytes4(&mut wav, 100, 97, 116, 97);
    push_le32(&mut wav, data_size);
    let ghost header = wav@;
    assert(header =~= wav_header(count as int));
    let mut i: usize = 0;
    while i < count
        invariant
            count == samples@.len(),
            i <= count,
            header == wav_header(count as int),
            wav@ =~= header + pcm16_data(samples@).take(2 * i as int),
        decreases count - i,
    {
        let sample = samples[i];
        let bits: u32 = if sample < 0 { (sample as i32 + 65536) as u32 } else { sample as u32 };
        push_le16(&mut wav, bits);
        proof {
            let data = pcm16_data(samples@);
            assert forall|n: int| 2 * i <= n < 2 * i + 2 implies #[trigger] data[n] == le16(bits as int)[n - 2 * i] by {
                vstd::arithmetic::div_mod::lemma_fundamental_div_mod_converse(n, 2, i as int, n - 2 * i);
            }
            assert(data.take(2 * (i + 1)) =~= data.take(2 * i as int) + le16(bits as int));
        }
        i = i + 1;
    }
    assert(pcm16_data(samples@).take(2 * count as int) =~= pcm16_data(samples@));
    wav
}

/// One step of the linear congruential generator behind the procedural
/// noise: `x * 1664525 + 1013904223` modulo 2^32.
pub open spec fn lcg_step(x: u32) -> u32 {
    ((x as int * 1664525 + 1013904223) % 4294967296) as u32
}

pub fn lcg_next(state: u32) -> (r: u32)
    ensures
        r == lcg_step(state),
{
    let r = state.wrapping_mul(1_664_525).wrapping_add(1_013_904_223);
    proof {
        let p = state as int * 1664525;
        let m = 4294967296int;
        vstd::arithmetic::div_mod::lemma_add_mod_noop(p, 1013904223, m);
        vstd::arithmetic::div_mod::lemma_mod_bound(p, m);
        vstd::arithmetic::div_mod::lemma_small_mod(1013904223nat, m as nat);
        vstd::arithmetic::div_mod::lemma_mod_twice(p % m + 1013904223, m);
        if p % m + 1013904223 >= m {
            vstd::arithmetic::div_mod::lemma_fundamental_div_mod_converse(p % m + 1013904223, m, 1, p % m + 1013904223 - m);
        } else {
            vstd::arithmetic::div_mod::lemma_small_mod((p % m + 1013904223) as nat, m as nat);
        }
    }
    r
}

/// Deterministic pseudo-random source for procedural foley.
pub struct NoiseLcg(pub u32);

impl NoiseLcg {
    /// Advance the generator and return the new state.
    pub fn next_state(&mut self) -> (r: u32)
        ensures
            r == lcg_step(old(self).0),
            final(self).0 == r,
    {
        self.0 = lcg_next(self.0);
        self.0
    }
}

} // verus!
