//! Sample-rate bookkeeping around a band-limited converter.
//!
//! The converter itself works on floating point and runs outside the
//! library; what it hands back is checked here against the duration law
//! before it is accepted.
use vstd::arithmetic::div_mod::lemma_fundamental_div_mod_converse_div;
use vstd::prelude::*;

verus! {

/// `n * sd / sr` rounded to the nearest integer, halves upwards.
pub open spec fn expected_frames(n: nat, sr: nat, sd: nat) -> nat
    recommends
        sr > 0,
{
    ((2 * n * sd + sr) / (2 * sr)) as nat
}

pub open spec fn within_one(a: nat, b: nat) -> bool {
    a <= b + 1 && b <= a + 1
}

/// Rates and channel count that a conversion can work with.
pub open spec fn rates_valid(sr: u32, sd: u32, channels: u16) -> bool {
    sr > 0 && sd > 0 && channels > 0
}

/// `out` is whole frames of `channels` samples, and within one frame of the
/// length that `n` frames at `sr` take at `sd`.
pub open spec fn fits_duration(out: Seq<i32>, n: nat, sr: u32, sd: u32, channels: u16) -> bool {
    &&& out.len() % (channels as nat) == 0
    &&& within_one(out.len() / (channels as nat), expected_frames(n, sr as nat, sd as nat))
}

/// The block that resampling `input` from `sr` to `sd` yields, given what
/// the converter produced (`None` when it failed).
pub open spec fn resampled(
    input: Seq<i32>,
    sr: u32,
    sd: u32,
    channels: u16,
    converted: Option<Vec<i32>>,
) -> Seq<i32> {
    if !rates_valid(sr, sd, channels) {
        Seq::empty()
    } else if sr == sd {
        input
    } else {
        match converted {
            Some(v) => if fits_duration(v@, input.len() / (channels as nat), sr, sd, channels) {
                v@
            } else {
                Seq::empty()
            },
            None => Seq::empty(),
        }
    }
}

/// Whether the converter has to run at all: not for equal rates, which are
/// the identity, nor for invalid ones, which give no samples.
pub fn needs_conversion(sr: u32, sd: u32, channels: u16) -> (r: bool)
    ensures
        r == (rates_valid(sr, sd, channels) && sr != sd),
{
    sr > 0 && sd > 0 && channels > 0 && sr != sd
}

/// The number of frames that `n_frames` frames at `sr` take at `sd`,
/// rounded to the nearest integer.
pub fn target_frames(n_frames: usize, sr: u32, sd: u32) -> (r: u128)
    requires
        sr > 0,
    ensures
        r as nat == expected_frames(n_frames as nat, sr as nat, sd as nat),
{
    let n = n_frames as u128;
    let d = sd as u128;
    assert(n * d <= 0xffff_ffff_ffff_ffffu128 * 0xffff_ffffu128) by (nonlinear_arith)
        requires
            n <= 0xffff_ffff_ffff_ffffu128,
            d <= 0xffff_ffffu128,
    ;
    let num = 2 * (n * d) + sr as u128;
    assert(2 * (n * d) == 2 * n * d) by (nonlinear_arith);
    num / (2 * sr as u128)
}

/// Resamples one block of interleaved samples from `sr` to `sd`.
///
/// `converted` is what the band-limited converter produced for `input`, or
/// `None` if it failed; it is consulted only when `needs_conversion` holds.
/// Equal rates give the input back unchanged. A failed conversion, invalid
/// rates or channel count, and a converted block that is not whole frames or
/// strays more than one frame from the expected duration all give an empty
/// block: no samples this time, not a stream failure.
pub fn resample_block(
    input: Vec<i32>,
    sr: u32,
    sd: u32,
    channels: u16,
    converted: Option<Vec<i32>>,
) -> (r: Vec<i32>)
    ensures
        r@ == resampled(input@, sr, sd, channels, converted),
{
    if !(sr > 0 && sd > 0 && channels > 0) {
        return Vec::new();
    }
    if sr == sd {
        return input;
    }
    match converted {
        Some(v) => {
            let ch = channels as usize;
            let expected = target_frames(input.len() / ch, sr, sd);
            let frames = (v.len() / ch) as u128;
            if v.len() % ch == 0 && (frames == 0 || frames - 1 <= expected) && expected <= frames + 1 {
                v
            } else {
                Vec::new()
            }
        },
        None => Vec::new(),
    }
}

/// Equal source and target rates leave a block unchanged.
pub proof fn lemma_resample_identity(input: Seq<i32>, rate: u32, channels: u16, converted: Option<Vec<i32>>)
    requires
        rate > 0,
        channels > 0,
    ensures
        resampled(input, rate, rate, channels, converted) == input,
{
}

/// Resampling keeps the duration: `n` whole frames at `sr` come out as
/// nothing (the failure outcome) or as whole frames within one frame of
/// `n * sd / sr` rounded; at equal rates, as exactly `n` frames.
pub proof fn lemma_resample_duration(
    input: Seq<i32>,
    n: nat,
    sr: u32,
    sd: u32,
    channels: u16,
    converted: Option<Vec<i32>>,
)
    requires
        rates_valid(sr, sd, channels),
        input.len() == n * channels,
    ensures
        resampled(input, sr, sd, channels, converted).len() == 0 || fits_duration(
            resampled(input, sr, sd, channels, converted),
            n,
            sr,
            sd,
            channels,
        ),
        sr == sd ==> resampled(input, sr, sd, channels, converted).len() == n * channels,
{
    let c = channels as int;
    lemma_fundamental_div_mod_converse_div(input.len() as int, c, n as int, 0);
    vstd::arithmetic::div_mod::lemma_fundamental_div_mod_converse_mod(input.len() as int, c, n as int, 0);
    if sr == sd {
        let s = sr as int;
        assert(2 * n * s + s == n * (2 * s) + s) by (nonlinear_arith);
        lemma_fundamental_div_mod_converse_div(2 * n * s + s, 2 * s, n as int, s);
    }
}

} // verus!
