//! The lossless remux: the stream-copy command, the checks around it, and the
//! display of byte sizes.
use vstd::prelude::*;

use crate::text::{decimal, decimal_string};

verus! {

// ---------------------------------------------------------------------------
// Byte sizes
// ---------------------------------------------------------------------------

pub const KIB: u64 = 1024;

pub const MIB: u64 = 1048576;

pub const GIB: u64 = 1073741824;

/// Integers of at most this many bits are exact as `f64`.
pub const F64_MANTISSA_LIMIT: u128 = 0x20000000000000;

pub open spec fn pow2_of(s: nat) -> nat
    decreases s,
{
    if s == 0 {
        1
    } else {
        2 * pow2_of((s - 1) as nat)
    }
}

proof fn lemma_pow2_of_mono(a: nat, b: nat)
    requires
        a <= b,
    ensures
        pow2_of(a) <= pow2_of(b),
    decreases b,
{
    if a < b {
        lemma_pow2_of_mono(a, (b - 1) as nat);
    }
}

/// How many low bits of `b` fall outside the 53-bit mantissa of an `f64`.
pub open spec fn f64_shift(b: nat) -> nat
    decreases b,
{
    if b < 0x20000000000000 {
        0
    } else {
        1 + f64_shift(b / 2)
    }
}

/// `q` rounded at the bit below it, with remainder `r` out of `p`: to nearest,
/// ties to even.
pub open spec fn round_half_even(q: nat, r: nat, p: nat) -> nat {
    if 2 * r > p || (2 * r == p && q % 2 == 1) {
        q + 1
    } else {
        q
    }
}

/// The value of `b as f64`: `b` rounded to the nearest integer with a 53-bit
/// mantissa, ties to even.
pub open spec fn f64_value(b: nat) -> nat {
    let p = pow2_of(f64_shift(b));
    round_half_even(b / p, b % p, p) * p
}

/// `n / d` rounded to the nearest integer, ties to even: how `{:.N}` rounds
/// an exactly representable value.
pub open spec fn div_round_even(n: nat, d: nat) -> nat {
    round_half_even(n / d, n % d, d)
}

/// Hundredths written as `<units>.<two digits>`.
pub open spec fn two_places(q: nat) -> Seq<char> {
    decimal(q / 100) + "."@ + if q % 100 < 10 {
        "0"@ + decimal(q % 100)
    } else {
        decimal(q % 100)
    }
}

/// Tenths written as `<units>.<digit>`.
pub open spec fn one_place(q: nat) -> Seq<char> {
    decimal(q / 10) + "."@ + decimal(q % 10)
}

/// A byte count for people: GiB with two decimals, MiB or KiB with one, or
/// plain bytes, as `format!("{:.2} GiB", bytes as f64 / GIB as f64)` and its
/// siblings write them.
pub open spec fn format_bytes_spec(bytes: u64) -> Seq<char> {
    if bytes >= GIB {
        two_places(div_round_even(f64_value(bytes as nat) * 100, GIB as nat)) + " GiB"@
    } else if bytes >= MIB {
        one_place(div_round_even(bytes as nat * 10, MIB as nat)) + " MiB"@
    } else if bytes >= KIB {
        one_place(div_round_even(bytes as nat * 10, KIB as nat)) + " KiB"@
    } else {
        decimal(bytes as nat) + " B"@
    }
}

/// `b as f64`, as an exact integer.
fn f64_integer(b: u64) -> (r: u128)
    ensures
        r as nat == f64_value(b as nat),
        r <= 0x10000000000000000,
{
    let mut q: u128 = b as u128;
    let mut p: u128 = 1;
    let mut rem: u128 = 0;
    let mut s: u32 = 0;
    while q >= F64_MANTISSA_LIMIT
        invariant
            q * p + rem == b as nat,
            rem < p,
            p == pow2_of(s as nat),
            f64_shift(b as nat) == s + f64_shift(q as nat),
            s <= 11,
            p <= 2048,
            q * p <= 0xffff_ffff_ffff_ffff,
            q <= 0xffff_ffff_ffff_ffff,
        decreases q,
    {
        let bit = q % 2;
        let next_q = q / 2;
        proof {
            assert(q == 2 * next_q + bit);
            assert(next_q * (2 * p) + (rem + bit * p) == q * p + rem) by (nonlinear_arith)
                requires
                    q == 2 * next_q + bit,
            ;
            assert(bit * p <= p) by (nonlinear_arith)
                requires
                    bit <= 1,
            ;
            assert(q >= 0x20000000000000);
            assert(q * p >= 0x20000000000000 * p) by (nonlinear_arith)
                requires
                    q >= 0x20000000000000,
            ;
            assert(p < 2048);
            reveal_with_fuel(pow2_of, 12);
            if s >= 11 {
                lemma_pow2_of_mono(11, s as nat);
            }
            lemma_pow2_of_mono(s as nat, 10);
            assert(p <= 1024);
        }
        rem = rem + bit * p;
        p = 2 * p;
        q = next_q;
        s = s + 1;
        proof {
            assert(next_q * p <= 0xffff_ffff_ffff_ffff);
        }
    }
    proof {
        vstd::arithmetic::div_mod::lemma_fundamental_div_mod_converse(
            b as int,
            p as int,
            q as int,
            rem as int,
        );
        assert(f64_shift(q as nat) == 0);
    }
    let rounded = if 2 * rem > p || (2 * rem == p && q % 2 == 1) {
        q + 1
    } else {
        q
    };
    proof {
        assert(rounded <= 0x20000000000000);
        assert(rounded * p <= 0x20000000000000 * 2048) by (nonlinear_arith)
            requires
                rounded <= 0x20000000000000,
                p <= 2048,
        ;
    }
    rounded * p
}

fn div_round_even_exec(n: u128, d: u128) -> (r: u128)
    requires
        0 < d <= 0x1_0000_0000,
    ensures
        r as nat == div_round_even(n as nat, d as nat),
{
    let q = n / d;
    let rem = n % d;
    proof {
        assert(q <= n) by (nonlinear_arith)
            requires
                d > 0,
                q == n / d,
        ;
    }
    if 2 * rem > d || (2 * rem == d && q % 2 == 1) {
        assert(d >= 2);
        assert(q < u128::MAX) by (nonlinear_arith)
            requires
                d >= 2,
                q == n / d,
                n <= u128::MAX,
        ;
        q + 1
    } else {
        q
    }
}

fn two_places_string(q: u128) -> (r: String)
    ensures
        r@ == two_places(q as nat),
{
    let mut s = decimal_string(q / 100);
    s.append(".");
    if q % 100 < 10 {
        s.append("0");
    }
    let frac = decimal_string(q % 100);
    s.append(frac.as_str());
    proof {
        if q % 100 < 10 {
            assert(s@ =~= two_places(q as nat));
        } else {
            assert(s@ =~= two_places(q as nat));
        }
    }
    s
}

fn one_place_string(q: u128) -> (r: String)
    ensures
        r@ == one_place(q as nat),
{
    let mut s = decimal_string(q / 10);
    s.append(".");
    let frac = decimal_string(q % 10);
    s.append(frac.as_str());
    s
}

/// Writes a byte count for people, in GiB, MiB, KiB or bytes.
pub fn format_bytes(bytes: u64) -> (r: String)
    ensures
        r@ == format_bytes_spec(bytes),
{
    if bytes >= GIB {
        let value = f64_integer(bytes);
        let q = div_round_even_exec(value * 100, GIB as u128);
        let mut s = two_places_string(q);
        s.append(" GiB");
        s
    } else if bytes >= MIB {
        let q = div_round_even_exec(bytes as u128 * 10, MIB as u128);
        let mut s = one_place_string(q);
        s.append(" MiB");
        s
    } else if bytes >= KIB {
        let q = div_round_even_exec(bytes as u128 * 10, KIB as u128);
        let mut s = one_place_string(q);
        s.append(" KiB");
        s
    } else {
        let mut s = decimal_string(bytes as u128);
        s.append(" B");
        s
    }
}

// ---------------------------------------------------------------------------
// The remux
// ---------------------------------------------------------------------------

/// Why a remux is refused.
#[derive(Debug, Clone, Copy, PartialEq, Eq, Structural)]
pub enum RemuxError {
    /// No audio stream would be kept.
    NoAudioKept,
    /// The remuxed file has fewer bytes than a real film could.
    SuspiciouslySmall(u64),
}

/// A remuxed file smaller than this is taken to be broken.
pub const MIN_REMUXED_SIZE: u64 = 10240;

/// The arguments to `ffmpeg` for one audio stream to keep.
pub open spec fn map_args(indices: Seq<u32>, n: int) -> Seq<Seq<char>>
    decreases n,
{
    if n <= 0 {
        Seq::empty()
    } else {
        map_args(indices, n - 1) + seq!["-map"@, "0:"@ + decimal(indices[n - 1] as nat)]
    }
}

/// The `ffmpeg` arguments of a stream-copy remux of `input` into `output`
/// keeping the video, the given audio streams, the subtitles and chapters.
pub open spec fn remux_args_spec(input: Seq<char>, output: Seq<char>, indices: Seq<u32>) -> Seq<
    Seq<char>,
> {
    seq!["-y"@, "-v"@, "error"@, "-i"@, input, "-map"@, "0:v"@] + map_args(
        indices,
        indices.len() as int,
    ) + seq!["-map"@, "0:s?"@, "-map_chapters"@, "0"@, "-c"@, "copy"@, output]
}

pub open spec fn strings_of(v: Seq<String>) -> Seq<Seq<char>> {
    Seq::new(v.len(), |i: int| v[i]@)
}

fn push_str(v: &mut Vec<String>, s: &str)
    ensures
        final(v)@.len() == old(v)@.len() + 1,
        strings_of(final(v)@) == strings_of(old(v)@).push(s@),
{
    v.push(s.to_owned());
    assert(strings_of(v@) =~= strings_of(old(v)@).push(s@));
}

/// The `ffmpeg` arguments of the remux; refused when no audio stream is kept,
/// since a file must never lose all of its audio.
pub fn remux_arguments(input: &str, output: &str, keep_audio_indices: &Vec<u32>) -> (r: Result<
    Vec<String>,
    RemuxError,
>)
    ensures
        r is Err <==> keep_audio_indices@.len() == 0,
        r matches Err(e) ==> e == RemuxError::NoAudioKept,
        r matches Ok(args) ==> strings_of(args@) == remux_args_spec(
            input@,
            output@,
            keep_audio_indices@,
        ),
{
    if keep_audio_indices.len() == 0 {
        return Err(RemuxError::NoAudioKept);
    }
    let mut args: Vec<String> = Vec::new();
    push_str(&mut args, "-y");
    push_str(&mut args, "-v");
    push_str(&mut args, "error");
    push_str(&mut args, "-i");
    push_str(&mut args, input);
    push_str(&mut args, "-map");
    push_str(&mut args, "0:v");
    let ghost head = strings_of(args@);
    let mut i: usize = 0;
    while i < keep_audio_indices.len()
        invariant
            i <= keep_audio_indices@.len(),
            strings_of(args@) == head + map_args(keep_audio_indices@, i as int),
        decreases keep_audio_indices@.len() - i,
    {
        push_str(&mut args, "-map");
        let mut spec_arg = "0:".to_owned();
        let idx = decimal_string(keep_audio_indices[i] as u128);
        spec_arg.append(idx.as_str());
        push_str(&mut args, spec_arg.as_str());
        i = i + 1;
    }
    push_str(&mut args, "-map");
    push_str(&mut args, "0:s?");
    push_str(&mut args, "-map_chapters");
    push_str(&mut args, "0");
    push_str(&mut args, "-c");
    push_str(&mut args, "copy");
    push_str(&mut args, output);
    assert(strings_of(args@) =~= remux_args_spec(input@, output@, keep_audio_indices@));
    Ok(args)
}

/// Accepts a remuxed file only when it is at least 10 KiB.
pub fn check_remuxed_size(new_size: u64) -> (r: Result<(), RemuxError>)
    ensures
        r is Ok <==> new_size >= MIN_REMUXED_SIZE,
        r matches Err(e) ==> e == RemuxError::SuspiciouslySmall(new_size),
{
    if new_size < MIN_REMUXED_SIZE {
        Err(RemuxError::SuspiciouslySmall(new_size))
    } else {
        Ok(())
    }
}

/// The bytes a remux reclaimed: the shrinkage, or zero if the file grew.
pub fn bytes_reclaimed(orig_size: u64, new_size: u64) -> (r: u64)
    ensures
        r == if orig_size >= new_size {
            (orig_size - new_size) as u64
        } else {
            0
        },
{
    orig_size.saturating_sub(new_size)
}

} // verus!
