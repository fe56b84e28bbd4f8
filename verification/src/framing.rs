//! The checker input wire format.
//!
//! A checker receives its material as a sequence of fields on stdin, each
//! encoded as an 8-byte little-endian unsigned length followed immediately
//! by that many raw bytes, concatenated with no separators. Run-and-evaluate
//! frames three fields (original input, tested program's stdout, reference
//! output); answer-and-evaluate frames two (tested answer, reference
//! answer).

use vstd::bytes::{spec_u64_to_le_bytes, u64_to_le_bytes};
use vstd::prelude::*;

verus! {

/// One framed field: the 8-byte little-endian length, then the bytes.
pub open spec fn framed_field(f: Seq<u8>) -> Seq<u8>
    recommends
        f.len() <= u64::MAX,
{
    spec_u64_to_le_bytes(f.len() as u64) + f
}

/// A sequence of framed fields, concatenated with no separators.
pub open spec fn framed_fields(fs: Seq<Seq<u8>>) -> Seq<u8>
    decreases fs.len(),
{
    if fs.len() == 0 {
        seq![]
    } else {
        framed_field(fs[0]) + framed_fields(fs.skip(1))
    }
}

/// Appends every byte of `src` to `out`.
fn push_all(out: &mut Vec<u8>, src: &Vec<u8>)
    ensures
        final(out)@ == old(out)@ + src@,
{
    let n = src.len();
    for i in 0..n
        invariant
            n == src.len(),
            out@ == old(out)@ + src@.subrange(0, i as int),
    {
        out.push(src[i]);
        assert(out@ =~= old(out)@ + src@.subrange(0, (i + 1) as int));
    }
    assert(out@ =~= old(out)@ + src@);
}

/// Appends one framed field to `out`.
fn push_framed(out: &mut Vec<u8>, field: &Vec<u8>)
    ensures
        final(out)@ == old(out)@ + framed_field(field@),
{
    let len_bytes = u64_to_le_bytes(field.len() as u64);
    push_all(out, &len_bytes);
    push_all(out, field);
    assert(out@ =~= old(out)@ + framed_field(field@));
}

/// The checker stdin for run-and-evaluate: the original input, the tested
/// program's stdout, and the reference output, each length-prefixed.
pub fn eval_input_for_run(
    input: &Vec<u8>,
    tested_stdout: &Vec<u8>,
    reference_output: &Vec<u8>,
) -> (r: Vec<u8>)
    ensures
        r@ == framed_fields(seq![input@, tested_stdout@, reference_output@]),
{
    let mut out: Vec<u8> = Vec::new();
    push_framed(&mut out, input);
    push_framed(&mut out, tested_stdout);
    push_framed(&mut out, reference_output);
    proof {
        reveal_with_fuel(framed_fields, 4);
        let fs = seq![input@, tested_stdout@, reference_output@];
        assert(fs.skip(1) =~= seq![tested_stdout@, reference_output@]);
        assert(fs.skip(1).skip(1) =~= seq![reference_output@]);
        assert(fs.skip(1).skip(1).skip(1) =~= Seq::<Seq<u8>>::empty());
        assert(out@ =~= framed_fields(fs));
    }
    out
}

/// The checker stdin for answer-and-evaluate: the tested answer and the
/// reference answer, each length-prefixed.
pub fn eval_input_for_ans(tested_ans: &Vec<u8>, std_ans: &Vec<u8>) -> (r: Vec<u8>)
    ensures
        r@ == framed_fields(seq![tested_ans@, std_ans@]),
{
    let mut out: Vec<u8> = Vec::new();
    push_framed(&mut out, tested_ans);
    push_framed(&mut out, std_ans);
    proof {
        reveal_with_fuel(framed_fields, 3);
        let fs = seq![tested_ans@, std_ans@];
        assert(fs.skip(1) =~= seq![std_ans@]);
        assert(fs.skip(1).skip(1) =~= Seq::<Seq<u8>>::empty());
        assert(out@ =~= framed_fields(fs));
    }
    out
}

} // verus!
