use vstd::prelude::*;

verus! {

/// The retention window: at most `sample_rate * seconds` of the newest samples.
pub open spec fn retained<S>(buffer: Seq<S>, sample_rate: usize, seconds: usize) -> Seq<S> {
    let max = sample_rate as int * seconds as int;
    if buffer.len() > max {
        buffer.subrange(buffer.len() - max, buffer.len() as int)
    } else {
        buffer
    }
}

/// Drops the oldest samples so that at most `sample_rate * seconds` remain.
pub fn manage_buffer<S>(buffer: &mut Vec<S>, sample_rate: usize, seconds: usize)
    ensures
        final(buffer)@ == retained(old(buffer)@, sample_rate, seconds),
{
    let len = buffer.len();
    match sample_rate.checked_mul(seconds) {
        Some(max) => {
            if len > max {
                let tail = buffer.split_off(len - max);
                *buffer = tail;
            }
        },
        None => {},
    }
}

/// `input` lengthened with `silence` up to `min_len`; an empty input stays empty.
pub open spec fn padded<S>(input: Seq<S>, min_len: usize, silence: S) -> Seq<S> {
    if input.len() == 0 || input.len() >= min_len {
        input
    } else {
        input + Seq::new((min_len - input.len()) as nat, |_i: int| silence)
    }
}

/// Pads a non-empty recording with silence up to a minimum length.
pub fn pad_audio_min_len<S: Copy>(input: Vec<S>, min_len: usize, silence: S) -> (r: Vec<S>)
    ensures
        r@ == padded(input@, min_len, silence),
{
    let mut out = input;
    if out.len() == 0 {
        return out;
    }
    let ghost start = out@;
    while out.len() < min_len
        invariant
            start.len() > 0,
            start.len() <= out@.len(),
            out@.len() <= min_len || out@.len() == start.len(),
            out@ == start + Seq::new((out@.len() - start.len()) as nat, |_i: int| silence),
        decreases min_len - out@.len(),
    {
        let ghost before = out@;
        out.push(silence);
        assert(out@ =~= start + Seq::new((out@.len() - start.len()) as nat, |_i: int| silence));
    }
    proof {
        if start.len() >= min_len {
            assert(out@ =~= start);
        }
    }
    out
}

} // verus!
