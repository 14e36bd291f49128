use vstd::prelude::*;

verus! {

/// The first `n` entries of `s`, or all of `s` where it is shorter.
pub open spec fn truncated<S>(s: Seq<S>, n: nat) -> Seq<S> {
    if n < s.len() { s.take(n as int) } else { s }
}

/// Samples per channel of a unit held one vector per channel: the length
/// of the first channel, or zero for a unit with no channel.
pub fn planar_num_samples<S>(unit: &Vec<Vec<S>>) -> (r: usize)
    ensures
        r == (if unit@.len() == 0 { 0 } else { unit@[0]@.len() }),
{
    if unit.len() == 0 {
        0
    } else {
        unit[0].len()
    }
}

/// Cuts every channel of a unit held one vector per channel to `n` samples.
pub fn truncate_planar<S>(unit: Vec<Vec<S>>, n: usize) -> (r: Vec<Vec<S>>)
    ensures
        r@.len() == unit@.len(),
        forall|i: int| 0 <= i < r@.len() ==> #[trigger] r@[i]@ == truncated(unit@[i]@, n as nat),
{
    let ghost orig = unit@;
    let mut rest = unit;
    let mut out: Vec<Vec<S>> = Vec::new();
    while rest.len() > 0
        invariant
            out@.len() + rest@.len() == orig.len(),
            forall|i: int| 0 <= i < out@.len() ==> #[trigger] out@[i]@ == truncated(orig[i]@, n as nat),
            forall|j: int| 0 <= j < rest@.len() ==> #[trigger] rest@[j] == orig[j + out@.len()],
        decreases rest@.len(),
    {
        let ghost before = rest@;
        let mut ch = rest.remove(0);
        proof {
            assert(ch == orig[out@.len() as int]);
            assert forall|j: int| 0 <= j < rest@.len() implies #[trigger] rest@[j] == orig[j + out@.len() + 1] by {
                assert(rest@[j] == before[j + 1]);
            }
        }
        ch.truncate(n);
        proof {
            assert(ch@ =~= truncated(orig[out@.len() as int]@, n as nat));
        }
        out.push(ch);
    }
    out
}

/// Samples per channel of an interleaved unit of `channels` channels.
pub fn interleaved_num_samples<S>(samples: &Vec<S>, channels: usize) -> (r: usize)
    requires
        channels > 0,
    ensures
        r == samples@.len() / (channels as nat),
{
    samples.len() / channels
}

/// Cuts an interleaved unit of `channels` channels to `n` samples per channel.
pub fn truncate_interleaved<S>(samples: &mut Vec<S>, channels: usize, n: usize)
    ensures
        final(samples)@ == truncated(old(samples)@, n as nat * channels as nat),
{
    match n.checked_mul(channels) {
        Some(len) => {
            samples.truncate(len);
            proof {
                assert(final(samples)@ =~= truncated(old(samples)@, n as nat * channels as nat));
            }
        },
        None => {
            let len = samples.len();
            proof {
                assert(len as nat <= n as nat * channels as nat) by (nonlinear_arith)
                    requires
                        n as nat * channels as nat > usize::MAX,
                        len <= usize::MAX,
                ;
            }
        },
    }
}

} // verus!
