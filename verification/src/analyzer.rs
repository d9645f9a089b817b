use vstd::prelude::*;

verus! {

/// The most samples the analyzer's window holds before it is cut back.
pub const WINDOW_LIMIT: usize = 8192;

/// How many of the newest samples survive a cut.
pub const WINDOW_KEEP: usize = 4096;

/// The window after `sample` arrives: a full window (of `WINDOW_LIMIT`
/// samples or more) is first cut back to its newest `WINDOW_KEEP` samples.
pub open spec fn rolled<T>(window: Seq<T>, sample: T) -> Seq<T> {
    if window.len() >= WINDOW_LIMIT {
        window.subrange(window.len() - WINDOW_KEEP, window.len() as int).push(sample)
    } else {
        window.push(sample)
    }
}

/// Appends `sample` to the rolling sample window of the spectrum analyzer.
pub fn push_sample<T>(window: &mut Vec<T>, sample: T)
    requires
        old(window)@.len() < usize::MAX,
    ensures
        final(window)@ == rolled(old(window)@, sample),
{
    if window.len() >= WINDOW_LIMIT {
        let keep_start = window.len() - WINDOW_KEEP;
        let newest = window.split_off(keep_start);
        *window = newest;
    }
    window.push(sample);
}

/// The window never grows past `WINDOW_LIMIT` samples, always ends with the
/// newest sample, and holds the newest samples in the order they came:
/// it is a run of samples that ends the old window followed by the new one.
pub proof fn lemma_window_rolls<T>(window: Seq<T>, sample: T)
    ensures
        window.len() <= WINDOW_LIMIT ==> rolled(window, sample).len() <= WINDOW_LIMIT,
        rolled(window, sample).len() >= 1,
        rolled(window, sample).last() == sample,
        rolled(window, sample).len() <= window.len() + 1,
        rolled(window, sample).drop_last() == window.subrange(
            window.len() + 1 - rolled(window, sample).len(),
            window.len() as int,
        ),
{
    assert(rolled(window, sample).drop_last() =~= window.subrange(
        window.len() + 1 - rolled(window, sample).len(),
        window.len() as int,
    ));
}

/// A window of fewer than 8192 samples is never cut: the new sample is
/// simply appended. A window of 8192 samples or more keeps its newest 4096
/// samples, in order, followed by the new one.
pub proof fn lemma_window_cut_only_when_full<T>(window: Seq<T>, sample: T)
    ensures
        window.len() < 8192 ==> rolled(window, sample) == window.push(sample),
        window.len() >= 8192 ==> rolled(window, sample).len() == 4097 && (forall|k: int|
            0 <= k < 4096 ==> #[trigger] rolled(window, sample)[k] == window[window.len() - 4096 + k])
            && rolled(window, sample)[4096] == sample,
{
}

/// `n` is a power of two.
pub open spec fn is_power_of_two(n: nat) -> bool
    decreases n,
{
    if n <= 1 {
        n == 1
    } else {
        n % 2 == 0 && is_power_of_two(n / 2)
    }
}

/// The samples the spectrum is taken from: at most the first 4096.
pub open spec fn analyzed_len(buffer_len: nat) -> nat {
    if buffer_len <= 4096 {
        buffer_len
    } else {
        4096
    }
}

/// The FFT window size for a sample buffer of `buffer_len` samples: none
/// when fewer than 128 samples are at hand (the spectrum is then flat),
/// else the smallest power of two that is at least the number of analyzed
/// samples, and at least 256.
pub fn spectrum_window_size(buffer_len: usize) -> (r: Option<usize>)
    ensures
        r is None <==> analyzed_len(buffer_len as nat) < 128,
        r matches Some(w) ==> {
            &&& is_power_of_two(w as nat)
            &&& 256 <= w <= 4096
            &&& w >= analyzed_len(buffer_len as nat)
            &&& (w == 256 || w / 2 < analyzed_len(buffer_len as nat))
        },
{
    let len = if buffer_len <= 4096 {
        buffer_len
    } else {
        4096
    };
    if len < 128 {
        return None;
    }
    let mut w: usize = 256;
    assert(is_power_of_two(256)) by {
        reveal_with_fuel(is_power_of_two, 9);
    }
    while w < len
        invariant
            is_power_of_two(w as nat),
            256 <= w <= 4096,
            len <= 4096,
            w == 256 || w / 2 < len,
        decreases 4096 - w,
    {
        assert(is_power_of_two((w * 2) as nat)) by {
            assert((w * 2) as nat / 2 == w as nat);
        }
        assert(w * 2 <= 4096) by {
            assert(is_power_of_two(4096)) by {
                reveal_with_fuel(is_power_of_two, 13);
            }
            lemma_power_of_two_below(w as nat, 4096);
        }
        w = w * 2;
    }
    Some(w)
}

/// A power of two below another power of two is at most half of it.
proof fn lemma_power_of_two_below(x: nat, hi: nat)
    requires
        is_power_of_two(x),
        is_power_of_two(hi),
        x < hi,
    ensures
        x * 2 <= hi,
    decreases hi,
{
    if x > 1 {
        lemma_power_of_two_below(x / 2, hi / 2);
    }
}

} // verus!
