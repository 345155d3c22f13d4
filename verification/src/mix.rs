use vstd::prelude::*;

verus! {

/// What a mix of several streams says of its own length, from what each input
/// says of its length (`(lower bound, upper bound)`, no upper bound being
/// `None`): the mix lasts as long as its longest input, so its lower bound is
/// the largest lower bound (zero for no inputs), and its upper bound is the
/// largest upper bound, or none if some input has none.
pub fn mix_size_hint(hints: &Vec<(usize, Option<usize>)>) -> (r: (usize, Option<usize>))
    ensures
        forall|i: int| 0 <= i < hints@.len() ==> #[trigger] hints@[i].0 <= r.0,
        r.0 == 0 || exists|i: int| 0 <= i < hints@.len() && #[trigger] hints@[i].0 == r.0,
        r.1 is None <==> exists|i: int| 0 <= i < hints@.len() && #[trigger] hints@[i].1 is None,
        r.1 matches Some(m) ==> {
            &&& forall|i: int| 0 <= i < hints@.len() ==> #[trigger] hints@[i].1.unwrap() <= m
            &&& (m == 0 || exists|i: int| 0 <= i < hints@.len() && #[trigger] hints@[i].1 == Some(m))
        },
{
    let mut min: usize = 0;
    let mut max: Option<usize> = Some(0);
    let mut k: usize = 0;
    while k < hints.len()
        invariant
            k <= hints@.len(),
            forall|i: int| 0 <= i < k ==> #[trigger] hints@[i].0 <= min,
            min == 0 || exists|i: int| 0 <= i < k && #[trigger] hints@[i].0 == min,
            max is None <==> exists|i: int| 0 <= i < k && #[trigger] hints@[i].1 is None,
            max matches Some(m) ==> {
                &&& forall|i: int| 0 <= i < k ==> #[trigger] hints@[i].1.unwrap() <= m
                &&& (m == 0 || exists|i: int| 0 <= i < k && #[trigger] hints@[i].1 == Some(m))
            },
        decreases hints@.len() - k,
    {
        let hint = hints[k];
        if hint.0 > min {
            min = hint.0;
        }
        match max {
            Some(m) => {
                match hint.1 {
                    Some(x) => {
                        if x > m {
                            max = Some(x);
                        }
                    },
                    None => {
                        max = None;
                    },
                }
            },
            None => {},
        }
        k = k + 1;
    }
    (min, max)
}

/// The frame length of a mix: the shortest frame of its inputs, `usize::MAX`
/// for no inputs, and none as soon as one input has no fixed frame length.
pub fn mix_frame_len(lens: &Vec<Option<usize>>) -> (r: Option<usize>)
    ensures
        r is None <==> exists|i: int| 0 <= i < lens@.len() && #[trigger] lens@[i] is None,
        r matches Some(m) ==> {
            &&& forall|i: int| 0 <= i < lens@.len() ==> m <= #[trigger] lens@[i].unwrap()
            &&& (m == usize::MAX || exists|i: int| 0 <= i < lens@.len() && #[trigger] lens@[i] == Some(m))
        },
{
    let mut result: usize = usize::MAX;
    let mut k: usize = 0;
    while k < lens.len()
        invariant
            k <= lens@.len(),
            forall|i: int| 0 <= i < k ==> #[trigger] lens@[i] is Some,
            forall|i: int| 0 <= i < k ==> result <= #[trigger] lens@[i].unwrap(),
            result == usize::MAX || exists|i: int| 0 <= i < k && #[trigger] lens@[i] == Some(result),
        decreases lens@.len() - k,
    {
        match lens[k] {
            Some(x) => {
                if x < result {
                    result = x;
                }
            },
            None => {
                return None;
            },
        }
        k = k + 1;
    }
    Some(result)
}

/// `a` lasts no longer than `b`, durations being `(seconds, nanoseconds)`
/// ordered as `std::time::Duration` orders them.
pub open spec fn duration_le(a: (u64, u32), b: (u64, u32)) -> bool {
    a.0 < b.0 || (a.0 == b.0 && a.1 <= b.1)
}

/// The total duration of a mix, durations being `(seconds, nanoseconds)`:
/// the longest of its inputs, zero for no inputs, and none as soon as one
/// input has no known duration.
pub fn mix_total_duration(durations: &Vec<Option<(u64, u32)>>) -> (r: Option<(u64, u32)>)
    ensures
        r is None <==> exists|i: int| 0 <= i < durations@.len() && #[trigger] durations@[i] is None,
        r matches Some(d) ==> {
            &&& forall|i: int| 0 <= i < durations@.len() ==> duration_le(#[trigger] durations@[i].unwrap(), d)
            &&& forall|i: int| 0 <= i < durations@.len() ==> {
                let x = #[trigger] durations@[i].unwrap();
                x.0 < d.0 || (x.0 == d.0 && x.1 <= d.1)
            }
            &&& (d == (0u64, 0u32) || exists|i: int| 0 <= i < durations@.len() && #[trigger] durations@[i] == Some(d))
        },
{
    let mut result: (u64, u32) = (0, 0);
    let mut k: usize = 0;
    while k < durations.len()
        invariant
            k <= durations@.len(),
            forall|i: int| 0 <= i < k ==> #[trigger] durations@[i] is Some,
            forall|i: int| 0 <= i < k ==> duration_le(#[trigger] durations@[i].unwrap(), result),
            result == (0u64, 0u32) || exists|i: int| 0 <= i < k && #[trigger] durations@[i] == Some(result),
        decreases durations@.len() - k,
    {
        match durations[k] {
            Some(x) => {
                if x.0 > result.0 || (x.0 == result.0 && x.1 > result.1) {
                    result = x;
                }
            },
            None => {
                return None;
            },
        }
        k = k + 1;
    }
    Some(result)
}

} // verus!
