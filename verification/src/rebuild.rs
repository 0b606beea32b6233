use vstd::prelude::*;

verus! {

/// Whether an output is stale: it is missing (`None`), or some input was
/// modified strictly later than it.
pub open spec fn is_stale(out_modified: Option<i128>, in_modified: Seq<i128>) -> bool {
    match out_modified {
        None => true,
        Some(t) => exists|i: int| 0 <= i < in_modified.len() && in_modified[i] > t,
    }
}

/// The outcome of scanning the inputs from index `i` on against an output
/// modified at `t`: the first input that is newer than `t` settles it as
/// stale (`Some(true)`), a first input whose time cannot be read (`None`)
/// leaves it undecided (`None`), and running out of inputs settles it as up
/// to date (`Some(false)`).
pub open spec fn scan_from(t: i128, in_modified: Seq<Option<i128>>, i: int) -> Option<bool>
    decreases in_modified.len() - i,
{
    if 0 <= i < in_modified.len() {
        match in_modified[i] {
            None => None,
            Some(m) => if m > t {
                Some(true)
            } else {
                scan_from(t, in_modified, i + 1)
            },
        }
    } else {
        Some(false)
    }
}

/// The rebuild decision: a missing output is always rebuilt; for an
/// existing one the inputs are scanned in order.
pub open spec fn rebuild_decision(out_modified: Option<i128>, in_modified: Seq<Option<i128>>) -> Option<
    bool,
> {
    match out_modified {
        None => Some(true),
        Some(t) => scan_from(t, in_modified, 0),
    }
}

/// The times of inputs that could all be read.
pub open spec fn read_times(in_modified: Seq<Option<i128>>) -> Seq<i128> {
    in_modified.map_values(|m: Option<i128>| m->0)
}

/// Decides whether an output must be rebuilt, from its modification time
/// (`None` when it does not exist) and those of its inputs (`None` for an
/// input whose time cannot be read), all as signed nanosecond offsets from
/// one fixed instant. The inputs are looked at in order until one is newer
/// than the output; the answer is `None` where an unreadable input comes
/// first. Where every input can be read, the answer is whether the output
/// is stale.
pub fn needs_rebuild(out_modified: Option<i128>, in_modified: &[Option<i128>]) -> (r: Option<bool>)
    ensures
        r == rebuild_decision(out_modified, in_modified@),
        (forall|k: int| 0 <= k < in_modified@.len() ==> #[trigger] in_modified@[k] is Some) ==> r
            == Some(is_stale(out_modified, read_times(in_modified@))),
{
    match out_modified {
        None => Some(true),
        Some(t) => {
            let ghost s = in_modified@;
            let mut i: usize = 0;
            while i < in_modified.len()
                invariant
                    i <= s.len(),
                    s == in_modified@,
                    out_modified == Some(t),
                    scan_from(t, s, 0) == scan_from(t, s, i as int),
                    forall|k: int| 0 <= k < i ==> (#[trigger] s[k] matches Some(m) && m <= t),
                decreases s.len() - i,
            {
                match in_modified[i] {
                    None => {
                        return None;
                    },
                    Some(m) => {
                        if m > t {
                            assert(read_times(s)[i as int] > t);
                            return Some(true);
                        }
                    },
                }
                i = i + 1;
            }
            proof {
                assert forall|k: int| 0 <= k < s.len() implies !(read_times(s)[k] > t) by {
                    assert(s[k] matches Some(m) && m <= t);
                }
            }
            Some(false)
        },
    }
}

} // verus!
