//! Binary search over sorted tables of closed intervals and of exact keys.
use vstd::prelude::*;

verus! {

/// `cp` lies in the closed interval `r`.
pub open spec fn in_range(r: (u32, u32), cp: u32) -> bool {
    r.0 <= cp && cp <= r.1
}

/// Every interval is non-empty, and the intervals are sorted ascending and pairwise disjoint.
pub open spec fn ranges_wf(r: Seq<(u32, u32)>) -> bool {
    &&& forall|i: int| 0 <= i < r.len() ==> r[i].0 <= r[i].1
    &&& forall|i: int, j: int| 0 <= i < j < r.len() ==> r[i].1 < r[j].0
}

/// Some interval of `r` holds `cp`.
pub open spec fn covers(r: Seq<(u32, u32)>, cp: u32) -> bool {
    exists|i: int| 0 <= i < r.len() && in_range(r[i], cp)
}

/// No interval of `a` meets an interval of `b`.
pub open spec fn ranges_apart(a: Seq<(u32, u32)>, b: Seq<(u32, u32)>) -> bool {
    forall|i: int, j: int|
        0 <= i < a.len() && 0 <= j < b.len() ==> #[trigger] a[i].1 < #[trigger] b[j].0 || b[j].1
            < a[i].0
}

/// Keys strictly ascending, hence unique.
pub open spec fn keys_wf(k: Seq<u32>) -> bool {
    forall|i: int, j: int| 0 <= i < j < k.len() ==> k[i] < k[j]
}

pub open spec fn has_key(k: Seq<u32>, cp: u32) -> bool {
    exists|i: int| 0 <= i < k.len() && k[i] == cp
}

/// In well-formed intervals at most one interval holds a given code point.
pub proof fn lemma_range_unique(r: Seq<(u32, u32)>, cp: u32, i: int, j: int)
    requires
        ranges_wf(r),
        0 <= i < r.len(),
        0 <= j < r.len(),
        in_range(r[i], cp),
        in_range(r[j], cp),
    ensures
        i == j,
{
    if i < j {
        assert(r[i].1 < r[j].0);
    } else if j < i {
        assert(r[j].1 < r[i].0);
    }
}

/// In strictly ascending keys a key occurs at one index only.
pub proof fn lemma_key_unique(k: Seq<u32>, cp: u32, i: int, j: int)
    requires
        keys_wf(k),
        0 <= i < k.len(),
        0 <= j < k.len(),
        k[i] == cp,
        k[j] == cp,
    ensures
        i == j,
{
    if i < j {
        assert(k[i] < k[j]);
    } else if j < i {
        assert(k[j] < k[i]);
    }
}

/// Index of the interval that holds `cp`, if any.
pub fn find_range(ranges: &Vec<(u32, u32)>, cp: u32) -> (r: Option<usize>)
    requires
        ranges_wf(ranges@),
    ensures
        match r {
            Some(i) => i < ranges@.len() && in_range(ranges@[i as int], cp),
            None => !covers(ranges@, cp),
        },
{
    let mut lo: usize = 0;
    let mut hi: usize = ranges.len();
    while lo < hi
        invariant
            lo <= hi <= ranges@.len(),
            ranges_wf(ranges@),
            forall|i: int| 0 <= i < lo ==> ranges@[i].1 < cp,
            forall|i: int| hi <= i < ranges@.len() ==> cp < ranges@[i].0,
        decreases hi - lo,
    {
        let mid = lo + (hi - lo) / 2;
        let (start, end) = ranges[mid];
        if end < cp {
            assert forall|i: int| 0 <= i <= mid implies ranges@[i].1 < cp by {
                if i < mid {
                    assert(ranges@[i].1 < ranges@[mid as int].0);
                }
            }
            lo = mid + 1;
        } else if cp < start {
            assert forall|i: int| mid <= i < ranges@.len() implies cp < ranges@[i].0 by {
                if mid < i {
                    assert(ranges@[mid as int].1 < ranges@[i].0);
                }
            }
            hi = mid;
        } else {
            return Some(mid);
        }
    }
    proof {
        assert forall|i: int| 0 <= i < ranges@.len() implies !in_range(ranges@[i], cp) by {
            if i < lo {
                assert(ranges@[i].1 < cp);
            } else {
                assert(cp < ranges@[i].0);
            }
        }
    }
    None
}

/// Index of `cp` among strictly ascending keys, if present.
pub fn find_key(keys: &Vec<u32>, cp: u32) -> (r: Option<usize>)
    requires
        keys_wf(keys@),
    ensures
        match r {
            Some(i) => i < keys@.len() && keys@[i as int] == cp,
            None => !has_key(keys@, cp),
        },
{
    let mut lo: usize = 0;
    let mut hi: usize = keys.len();
    while lo < hi
        invariant
            lo <= hi <= keys@.len(),
            keys_wf(keys@),
            forall|i: int| 0 <= i < lo ==> keys@[i] < cp,
            forall|i: int| hi <= i < keys@.len() ==> cp < keys@[i],
        decreases hi - lo,
    {
        let mid = lo + (hi - lo) / 2;
        let k = keys[mid];
        if k < cp {
            assert forall|i: int| 0 <= i <= mid implies keys@[i] < cp by {
                if i < mid {
                    assert(keys@[i] < keys@[mid as int]);
                }
            }
            lo = mid + 1;
        } else if cp < k {
            assert forall|i: int| mid <= i < keys@.len() implies cp < keys@[i] by {
                if mid < i {
                    assert(keys@[mid as int] < keys@[i]);
                }
            }
            hi = mid;
        } else {
            return Some(mid);
        }
    }
    proof {
        assert forall|i: int| 0 <= i < keys@.len() implies keys@[i] != cp by {
            if i < lo {
                assert(keys@[i] < cp);
            } else {
                assert(cp < keys@[i]);
            }
        }
    }
    None
}

/// Whether the intervals are well formed, tested adjacent pair by adjacent pair.
pub fn check_ranges(ranges: &Vec<(u32, u32)>) -> (r: bool)
    ensures
        r == ranges_wf(ranges@),
{
    let n = ranges.len();
    let mut k: usize = 0;
    while k < n
        invariant
            n == ranges@.len(),
            k <= n,
            ranges_wf(ranges@.subrange(0, k as int)),
        decreases n - k,
    {
        let (start, end) = ranges[k];
        if end < start {
            return false;
        }
        if k > 0 {
            let (_, prev_end) = ranges[k - 1];
            if start <= prev_end {
                assert(!ranges_wf(ranges@)) by {
                    assert(!(ranges@[k - 1].1 < ranges@[k as int].0));
                }
                return false;
            }
        }
        proof {
            let s = ranges@.subrange(0, k as int + 1);
            assert forall|i: int, j: int| 0 <= i < j < s.len() implies s[i].1 < s[j].0 by {
                if j < k {
                    assert(ranges@.subrange(0, k as int)[i].1 < ranges@.subrange(0, k as int)[j].0);
                } else if i < k - 1 {
                    assert(ranges@.subrange(0, k as int)[i].1 < ranges@.subrange(
                        0,
                        k as int,
                    )[k - 1].0);
                    assert(ranges@.subrange(0, k as int)[k - 1].0 <= ranges@.subrange(
                        0,
                        k as int,
                    )[k - 1].1);
                }
            }
            assert(ranges_wf(s)) by {
                assert forall|i: int| 0 <= i < s.len() implies s[i].0 <= s[i].1 by {
                    if i < k {
                        assert(ranges@.subrange(0, k as int)[i].0 <= ranges@.subrange(
                            0,
                            k as int,
                        )[i].1);
                    }
                }
            }
        }
        k = k + 1;
    }
    assert(ranges@.subrange(0, n as int) =~= ranges@);
    true
}

/// Whether the keys are strictly ascending.
pub fn check_keys(keys: &Vec<u32>) -> (r: bool)
    ensures
        r == keys_wf(keys@),
{
    let n = keys.len();
    let mut k: usize = 1;
    if n == 0 {
        return true;
    }
    while k < n
        invariant
            n == keys@.len(),
            1 <= k <= n,
            keys_wf(keys@.subrange(0, k as int)),
        decreases n - k,
    {
        if keys[k] <= keys[k - 1] {
            assert(!(keys@[k - 1] < keys@[k as int]));
            return false;
        }
        proof {
            let p = keys@.subrange(0, k as int);
            let s = keys@.subrange(0, k as int + 1);
            assert forall|i: int, j: int| 0 <= i < j < s.len() implies s[i] < s[j] by {
                if j < k {
                    assert(p[i] < p[j]);
                } else if i < k - 1 {
                    assert(p[i] < p[k - 1]);
                }
            }
        }
        k = k + 1;
    }
    assert(keys@.subrange(0, n as int) =~= keys@);
    true
}

/// Whether no interval of `a` meets an interval of `b`, by one merge walk over both.
pub fn check_apart(a: &Vec<(u32, u32)>, b: &Vec<(u32, u32)>) -> (r: bool)
    requires
        ranges_wf(a@),
        ranges_wf(b@),
    ensures
        r == ranges_apart(a@, b@),
{
    let mut i: usize = 0;
    let mut j: usize = 0;
    while i < a.len() && j < b.len()
        invariant
            i <= a@.len(),
            j <= b@.len(),
            ranges_wf(a@),
            ranges_wf(b@),
            forall|x: int, y: int|
                0 <= x < i && 0 <= y < b@.len() ==> a@[x].1 < b@[y].0 || b@[y].1 < a@[x].0,
            forall|x: int, y: int|
                0 <= x < a@.len() && 0 <= y < j ==> a@[x].1 < b@[y].0 || b@[y].1 < a@[x].0,
        decreases a@.len() - i + b@.len() - j,
    {
        let (a_start, a_end) = a[i];
        let (b_start, b_end) = b[j];
        if a_end < b_start {
            assert forall|y: int| 0 <= y < b@.len() implies a@[i as int].1 < b@[y].0 || b@[y].1
                < a@[i as int].0 by {
                if j < y {
                    assert(b@[j as int].1 < b@[y].0);
                }
            }
            i = i + 1;
        } else if b_end < a_start {
            assert forall|x: int| 0 <= x < a@.len() implies a@[x].1 < b@[j as int].0 || b@[
                j as int
            ].1 < a@[x].0 by {
                if i < x {
                    assert(a@[i as int].1 < a@[x].0);
                }
            }
            j = j + 1;
        } else {
            assert(!(a@[i as int].1 < b@[j as int].0 || b@[j as int].1 < a@[i as int].0));
            return false;
        }
    }
    true
}

} // verus!
