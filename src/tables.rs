//! The read-only lookup tables: interval sets, the category interval map, the sparse
//! combining-class table and the decomposition tables.
use vstd::prelude::*;

use crate::category::GeneralCategory;
use crate::search::{
    check_apart, check_keys, check_ranges, covers, find_key, find_range, has_key, in_range,
    keys_wf, lemma_key_unique, lemma_range_unique, ranges_apart, ranges_wf,
};

verus! {

/// A set of code points held as sorted, disjoint closed intervals.
pub struct IntervalSet {
    ranges: Vec<(u32, u32)>,
}

impl View for IntervalSet {
    type V = Seq<(u32, u32)>;

    closed spec fn view(&self) -> Seq<(u32, u32)> {
        self.ranges@
    }
}

impl IntervalSet {
    pub open spec fn wf(&self) -> bool {
        ranges_wf(self@)
    }

    /// Membership of `cp` in the set.
    pub open spec fn spec_contains(&self, cp: u32) -> bool {
        covers(self@, cp)
    }

    /// Takes the intervals if they are well formed.
    pub fn new(ranges: Vec<(u32, u32)>) -> (r: Option<IntervalSet>)
        ensures
            r is Some <==> ranges_wf(ranges@),
            r matches Some(s) ==> s@ == ranges@,
    {
        if check_ranges(&ranges) {
            Some(IntervalSet { ranges })
        } else {
            None
        }
    }

    /// Whether some interval holds `cp`.
    pub fn contains(&self, cp: u32) -> (r: bool)
        requires
            self.wf(),
        ensures
            r == self.spec_contains(cp),
    {
        find_range(&self.ranges, cp).is_some()
    }

    /// Whether the two sets share no code point, interval against interval.
    pub fn apart_from(&self, other: &IntervalSet) -> (r: bool)
        requires
            self.wf(),
            other.wf(),
        ensures
            r == ranges_apart(self@, other@),
    {
        check_apart(&self.ranges, &other.ranges)
    }
}

/// The category of `cp` in intervals `b` carrying categories `v`; Cn where no interval holds it.
pub open spec fn category_in(b: Seq<(u32, u32)>, v: Seq<GeneralCategory>, cp: u32) -> GeneralCategory {
    if covers(b, cp) {
        v[choose|i: int| 0 <= i < b.len() && in_range(b[i], cp)]
    } else {
        GeneralCategory::Cn
    }
}

/// Sorted, disjoint intervals, each carrying one general category.
pub struct CategoryMap {
    bounds: Vec<(u32, u32)>,
    values: Vec<GeneralCategory>,
}

impl View for CategoryMap {
    type V = (Seq<(u32, u32)>, Seq<GeneralCategory>);

    closed spec fn view(&self) -> (Seq<(u32, u32)>, Seq<GeneralCategory>) {
        (self.bounds@, self.values@)
    }
}

impl CategoryMap {
    pub open spec fn wf(&self) -> bool {
        ranges_wf(self@.0) && self@.0.len() == self@.1.len()
    }

    pub open spec fn spec_category(&self, cp: u32) -> GeneralCategory {
        category_in(self@.0, self@.1, cp)
    }

    /// Takes the intervals and their categories if the intervals are well formed and the two
    /// lists have one length.
    pub fn new(bounds: Vec<(u32, u32)>, values: Vec<GeneralCategory>) -> (r: Option<CategoryMap>)
        ensures
            r is Some <==> ranges_wf(bounds@) && bounds@.len() == values@.len(),
            r matches Some(m) ==> m@ == (bounds@, values@),
    {
        if bounds.len() == values.len() && check_ranges(&bounds) {
            Some(CategoryMap { bounds, values })
        } else {
            None
        }
    }

    /// The category of the interval holding `cp`, or Cn.
    pub fn category(&self, cp: u32) -> (r: GeneralCategory)
        requires
            self.wf(),
        ensures
            r == self.spec_category(cp),
    {
        match find_range(&self.bounds, cp) {
            Some(i) => {
                proof {
                    let j = choose|j: int|
                        0 <= j < self.bounds@.len() && in_range(self.bounds@[j], cp);
                    lemma_range_unique(self.bounds@, cp, i as int, j);
                }
                self.values[i]
            },
            None => GeneralCategory::Cn,
        }
    }
}

/// The value stored under `cp` among keys `k` and values `v`; 0 where `cp` is absent.
pub open spec fn class_in(k: Seq<u32>, v: Seq<u8>, cp: u32) -> u8 {
    if has_key(k, cp) {
        v[choose|i: int| 0 <= i < k.len() && k[i] == cp]
    } else {
        0
    }
}

/// Sparse (code point, small value) pairs, sorted by code point, default 0.
pub struct ClassTable {
    keys: Vec<u32>,
    values: Vec<u8>,
}

impl View for ClassTable {
    type V = (Seq<u32>, Seq<u8>);

    closed spec fn view(&self) -> (Seq<u32>, Seq<u8>) {
        (self.keys@, self.values@)
    }
}

impl ClassTable {
    pub open spec fn wf(&self) -> bool {
        keys_wf(self@.0) && self@.0.len() == self@.1.len()
    }

    pub open spec fn spec_value(&self, cp: u32) -> u8 {
        class_in(self@.0, self@.1, cp)
    }

    /// Takes the pairs if the keys are strictly ascending and the two lists have one length.
    pub fn new(keys: Vec<u32>, values: Vec<u8>) -> (r: Option<ClassTable>)
        ensures
            r is Some <==> keys_wf(keys@) && keys@.len() == values@.len(),
            r matches Some(t) ==> t@ == (keys@, values@),
    {
        if keys.len() == values.len() && check_keys(&keys) {
            Some(ClassTable { keys, values })
        } else {
            None
        }
    }

    /// The value listed for `cp`, or 0.
    pub fn value(&self, cp: u32) -> (r: u8)
        requires
            self.wf(),
        ensures
            r == self.spec_value(cp),
    {
        match find_key(&self.keys, cp) {
            Some(i) => {
                proof {
                    let j = choose|j: int| 0 <= j < self.keys@.len() && self.keys@[j] == cp;
                    lemma_key_unique(self.keys@, cp, i as int, j);
                }
                self.values[i]
            },
            None => 0,
        }
    }
}

/// The code points that a span (offset, length) marks in `pool`.
pub open spec fn span_of(span: (u32, u32), pool: Seq<u32>) -> Seq<u32> {
    pool.subrange(span.0 as int, span.0 + span.1)
}

/// Entry `i` lies inside the pool, is non-empty, and is not `cp` mapped to itself alone.
pub open spec fn entry_ok(k: Seq<u32>, s: Seq<(u32, u32)>, p: Seq<u32>, i: int) -> bool {
    &&& s[i].0 + s[i].1 <= p.len()
    &&& s[i].1 >= 1
    &&& span_of(s[i], p) != seq![k[i]]
}

/// The sequence listed for `cp`, if `cp` is a key.
pub open spec fn mapping_in(k: Seq<u32>, s: Seq<(u32, u32)>, p: Seq<u32>, cp: u32) -> Option<
    Seq<u32>,
> {
    if has_key(k, cp) {
        Some(span_of(s[choose|i: int| 0 <= i < k.len() && k[i] == cp], p))
    } else {
        None
    }
}

/// Decomposition mappings: keys sorted ascending, each with a span of one shared pool of
/// replacement code points.
pub struct DecompTable {
    keys: Vec<u32>,
    spans: Vec<(u32, u32)>,
    pool: Vec<u32>,
}

impl View for DecompTable {
    type V = (Seq<u32>, Seq<(u32, u32)>, Seq<u32>);

    closed spec fn view(&self) -> (Seq<u32>, Seq<(u32, u32)>, Seq<u32>) {
        (self.keys@, self.spans@, self.pool@)
    }
}

/// Strictly ascending keys, one span per key, and every entry well formed.
pub open spec fn decomp_wf(k: Seq<u32>, s: Seq<(u32, u32)>, p: Seq<u32>) -> bool {
    &&& keys_wf(k)
    &&& k.len() == s.len()
    &&& forall|i: int| 0 <= i < k.len() ==> entry_ok(k, s, p, i)
}

impl DecompTable {
    pub open spec fn wf(&self) -> bool {
        decomp_wf(self@.0, self@.1, self@.2)
    }

    pub open spec fn spec_mapping(&self, cp: u32) -> Option<Seq<u32>> {
        mapping_in(self@.0, self@.1, self@.2, cp)
    }

    /// Takes the keys, spans and pool if they form a well-formed table.
    pub fn new(keys: Vec<u32>, spans: Vec<(u32, u32)>, pool: Vec<u32>) -> (r: Option<DecompTable>)
        ensures
            r is Some <==> decomp_wf(keys@, spans@, pool@),
            r matches Some(t) ==> t@ == (keys@, spans@, pool@),
    {
        if keys.len() != spans.len() || !check_keys(&keys) {
            return None;
        }
        let n = keys.len();
        let mut i: usize = 0;
        while i < n
            invariant
                n == keys@.len(),
                n == spans@.len(),
                i <= n,
                forall|j: int| 0 <= j < i ==> entry_ok(keys@, spans@, pool@, j),
            decreases n - i,
        {
            let (offset, len) = spans[i];
            if offset as u64 + len as u64 > pool.len() as u64 || len == 0 {
                assert(!entry_ok(keys@, spans@, pool@, i as int));
                return None;
            }
            if len == 1 && pool[offset as usize] == keys[i] {
                assert(span_of(spans@[i as int], pool@) =~= seq![keys@[i as int]]);
                assert(!entry_ok(keys@, spans@, pool@, i as int));
                return None;
            }
            assert(span_of(spans@[i as int], pool@) != seq![keys@[i as int]]) by {
                if len == 1 {
                    assert(span_of(spans@[i as int], pool@)[0] == pool@[offset as int]);
                    assert(seq![keys@[i as int]][0] == keys@[i as int]);
                } else {
                    assert(span_of(spans@[i as int], pool@).len() == len);
                }
            }
            i = i + 1;
        }
        Some(DecompTable { keys, spans, pool })
    }

    /// A copy of the sequence listed for `cp`, or None.
    pub fn mapping(&self, cp: u32) -> (r: Option<Vec<u32>>)
        requires
            self.wf(),
        ensures
            match r {
                Some(v) => self.spec_mapping(cp) == Some(v@),
                None => self.spec_mapping(cp) is None,
            },
    {
        match find_key(&self.keys, cp) {
            Some(i) => {
                proof {
                    let j = choose|j: int| 0 <= j < self.keys@.len() && self.keys@[j] == cp;
                    lemma_key_unique(self.keys@, cp, i as int, j);
                    assert(entry_ok(self.keys@, self.spans@, self.pool@, i as int));
                }
                let (offset, len) = self.spans[i];
                let pool_len = self.pool.len();
                assert(offset + len <= pool_len);
                let start = offset as usize;
                let end = start + len as usize;
                let mut out: Vec<u32> = Vec::new();
                let mut k: usize = start;
                while k < end
                    invariant
                        start <= k <= end <= self.pool@.len(),
                        out@ =~= self.pool@.subrange(start as int, k as int),
                    decreases end - k,
                {
                    out.push(self.pool[k]);
                    k = k + 1;
                }
                Some(out)
            },
            None => None,
        }
    }

    /// Whether no key of this table is a key of `other`.
    pub fn keys_apart_from(&self, other: &DecompTable) -> (r: bool)
        requires
            self.wf(),
            other.wf(),
        ensures
            r <==> forall|cp: u32| !(has_key(self@.0, cp) && has_key(other@.0, cp)),
    {
        let n = self.keys.len();
        let mut i: usize = 0;
        while i < n
            invariant
                n == self.keys@.len(),
                i <= n,
                keys_wf(other.keys@),
                forall|j: int| 0 <= j < i ==> !has_key(other.keys@, #[trigger] self.keys@[j]),
            decreases n - i,
        {
            if find_key(&other.keys, self.keys[i]).is_some() {
                let ghost cp = self.keys@[i as int];
                assert(has_key(self@.0, cp) && has_key(other@.0, cp));
                return false;
            }
            i = i + 1;
        }
        true
    }
}

} // verus!
