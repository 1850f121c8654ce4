//! Queries over several code points at once, and comparison of a decomposition with the
//! characters it is expected to hold.
use vstd::prelude::*;

use crate::category::GeneralCategory;
use crate::database::UnicodeData;

verus! {

/// The general category of each code point of `cps`, in order.
pub fn categories_of(d: &UnicodeData, cps: &Vec<u32>) -> (r: Vec<GeneralCategory>)
    requires
        d.wf(),
    ensures
        r@.len() == cps@.len(),
        forall|i: int| 0 <= i < cps@.len() ==> r@[i] == d.spec_general_category(cps@[i]),
{
    let mut out: Vec<GeneralCategory> = Vec::new();
    let mut i: usize = 0;
    while i < cps.len()
        invariant
            d.wf(),
            i <= cps@.len(),
            out@.len() == i,
            forall|j: int| 0 <= j < i ==> out@[j] == d.spec_general_category(cps@[j]),
        decreases cps@.len() - i,
    {
        out.push(d.general_category(cps[i]));
        i = i + 1;
    }
    out
}

/// A spread of code points of the Basic Multilingual Plane.
pub open spec fn bmp_samples() -> Seq<u32> {
    seq![0x00, 0x1F, 0x20, 0x21, 0x23, 0x24, 0x61, 0x62]
}

/// A spread of code points above the Basic Multilingual Plane.
pub open spec fn nonbmp_samples() -> Seq<u32> {
    seq![0x10000, 0x10341, 0x1D540, 0x1D746, 0x2E000, 0x2FA1D, 0xE0001, 0xE01C0]
}

/// The categories of the code points of `bmp_samples`, in order: a fixed workload for timing
/// lookups in the Basic Multilingual Plane.
pub fn bench_general_category_bmp(d: &UnicodeData) -> (r: Vec<GeneralCategory>)
    requires
        d.wf(),
    ensures
        r@.len() == bmp_samples().len(),
        forall|i: int|
            0 <= i < bmp_samples().len() ==> r@[i] == d.spec_general_category(bmp_samples()[i]),
{
    let cps: Vec<u32> = vec![0x00, 0x1F, 0x20, 0x21, 0x23, 0x24, 0x61, 0x62];
    assert(cps@ =~= bmp_samples());
    categories_of(d, &cps)
}

/// The categories of the code points of `nonbmp_samples`, in order: a fixed workload for
/// timing lookups above the Basic Multilingual Plane.
pub fn bench_general_category_nonbmp(d: &UnicodeData) -> (r: Vec<GeneralCategory>)
    requires
        d.wf(),
    ensures
        r@.len() == nonbmp_samples().len(),
        forall|i: int|
            0 <= i < nonbmp_samples().len() ==> r@[i] == d.spec_general_category(
                nonbmp_samples()[i],
            ),
{
    let cps: Vec<u32> = vec![0x10000, 0x10341, 0x1D540, 0x1D746, 0x2E000, 0x2FA1D, 0xE0001, 0xE01C0];
    assert(cps@ =~= nonbmp_samples());
    categories_of(d, &cps)
}

/// `s` holds exactly the code points of the characters of `a`, in order.
pub open spec fn same_code_points(s: Seq<u32>, a: Seq<char>) -> bool {
    s.len() == a.len() && forall|i: int|
        0 <= i < a.len() ==> s[i] == #[verifier::truncate] (a[i] as u32)
}

/// Asserts that `b` is present and holds exactly the code points of the characters of `a`,
/// in order; a caller must establish this, so the check costs nothing at run time.
pub fn assert_array_eq(a: &[char], b: Option<&[u32]>)
    requires
        b matches Some(s) && same_code_points(s@, a@),
{
}

} // verus!
