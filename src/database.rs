//! The query surface: one value holding every table, and the point queries on it.
use vstd::prelude::*;

use crate::category::{is_letter_category, GeneralCategory};
use crate::data;
use crate::search::{covers, has_key, in_range, keys_wf, ranges_apart, ranges_wf};
use crate::tables::{
    category_in, class_in, decomp_wf, entry_ok, mapping_in, span_of, CategoryMap, ClassTable,
    DecompTable, IntervalSet,
};

verus! {

/// The table that a construction failed on.
#[derive(Clone, Copy, Debug, PartialEq, Eq, Structural)]
pub enum TableError {
    /// The category intervals are unsorted or overlap, or their tags do not match them in number.
    Categories,
    /// The combining-class keys are not strictly ascending, or do not match the values in number.
    CombiningClasses,
    /// The uppercase intervals are unsorted or overlap.
    Uppercase,
    /// The lowercase intervals are unsorted or overlap.
    Lowercase,
    /// The supplemental alphabetic intervals are unsorted or overlap.
    OtherAlphabetic,
    /// The canonical decomposition table is malformed.
    Canonical,
    /// The compatibility decomposition table is malformed.
    Compatibility,
    /// Some code point is listed both as uppercase and as lowercase.
    CaseOverlap,
    /// Some code point has both a canonical and a compatibility decomposition.
    DecompositionOverlap,
}

/// Every property table of the character database, read-only once built.
pub struct UnicodeData {
    categories: CategoryMap,
    classes: ClassTable,
    upper: IntervalSet,
    lower: IntervalSet,
    other_alphabetic: IntervalSet,
    canonical: DecompTable,
    compatibility: DecompTable,
}

/// Each table well formed, no code point both uppercase and lowercase, and no code point
/// with both kinds of decomposition.
pub open spec fn tables_wf(
    categories: CategoryMap,
    classes: ClassTable,
    upper: IntervalSet,
    lower: IntervalSet,
    other_alphabetic: IntervalSet,
    canonical: DecompTable,
    compatibility: DecompTable,
) -> bool {
    &&& categories.wf()
    &&& classes.wf()
    &&& upper.wf()
    &&& lower.wf()
    &&& other_alphabetic.wf()
    &&& canonical.wf()
    &&& compatibility.wf()
    &&& ranges_apart(upper@, lower@)
    &&& forall|cp: u32| !(has_key(canonical@.0, cp) && has_key(compatibility@.0, cp))
}

/// The first fault of the embedded tables, in the order in which `UnicodeData::new` checks
/// them; None where every table is well formed and the tables agree with one another.
pub open spec fn embedded_fault() -> Option<TableError> {
    let cat_bounds = data::category_bounds_data();
    let comb_keys = data::combining_keys_data();
    let upper = data::uppercase_ranges_data();
    let lower = data::lowercase_ranges_data();
    let canon_keys = data::canonical_keys_data();
    let compat_keys = data::compatibility_keys_data();
    if !(ranges_wf(cat_bounds) && cat_bounds.len() == data::category_values_data().len()) {
        Some(TableError::Categories)
    } else if !(keys_wf(comb_keys) && comb_keys.len() == data::combining_values_data().len()) {
        Some(TableError::CombiningClasses)
    } else if !ranges_wf(upper) {
        Some(TableError::Uppercase)
    } else if !ranges_wf(lower) {
        Some(TableError::Lowercase)
    } else if !ranges_wf(data::other_alphabetic_ranges_data()) {
        Some(TableError::OtherAlphabetic)
    } else if !decomp_wf(canon_keys, data::canonical_spans_data(), data::canonical_pool_data()) {
        Some(TableError::Canonical)
    } else if !decomp_wf(
        compat_keys,
        data::compatibility_spans_data(),
        data::compatibility_pool_data(),
    ) {
        Some(TableError::Compatibility)
    } else if !ranges_apart(upper, lower) {
        Some(TableError::CaseOverlap)
    } else if !(forall|cp: u32| !(has_key(canon_keys, cp) && has_key(compat_keys, cp))) {
        Some(TableError::DecompositionOverlap)
    } else {
        None
    }
}

impl UnicodeData {
    pub closed spec fn wf(&self) -> bool {
        tables_wf(
            self.categories,
            self.classes,
            self.upper,
            self.lower,
            self.other_alphabetic,
            self.canonical,
            self.compatibility,
        )
    }

    /// The category table: intervals and their tags.
    pub closed spec fn category_table(&self) -> (Seq<(u32, u32)>, Seq<GeneralCategory>) {
        self.categories@
    }

    /// The supplemental alphabetic intervals (marks, letter numbers and the like).
    pub closed spec fn other_alphabetic_table(&self) -> Seq<(u32, u32)> {
        self.other_alphabetic@
    }

    pub closed spec fn spec_general_category(&self, cp: u32) -> GeneralCategory {
        self.categories.spec_category(cp)
    }

    pub closed spec fn spec_combining_class(&self, cp: u32) -> u8 {
        self.classes.spec_value(cp)
    }

    pub closed spec fn spec_uppercase(&self, cp: u32) -> bool {
        self.upper.spec_contains(cp)
    }

    pub closed spec fn spec_lowercase(&self, cp: u32) -> bool {
        self.lower.spec_contains(cp)
    }

    /// Alphabetic: a letter category, or listed in the supplemental table.
    pub open spec fn spec_alphabetic(&self, cp: u32) -> bool {
        is_letter_category(self.spec_general_category(cp)) || covers(
            self.other_alphabetic_table(),
            cp,
        )
    }

    pub closed spec fn spec_canon_decomp(&self, cp: u32) -> Option<Seq<u32>> {
        self.canonical.spec_mapping(cp)
    }

    pub closed spec fn spec_compat_decomp(&self, cp: u32) -> Option<Seq<u32>> {
        self.compatibility.spec_mapping(cp)
    }

    /// Puts well-formed tables together, after checking that no code point is both uppercase
    /// and lowercase and that none has both kinds of decomposition.
    pub fn from_tables(
        categories: CategoryMap,
        classes: ClassTable,
        upper: IntervalSet,
        lower: IntervalSet,
        other_alphabetic: IntervalSet,
        canonical: DecompTable,
        compatibility: DecompTable,
    ) -> (r: Result<UnicodeData, TableError>)
        requires
            categories.wf(),
            classes.wf(),
            upper.wf(),
            lower.wf(),
            other_alphabetic.wf(),
            canonical.wf(),
            compatibility.wf(),
        ensures
            r is Ok <==> tables_wf(
                categories,
                classes,
                upper,
                lower,
                other_alphabetic,
                canonical,
                compatibility,
            ),
            r == Err::<UnicodeData, TableError>(TableError::CaseOverlap) <==> !ranges_apart(
                upper@,
                lower@,
            ),
            r == Err::<UnicodeData, TableError>(TableError::DecompositionOverlap) <==> ranges_apart(
                upper@,
                lower@,
            ) && !(forall|cp: u32| !(has_key(canonical@.0, cp) && has_key(compatibility@.0, cp))),
            r matches Ok(d) ==> {
                &&& d.wf()
                &&& d.category_table() == categories@
                &&& d.other_alphabetic_table() == other_alphabetic@
                &&& forall|cp: u32|
                    {
                        &&& d.spec_general_category(cp) == categories.spec_category(cp)
                        &&& d.spec_combining_class(cp) == classes.spec_value(cp)
                        &&& d.spec_uppercase(cp) == upper.spec_contains(cp)
                        &&& d.spec_lowercase(cp) == lower.spec_contains(cp)
                        &&& d.spec_canon_decomp(cp) == canonical.spec_mapping(cp)
                        &&& d.spec_compat_decomp(cp) == compatibility.spec_mapping(cp)
                    }
            },
    {
        if !upper.apart_from(&lower) {
            return Err(TableError::CaseOverlap);
        }
        if !canonical.keys_apart_from(&compatibility) {
            return Err(TableError::DecompositionOverlap);
        }
        Ok(
            UnicodeData {
                categories,
                classes,
                upper,
                lower,
                other_alphabetic,
                canonical,
                compatibility,
            },
        )
    }

    /// Builds the tables of the embedded Unicode data, checking each of them once. On success
    /// every query answers from exactly those tables.
    pub fn new() -> (r: Result<UnicodeData, TableError>)
        ensures
            match r {
                Ok(_) => embedded_fault() is None,
                Err(e) => embedded_fault() == Some(e),
            },
            r matches Ok(d) ==> {
                &&& d.wf()
                &&& d.category_table() == (
                    data::category_bounds_data(),
                    data::category_values_data(),
                )
                &&& d.other_alphabetic_table() == data::other_alphabetic_ranges_data()
                &&& forall|cp: u32|
                    {
                        &&& d.spec_general_category(cp) == category_in(
                            data::category_bounds_data(),
                            data::category_values_data(),
                            cp,
                        )
                        &&& d.spec_combining_class(cp) == class_in(
                            data::combining_keys_data(),
                            data::combining_values_data(),
                            cp,
                        )
                        &&& d.spec_uppercase(cp) == covers(data::uppercase_ranges_data(), cp)
                        &&& d.spec_lowercase(cp) == covers(data::lowercase_ranges_data(), cp)
                        &&& d.spec_canon_decomp(cp) == mapping_in(
                            data::canonical_keys_data(),
                            data::canonical_spans_data(),
                            data::canonical_pool_data(),
                            cp,
                        )
                        &&& d.spec_compat_decomp(cp) == mapping_in(
                            data::compatibility_keys_data(),
                            data::compatibility_spans_data(),
                            data::compatibility_pool_data(),
                            cp,
                        )
                    }
            },
    {
        let categories = match CategoryMap::new(data::category_bounds(), data::category_values()) {
            Some(t) => t,
            None => return Err(TableError::Categories),
        };
        let classes = match ClassTable::new(data::combining_keys(), data::combining_values()) {
            Some(t) => t,
            None => return Err(TableError::CombiningClasses),
        };
        let upper = match IntervalSet::new(data::uppercase_ranges()) {
            Some(t) => t,
            None => return Err(TableError::Uppercase),
        };
        let lower = match IntervalSet::new(data::lowercase_ranges()) {
            Some(t) => t,
            None => return Err(TableError::Lowercase),
        };
        let other_alphabetic = match IntervalSet::new(data::other_alphabetic_ranges()) {
            Some(t) => t,
            None => return Err(TableError::OtherAlphabetic),
        };
        let canonical = match DecompTable::new(
            data::canonical_keys(),
            data::canonical_spans(),
            data::canonical_pool(),
        ) {
            Some(t) => t,
            None => return Err(TableError::Canonical),
        };
        let compatibility = match DecompTable::new(
            data::compatibility_keys(),
            data::compatibility_spans(),
            data::compatibility_pool(),
        ) {
            Some(t) => t,
            None => return Err(TableError::Compatibility),
        };
        UnicodeData::from_tables(
            categories,
            classes,
            upper,
            lower,
            other_alphabetic,
            canonical,
            compatibility,
        )
    }

    /// The general category of `cp`; Cn where no interval of the table holds it.
    pub fn general_category(&self, cp: u32) -> (r: GeneralCategory)
        requires
            self.wf(),
        ensures
            r == self.spec_general_category(cp),
    {
        self.categories.category(cp)
    }

    /// The canonical combining class of `cp`; 0 where the table does not list it.
    pub fn combining_class(&self, cp: u32) -> (r: u8)
        requires
            self.wf(),
        ensures
            r == self.spec_combining_class(cp),
    {
        self.classes.value(cp)
    }

    /// Whether `cp` has the Uppercase property.
    pub fn uppercase(&self, cp: u32) -> (r: bool)
        requires
            self.wf(),
        ensures
            r == self.spec_uppercase(cp),
    {
        self.upper.contains(cp)
    }

    /// Whether `cp` has the Lowercase property.
    pub fn lowercase(&self, cp: u32) -> (r: bool)
        requires
            self.wf(),
        ensures
            r == self.spec_lowercase(cp),
    {
        self.lower.contains(cp)
    }

    /// Whether `cp` is alphabetic: of a letter category, or in the supplemental table.
    pub fn alphabetic(&self, cp: u32) -> (r: bool)
        requires
            self.wf(),
        ensures
            r == self.spec_alphabetic(cp),
    {
        self.categories.category(cp).is_letter() || self.other_alphabetic.contains(cp)
    }

    /// The canonical decomposition of `cp`, one level deep, or None.
    pub fn canon_decomp(&self, cp: u32) -> (r: Option<Vec<u32>>)
        requires
            self.wf(),
        ensures
            match r {
                Some(v) => self.spec_canon_decomp(cp) == Some(v@),
                None => self.spec_canon_decomp(cp) is None,
            },
    {
        self.canonical.mapping(cp)
    }

    /// The compatibility decomposition of `cp`, one level deep, or None.
    pub fn compat_decomp(&self, cp: u32) -> (r: Option<Vec<u32>>)
        requires
            self.wf(),
        ensures
            match r {
                Some(v) => self.spec_compat_decomp(cp) == Some(v@),
                None => self.spec_compat_decomp(cp) is None,
            },
    {
        self.compatibility.mapping(cp)
    }
}

/// Every code point has exactly one general category: at most one interval of the table holds
/// it; its category is that interval's tag, or Cn where no interval holds it.
pub proof fn lemma_category_unique(d: &UnicodeData, cp: u32)
    requires
        d.wf(),
    ensures
        forall|i: int, j: int|
            0 <= i < d.category_table().0.len() && 0 <= j < d.category_table().0.len() && in_range(
                #[trigger] d.category_table().0[i],
                cp,
            ) && in_range(#[trigger] d.category_table().0[j], cp) ==> i == j,
        forall|i: int|
            0 <= i < d.category_table().0.len() && in_range(#[trigger] d.category_table().0[i], cp)
                ==> d.spec_general_category(cp) == d.category_table().1[i],
        !covers(d.category_table().0, cp) ==> d.spec_general_category(cp) == GeneralCategory::Cn,
{
    let b = d.categories@.0;
    assert forall|i: int, j: int|
        0 <= i < b.len() && 0 <= j < b.len() && in_range(#[trigger] b[i], cp) && in_range(
            #[trigger] b[j],
            cp,
        ) implies i == j by {
        crate::search::lemma_range_unique(b, cp, i, j);
    }
}

/// No code point is both uppercase and lowercase.
pub proof fn lemma_case_exclusive(d: &UnicodeData, cp: u32)
    requires
        d.wf(),
    ensures
        !(d.spec_uppercase(cp) && d.spec_lowercase(cp)),
{
    if d.spec_uppercase(cp) && d.spec_lowercase(cp) {
        let u = d.upper@;
        let l = d.lower@;
        let i = choose|i: int| 0 <= i < u.len() && in_range(u[i], cp);
        let j = choose|j: int| 0 <= j < l.len() && in_range(l[j], cp);
        assert(u[i].1 < l[j].0 || l[j].1 < u[i].0);
    }
}

/// Every code point of a letter category is alphabetic; one that is a control, unassigned or
/// private-use is alphabetic only if the supplemental table lists it.
pub proof fn lemma_alphabetic_letters(d: &UnicodeData, cp: u32)
    requires
        d.wf(),
    ensures
        is_letter_category(d.spec_general_category(cp)) ==> d.spec_alphabetic(cp),
        (d.spec_general_category(cp) == GeneralCategory::Cc || d.spec_general_category(cp)
            == GeneralCategory::Cn || d.spec_general_category(cp) == GeneralCategory::Co)
            ==> (d.spec_alphabetic(cp) <==> covers(d.other_alphabetic_table(), cp)),
{
}

/// No code point has both a canonical and a compatibility decomposition.
pub proof fn lemma_decompositions_exclusive(d: &UnicodeData, cp: u32)
    requires
        d.wf(),
    ensures
        !(d.spec_canon_decomp(cp) is Some && d.spec_compat_decomp(cp) is Some),
{
}

/// A decomposition is never empty and never maps a code point to itself alone.
pub proof fn lemma_decompositions_change(d: &UnicodeData, cp: u32)
    requires
        d.wf(),
    ensures
        d.spec_canon_decomp(cp) matches Some(s) ==> s.len() >= 1 && s != seq![cp],
        d.spec_compat_decomp(cp) matches Some(s) ==> s.len() >= 1 && s != seq![cp],
{
    lemma_mapping_changes(d.canonical, cp);
    lemma_mapping_changes(d.compatibility, cp);
}

proof fn lemma_mapping_changes(t: DecompTable, cp: u32)
    requires
        t.wf(),
    ensures
        t.spec_mapping(cp) matches Some(s) ==> s.len() >= 1 && s != seq![cp],
{
    if has_key(t@.0, cp) {
        let i = choose|i: int| 0 <= i < t@.0.len() && t@.0[i] == cp;
        assert(entry_ok(t@.0, t@.1, t@.2, i));
        assert(span_of(t@.1[i], t@.2).len() == t@.1[i].1);
    }
}

} // verus!
