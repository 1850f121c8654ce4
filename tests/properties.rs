use unicode_db::batch::{
    assert_array_eq, bench_general_category_bmp, bench_general_category_nonbmp, categories_of,
};
use unicode_db::category::GeneralCategory;
use unicode_db::data;
use unicode_db::database::{TableError, UnicodeData};
use unicode_db::tables::{CategoryMap, ClassTable, DecompTable, IntervalSet};

fn tables() -> UnicodeData {
    UnicodeData::new().expect("the embedded tables are well formed")
}

fn is_letter(c: GeneralCategory) -> bool {
    matches!(
        c,
        GeneralCategory::Lu
            | GeneralCategory::Ll
            | GeneralCategory::Lt
            | GeneralCategory::Lm
            | GeneralCategory::Lo
    )
}

#[test]
fn scenario_categories() {
    let d = tables();
    assert_eq!(d.general_category(0x0000), GeneralCategory::Cc);
    assert_eq!(d.general_category(0x0020), GeneralCategory::Zs);
    assert_eq!(d.general_category(0xD7A4), GeneralCategory::Cn);
}

#[test]
fn scenario_combining_class() {
    let d = tables();
    assert_eq!(d.combining_class(0x0300), 230);
    assert_eq!(d.combining_class('A' as u32), 0);
}

#[test]
fn scenario_case_and_alphabetic() {
    let d = tables();
    assert!(d.uppercase(0x00C0));
    assert!(!d.lowercase(0x00C0));
    assert!(d.alphabetic(0x0002F800));
}

#[test]
fn scenario_decompositions() {
    let d = tables();
    assert_eq!(d.canon_decomp(0x00C0), Some(vec![0x0041, 0x0300]));
    assert_eq!(d.compat_decomp(0x00AA), Some(vec![0x0061]));
    assert_eq!(d.canon_decomp(0x00AA), None);
    assert_eq!(d.compat_decomp(0x0000), None);
    assert_eq!(d.canon_decomp(0x0000), None);
}

#[test]
fn category_edges() {
    let d = tables();
    assert_eq!(d.general_category(0xD800), GeneralCategory::Cs);
    assert_eq!(d.general_category(0xDFFF), GeneralCategory::Cs);
    assert_eq!(d.general_category(0xE000), GeneralCategory::Co);
    assert_eq!(d.general_category(0x0378), GeneralCategory::Cn);
    assert_eq!(d.general_category(0x10FFFD), GeneralCategory::Co);
    assert_eq!(d.general_category(0x10FFFF), GeneralCategory::Cn);
    assert_eq!(d.general_category(0x110000), GeneralCategory::Cn);
    assert_eq!(d.general_category(u32::MAX), GeneralCategory::Cn);
}

#[test]
fn defaults_past_the_tables() {
    let d = tables();
    assert_eq!(d.combining_class(0x10FFFF), 0);
    assert!(!d.uppercase(0x10FFFF));
    assert!(!d.lowercase(0x10FFFF));
    assert!(!d.alphabetic(0x10FFFF));
    assert_eq!(d.canon_decomp(0x10FFFF), None);
    assert_eq!(d.compat_decomp(0x10FFFF), None);
}

#[test]
fn longest_decomposition() {
    let d = tables();
    let s = d.compat_decomp(0xFDFA).expect("a compatibility decomposition");
    assert_eq!(s.len(), 18);
    assert_eq!(s[0], 0x0635);
}

#[test]
fn category_is_deterministic() {
    let d = tables();
    let e = tables();
    let mut cp: u32 = 0;
    while cp <= 0x10FFFF {
        let c = d.general_category(cp);
        assert_eq!(c, d.general_category(cp));
        assert_eq!(c, e.general_category(cp));
        cp += 1;
    }
}

#[test]
fn case_is_exclusive_everywhere() {
    let d = tables();
    for cp in 0..=0x10FFFFu32 {
        assert!(!(d.uppercase(cp) && d.lowercase(cp)));
    }
}

#[test]
fn alphabetic_follows_letters() {
    let d = tables();
    for cp in 0..=0x10FFFFu32 {
        let c = d.general_category(cp);
        if is_letter(c) {
            assert!(d.alphabetic(cp));
        }
        if c == GeneralCategory::Cc || c == GeneralCategory::Cn || c == GeneralCategory::Co {
            assert!(!d.alphabetic(cp));
        }
    }
    // A nonspacing mark granted alphabetic status by the supplemental table.
    assert_eq!(d.general_category(0x0345), GeneralCategory::Mn);
    assert!(d.alphabetic(0x0345));
    // A letter number (Roman numeral one).
    assert!(d.alphabetic(0x2160));
    assert!(!d.alphabetic(0x0030));
}

#[test]
fn decompositions_are_exclusive_and_change() {
    let d = tables();
    for cp in 0..=0x10FFFFu32 {
        let canon = d.canon_decomp(cp);
        let compat = d.compat_decomp(cp);
        assert!(!(canon.is_some() && compat.is_some()));
        for s in [canon, compat].into_iter().flatten() {
            assert!(!s.is_empty());
            assert!(s != vec![cp]);
        }
    }
}

#[test]
fn batch_queries() {
    let d = tables();
    type G = GeneralCategory;
    assert_eq!(bench_general_category_bmp(&d), vec![G::Cc, G::Cc, G::Zs, G::Po, G::Po, G::Sc, G::Ll, G::Ll]);
    assert_eq!(bench_general_category_nonbmp(&d), vec![G::Lo, G::Nl, G::Lu, G::Ll, G::Lo, G::Lo, G::Cf, G::Mn]);
    assert_eq!(categories_of(&d, &vec![]), vec![]);
    assert_eq!(categories_of(&d, &vec![0x41, 0xD7A4]), vec![G::Lu, G::Cn]);
}

#[test]
fn array_comparison() {
    assert_array_eq(&['A', '\u{300}'], Some(&[0x41, 0x300][..]));
    assert_array_eq(&[], Some(&[][..]));
}

#[test]
fn malformed_tables_are_refused() {
    assert!(IntervalSet::new(vec![(5, 3)]).is_none());
    assert!(IntervalSet::new(vec![(1, 5), (5, 9)]).is_none());
    assert!(IntervalSet::new(vec![(6, 9), (1, 5)]).is_none());
    assert!(IntervalSet::new(vec![(1, 5), (6, 9)]).is_some());
    assert!(IntervalSet::new(vec![]).is_some());
    assert!(CategoryMap::new(vec![(1, 5)], vec![]).is_none());
    assert!(CategoryMap::new(vec![(1, 5), (3, 4)], vec![GeneralCategory::Lu, GeneralCategory::Ll]).is_none());
    assert!(ClassTable::new(vec![3, 3], vec![1, 2]).is_none());
    assert!(ClassTable::new(vec![3, 4], vec![1]).is_none());
    assert!(ClassTable::new(vec![3, 4], vec![1, 2]).is_some());
    // an empty decomposition
    assert!(DecompTable::new(vec![10], vec![(0, 0)], vec![1]).is_none());
    // a span past the end of the pool
    assert!(DecompTable::new(vec![10], vec![(0, 2)], vec![1]).is_none());
    // a code point mapped to itself alone
    assert!(DecompTable::new(vec![10], vec![(0, 1)], vec![10]).is_none());
    // keys out of order
    assert!(DecompTable::new(vec![11, 10], vec![(0, 1), (1, 1)], vec![1, 2]).is_none());
    assert!(DecompTable::new(vec![10, 11], vec![(0, 1)], vec![1]).is_none());
    assert!(DecompTable::new(vec![10, 11], vec![(0, 2), (1, 1)], vec![10, 2]).is_some());
}

fn small(upper: Vec<(u32, u32)>, canon_key: u32) -> Result<UnicodeData, TableError> {
    UnicodeData::from_tables(
        CategoryMap::new(
            vec![(0x41, 0x5A), (0x61, 0x7A), (0x300, 0x301)],
            vec![GeneralCategory::Lu, GeneralCategory::Ll, GeneralCategory::Mn],
        )
        .unwrap(),
        ClassTable::new(vec![0x300, 0x301], vec![230, 230]).unwrap(),
        IntervalSet::new(upper).unwrap(),
        IntervalSet::new(vec![(0x61, 0x7A)]).unwrap(),
        IntervalSet::new(vec![(0x300, 0x300)]).unwrap(),
        DecompTable::new(vec![canon_key], vec![(0, 2)], vec![0x41, 0x300]).unwrap(),
        DecompTable::new(vec![0xAA], vec![(0, 1)], vec![0x61]).unwrap(),
    )
}

#[test]
fn assembled_tables() {
    let d = small(vec![(0x41, 0x5A)], 0xC0).unwrap();
    assert_eq!(d.general_category(0x42), GeneralCategory::Lu);
    assert_eq!(d.general_category(0x60), GeneralCategory::Cn);
    assert_eq!(d.general_category(0x7B), GeneralCategory::Cn);
    assert_eq!(d.combining_class(0x301), 230);
    assert_eq!(d.combining_class(0x302), 0);
    assert!(d.uppercase(0x5A) && !d.uppercase(0x5B));
    assert!(d.lowercase(0x61) && !d.lowercase(0x41));
    assert!(d.alphabetic(0x300));
    assert!(!d.alphabetic(0x301));
    assert!(d.alphabetic(0x62));
    assert_eq!(d.canon_decomp(0xC0), Some(vec![0x41, 0x300]));
    assert_eq!(d.compat_decomp(0xC0), None);
    assert_eq!(d.compat_decomp(0xAA), Some(vec![0x61]));
}

#[test]
fn case_overlap_is_refused() {
    assert_eq!(small(vec![(0x41, 0x61)], 0xC0).err(), Some(TableError::CaseOverlap));
}

#[test]
fn decomposition_overlap_is_refused() {
    assert_eq!(small(vec![(0x41, 0x5A)], 0xAA).err(), Some(TableError::DecompositionOverlap));
}

#[test]
fn embedded_tables() {

    assert_eq!(data::category_bounds().len(), data::category_values().len());
    assert_eq!(data::category_bounds()[0], (0x0000, 0x001F));
    assert_eq!(data::category_values()[0], GeneralCategory::Cc);
    assert_eq!(data::combining_keys().len(), data::combining_values().len());
    assert_eq!(data::canonical_keys().len(), data::canonical_spans().len());
    assert_eq!(data::compatibility_keys().len(), data::compatibility_spans().len());
    let pool = data::canonical_pool();
    let (offset, len) = data::canonical_spans()[0];
    assert!(len >= 1 && (offset + len) as usize <= pool.len());
}
