use unicode_db::batch::assert_array_eq;
use unicode_db::category::GeneralCategory;
use unicode_db::database::UnicodeData;

fn tables() -> UnicodeData {
    UnicodeData::new().expect("the embedded tables are well formed")
}

/// Panics unless `b` is present and holds the code points of `a`; then hands both to the
/// library's assertion, whose precondition is thereby met.
fn expect_code_points(a: &[char], b: Option<Vec<u32>>) {
    let b = b.expect("b should be Some");
    assert_eq!(a.len(), b.len());
    for i in 0..a.len() {
        assert_eq!(a[i] as u32, b[i]);
    }
    assert_array_eq(a, Some(&b[..]));
}

#[test]
fn test_general_category_bmp() {
    let d = tables();
    let values = [
        ('\u{00}', GeneralCategory::Cc),
        ('\u{1F}', GeneralCategory::Cc),
        ('\u{20}', GeneralCategory::Zs),
        ('\u{21}', GeneralCategory::Po),
        ('\u{23}', GeneralCategory::Po),
        ('\u{24}', GeneralCategory::Sc),
        ('\u{ac00}', GeneralCategory::Lo), // <Hangul Syllable, First>
        ('\u{d7a3}', GeneralCategory::Lo), // <Hangul Syllable, Last>
        ('\u{d7a4}', GeneralCategory::Cn),
    ];

    for &(v1, v2) in values.iter() {
        let gen_cat = d.general_category(v1 as u32);
        assert_eq!(v2, gen_cat);
    }
}

#[test]
fn test_general_category_others() {
    let d = tables();
    let values = [
        ('\u{2FA1D}', GeneralCategory::Lo),
        ('\u{E0000}', GeneralCategory::Cn),
        ('\u{E0001}', GeneralCategory::Cf),
        ('\u{E01EF}', GeneralCategory::Mn),
        ('\u{E01F0}', GeneralCategory::Cn),
        ('\u{F0000}', GeneralCategory::Co), // private use area
        ('\u{FFFFD}', GeneralCategory::Co), // private use area
        ('\u{FFFFE}', GeneralCategory::Cn),
        ('\u{100000}', GeneralCategory::Co),
        ('\u{10FFFD}', GeneralCategory::Co),
        ('\u{10FFFE}', GeneralCategory::Cn),
    ];

    for &(v1, v2) in values.iter() {
        let gen_cat = d.general_category(v1 as u32);
        assert_eq!(v2, gen_cat);
    }
}

#[test]
fn test_combining_class() {
    let d = tables();
    let values = [
        ('\u{00}', 0),
        ('\u{0300}', 230),
        ('\u{0314}', 230),
        ('\u{0315}', 232),
        ('\u{0316}', 220),
        ('\u{0319}', 220),
        ('\u{fe26}', 230),
        ('\u{fe26}', 230),
        ('\u{101fd}', 220),
        ('\u{10a0d}', 220),
        ('\u{1d244}', 230),
    ];

    for &(v1, v2) in values.iter() {
        let comb = d.combining_class(v1 as u32);
        assert_eq!(v2, comb);
    }
}

#[test]
fn test_uppercase() {
    let d = tables();
    let uppers = [
        '\u{41}', // LATIN CAPITAL LETTER A
        '\u{5A}', // LATIN CAPITAL LETTER Z

        '\u{C0}', // LATIN CAPITAL LETTER A WITH GRAVE
        '\u{D6}', // LATIN CAPITAL LETTER O WITH DIAERESIS

        '\u{0100}', // LATIN CAPITAL LETTER A WITH MACRON
        '\u{0102}', // LATIN CAPITAL LETTER A WITH BREVE

        '\u{A7AA}', // LATIN CAPITAL LETTER H WITH HOOK

        '\u{FF21}', // FULLWIDTH LATIN CAPITAL LETTER A
        '\u{FF3A}', // FULLWIDTH LATIN CAPITAL LETTER Z

        '\u{10400}', // DESERET CAPITAL LETTER LONG I
        '\u{10427}', // DESERET CAPITAL LETTER EW

        '\u{1D7CA}', // MATHEMATICAL BOLD CAPITAL DIGAMMA
    ];

    for upper in uppers.iter() {
        assert!(d.uppercase(*upper as u32));
        assert!(!d.lowercase(*upper as u32));
    }
}

#[test]
fn test_lowercase() {
    let d = tables();
    let lowers = [
        '\u{61}', // LATIN SMALL LETTER A
        '\u{7A}', // LATIN SMALL LETTER Z

        '\u{AA}', // FEMININE ORDINAL INDICATOR
        '\u{B5}', // MICRO SIGN
        '\u{BA}', // MASCULINE ORDINAL INDICATOR

        '\u{DF}', // LATIN SMALL LETTER SHARP S
        '\u{F6}', // LATIN SMALL LETTER O WITH DIAERESIS

        '\u{F8}', // LATIN SMALL LETTER O WITH STROKE
        '\u{FF}', // LATIN SMALL LETTER Y WITH DIAERESIS

        '\u{FF41}', // FULLWIDTH LATIN SMALL LETTER A
        '\u{FF5A}', // FULLWIDTH LATIN SMALL LETTER Z

        '\u{10428}', // DESERET SMALL LETTER LONG I
        '\u{1044F}', // DESERET SMALL LETTER EW

        '\u{1D7CB}', // MATHEMATICAL BOLD CAPITAL DIGAMMA
    ];

    for lower in lowers.iter() {
        assert!(d.lowercase(*lower as u32));
        assert!(!d.uppercase(*lower as u32));
    }
}

#[test]
fn test_alphabetic() {
    let d = tables();
    let alphabets = [
        '\u{41}', // LATIN CAPITAL LETTER A
        '\u{5A}', // LATIN CAPITAL LETTER Z

        '\u{61}', // LATIN SMALL LETTER A
        '\u{7A}', // LATIN SMALL LETTER Z

        '\u{AA}', // FEMININE ORDINAL INDICATOR
        '\u{B5}', // MICRO SIGN
        '\u{BA}', // MASCULINE ORDINAL INDICATOR

        '\u{C0}', // LATIN CAPITAL LETTER A WITH GRAVE
        '\u{D6}', // LATIN CAPITAL LETTER O WITH DIAERESIS

        '\u{D8}', // LATIN CAPITAL LETTER A WITH GRAVE

        '\u{DF}', // LATIN SMALL LETTER SHARP S
        '\u{F6}', // LATIN SMALL LETTER O WITH DIAERESIS

        '\u{F8}', // LATIN SMALL LETTER O WITH STROKE
        '\u{FF}', // LATIN SMALL LETTER Y WITH DIAERESIS

        '\u{01BB}', // LATIN LETTER TWO WITH STROKE

        '\u{FFDA}', // HALFWIDTH HANGUL LETTER EU
        '\u{FFDC}', // HALFWIDTH HANGUL LETTER I

        '\u{10000}', // LINEAR B SYLLABLE B008 A
        '\u{1000B}', // LINEAR B SYLLABLE B046 JE

        '\u{2F800}', // CJK COMPATIBILITY IDEOGRAPH-2F800
        '\u{2FA1D}', // CJK COMPATIBILITY IDEOGRAPH-2FA1D
    ];

    for alphabet in alphabets.iter() {
        assert!(d.alphabetic(*alphabet as u32));
    }
}

#[test]
fn test_compat_decomp_bmp() {
    let d = tables();
    let answers: &[(char, &[char])] = &[
        // borrowed from std::unicode
        ('\u{A0}', &['\u{20}']),
        ('\u{a8}', &['\u{20}', '\u{0308}']),
        ('\u{aa}', &['\u{61}']),
        ('\u{af}', &['\u{20}', '\u{0304}']),
        ('\u{b2}', &['\u{32}']),
        ('\u{b3}', &['\u{33}']),
        ('\u{b4}', &['\u{20}', '\u{0301}']),
        ('\u{b5}', &['\u{03bc}']),
        ('\u{b8}', &['\u{20}', '\u{0327}']),
        ('\u{b9}', &['\u{31}']),
        ('\u{ba}', &['\u{6f}']),

        ('\u{ffe2}', &['\u{ac}']),
        ('\u{ffe3}', &['\u{af}']),
        ('\u{ffe4}', &['\u{a6}']),
        ('\u{ffe5}', &['\u{a5}']),
        ('\u{ffe6}', &['\u{20a9}']),
        ('\u{ffe8}', &['\u{2502}']),
        ('\u{ffe9}', &['\u{2190}']),
        ('\u{ffea}', &['\u{2191}']),
        ('\u{ffeb}', &['\u{2192}']),
        ('\u{ffec}', &['\u{2193}']),
        ('\u{ffed}', &['\u{25a0}']),
        ('\u{ffee}', &['\u{25cb}']),
    ];

    for &(a, bs) in answers.iter() {
        expect_code_points(bs, d.compat_decomp(a as u32));
    }
}

#[test]
fn test_compat_decomp_nonbmp() {
    let d = tables();
    let answers: &[(char, &[char])] = &[
        // borrowed from std::unicode
        ('\u{1d400}', &['\u{41}']), ('\u{1d401}', &['\u{42}']),
        ('\u{1d402}', &['\u{43}']), ('\u{1d403}', &['\u{44}']),
        ('\u{1d404}', &['\u{45}']), ('\u{1d405}', &['\u{46}']),
        ('\u{1d406}', &['\u{47}']), ('\u{1d407}', &['\u{48}']),

        ('\u{1f241}', &['\u{3014}', '\u{4e09}', '\u{3015}']),
        ('\u{1f242}', &['\u{3014}', '\u{4e8c}', '\u{3015}']),
        ('\u{1f243}', &['\u{3014}', '\u{5b89}', '\u{3015}']),
        ('\u{1f244}', &['\u{3014}', '\u{70b9}', '\u{3015}']),
        ('\u{1f245}', &['\u{3014}', '\u{6253}', '\u{3015}']),
        ('\u{1f246}', &['\u{3014}', '\u{76d7}', '\u{3015}']),
        ('\u{1f247}', &['\u{3014}', '\u{52dd}', '\u{3015}']),
        ('\u{1f248}', &['\u{3014}', '\u{6557}', '\u{3015}']),
        ('\u{1f250}', &['\u{5f97}']),
        ('\u{1f251}', &['\u{53ef}']),
    ];

    for &(a, bs) in answers.iter() {
        expect_code_points(bs, d.compat_decomp(a as u32));
    }
}

#[test]
fn test_compat_decomp_none() {
    let d = tables();
    let vals = [
        // some arbitrary examples...
        '\u{00}', '\u{01}', '\u{A1}', '\u{A1}',
        '\u{A9}', '\u{AB}', '\u{B0}', '\u{B6}',
        '\u{0903}', '\u{0B85}', '\u{FE73}', '\u{FFE7}',
        '\u{2F800}', '\u{2F801}', '\u{2F802}', '\u{2F803}',
    ];

    for &val in vals.iter() {
        assert_eq!(None, d.compat_decomp(val as u32));
    }
}
#[test]
fn test_canon_decomp_bmp() {
    let d = tables();
    let answers: &[(char, &[char])] = &[
        // borrowed from std::unicode
        ('\u{c0}', &['\u{41}', '\u{0300}']), ('\u{c1}', &['\u{41}', '\u{0301}']),
        ('\u{c2}', &['\u{41}', '\u{0302}']), ('\u{c3}', &['\u{41}', '\u{0303}']),
        ('\u{c4}', &['\u{41}', '\u{0308}']), ('\u{c5}', &['\u{41}', '\u{030a}']),
        ('\u{c7}', &['\u{43}', '\u{0327}']), ('\u{c8}', &['\u{45}', '\u{0300}']),
        ('\u{c9}', &['\u{45}', '\u{0301}']), ('\u{ca}', &['\u{45}', '\u{0302}']),
        ('\u{cb}', &['\u{45}', '\u{0308}']), ('\u{cc}', &['\u{49}', '\u{0300}']),
        ('\u{cd}', &['\u{49}', '\u{0301}']), ('\u{ce}', &['\u{49}', '\u{0302}']),
        ('\u{cf}', &['\u{49}', '\u{0308}']),

        ('\u{fb3e}', &['\u{05de}', '\u{05bc}']), ('\u{fb40}', &['\u{05e0}', '\u{05bc}']),
        ('\u{fb41}', &['\u{05e1}', '\u{05bc}']), ('\u{fb43}', &['\u{05e3}', '\u{05bc}']),
        ('\u{fb44}', &['\u{05e4}', '\u{05bc}']), ('\u{fb46}', &['\u{05e6}', '\u{05bc}']),
        ('\u{fb47}', &['\u{05e7}', '\u{05bc}']), ('\u{fb48}', &['\u{05e8}', '\u{05bc}']),
        ('\u{fb49}', &['\u{05e9}', '\u{05bc}']), ('\u{fb4a}', &['\u{05ea}', '\u{05bc}']),
        ('\u{fb4b}', &['\u{05d5}', '\u{05b9}']), ('\u{fb4c}', &['\u{05d1}', '\u{05bf}']),
        ('\u{fb4d}', &['\u{05db}', '\u{05bf}']), ('\u{fb4e}', &['\u{05e4}', '\u{05bf}']),

    ];

    for &(a, bs) in answers.iter() {
        expect_code_points(bs, d.canon_decomp(a as u32));
    }
}

#[test]
fn test_canon_decomp_nonbmp() {
    let d = tables();
    let answers: &[(char, &[char])] = &[
        // borrowed from std::unicode
        ('\u{1109a}', &['\u{11099}', '\u{110ba}']),
        ('\u{1109c}', &['\u{1109b}', '\u{110ba}']),
        ('\u{110ab}', &['\u{110a5}', '\u{110ba}']),
        ('\u{1112e}', &['\u{11131}', '\u{11127}']),
        ('\u{1112f}', &['\u{11132}', '\u{11127}']),
        ('\u{1d15e}', &['\u{1d157}', '\u{1d165}']),
        ('\u{1d15f}', &['\u{1d158}', '\u{1d165}']),
        ('\u{1d160}', &['\u{1d15f}', '\u{1d16e}']),
        ('\u{1d161}', &['\u{1d15f}', '\u{1d16f}']),

        ('\u{2fa15}', &['\u{9ebb}']), ('\u{2fa16}', &['\u{4d56}']),
        ('\u{2fa17}', &['\u{9ef9}']), ('\u{2fa18}', &['\u{9efe}']),
        ('\u{2fa19}', &['\u{9f05}']), ('\u{2fa1a}', &['\u{9f0f}']),
        ('\u{2fa1b}', &['\u{9f16}']), ('\u{2fa1c}', &['\u{9f3b}']),
        ('\u{2fa1d}', &['\u{2a600}'])
    ];

    for &(a, bs) in answers.iter() {
        expect_code_points(bs, d.canon_decomp(a as u32));
    }
}

#[test]
fn test_canon_decomp_none() {
    let d = tables();
    let vals = [
        // some arbitrary examples...
        '\u{00}', '\u{01}', '\u{A1}', '\u{A1}',
        '\u{A9}', '\u{AB}', '\u{B0}', '\u{B6}',
        '\u{0903}', '\u{0B85}', '\u{FE73}', '\u{FFE7}',
        '\u{1109b}',
    ];

    for &val in vals.iter() {
        assert_eq!(None, d.canon_decomp(val as u32));
    }
}
