//! The Unicode general category of a code point.
use vstd::prelude::*;

verus! {

/// The thirty general-category values of the Unicode character database.
#[derive(Clone, Copy, Debug, PartialEq, Eq, Structural)]
pub enum GeneralCategory {
    /// Uppercase letter.
    Lu,
    /// Lowercase letter.
    Ll,
    /// Titlecase letter.
    Lt,
    /// Modifier letter.
    Lm,
    /// Other letter.
    Lo,
    /// Nonspacing mark.
    Mn,
    /// Spacing mark.
    Mc,
    /// Enclosing mark.
    Me,
    /// Decimal number.
    Nd,
    /// Letter number.
    Nl,
    /// Other number.
    No,
    /// Connector punctuation.
    Pc,
    /// Dash punctuation.
    Pd,
    /// Open punctuation.
    Ps,
    /// Close punctuation.
    Pe,
    /// Initial punctuation.
    Pi,
    /// Final punctuation.
    Pf,
    /// Other punctuation.
    Po,
    /// Math symbol.
    Sm,
    /// Currency symbol.
    Sc,
    /// Modifier symbol.
    Sk,
    /// Other symbol.
    So,
    /// Space separator.
    Zs,
    /// Line separator.
    Zl,
    /// Paragraph separator.
    Zp,
    /// Control.
    Cc,
    /// Format.
    Cf,
    /// Surrogate.
    Cs,
    /// Private use.
    Co,
    /// Unassigned.
    Cn,
}

/// The five letter categories.
pub open spec fn is_letter_category(c: GeneralCategory) -> bool {
    c == GeneralCategory::Lu || c == GeneralCategory::Ll || c == GeneralCategory::Lt || c
        == GeneralCategory::Lm || c == GeneralCategory::Lo
}

impl GeneralCategory {
    /// Whether this is one of the letter categories (Lu, Ll, Lt, Lm, Lo).
    pub fn is_letter(&self) -> (r: bool)
        ensures
            r == is_letter_category(*self),
    {
        match self {
            GeneralCategory::Lu | GeneralCategory::Ll | GeneralCategory::Lt | GeneralCategory::Lm
            | GeneralCategory::Lo => true,
            _ => false,
        }
    }
}

} // verus!
