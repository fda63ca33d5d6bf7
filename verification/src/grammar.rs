//! The grammar of pre-release tags and build metadata: identifiers of
//! letters, digits and hyphens, joined by dots.

use vstd::prelude::*;
use crate::text::{all_digits, decimal, is_digit, is_ident_char, lemma_decimal};

verus! {

/// A dot-free segment of `s` starts at `i`.
pub open spec fn segment_start(s: Seq<char>, i: int) -> bool {
    0 <= i < s.len() && (i == 0 || s[i - 1] == '.')
}

/// A dot-free segment of `s` ends just before `j`.
pub open spec fn segment_end(s: Seq<char>, j: int) -> bool {
    0 < j <= s.len() && (j == s.len() || s[j] == '.')
}

/// `s` is one or more segments joined by dots, each of them at least one
/// letter, digit or hyphen.
pub open spec fn well_separated(s: Seq<char>) -> bool {
    &&& s.len() > 0
    &&& forall|i: int| 0 <= i < s.len() ==> is_ident_char(#[trigger] s[i]) || s[i] == '.'
    &&& s[0] != '.'
    &&& s[s.len() - 1] != '.'
    &&& forall|i: int| 0 <= i < s.len() - 1 ==> !(#[trigger] s[i] == '.' && s[i + 1] == '.')
}

/// No segment of `s` that is longer than one character and made of digits
/// alone starts with a zero.
pub open spec fn no_leading_zero(s: Seq<char>) -> bool {
    forall|i: int, j: int|
        segment_start(s, i) && segment_end(s, j) && i + 1 < j && all_digits(
            #[trigger] s.subrange(i, j),
        ) ==> s[i] != '0'
}

/// The grammar of a pre-release tag: empty, or dot-separated identifiers
/// whose numeric ones have no leading zero.
pub open spec fn valid_prerelease(s: Seq<char>) -> bool {
    s.len() == 0 || (well_separated(s) && no_leading_zero(s))
}

/// The grammar of build metadata: empty, or dot-separated identifiers.
pub open spec fn valid_build(s: Seq<char>) -> bool {
    s.len() == 0 || well_separated(s)
}

/// A numeral is a pre-release tag.
pub proof fn lemma_numeral_is_valid(n: nat)
    ensures
        valid_prerelease(decimal(n)),
{
    lemma_decimal(n);
}

/// A tag that ends in a dot and a numeral is well separated exactly when
/// what stands before the dot is.
proof fn lemma_numbered_separated(label: Seq<char>, n: nat)
    ensures
        well_separated(label + seq!['.'] + decimal(n)) <==> well_separated(label),
{
    let s = label + seq!['.'] + decimal(n);
    let at = label.len() as int;
    lemma_decimal(n);
    assert forall|i: int| at < i < s.len() implies is_digit(#[trigger] s[i]) by {}
    assert forall|i: int| 0 <= i < at implies #[trigger] s[i] == label[i] by {}
    if well_separated(s) {
        assert(!(s[at - 1] == '.' && s[at - 1 + 1] == '.'));
        assert forall|i: int| 0 <= i < label.len() implies is_ident_char(#[trigger] label[i])
            || label[i] == '.' by {
            assert(s[i] == label[i]);
        }
        assert forall|i: int| 0 <= i < label.len() - 1 implies !(#[trigger] label[i] == '.'
            && label[i + 1] == '.') by {
            assert(s[i] == label[i]);
        }
    }
}

/// In a tag that ends in a dot and a numeral, the numeral brings no leading
/// zero: only what stands before the dot can.
proof fn lemma_numbered_leading_zero(label: Seq<char>, n: nat)
    requires
        label.len() > 0,
    ensures
        no_leading_zero(label + seq!['.'] + decimal(n)) <==> no_leading_zero(label),
{
    let s = label + seq!['.'] + decimal(n);
    let at = label.len() as int;
    lemma_decimal(n);
    assert forall|i: int| at < i < s.len() implies is_digit(#[trigger] s[i]) by {}
    if no_leading_zero(label) {
        assert forall|i: int, j: int|
            segment_start(s, i) && segment_end(s, j) && i + 1 < j && all_digits(
                #[trigger] s.subrange(i, j),
            ) implies s[i] != '0' by {
            let segment = s.subrange(i, j);
            if i <= at && at < j {
                assert(is_digit(segment[at - i]));
            } else if j <= at {
                assert(label.subrange(i, j) =~= segment);
            }
        }
    }
    if no_leading_zero(s) {
        assert forall|i: int, j: int|
            segment_start(label, i) && segment_end(label, j) && i + 1 < j && all_digits(
                #[trigger] label.subrange(i, j),
            ) implies label[i] != '0' by {
            assert(s.subrange(i, j) =~= label.subrange(i, j));
        }
    }
}

/// A label, a dot and a numeral make a pre-release tag exactly when the
/// label is a pre-release tag itself and is not empty.
pub proof fn lemma_numbered_is_valid(label: Seq<char>, n: nat)
    ensures
        valid_prerelease(label + seq!['.'] + decimal(n)) <==> label.len() > 0 && valid_prerelease(
            label,
        ),
{
    lemma_numbered_separated(label, n);
    if label.len() > 0 {
        lemma_numbered_leading_zero(label, n);
    }
}

} // verus!
