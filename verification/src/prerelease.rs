//! Pre-release tags: putting one together from a label and a counter, and
//! taking one apart again.

use vstd::prelude::*;
use crate::error::BumpError;
use crate::grammar::{lemma_numbered_is_valid, lemma_numeral_is_valid, valid_prerelease};
use crate::outside::semver_prerelease;
use crate::text::{counter_of, decimal, decimal_string, is_digit, lemma_decimal, parse_counter};

verus! {

/// The tag made of a label and a counter: the label, a dot and the counter
/// in decimal, or the counter alone where there is no label.
pub open spec fn compose(label: Option<Seq<char>>, counter: nat) -> Seq<char> {
    match label {
        Some(l) => l + seq!['.'] + decimal(counter),
        None => decimal(counter),
    }
}

/// The label and the counter of a tag, or `None` where the tag has a dot
/// that no counter follows.
///
/// A tag is split at its first dot. Without a dot it is a counter if it
/// reads as one, else a label without a counter, and neither if it is
/// empty.
pub open spec fn decompose(tag: Seq<char>) -> Option<(Option<Seq<char>>, Option<nat>)> {
    match tag.index_of_first('.') {
        Some(dot) => match counter_of(tag.subrange(dot + 1, tag.len() as int)) {
            Some(n) => Some((Some(tag.subrange(0, dot)), Some(n))),
            None => None,
        },
        None => match counter_of(tag) {
            Some(n) => Some((None, Some(n))),
            None => if tag.len() > 0 {
                Some((Some(tag), None))
            } else {
                Some((None, None))
            },
        },
    }
}

/// The tag of a label and a counter follows the pre-release grammar exactly
/// when the label, if there is one, is a pre-release tag itself and is not
/// empty.
pub proof fn lemma_compose_valid(label: Option<Seq<char>>, counter: nat)
    ensures
        valid_prerelease(compose(label, counter)) <==> (label matches Some(l) ==> l.len() > 0
            && valid_prerelease(l)),
{
    match label {
        Some(l) => lemma_numbered_is_valid(l, counter),
        None => lemma_numeral_is_valid(counter),
    }
}

/// A numeral alone is taken apart into no label and its number.
pub proof fn lemma_decompose_numeral(counter: nat)
    requires
        counter <= u64::MAX,
    ensures
        decompose(compose(None, counter)) == Some((None::<Seq<char>>, Some(counter))),
{
    let tag = decimal(counter);
    lemma_decimal(counter);
    tag.index_of_first_ensures('.');
    if tag.contains('.') {
        assert(is_digit(tag[tag.index_of('.')]));
    }
}

/// A label without a dot, a dot and a numeral are taken apart into that
/// label and that number.
pub proof fn lemma_decompose_numbered(label: Seq<char>, counter: nat)
    requires
        !label.contains('.'),
        counter <= u64::MAX,
    ensures
        decompose(compose(Some(label), counter)) == Some((Some(label), Some(counter))),
{
    let tag = label + seq!['.'] + decimal(counter);
    let at = label.len() as int;
    lemma_decimal(counter);
    lemma_first_dot(label, decimal(counter));
    assert(tag.subrange(at + 1, tag.len() as int) =~= decimal(counter));
}

/// The first dot of a text that starts with a dot-free part and a dot
/// stands right behind that part.
pub proof fn lemma_first_dot(head: Seq<char>, tail: Seq<char>)
    requires
        !head.contains('.'),
    ensures
        (head + seq!['.'] + tail).index_of_first('.') == Some(head.len() as int),
{
    let tag = head + seq!['.'] + tail;
    let at = head.len() as int;
    tag.index_of_first_ensures('.');
    assert(tag[at] == '.');
    let first = tag.index_of_first('.')->0;
    if first < at {
        assert(head[first] == '.');
    }
}

/// Composes the tag of a label and a counter, and turns it down where it
/// does not follow the pre-release grammar.
pub fn build_prerelease(pre_id: Option<&str>, numeric: u64) -> (r: Result<String, BumpError>)
    ensures
        match r {
            Ok(tag) => tag@ == compose(pre_id.deep_view(), numeric as nat) && valid_prerelease(
                tag@,
            ),
            Err(e) => e == BumpError::PrereleaseFormatError && !valid_prerelease(
                compose(pre_id.deep_view(), numeric as nat),
            ),
        },
{
    let raw = match pre_id {
        Some(label) => {
            let mut raw = label.to_owned();
            raw.append(".");
            raw.append(decimal_string(numeric).as_str());
            proof {
                reveal_strlit(".");
                assert("."@ =~= seq!['.']);
            }
            raw
        },
        None => decimal_string(numeric),
    };
    match semver_prerelease(raw.as_str()) {
        Ok(tag) => Ok(tag),
        Err(_) => Err(BumpError::PrereleaseFormatError),
    }
}

/// The place of the first dot of `s`.
fn find_dot(s: &str) -> (r: Option<usize>)
    ensures
        s@.index_of_first('.') == match r {
            Some(i) => Some(i as int),
            None => None,
        },
{
    let len: usize = s.unicode_len();
    let mut i: usize = 0;
    while i < len
        invariant
            len == s@.len(),
            0 <= i <= len,
            forall|j: int| 0 <= j < i ==> s@[j] != '.',
        decreases len - i,
    {
        if s.get_char(i) == '.' {
            proof {
                s@.index_of_first_ensures('.');
            }
            return Some(i);
        }
        i = i + 1;
    }
    proof {
        s@.index_of_first_ensures('.');
    }
    None
}

/// Takes a tag apart into its label and its counter.
pub fn parse_prerelease(pre: &str) -> (r: Result<(Option<String>, Option<u64>), BumpError>)
    ensures
        match decompose(pre@) {
            Some((label, counter)) => r matches Ok((l, c)) && l.deep_view() == label && (match c {
                Some(n) => counter == Some(n as nat),
                None => counter is None,
            }),
            None => r == Err::<(Option<String>, Option<u64>), BumpError>(
                BumpError::UnsupportedPrereleaseScheme,
            ),
        },
{
    let len: usize = pre.unicode_len();
    match find_dot(pre) {
        Some(dot) => {
            proof {
                pre@.index_of_first_ensures('.');
            }
            match parse_counter(pre.substring_char(dot + 1, len)) {
                Some(n) => Ok((Some(pre.substring_char(0, dot).to_owned()), Some(n))),
                None => Err(BumpError::UnsupportedPrereleaseScheme),
            }
        },
        None => match parse_counter(pre) {
            Some(n) => Ok((None, Some(n))),
            None => if len > 0 {
                Ok((Some(pre.to_owned()), None))
            } else {
                Ok((None, None))
            },
        },
    }
}

} // verus!
