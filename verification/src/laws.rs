//! What holds of every bump, proved from the definitions.

use vstd::prelude::*;
use crate::error::BumpError;
use crate::modifier::{tagged, train_base, BumpKindView, ModifierView};
use crate::prerelease::{
    compose, decompose, lemma_compose_valid, lemma_decompose_numbered, lemma_decompose_numeral,
    lemma_first_dot,
};
use crate::text::{counter_of, is_digit, lemma_decimal};
use crate::grammar::valid_prerelease;
use crate::version::{lemma_version_of_render, read_version, version_of, VersionView};

verus! {

/// A replacement directive gives its own version, whatever the current
/// version is.
pub proof fn lemma_replace(m: ModifierView, w: VersionView, v: VersionView)
    requires
        m.kind == BumpKindView::Replace(w),
    ensures
        m.in_range(v),
        m.outcome(v) == Ok::<VersionView, BumpError>(w),
{
}

/// A major bump of a release adds one to the major number, resets the minor
/// and the patch number and leaves no pre-release tag.
pub proof fn lemma_major_of_release(m: ModifierView, v: VersionView)
    requires
        m.kind == BumpKindView::Major,
        v.is_release(),
    ensures
        m.outcome(v) matches Ok(next) && next.major == v.major + 1 && next.minor == 0 && next.patch
            == 0 && next.is_release(),
{
}

/// A minor bump of a release adds one to the minor number, resets the patch
/// number and leaves no pre-release tag.
pub proof fn lemma_minor_of_release(m: ModifierView, v: VersionView)
    requires
        m.kind == BumpKindView::Minor,
        v.is_release(),
    ensures
        m.outcome(v) matches Ok(next) && next.major == v.major && next.minor == v.minor + 1
            && next.patch == 0 && next.is_release(),
{
}

/// A patch bump of a release adds one to the patch number and leaves no
/// pre-release tag.
pub proof fn lemma_patch_of_release(m: ModifierView, v: VersionView)
    requires
        m.kind == BumpKindView::Patch,
        v.is_release(),
    ensures
        m.outcome(v) matches Ok(next) && next.major == v.major && next.minor == v.minor
            && next.patch == v.patch + 1 && next.is_release(),
{
}

/// A major bump of a pre-release clears the tag and changes nothing else:
/// the pending pre-release becomes the release. The same holds of a minor
/// and of a patch bump.
pub proof fn lemma_release_of_prerelease(m: ModifierView, v: VersionView)
    requires
        m.kind == BumpKindView::Major || m.kind == BumpKindView::Minor || m.kind
            == BumpKindView::Patch,
        !v.is_release(),
    ensures
        m.in_range(v),
        m.outcome(v) == Ok::<VersionView, BumpError>(v.with_pre(Seq::empty())),
        m.outcome(v) matches Ok(next) && next.major == v.major && next.minor == v.minor
            && next.patch == v.patch && next.build == v.build && next.is_release(),
{
}

/// The label counts only where a pre-release is made: a replacement and
/// the three release directives give the same with any label.
pub proof fn lemma_label_unused(m: ModifierView, other: ModifierView, v: VersionView)
    requires
        m.kind == other.kind,
        m.kind is Replace || m.kind == BumpKindView::Major || m.kind == BumpKindView::Minor
            || m.kind == BumpKindView::Patch,
    ensures
        m.outcome(v) == other.outcome(v),
        m.in_range(v) == other.in_range(v),
{
}

/// A pre-release bump of a version whose tag has a dot that no counter
/// follows is turned down: nothing is put in the place of what could not
/// be read.
pub proof fn lemma_unsupported_scheme(
    m: ModifierView,
    v: VersionView,
    head: Seq<char>,
    tail: Seq<char>,
)
    requires
        m.kind == BumpKindView::PreRelease,
        v.pre == head + seq!['.'] + tail,
        !head.contains('.'),
        counter_of(tail) is None,
    ensures
        m.outcome(v) == Err::<VersionView, BumpError>(BumpError::UnsupportedPrereleaseScheme),
{
    lemma_first_dot(head, tail);
    assert(v.pre.subrange(head.len() as int + 1, v.pre.len() as int) =~= tail);
}

/// The same of a tag whose part behind the first dot holds a character
/// that is no digit, such as `rc.x`.
pub proof fn lemma_non_numeric_tail(
    m: ModifierView,
    v: VersionView,
    head: Seq<char>,
    tail: Seq<char>,
    i: int,
)
    requires
        m.kind == BumpKindView::PreRelease,
        v.pre == head + seq!['.'] + tail,
        !head.contains('.'),
        0 <= i < tail.len(),
        !is_digit(tail[i]),
    ensures
        m.outcome(v) == Err::<VersionView, BumpError>(BumpError::UnsupportedPrereleaseScheme),
{
    lemma_unsupported_scheme(m, v, head, tail);
}

/// A pre-release bump with the label of the current train goes on with
/// that train: the counter grows by one and nothing else changes.
pub proof fn lemma_train_continues(m: ModifierView, v: VersionView, counter: nat)
    requires
        m.kind == BumpKindView::PreRelease,
        m.label matches Some(l) ==> !l.contains('.'),
        v.pre == compose(m.label, counter),
        valid_prerelease(v.pre),
        counter < u64::MAX,
    ensures
        m.in_range(v),
        m.outcome(v) == Ok::<VersionView, BumpError>(v.with_pre(compose(m.label, counter + 1))),
{
    lemma_decimal(counter);
    lemma_compose_valid(m.label, counter);
    lemma_compose_valid(m.label, counter + 1);
    match m.label {
        Some(l) => lemma_decompose_numbered(l, counter),
        None => lemma_decompose_numeral(counter),
    }
}

/// A pre-release bump with another label than that of the current train
/// starts a new train: the counter is zero, whatever it was before.
pub proof fn lemma_train_switch(
    m: ModifierView,
    v: VersionView,
    existing: Option<Seq<char>>,
    counter: Option<nat>,
)
    requires
        m.kind == BumpKindView::PreRelease,
        !v.is_release(),
        decompose(v.pre) == Some((existing, counter)),
        existing != m.label,
    ensures
        m.in_range(v),
        m.outcome(v) == tagged(v, m.label, 0),
{
}

/// A pre-release bump of a release starts the train of its label at zero,
/// on the next patch.
pub proof fn lemma_first_prerelease(m: ModifierView, v: VersionView)
    requires
        m.kind == BumpKindView::PreRelease,
        v.is_release(),
    ensures
        m.outcome(v) == tagged(v.next_patch(), m.label, 0),
{
    let empty = Seq::<char>::empty();
    empty.index_of_first_ensures('.');
}

/// A bump fails on the tag it composes exactly when the label is empty or
/// is no pre-release tag: without a label, or with one that is, the three
/// directives that start a pre-release always succeed.
pub proof fn lemma_tagged(base: VersionView, label: Option<Seq<char>>, counter: nat)
    ensures
        tagged(base, label, counter) == if label matches Some(l) && !(l.len() > 0
            && valid_prerelease(l)) {
            Err::<VersionView, BumpError>(BumpError::PrereleaseFormatError)
        } else {
            Ok::<VersionView, BumpError>(base.with_pre(compose(label, counter)))
        },
{
    lemma_compose_valid(label, counter);
}

/// Where nothing overflows, a bump of a well-formed version by a
/// well-formed modifier gives a well-formed version.
pub proof fn lemma_outcome_wf(m: ModifierView, v: VersionView)
    requires
        m.wf(),
        v.wf(),
        m.in_range(v),
    ensures
        m.outcome(v) matches Ok(next) ==> next.wf(),
{
}

/// The text of a bumped version is the text of a version again, and reads
/// as the version it was written from.
pub proof fn lemma_bumped_text_reads_back(m: ModifierView, text: Seq<char>, next: VersionView)
    requires
        m.wf(),
        read_version(text) matches Ok(v) && m.in_range(v) && m.outcome(v) == Ok::<
            VersionView,
            BumpError,
        >(next),
    ensures
        read_version(next.render()) == Ok::<VersionView, BumpError>(next),
{
    let v = version_of(text)->0;
    lemma_outcome_wf(m, v);
    lemma_version_of_render(next);
}

/// A bump fails in two ways only: on the tag it finds or on the tag it
/// composes.
pub proof fn lemma_outcome_errors(m: ModifierView, v: VersionView)
    ensures
        m.outcome(v) matches Err(e) ==> e == BumpError::PrereleaseFormatError || (e
            == BumpError::UnsupportedPrereleaseScheme && m.kind == BumpKindView::PreRelease
            && !v.is_release()),
{
    if m.kind == BumpKindView::PreRelease && v.is_release() {
        lemma_first_prerelease(m, v);
    }
}

} // verus!
