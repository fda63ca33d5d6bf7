//! Bump directives and what each of them does to a version.

use vstd::prelude::*;
use crate::error::BumpError;
use crate::prerelease::{build_prerelease, compose, decompose, parse_prerelease};
use crate::text::same_text;
use crate::grammar::valid_prerelease;
use crate::version::{version_of, Version, VersionExt, VersionView};

verus! {

/// How a version is to be advanced.
#[derive(Clone, Debug, PartialEq)]
pub enum BumpKind {
    /// Put this version in place of the current one.
    Replace(Version),
    /// The first pre-release of the next major release.
    PreMajor,
    /// The next major release, or the release of a pending pre-release.
    Major,
    /// The first pre-release of the next minor release.
    PreMinor,
    /// The next minor release, or the release of a pending pre-release.
    Minor,
    /// The first pre-release of the next patch release.
    PrePatch,
    /// The next patch release, or the release of a pending pre-release.
    Patch,
    /// The next pre-release of the train, or the first of a new train.
    PreRelease,
}

/// What a [`BumpKind`] stands for.
pub enum BumpKindView {
    Replace(VersionView),
    PreMajor,
    Major,
    PreMinor,
    Minor,
    PrePatch,
    Patch,
    PreRelease,
}

impl View for BumpKind {
    type V = BumpKindView;

    open spec fn view(&self) -> BumpKindView {
        match self {
            BumpKind::Replace(w) => BumpKindView::Replace(w@),
            BumpKind::PreMajor => BumpKindView::PreMajor,
            BumpKind::Major => BumpKindView::Major,
            BumpKind::PreMinor => BumpKindView::PreMinor,
            BumpKind::Minor => BumpKindView::Minor,
            BumpKind::PrePatch => BumpKindView::PrePatch,
            BumpKind::Patch => BumpKindView::Patch,
            BumpKind::PreRelease => BumpKindView::PreRelease,
        }
    }
}

/// The directive that a word names: one of the seven keywords, spelled
/// exactly, or else a version to put in place.
pub open spec fn directive_of(word: Seq<char>) -> Option<BumpKindView> {
    if word == "premajor"@ {
        Some(BumpKindView::PreMajor)
    } else if word == "major"@ {
        Some(BumpKindView::Major)
    } else if word == "preminor"@ {
        Some(BumpKindView::PreMinor)
    } else if word == "minor"@ {
        Some(BumpKindView::Minor)
    } else if word == "prepatch"@ {
        Some(BumpKindView::PrePatch)
    } else if word == "patch"@ {
        Some(BumpKindView::Patch)
    } else if word == "prerelease"@ {
        Some(BumpKindView::PreRelease)
    } else {
        match version_of(word) {
            Some(v) => Some(BumpKindView::Replace(v)),
            None => None,
        }
    }
}

impl BumpKind {
    /// A replacement version, if there is one, is well-formed.
    pub open spec fn wf(&self) -> bool {
        self matches BumpKind::Replace(w) ==> w.wf()
    }
}

impl core::str::FromStr for BumpKind {
    type Err = BumpError;

    /// Reads a directive from a word: one of the seven keywords, or else a
    /// version to put in place.
    fn from_str(input: &str) -> (r: Result<BumpKind, BumpError>)
        ensures
            match r {
                Ok(kind) => kind.wf() && directive_of(input@) == Some(kind@),
                Err(e) => e == BumpError::InvalidVersionString && directive_of(input@) is None,
            },
    {
        if same_text(input, "premajor") {
            Ok(BumpKind::PreMajor)
        } else if same_text(input, "major") {
            Ok(BumpKind::Major)
        } else if same_text(input, "preminor") {
            Ok(BumpKind::PreMinor)
        } else if same_text(input, "minor") {
            Ok(BumpKind::Minor)
        } else if same_text(input, "prepatch") {
            Ok(BumpKind::PrePatch)
        } else if same_text(input, "patch") {
            Ok(BumpKind::Patch)
        } else if same_text(input, "prerelease") {
            Ok(BumpKind::PreRelease)
        } else {
            match Version::parse(input) {
                Ok(version) => Ok(BumpKind::Replace(version)),
                Err(e) => Err(e),
            }
        }
    }
}

/// What a [`VersionModifier`] stands for: a directive and the label of the
/// pre-release train that the caller wants to continue or start.
pub struct ModifierView {
    pub kind: BumpKindView,
    pub label: Option<Seq<char>>,
}

impl ModifierView {
    /// A replacement version, if there is one, is well-formed.
    pub open spec fn wf(self) -> bool {
        self.kind matches BumpKindView::Replace(w) ==> w.wf()
    }

    /// What the modifier makes of `v`.
    pub open spec fn outcome(self, v: VersionView) -> Result<VersionView, BumpError> {
        match self.kind {
            BumpKindView::Replace(w) => Ok(w),
            BumpKindView::PreMajor => tagged(v.next_major(), self.label, 0),
            BumpKindView::Major => Ok(promoted(v, v.next_major())),
            BumpKindView::PreMinor => tagged(v.next_minor(), self.label, 0),
            BumpKindView::Minor => Ok(promoted(v, v.next_minor())),
            BumpKindView::PrePatch => tagged(v.next_patch(), self.label, 0),
            BumpKindView::Patch => Ok(promoted(v, v.next_patch())),
            BumpKindView::PreRelease => next_prerelease(self.label, v),
        }
    }

    /// No number that the modifier adds one to is at its limit already.
    pub open spec fn in_range(self, v: VersionView) -> bool {
        match self.kind {
            BumpKindView::Replace(_) => true,
            BumpKindView::PreMajor => v.major < u64::MAX,
            BumpKindView::Major => v.is_release() ==> v.major < u64::MAX,
            BumpKindView::PreMinor => v.minor < u64::MAX,
            BumpKindView::Minor => v.is_release() ==> v.minor < u64::MAX,
            BumpKindView::PrePatch => v.patch < u64::MAX,
            BumpKindView::Patch => v.is_release() ==> v.patch < u64::MAX,
            BumpKindView::PreRelease => {
                &&& v.is_release() ==> v.patch < u64::MAX
                &&& decompose(train_base(v).pre) matches Some((existing, Some(n))) ==> existing
                    == self.label ==> n < u64::MAX
            },
        }
    }
}

/// `base` with the tag of `label` and `counter`, where that tag follows
/// the pre-release grammar.
pub open spec fn tagged(base: VersionView, label: Option<Seq<char>>, counter: nat) -> Result<
    VersionView,
    BumpError,
> {
    if valid_prerelease(compose(label, counter)) {
        Ok(base.with_pre(compose(label, counter)))
    } else {
        Err(BumpError::PrereleaseFormatError)
    }
}

/// A release goes on to `next`; a pre-release becomes its own release.
pub open spec fn promoted(v: VersionView, next: VersionView) -> VersionView {
    if v.is_release() {
        next
    } else {
        v.with_pre(Seq::empty())
    }
}

/// The version on which a pre-release bump works: a release first moves
/// to its next patch.
pub open spec fn train_base(v: VersionView) -> VersionView {
    if v.is_release() {
        v.next_patch()
    } else {
        v
    }
}

/// The counter that follows `counter` in a train. A train whose tag is a
/// label without a counter goes on at zero.
pub open spec fn next_counter(counter: Option<nat>) -> nat {
    match counter {
        Some(n) => n + 1,
        None => 0,
    }
}

/// What a pre-release bump with `label` makes of `v`: the train of `v`
/// goes on where `label` is its label, and a new train starts at zero
/// where it is not. A tag that is a label without a counter, such as
/// `beta`, is a train that has not counted yet: with its own label it goes
/// on at zero, as `beta.0`.
pub open spec fn next_prerelease(label: Option<Seq<char>>, v: VersionView) -> Result<
    VersionView,
    BumpError,
> {
    match decompose(train_base(v).pre) {
        None => Err(BumpError::UnsupportedPrereleaseScheme),
        Some((existing, counter)) => if existing == label {
            tagged(train_base(v), existing, next_counter(counter))
        } else {
            tagged(train_base(v), label, 0)
        },
    }
}

/// A borrowed label.
fn as_label(pre_id: &Option<String>) -> (r: Option<&str>)
    ensures
        r.deep_view() == pre_id.deep_view(),
{
    match pre_id {
        Some(label) => Some(label.as_str()),
        None => None,
    }
}

/// Whether two labels are the same: both absent, or both the same text.
fn same_label(a: &Option<String>, b: &Option<String>) -> (r: bool)
    ensures
        r == (a.deep_view() == b.deep_view()),
{
    match (a, b) {
        (Some(x), Some(y)) => same_text(x.as_str(), y.as_str()),
        (None, None) => true,
        _ => false,
    }
}

/// A directive together with the label of the pre-release train that the
/// caller wants to continue or start.
#[derive(Debug, PartialEq)]
pub struct VersionModifier {
    pub kind: BumpKind,
    pub pre_id: Option<String>,
}

impl View for VersionModifier {
    type V = ModifierView;

    open spec fn view(&self) -> ModifierView {
        ModifierView { kind: self.kind@, label: self.pre_id.deep_view() }
    }
}

impl VersionModifier {
    /// A modifier of a directive and a label.
    pub fn new(kind: BumpKind, pre_id: Option<String>) -> (r: VersionModifier)
        ensures
            r.kind == kind,
            r.pre_id == pre_id,
            r@ == (ModifierView { kind: kind@, label: pre_id.deep_view() }),
    {
        VersionModifier { kind, pre_id }
    }

    /// Whether [`VersionModifier::apply`] may be called on `version`: no
    /// number that it adds one to is at its limit already.
    pub fn can_apply(&self, version: &Version) -> (r: bool)
        ensures
            r == self@.in_range(version@),
    {
        let released = version.pre.as_str().is_empty();
        match &self.kind {
            BumpKind::Replace(_) => true,
            BumpKind::PreMajor => version.major < u64::MAX,
            BumpKind::Major => !released || version.major < u64::MAX,
            BumpKind::PreMinor => version.minor < u64::MAX,
            BumpKind::Minor => !released || version.minor < u64::MAX,
            BumpKind::PrePatch => version.patch < u64::MAX,
            BumpKind::Patch => !released || version.patch < u64::MAX,
            BumpKind::PreRelease => {
                proof {
                    assert(train_base(version@).pre =~= version@.pre);
                }
                if released && version.patch == u64::MAX {
                    false
                } else {
                    match parse_prerelease(version.pre.as_str()) {
                        Ok((existing, Some(n))) => !same_label(&existing, &self.pre_id) || n
                            < u64::MAX,
                        _ => true,
                    }
                }
            },
        }
    }

    /// Applies the directive to `version`. On an error the version is left
    /// as it was.
    pub fn apply(&self, version: &mut Version) -> (r: Result<(), BumpError>)
        requires
            self@.in_range(old(version)@),
        ensures
            match self@.outcome(old(version)@) {
                Ok(next) => r is Ok && final(version)@ == next,
                Err(e) => r == Err::<(), BumpError>(e) && *final(version) == *old(version),
            },
            self@.wf() && old(version).wf() ==> final(version).wf(),
    {
        let released = version.pre.as_str().is_empty();
        match &self.kind {
            BumpKind::Replace(replacement) => {
                *version = replacement.duplicate();
                Ok(())
            },
            BumpKind::PreMajor => match build_prerelease(as_label(&self.pre_id), 0) {
                Ok(tag) => {
                    version.increment_major();
                    version.pre = tag;
                    Ok(())
                },
                Err(e) => Err(e),
            },
            BumpKind::Major => {
                if released {
                    version.increment_major();
                } else {
                    version.pre = String::new();
                }
                Ok(())
            },
            BumpKind::PreMinor => match build_prerelease(as_label(&self.pre_id), 0) {
                Ok(tag) => {
                    version.increment_minor();
                    version.pre = tag;
                    Ok(())
                },
                Err(e) => Err(e),
            },
            BumpKind::Minor => {
                if released {
                    version.increment_minor();
                } else {
                    version.pre = String::new();
                }
                Ok(())
            },
            BumpKind::PrePatch => match build_prerelease(as_label(&self.pre_id), 0) {
                Ok(tag) => {
                    version.increment_patch();
                    version.pre = tag;
                    Ok(())
                },
                Err(e) => Err(e),
            },
            BumpKind::Patch => {
                if released {
                    version.increment_patch();
                } else {
                    version.pre = String::new();
                }
                Ok(())
            },
            BumpKind::PreRelease => self.advance_train(version),
        }
    }

    /// The pre-release directive: the train of `version` goes on, or a new
    /// one starts.
    fn advance_train(&self, version: &mut Version) -> (r: Result<(), BumpError>)
        requires
            self.kind is PreRelease,
            self@.in_range(old(version)@),
        ensures
            match next_prerelease(self@.label, old(version)@) {
                Ok(next) => r is Ok && final(version)@ == next,
                Err(e) => r == Err::<(), BumpError>(e) && *final(version) == *old(version),
            },
    {
        let released = version.pre.as_str().is_empty();
        proof {
            assert(train_base(version@).pre =~= version@.pre);
        }
        let (existing, counter) = match parse_prerelease(version.pre.as_str()) {
            Ok(parts) => parts,
            Err(e) => {
                return Err(e);
            },
        };
        let composed = if same_label(&existing, &self.pre_id) {
            let next: u64 = match counter {
                Some(n) => n + 1,
                None => 0,
            };
            build_prerelease(as_label(&existing), next)
        } else {
            build_prerelease(as_label(&self.pre_id), 0)
        };
        match composed {
            Ok(tag) => {
                if released {
                    version.increment_patch();
                }
                version.pre = tag;
                Ok(())
            },
            Err(e) => Err(e),
        }
    }
}

} // verus!
