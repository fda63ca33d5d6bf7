//! Semantic versions: the value, its grammar and its three increments.

use vstd::prelude::*;
use crate::error::BumpError;
use crate::grammar::{valid_build, valid_prerelease};
use crate::outside::semver_parse;
use crate::text::{decimal, decimal_string, is_digit, lemma_decimal};

verus! {

/// What a [`Version`] stands for.
pub struct VersionView {
    pub major: nat,
    pub minor: nat,
    pub patch: nat,
    pub pre: Seq<char>,
    pub build: Seq<char>,
}

impl VersionView {
    /// The numbers fit in 64 bits and both tags follow their grammar.
    pub open spec fn wf(self) -> bool {
        &&& self.major <= u64::MAX
        &&& self.minor <= u64::MAX
        &&& self.patch <= u64::MAX
        &&& valid_prerelease(self.pre)
        &&& valid_build(self.build)
    }

    /// A version without a pre-release tag.
    pub open spec fn is_release(self) -> bool {
        self.pre.len() == 0
    }

    /// The next major release.
    pub open spec fn next_major(self) -> VersionView {
        VersionView {
            major: self.major + 1,
            minor: 0,
            patch: 0,
            pre: Seq::empty(),
            build: Seq::empty(),
        }
    }

    /// The next minor release.
    pub open spec fn next_minor(self) -> VersionView {
        VersionView {
            major: self.major,
            minor: self.minor + 1,
            patch: 0,
            pre: Seq::empty(),
            build: Seq::empty(),
        }
    }

    /// The next patch release.
    pub open spec fn next_patch(self) -> VersionView {
        VersionView {
            major: self.major,
            minor: self.minor,
            patch: self.patch + 1,
            pre: Seq::empty(),
            build: Seq::empty(),
        }
    }

    /// The same version with another pre-release tag.
    pub open spec fn with_pre(self, pre: Seq<char>) -> VersionView {
        VersionView { pre, ..self }
    }

    /// The text of the version: the three numbers joined by dots, then a
    /// hyphen and the pre-release tag if there is one, then a plus sign
    /// and the build metadata if there is any.
    pub open spec fn render(self) -> Seq<char> {
        decimal(self.major) + seq!['.'] + decimal(self.minor) + seq!['.'] + decimal(self.patch)
            + self.suffix()
    }

    /// What follows the three numbers in the text.
    pub open spec fn suffix(self) -> Seq<char> {
        self.pre_suffix() + self.build_suffix()
    }

    /// The pre-release tag as it stands in the text.
    pub open spec fn pre_suffix(self) -> Seq<char> {
        if self.pre.len() == 0 {
            Seq::empty()
        } else {
            seq!['-'] + self.pre
        }
    }

    /// The build metadata as it stands in the text.
    pub open spec fn build_suffix(self) -> Seq<char> {
        if self.build.len() == 0 {
            Seq::empty()
        } else {
            seq!['+'] + self.build
        }
    }
}

/// A semantic version.
#[derive(Clone, Debug, PartialEq, Eq)]
pub struct Version {
    pub major: u64,
    pub minor: u64,
    pub patch: u64,
    /// The pre-release tag; empty on a release.
    pub pre: String,
    /// The build metadata; mostly empty.
    pub build: String,
}

impl View for Version {
    type V = VersionView;

    open spec fn view(&self) -> VersionView {
        VersionView {
            major: self.major as nat,
            minor: self.minor as nat,
            patch: self.patch as nat,
            pre: self.pre@,
            build: self.build@,
        }
    }
}

impl Version {
    /// Both tags follow their grammar.
    pub open spec fn wf(&self) -> bool {
        self@.wf()
    }

    /// The release `major.minor.patch`.
    pub fn new(major: u64, minor: u64, patch: u64) -> (v: Version)
        ensures
            v.wf(),
            v@ == (VersionView {
                major: major as nat,
                minor: minor as nat,
                patch: patch as nat,
                pre: Seq::empty(),
                build: Seq::empty(),
            }),
    {
        Version { major, minor, patch, pre: String::new(), build: String::new() }
    }

    /// A copy of the version.
    pub fn duplicate(&self) -> (v: Version)
        ensures
            v == *self,
    {
        Version {
            major: self.major,
            minor: self.minor,
            patch: self.patch,
            pre: self.pre.clone(),
            build: self.build.clone(),
        }
    }

    /// Reads a version from its text. The text is accepted exactly when it
    /// is the text of a well-formed version, and that version is returned.
    pub fn parse(text: &str) -> (r: Result<Version, BumpError>)
        ensures
            match read_version(text@) {
                Ok(v) => r matches Ok(version) && version@ == v && version.wf(),
                Err(e) => r == Err::<Version, BumpError>(e),
            },
    {
        match semver_parse(text) {
            Ok(v) => {
                proof {
                    lemma_version_of_render(v@);
                }
                Ok(v)
            },
            Err(_) => Err(BumpError::InvalidVersionString),
        }
    }

    /// The text of the version.
    pub fn to_string(&self) -> (r: String)
        ensures
            r@ == self@.render(),
    {
        let mut r = decimal_string(self.major);
        r.append(".");
        r.append(decimal_string(self.minor).as_str());
        r.append(".");
        r.append(decimal_string(self.patch).as_str());
        if self.pre.as_str().unicode_len() > 0 {
            r.append("-");
            r.append(self.pre.as_str());
        }
        if self.build.as_str().unicode_len() > 0 {
            r.append("+");
            r.append(self.build.as_str());
        }
        proof {
            reveal_strlit(".");
            reveal_strlit("-");
            reveal_strlit("+");
        }
        r
    }
}

/// The three increments of a version. Each clears the pre-release tag and
/// the build metadata.
pub trait VersionExt: View<V = VersionView> {
    /// Adds one to the major number and resets the two below it.
    fn increment_major(&mut self)
        requires
            old(self)@.major < u64::MAX,
        ensures
            final(self)@ == old(self)@.next_major(),
    ;

    /// Adds one to the minor number and resets the patch number.
    fn increment_minor(&mut self)
        requires
            old(self)@.minor < u64::MAX,
        ensures
            final(self)@ == old(self)@.next_minor(),
    ;

    /// Adds one to the patch number.
    fn increment_patch(&mut self)
        requires
            old(self)@.patch < u64::MAX,
        ensures
            final(self)@ == old(self)@.next_patch(),
    ;
}

impl VersionExt for Version {
    fn increment_major(&mut self) {
        self.major = self.major + 1;
        self.minor = 0;
        self.patch = 0;
        self.pre = String::new();
        self.build = String::new();
    }

    fn increment_minor(&mut self) {
        self.minor = self.minor + 1;
        self.patch = 0;
        self.pre = String::new();
        self.build = String::new();
    }

    fn increment_patch(&mut self) {
        self.patch = self.patch + 1;
        self.pre = String::new();
        self.build = String::new();
    }
}

/// The version that a text writes, if it writes one: the well-formed
/// version that renders to it. There is at most one, by
/// [`lemma_render_injective`].
pub open spec fn version_of(text: Seq<char>) -> Option<VersionView> {
    if exists|v: VersionView| v.wf() && #[trigger] v.render() == text {
        Some(choose|v: VersionView| v.wf() && #[trigger] v.render() == text)
    } else {
        None
    }
}

/// The version that a text writes, or the error that says it writes none.
pub open spec fn read_version(text: Seq<char>) -> Result<VersionView, BumpError> {
    match version_of(text) {
        Some(v) => Ok(v),
        None => Err(BumpError::InvalidVersionString),
    }
}

/// A text splits in one way only into a run of characters of one kind and
/// a rest that does not start with a character of that kind.
pub proof fn lemma_split_unique(
    kind: spec_fn(char) -> bool,
    run1: Seq<char>,
    rest1: Seq<char>,
    run2: Seq<char>,
    rest2: Seq<char>,
)
    requires
        run1 + rest1 == run2 + rest2,
        forall|i: int| 0 <= i < run1.len() ==> kind(#[trigger] run1[i]),
        forall|i: int| 0 <= i < run2.len() ==> kind(#[trigger] run2[i]),
        rest1.len() > 0 ==> !kind(rest1[0]),
        rest2.len() > 0 ==> !kind(rest2[0]),
    ensures
        run1 == run2,
        rest1 == rest2,
{
    let s = run1 + rest1;
    let t = run2 + rest2;
    assert(s.len() == run1.len() + rest1.len());
    assert(t.len() == run2.len() + rest2.len());
    // The shorter run would end where the longer one still goes on.
    if run1.len() < run2.len() {
        assert(s[run1.len() as int] == rest1[0]);
        assert(t[run1.len() as int] == run2[run1.len() as int]);
    }
    if run2.len() < run1.len() {
        assert(t[run2.len() as int] == rest2[0]);
        assert(s[run2.len() as int] == run1[run2.len() as int]);
    }
    assert(run1.len() == run2.len());
    assert forall|i: int| 0 <= i < run1.len() implies run1[i] == run2[i] by {
        assert(s[i] == run1[i]);
        assert(t[i] == run2[i]);
    }
    assert forall|i: int| 0 <= i < rest1.len() implies rest1[i] == rest2[i] by {
        assert(s[run1.len() + i] == rest1[i]);
        assert(t[run2.len() + i] == rest2[i]);
    }
}

/// Two numbers with the same numeral are the same number.
pub proof fn lemma_decimal_injective(m: nat, n: nat)
    requires
        decimal(m) == decimal(n),
    ensures
        m == n,
{
    lemma_decimal(m);
    lemma_decimal(n);
}

/// What follows the three numbers in the text of a version tells both
/// tags.
proof fn lemma_suffix_injective(a: VersionView, b: VersionView)
    requires
        a.wf(),
        b.wf(),
        a.suffix() == b.suffix(),
    ensures
        a.pre == b.pre,
        a.build == b.build,
{
    let not_plus = |c: char| c != '+';
    assert forall|i: int| 0 <= i < a.pre_suffix().len() implies not_plus(
        #[trigger] a.pre_suffix()[i],
    ) by {
        if i > 0 {
            assert(a.pre_suffix()[i] == a.pre[i - 1]);
        }
    }
    assert forall|i: int| 0 <= i < b.pre_suffix().len() implies not_plus(
        #[trigger] b.pre_suffix()[i],
    ) by {
        if i > 0 {
            assert(b.pre_suffix()[i] == b.pre[i - 1]);
        }
    }
    lemma_split_unique(
        not_plus,
        a.pre_suffix(),
        a.build_suffix(),
        b.pre_suffix(),
        b.build_suffix(),
    );
    if a.pre.len() > 0 {
        assert(a.pre =~= a.pre_suffix().subrange(1, a.pre_suffix().len() as int));
        assert(b.pre =~= b.pre_suffix().subrange(1, b.pre_suffix().len() as int));
    }
    if a.build.len() > 0 {
        assert(a.build =~= a.build_suffix().subrange(1, a.build_suffix().len() as int));
        assert(b.build =~= b.build_suffix().subrange(1, b.build_suffix().len() as int));
    }
}

/// A text that starts with a numeral and goes on with something that is
/// no digit tells the number and what follows it.
proof fn lemma_numeral_prefix(m: nat, rest1: Seq<char>, n: nat, rest2: Seq<char>)
    requires
        decimal(m) + rest1 == decimal(n) + rest2,
        rest1.len() > 0 ==> !is_digit(rest1[0]),
        rest2.len() > 0 ==> !is_digit(rest2[0]),
    ensures
        m == n,
        rest1 == rest2,
{
    let digit = |c: char| is_digit(c);
    lemma_decimal(m);
    lemma_decimal(n);
    lemma_split_unique(digit, decimal(m), rest1, decimal(n), rest2);
    lemma_decimal_injective(m, n);
}

/// The same for a numeral that a dot follows.
proof fn lemma_numeral_dot_prefix(m: nat, rest1: Seq<char>, n: nat, rest2: Seq<char>)
    requires
        decimal(m) + (seq!['.'] + rest1) == decimal(n) + (seq!['.'] + rest2),
    ensures
        m == n,
        rest1 == rest2,
{
    let d1 = seq!['.'] + rest1;
    let d2 = seq!['.'] + rest2;
    lemma_numeral_prefix(m, d1, n, d2);
    assert(rest1 =~= d1.subrange(1, d1.len() as int));
    assert(rest2 =~= d2.subrange(1, d2.len() as int));
}

impl VersionView {
    /// The text, put together from its end; what follows the numbers
    /// starts with no digit.
    proof fn lemma_render_nested(self)
        ensures
            self.render() == decimal(self.major) + (seq!['.'] + (decimal(self.minor) + (seq!['.']
                + (decimal(self.patch) + self.suffix())))),
            self.suffix().len() > 0 ==> !is_digit(self.suffix()[0]),
    {
        if self.pre.len() > 0 {
            assert(self.suffix()[0] == '-');
        } else if self.build.len() > 0 {
            assert(self.suffix()[0] == '+');
        }
    }
}

/// Two well-formed versions with the same text are the same version.
pub proof fn lemma_render_injective(a: VersionView, b: VersionView)
    requires
        a.wf(),
        b.wf(),
        a.render() == b.render(),
    ensures
        a == b,
{
    a.lemma_render_nested();
    b.lemma_render_nested();
    let a3 = decimal(a.patch) + a.suffix();
    let b3 = decimal(b.patch) + b.suffix();
    let a2 = decimal(a.minor) + (seq!['.'] + a3);
    let b2 = decimal(b.minor) + (seq!['.'] + b3);
    lemma_numeral_dot_prefix(a.major, a2, b.major, b2);
    lemma_numeral_dot_prefix(a.minor, a3, b.minor, b3);
    lemma_numeral_prefix(a.patch, a.suffix(), b.patch, b.suffix());
    lemma_suffix_injective(a, b);
}

/// Reading the text of a well-formed version gives that version back.
pub proof fn lemma_version_of_render(v: VersionView)
    requires
        v.wf(),
    ensures
        version_of(v.render()) == Some(v),
{
    let w = version_of(v.render())->0;
    lemma_render_injective(v, w);
}

} // verus!
