//! What the caller asked for, and the choice of the manifest to work on.

use vstd::prelude::*;
use crate::error::BumpError;
use crate::modifier::{BumpKind, ModifierView, VersionModifier};
use crate::text::same_text;

verus! {

/// What the caller asked for.
#[derive(Debug)]
pub struct Arguments {
    /// A version to put in place, or the directive by which the current
    /// version is advanced.
    pub version: BumpKind,
    /// The manifest from which the workspace is looked up.
    pub manifest_path: Option<String>,
    /// The label of the pre-release train.
    pub pre_id: Option<String>,
    /// The name of the package to bump.
    pub package: Option<String>,
}

/// One package of a workspace's metadata.
#[derive(Clone, Debug, PartialEq, Eq)]
pub struct PackageInfo {
    pub name: String,
    pub id: String,
    pub manifest_path: String,
}

/// The bump to make and the manifest to make it in.
#[derive(Debug)]
pub struct Config {
    pub modifier: VersionModifier,
    pub manifest_path: String,
}

/// The name of the package that is meant: the one asked for, or `"."`.
pub open spec fn target_name(package: Option<String>) -> Seq<char> {
    match package {
        Some(name) => name@,
        None => "."@,
    }
}

/// `packages[i]` is the first package named `target`.
pub open spec fn selects(packages: Seq<PackageInfo>, target: Seq<char>, i: int) -> bool {
    &&& 0 <= i < packages.len()
    &&& packages[i].name@ == target
    &&& forall|j: int| 0 <= j < i ==> (#[trigger] packages[j]).name@ != target
}

/// No package is named `target`.
pub open spec fn none_named(packages: Seq<PackageInfo>, target: Seq<char>) -> bool {
    forall|j: int| 0 <= j < packages.len() ==> (#[trigger] packages[j]).name@ != target
}

/// `id` is one of `members`.
pub open spec fn is_member(members: Seq<String>, id: Seq<char>) -> bool {
    exists|j: int| 0 <= j < members.len() && (#[trigger] members[j])@ == id
}

/// The place of the first package named `target`.
fn find_package(packages: &Vec<PackageInfo>, target: &str) -> (r: Option<usize>)
    ensures
        match r {
            Some(i) => selects(packages@, target@, i as int),
            None => none_named(packages@, target@),
        },
{
    let mut i: usize = 0;
    while i < packages.len()
        invariant
            0 <= i <= packages.len(),
            forall|j: int| 0 <= j < i ==> (#[trigger] packages@[j]).name@ != target@,
        decreases packages.len() - i,
    {
        if same_text(packages[i].name.as_str(), target) {
            return Some(i);
        }
        i = i + 1;
    }
    None
}

/// Whether `id` is one of `members`.
fn has_member(members: &Vec<String>, id: &str) -> (r: bool)
    ensures
        r == is_member(members@, id@),
{
    let mut i: usize = 0;
    while i < members.len()
        invariant
            0 <= i <= members.len(),
            forall|j: int| 0 <= j < i ==> (#[trigger] members@[j])@ != id@,
        decreases members.len() - i,
    {
        if same_text(members[i].as_str(), id) {
            return true;
        }
        i = i + 1;
    }
    false
}

impl Config {
    /// Chooses the manifest of the package that `args` names among the
    /// packages of a workspace: the first package of that name, which must
    /// be a member of the workspace.
    pub fn new(args: Arguments, packages: &Vec<PackageInfo>, workspace_members: &Vec<String>) -> (r:
        Result<Config, BumpError>)
        ensures
            match r {
                Ok(config) => {
                    &&& config.modifier@ == (ModifierView {
                        kind: args.version@,
                        label: args.pre_id.deep_view(),
                    })
                    &&& exists|i: int|
                        #![trigger packages@[i]]
                        selects(packages@, target_name(args.package), i) && is_member(
                            workspace_members@,
                            packages@[i].id@,
                        ) && config.manifest_path@ == packages@[i].manifest_path@
                },
                Err(e) => if none_named(packages@, target_name(args.package)) {
                    e == BumpError::PackageNotFound
                } else {
                    e == BumpError::NotWorkspaceMember && exists|i: int|
                        #![trigger packages@[i]]
                        selects(packages@, target_name(args.package), i) && !is_member(
                            workspace_members@,
                            packages@[i].id@,
                        )
                },
            },
    {
        let Arguments { version, manifest_path: _, pre_id, package } = args;
        let target = match package {
            Some(name) => name,
            None => ".".to_owned(),
        };
        let found = match find_package(packages, target.as_str()) {
            Some(i) => i,
            None => {
                return Err(BumpError::PackageNotFound);
            },
        };
        if !has_member(workspace_members, packages[found].id.as_str()) {
            return Err(BumpError::NotWorkspaceMember);
        }
        Ok(
            Config {
                modifier: VersionModifier::new(version, pre_id),
                manifest_path: packages[found].manifest_path.clone(),
            },
        )
    }
}

} // verus!
