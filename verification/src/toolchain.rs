//! The C compiler driver, as far as the build plan configures it.
//!
//! The driver is `cc::Build`. Nothing in this module is proved: each item
//! states what the driver's source shows, and the plan is verified against
//! these statements.

use crate::text::views;
use vstd::prelude::*;

verus! {

/// `cc::Build`, the configuration of one run of the C compiler. Its fields
/// are private to `cc`: what it holds is known only as [`settings`].
#[verifier::external_type_specification]
#[verifier::external_body]
pub struct ExBuild(cc::Build);

/// What a compiler configuration has been told so far.
pub struct Settings {
    /// The directories searched for headers, in the order given.
    pub include_directories: Seq<Seq<char>>,
    /// The preprocessor definitions, each a name and perhaps a value, in
    /// the order given.
    pub definitions: Seq<(Seq<char>, Option<Seq<char>>)>,
    /// The files to compile, in the order given.
    pub files: Seq<Seq<char>>,
    /// Whether warnings were switched on or off, if either.
    pub warnings: Option<bool>,
    /// Whether extra warnings were switched on or off, if either.
    pub extra_warnings: Option<bool>,
}

impl Settings {
    /// The settings of a configuration that has been told nothing.
    pub open spec fn blank() -> Settings {
        Settings {
            include_directories: Seq::empty(),
            definitions: Seq::empty(),
            files: Seq::empty(),
            warnings: None,
            extra_warnings: None,
        }
    }
}

/// The settings that a `cc::Build` holds: its fields `include_directories`,
/// `definitions`, `files`, `warnings` and `extra_warnings`, each path and
/// name taken as its text.
pub uninterp spec fn settings(build: cc::Build) -> Settings;

/// Calls `cc::Build::new`, which returns a configuration whose lists are
/// empty and whose warning switches are unset.
#[verifier::external_body]
pub(crate) fn new_build() -> (build: cc::Build)
    ensures
        settings(build) == Settings::blank(),
{
    cc::Build::new()
}

/// Calls `cc::Build::includes`, which appends the directories, in the
/// order given, to the include directories and touches nothing else.
#[verifier::external_body]
pub(crate) fn add_includes(build: &mut cc::Build, dirs: &[&str])
    ensures
        settings(*final(build)) == (Settings {
            include_directories: settings(*old(build)).include_directories + views(dirs@),
            ..settings(*old(build))
        }),
{
    build.includes(dirs);
}

/// Calls `cc::Build::file`, which appends the path to the files to compile
/// and touches nothing else.
#[verifier::external_body]
pub(crate) fn add_file_path(build: &mut cc::Build, path: &str)
    ensures
        settings(*final(build)) == (Settings {
            files: settings(*old(build)).files.push(path@),
            ..settings(*old(build))
        }),
{
    build.file(path);
}

/// Calls `cc::Build::define` without a value, which appends the name, with
/// no value, to the definitions and touches nothing else.
#[verifier::external_body]
pub(crate) fn define(build: &mut cc::Build, name: &str)
    ensures
        settings(*final(build)) == (Settings {
            definitions: settings(*old(build)).definitions.push((name@, None)),
            ..settings(*old(build))
        }),
{
    build.define(name, None);
}

/// Calls `cc::Build::warnings`, which sets both the warnings switch and the
/// extra warnings switch to the given value and touches nothing else.
#[verifier::external_body]
pub(crate) fn warnings(build: &mut cc::Build, on: bool)
    ensures
        settings(*final(build)) == (Settings {
            warnings: Some(on),
            extra_warnings: Some(on),
            ..settings(*old(build))
        }),
{
    build.warnings(on);
}

} // verus!
