//! The plan for compiling the native library with MSVC: which directories
//! to search, which sources to compile, and how the assembly template of an
//! architecture is run through the preprocessor.
//!
//! Nothing here touches the file system or starts a process. The functions
//! say what is to be done; the caller does it.

use crate::text::{join, join_strs, same_text, views};
use crate::toolchain::{add_file_path, add_includes, define, new_build, settings, warnings, Settings};
use vstd::prelude::*;

verus! {

/// The name under which the compiled library is archived.
pub const LIBRARY: &'static str = "libffi";

/// An architecture for which the native library can be built with MSVC.
#[derive(Clone, Copy, Debug, PartialEq, Eq, Structural)]
pub enum Arch {
    X86_64,
    X86,
    Aarch64,
}

/// One variable of a process environment: its name and its value.
pub open spec fn variable(entry: (String, String)) -> (Seq<char>, Seq<char>) {
    (entry.0@, entry.1@)
}

/// The variables of a process environment, in order.
pub open spec fn variables(env: Seq<(String, String)>) -> Seq<(Seq<char>, Seq<char>)> {
    env.map_values(|entry: (String, String)| variable(entry))
}

/// The value of the last variable named `INCLUDE`, if there is one.
pub open spec fn last_include(env: Seq<(Seq<char>, Seq<char>)>) -> Option<Seq<char>>
    decreases env.len(),
{
    if env.len() == 0 {
        None
    } else if env.last().0 =~= "INCLUDE"@ {
        Some(env.last().1)
    } else {
        last_include(env.drop_last())
    }
}

/// The texts of a list of strings, in order.
pub open spec fn texts(strings: Seq<String>) -> Seq<Seq<char>> {
    strings.map_values(|s: String| s@)
}

/// A run of the preprocessor over an assembly template.
pub struct AsmCommand {
    /// The value to give the variable `INCLUDE`, where the compiler's own
    /// environment sets that variable; otherwise the variable is left alone.
    pub include_path: Option<String>,
    /// The arguments of the command, in order.
    pub args: Vec<String>,
    /// The file that receives what the preprocessor writes.
    pub out_path: String,
}

/// What an [`AsmCommand`] holds, as plain text.
pub struct AsmCommandView {
    pub include_path: Option<Seq<char>>,
    pub args: Seq<Seq<char>>,
    pub out_path: Seq<char>,
}

impl View for AsmCommand {
    type V = AsmCommandView;

    open spec fn view(&self) -> AsmCommandView {
        AsmCommandView {
            include_path: match self.include_path {
                Some(value) => Some(value@),
                None => None,
            },
            args: texts(self.args@),
            out_path: self.out_path@,
        }
    }
}

impl Arch {
    /// The architecture that a target name stands for, if it is supported.
    pub open spec fn spec_parse(name: Seq<char>) -> Option<Arch> {
        if name =~= "x86_64"@ {
            Some(Arch::X86_64)
        } else if name =~= "x86"@ {
            Some(Arch::X86)
        } else if name =~= "aarch64"@ {
            Some(Arch::Aarch64)
        } else {
            None
        }
    }

    /// The directory, below the library's sources, of this architecture.
    pub open spec fn spec_folder_name(self) -> Seq<char> {
        match self {
            Arch::X86_64 => "x86"@,
            Arch::X86 => "x86"@,
            Arch::Aarch64 => "aarch64"@,
        }
    }

    /// The name, without extension, of this architecture's assembly
    /// template.
    pub open spec fn spec_file_name(self) -> Seq<char> {
        match self {
            Arch::X86_64 => "win64_intel"@,
            Arch::X86 => "sysv_intel"@,
            Arch::Aarch64 => "win64_armasm"@,
        }
    }

    /// The assembly template of this architecture, without extension.
    pub open spec fn spec_asm_stem(self) -> Seq<char> {
        "libffi/src/"@ + self.spec_folder_name() + "/"@ + self.spec_file_name()
    }

    /// The directories searched for headers.
    pub open spec fn spec_include_dirs(self) -> Seq<Seq<char>> {
        let common = seq!["libffi"@, "libffi/include"@, "include/msvc"@];
        match self {
            Arch::X86_64 => common.push("libffi/src/x86"@),
            Arch::X86 => common.push("libffi/src/x86"@),
            Arch::Aarch64 => common.push("libffi/src/aarch64"@),
        }
    }

    /// The C sources to compile, relative to the library's source
    /// directory.
    pub open spec fn spec_build_files(self) -> Seq<Seq<char>> {
        let common = seq!["tramp.c"@, "closures.c"@, "prep_cif.c"@, "raw_api.c"@, "types.c"@];
        match self {
            Arch::X86_64 => common.push("x86/ffi.c"@).push("x86/ffiw64.c"@),
            Arch::X86 => common.push("x86/ffi.c"@),
            Arch::Aarch64 => common.push("aarch64/ffi.c"@),
        }
    }

    /// Reads a target architecture by its name. Only `x86_64`, `x86` and
    /// `aarch64` are supported.
    pub fn parse(name: &str) -> (arch: Option<Arch>)
        ensures
            arch == Arch::spec_parse(name@),
    {
        if same_text(name, "x86_64") {
            Some(Arch::X86_64)
        } else if same_text(name, "x86") {
            Some(Arch::X86)
        } else if same_text(name, "aarch64") {
            Some(Arch::Aarch64)
        } else {
            None
        }
    }

    /// The directory, below the library's sources, of this architecture.
    pub fn folder_name(self) -> (name: &'static str)
        ensures
            name@ == self.spec_folder_name(),
    {
        match self {
            Arch::X86_64 => "x86",
            Arch::X86 => "x86",
            Arch::Aarch64 => "aarch64",
        }
    }

    /// The name, without extension, of this architecture's assembly
    /// template.
    pub fn file_name(self) -> (name: &'static str)
        ensures
            name@ == self.spec_file_name(),
    {
        match self {
            Arch::X86_64 => "win64_intel",
            Arch::X86 => "sysv_intel",
            Arch::Aarch64 => "win64_armasm",
        }
    }

    /// The path of this architecture's assembly template, with the given
    /// extension.
    pub fn asm_path(self, extension: &str) -> (path: String)
        ensures
            path@ == self.spec_asm_stem() + extension@,
    {
        let mut path = String::from_str("libffi/src/");
        path.append(self.folder_name());
        path.append("/");
        path.append(self.file_name());
        path.append(extension);
        path
    }
}

/// The directories searched for headers when the library is built for
/// `arch`: three that every architecture shares, then the architecture's
/// own.
pub fn include_dirs(arch: Arch) -> (dirs: Vec<&'static str>)
    ensures
        views(dirs@) == arch.spec_include_dirs(),
{
    let mut dirs: Vec<&'static str> = Vec::new();
    dirs.push("libffi");
    dirs.push("libffi/include");
    dirs.push("include/msvc");
    match arch {
        Arch::X86_64 => dirs.push("libffi/src/x86"),
        Arch::X86 => dirs.push("libffi/src/x86"),
        Arch::Aarch64 => dirs.push("libffi/src/aarch64"),
    }
    assert(views(dirs@) =~= arch.spec_include_dirs());
    dirs
}

/// The C sources compiled when the library is built for `arch`, relative
/// to the library's source directory: five that every architecture shares,
/// then the architecture's own.
pub fn build_files(arch: Arch) -> (files: Vec<&'static str>)
    ensures
        views(files@) == arch.spec_build_files(),
{
    let mut files: Vec<&'static str> = Vec::new();
    files.push("tramp.c");
    files.push("closures.c");
    files.push("prep_cif.c");
    files.push("raw_api.c");
    files.push("types.c");
    match arch {
        Arch::X86_64 => {
            files.push("x86/ffi.c");
            files.push("x86/ffiw64.c");
        },
        Arch::X86 => files.push("x86/ffi.c"),
        Arch::Aarch64 => files.push("aarch64/ffi.c"),
    }
    assert(views(files@) =~= arch.spec_build_files());
    files
}

/// The run of the preprocessor that turns the assembly template of `arch`
/// into the file to assemble, given the directories to search and the
/// environment that the compiler wants.
pub open spec fn spec_pre_process_asm(
    include_dirs: Seq<Seq<char>>,
    arch: Arch,
    env: Seq<(Seq<char>, Seq<char>)>,
) -> AsmCommandView {
    AsmCommandView {
        include_path: match last_include(env) {
            Some(value) => Some(value + ";"@ + join(include_dirs, ";"@)),
            None => None,
        },
        args: seq!["/EP"@, arch.spec_asm_stem() + ".S"@],
        out_path: arch.spec_asm_stem() + ".asm"@,
    }
}

/// The value of the last variable named `INCLUDE` in the environment, if
/// there is one.
fn find_include(compiler_env: &[(String, String)]) -> (found: Option<&String>)
    ensures
        match found {
            Some(value) => last_include(variables(compiler_env@)) == Some(value@),
            None => last_include(variables(compiler_env@)) is None,
        },
{
    let key = String::from_str("INCLUDE");
    let mut found: Option<&String> = None;
    let mut i: usize = 0;
    while i < compiler_env.len()
        invariant
            i <= compiler_env.len(),
            key@ == "INCLUDE"@,
            match found {
                Some(value) => last_include(variables(compiler_env@).take(i as int)) == Some(
                    value@,
                ),
                None => last_include(variables(compiler_env@).take(i as int)) is None,
            },
        decreases compiler_env.len() - i,
    {
        let ghost before = variables(compiler_env@).take(i as int);
        let ghost after = variables(compiler_env@).take(i + 1);
        proof {
            assert(after.drop_last() =~= before);
            assert(after.last() == variable(compiler_env@[i as int]));
        }
        let entry = &compiler_env[i];
        if entry.0 == key {
            found = Some(&entry.1);
        }
        i += 1;
    }
    proof {
        assert(variables(compiler_env@).take(compiler_env.len() as int) =~= variables(
            compiler_env@,
        ));
    }
    found
}

/// Plans the run of the preprocessor over the assembly template of the
/// target architecture.
///
/// The command gets `/EP` and the template as its arguments and writes to a
/// file beside the template, with the extension `.asm`. Where the
/// compiler's environment sets `INCLUDE`, the command's `INCLUDE` is that
/// value (the last one, if there are several) followed by `include_dirs`,
/// all separated by semicolons.
///
/// The target architecture must be a supported one: see [`Arch::parse`].
pub fn pre_process_asm(
    include_dirs: &[&str],
    target_arch: &str,
    compiler_env: &[(String, String)],
) -> (command: AsmCommand)
    requires
        Arch::spec_parse(target_arch@) is Some,
    ensures
        command@ == spec_pre_process_asm(
            views(include_dirs@),
            Arch::spec_parse(target_arch@)->0,
            variables(compiler_env@),
        ),
{
    let arch = Arch::parse(target_arch).unwrap();
    let include_path = match find_include(compiler_env) {
        Some(value) => {
            let mut path = value.clone();
            path.append(";");
            let dirs = join_strs(include_dirs, ";");
            path.append(dirs.as_str());
            Some(path)
        },
        None => None,
    };
    let mut args: Vec<String> = Vec::new();
    args.push(String::from_str("/EP"));
    args.push(arch.asm_path(".S"));
    let out_path = arch.asm_path(".asm");
    let command = AsmCommand { include_path, args, out_path };
    assert(command@.args =~= seq!["/EP"@, arch.spec_asm_stem() + ".S"@]);
    command
}

/// The path of a C source of the library, given relative to the library's
/// source directory.
pub open spec fn source_path(file: Seq<char>) -> Seq<char> {
    "libffi/src/"@ + file
}

/// The settings with which the library is compiled for `arch`, once the
/// assembly template has been preprocessed into `asm_path`.
pub open spec fn spec_build(arch: Arch, asm_path: Seq<char>) -> Settings {
    Settings {
        include_directories: arch.spec_include_dirs(),
        definitions: seq![("WIN32"@, None), ("_LIB"@, None), ("FFI_BUILDING"@, None)],
        files: arch.spec_build_files().map_values(|file: Seq<char>| source_path(file)).push(
            asm_path,
        ),
        warnings: Some(false),
        extra_warnings: Some(false),
    }
}

/// Adds a C source of the library, given relative to the library's source
/// directory, to the files to compile.
pub fn add_file(build: &mut cc::Build, file: &str)
    ensures
        settings(*final(build)) == (Settings {
            files: settings(*old(build)).files.push(source_path(file@)),
            ..settings(*old(build))
        }),
{
    let mut path = String::from_str("libffi/src/");
    path.append(file);
    add_file_path(build, path.as_str());
}

/// Configures the compiler for building the library for `arch`: the
/// directories to search, the C sources, the preprocessed assembly file,
/// the three definitions `WIN32`, `_LIB` and `FFI_BUILDING`, and warnings
/// off. The caller compiles the result into [`LIBRARY`].
pub fn build_and_link(arch: Arch, asm_path: &str) -> (build: cc::Build)
    ensures
        settings(build) == spec_build(arch, asm_path@),
{
    let mut build = new_build();
    let dirs = include_dirs(arch);
    add_includes(&mut build, dirs.as_slice());
    let files = build_files(arch);
    let mut i: usize = 0;
    proof {
        assert(Seq::<Seq<char>>::empty() + views(dirs@) =~= arch.spec_include_dirs());
        assert(arch.spec_build_files().take(0).map_values(|file: Seq<char>| source_path(file))
            =~= Seq::<Seq<char>>::empty());
    }
    while i < files.len()
        invariant
            i <= files.len(),
            views(files@) == arch.spec_build_files(),
            settings(build) == (Settings {
                include_directories: arch.spec_include_dirs(),
                files: arch.spec_build_files().take(i as int).map_values(
                    |file: Seq<char>| source_path(file),
                ),
                ..Settings::blank()
            }),
        decreases files.len() - i,
    {
        proof {
            let sources = arch.spec_build_files();
            assert(sources[i as int] == files@[i as int]@);
            assert(sources.take(i + 1).map_values(|file: Seq<char>| source_path(file))
                =~= sources.take(i as int).map_values(|file: Seq<char>| source_path(file)).push(
                source_path(sources[i as int]),
            ));
        }
        add_file(&mut build, files[i]);
        i += 1;
    }
    proof {
        assert(arch.spec_build_files().take(files.len() as int) =~= arch.spec_build_files());
    }
    add_file_path(&mut build, asm_path);
    define(&mut build, "WIN32");
    define(&mut build, "_LIB");
    define(&mut build, "FFI_BUILDING");
    warnings(&mut build, false);
    assert(settings(build).definitions =~= spec_build(arch, asm_path@).definitions);
    build
}

/// Configures the compiler for building the library from source, as
/// [`build_and_link`] does: with MSVC the library is always compiled and
/// linked statically, never looked for on the system.
pub fn probe_and_link(arch: Arch, asm_path: &str) -> (build: cc::Build)
    ensures
        settings(build) == spec_build(arch, asm_path@),
{
    build_and_link(arch, asm_path)
}

} // verus!
