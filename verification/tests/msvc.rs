use libffi::msvc::{
    add_file, build_and_link, build_files, include_dirs, pre_process_asm, probe_and_link, Arch,
    AsmCommand, LIBRARY,
};

fn files_of(build: &cc::Build) -> Vec<String> {
    build
        .get_files()
        .map(|path| path.to_string_lossy().into_owned())
        .collect()
}

fn variable(name: &str, value: &str) -> (String, String) {
    (name.to_string(), value.to_string())
}

#[test]
fn parse_knows_three_architectures() {
    assert_eq!(Arch::parse("x86_64"), Some(Arch::X86_64));
    assert_eq!(Arch::parse("x86"), Some(Arch::X86));
    assert_eq!(Arch::parse("aarch64"), Some(Arch::Aarch64));
}

#[test]
fn parse_refuses_other_names() {
    assert_eq!(Arch::parse("arm"), None);
    assert_eq!(Arch::parse(""), None);
    assert_eq!(Arch::parse("X86"), None);
    assert_eq!(Arch::parse("x86_64 "), None);
    assert_eq!(Arch::parse("riscv64"), None);
}

#[test]
fn folder_names() {
    assert_eq!(Arch::X86_64.folder_name(), "x86");
    assert_eq!(Arch::X86.folder_name(), "x86");
    assert_eq!(Arch::Aarch64.folder_name(), "aarch64");
}

#[test]
fn file_names() {
    assert_eq!(Arch::X86_64.file_name(), "win64_intel");
    assert_eq!(Arch::X86.file_name(), "sysv_intel");
    assert_eq!(Arch::Aarch64.file_name(), "win64_armasm");
}

#[test]
fn asm_path_joins_folder_file_and_extension() {
    assert_eq!(Arch::X86_64.asm_path(".S"), "libffi/src/x86/win64_intel.S");
    assert_eq!(Arch::X86.asm_path(".asm"), "libffi/src/x86/sysv_intel.asm");
    assert_eq!(
        Arch::Aarch64.asm_path(".S"),
        "libffi/src/aarch64/win64_armasm.S"
    );
    assert_eq!(Arch::Aarch64.asm_path(""), "libffi/src/aarch64/win64_armasm");
}

#[test]
fn include_dirs_end_with_the_architecture() {
    assert_eq!(
        include_dirs(Arch::X86_64),
        vec!["libffi", "libffi/include", "include/msvc", "libffi/src/x86"]
    );
    assert_eq!(
        include_dirs(Arch::X86),
        vec!["libffi", "libffi/include", "include/msvc", "libffi/src/x86"]
    );
    assert_eq!(
        include_dirs(Arch::Aarch64),
        vec![
            "libffi",
            "libffi/include",
            "include/msvc",
            "libffi/src/aarch64"
        ]
    );
}

#[test]
fn build_files_end_with_the_architecture() {
    assert_eq!(
        build_files(Arch::X86_64),
        vec![
            "tramp.c",
            "closures.c",
            "prep_cif.c",
            "raw_api.c",
            "types.c",
            "x86/ffi.c",
            "x86/ffiw64.c"
        ]
    );
    assert_eq!(
        build_files(Arch::X86),
        vec![
            "tramp.c",
            "closures.c",
            "prep_cif.c",
            "raw_api.c",
            "types.c",
            "x86/ffi.c"
        ]
    );
    assert_eq!(
        build_files(Arch::Aarch64),
        vec![
            "tramp.c",
            "closures.c",
            "prep_cif.c",
            "raw_api.c",
            "types.c",
            "aarch64/ffi.c"
        ]
    );
}

#[test]
fn pre_process_asm_without_include_variable() {
    let env = vec![variable("PATH", "C:\\bin"), variable("LIB", "C:\\lib")];
    let AsmCommand {
        include_path,
        args,
        out_path,
    } = pre_process_asm(&["libffi", "libffi/include"], "x86_64", &env);
    assert_eq!(include_path, None);
    assert_eq!(args, vec!["/EP", "libffi/src/x86/win64_intel.S"]);
    assert_eq!(out_path, "libffi/src/x86/win64_intel.asm");
}

#[test]
fn pre_process_asm_extends_the_include_variable() {
    let env = vec![
        variable("PATH", "C:\\bin"),
        variable("INCLUDE", "C:\\vc\\include"),
        variable("LIB", "C:\\lib"),
    ];
    let dirs = include_dirs(Arch::X86);
    let command = pre_process_asm(&dirs, "x86", &env);
    assert_eq!(
        command.include_path.as_deref(),
        Some("C:\\vc\\include;libffi;libffi/include;include/msvc;libffi/src/x86")
    );
    assert_eq!(command.args, vec!["/EP", "libffi/src/x86/sysv_intel.S"]);
    assert_eq!(command.out_path, "libffi/src/x86/sysv_intel.asm");
}

#[test]
fn pre_process_asm_takes_the_last_include_variable() {
    let env = vec![
        variable("INCLUDE", "first"),
        variable("include", "lower case is another name"),
        variable("INCLUDE", "second"),
        variable("OTHER", "x"),
    ];
    let command = pre_process_asm(&["a", "b"], "aarch64", &env);
    assert_eq!(command.include_path.as_deref(), Some("second;a;b"));
    assert_eq!(
        command.args,
        vec!["/EP", "libffi/src/aarch64/win64_armasm.S"]
    );
    assert_eq!(command.out_path, "libffi/src/aarch64/win64_armasm.asm");
}

#[test]
fn pre_process_asm_with_no_directories() {
    let env = vec![variable("INCLUDE", "C:\\vc")];
    let dirs: [&str; 0] = [];
    let command = pre_process_asm(&dirs, "x86", &env);
    assert_eq!(command.include_path.as_deref(), Some("C:\\vc;"));
}

#[test]
fn pre_process_asm_with_empty_environment() {
    let env: Vec<(String, String)> = Vec::new();
    let command = pre_process_asm(&["libffi"], "x86_64", &env);
    assert_eq!(command.include_path, None);
    assert_eq!(command.args.len(), 2);
}

#[test]
fn add_file_puts_the_source_directory_in_front() {
    let mut build = cc::Build::new();
    add_file(&mut build, "types.c");
    add_file(&mut build, "x86/ffi.c");
    assert_eq!(
        files_of(&build),
        vec!["libffi/src/types.c", "libffi/src/x86/ffi.c"]
    );
}

#[test]
fn build_lists_sources_then_assembly() {
    let build = build_and_link(Arch::X86, "libffi/src/x86/sysv_intel.asm");
    assert_eq!(
        files_of(&build),
        vec![
            "libffi/src/tramp.c",
            "libffi/src/closures.c",
            "libffi/src/prep_cif.c",
            "libffi/src/raw_api.c",
            "libffi/src/types.c",
            "libffi/src/x86/ffi.c",
            "libffi/src/x86/sysv_intel.asm",
        ]
    );
}

#[test]
fn build_for_x86_64_has_both_x86_sources() {
    let build = build_and_link(Arch::X86_64, "out.asm");
    assert_eq!(
        files_of(&build),
        vec![
            "libffi/src/tramp.c",
            "libffi/src/closures.c",
            "libffi/src/prep_cif.c",
            "libffi/src/raw_api.c",
            "libffi/src/types.c",
            "libffi/src/x86/ffi.c",
            "libffi/src/x86/ffiw64.c",
            "out.asm",
        ]
    );
}

#[test]
fn build_searches_the_include_directories() {
    let shown = format!("{:?}", build_and_link(Arch::Aarch64, "out.asm"));
    assert!(shown.contains(
        "include_directories: [\"libffi\", \"libffi/include\", \"include/msvc\", \"libffi/src/aarch64\"]"
    ));
}

#[test]
fn build_defines_three_names_without_values() {
    let shown = format!("{:?}", build_and_link(Arch::X86, "out.asm"));
    assert!(shown
        .contains("definitions: [(\"WIN32\", None), (\"_LIB\", None), (\"FFI_BUILDING\", None)]"));
}

#[test]
fn build_switches_warnings_off() {
    let shown = format!("{:?}", build_and_link(Arch::X86, "out.asm"));
    assert!(shown.contains(" warnings: Some(false)"));
    assert!(shown.contains("extra_warnings: Some(false)"));
}

#[test]
fn a_fresh_build_holds_nothing() {
    let shown = format!("{:?}", cc::Build::new());
    assert!(shown.contains("include_directories: []"));
    assert!(shown.contains("definitions: []"));
    assert!(shown.contains(" files: []"));
    assert!(shown.contains(" warnings: None"));
}

#[test]
fn probe_and_link_builds_from_source() {
    let probed = probe_and_link(Arch::X86_64, "libffi/src/x86/win64_intel.asm");
    let built = build_and_link(Arch::X86_64, "libffi/src/x86/win64_intel.asm");
    assert_eq!(files_of(&probed), files_of(&built));
    assert_eq!(files_of(&probed).len(), 8);
}

#[test]
fn library_name() {
    assert_eq!(LIBRARY, "libffi");
}
