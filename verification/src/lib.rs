//! A verified wrapper around the `llvm-config` tool.
//!
//! The library holds everything about the wrapper that can be checked: the
//! whitespace tokenizer, the decoding of captured output, the closed error
//! taxonomy, and the per-flag query operations. The one thing it cannot do
//! itself — spawning the external process — is handed in as a
//! [`SpawnOutcome`] value describing how the run went; each query operation
//! says exactly what it returns for every such value.

pub mod decode;
pub mod process;
pub mod text;
pub mod tokens;

pub use decode::DirPath;
pub use decode::path_decode_post;
pub use decode::stdout_trimmed;
pub use decode::stdout_words;
pub use decode::successful_output;
pub use decode::text_decode_post;
pub use decode::words_decode_post;
pub use process::DecodeFailure;
pub use process::Error;
pub use process::ExitStatus;
pub use process::LaunchFailure;
pub use process::Output;
pub use process::SpawnOutcome;
pub use tokens::SpaceSeparatedStrings;

use vstd::prelude::*;

use decode::path_from;

verus! {

/// The query operations the facade offers, one per external-tool flag.
#[derive(Debug, Clone, Copy, PartialEq, Eq)]
pub enum QueryOp {
    Version,
    Prefix,
    SrcRoot,
    ObjRoot,
    BinDir,
    IncludeDir,
    LibDir,
    CmakeDir,
    CppFlags,
    CFlags,
    CxxFlags,
    Ldflags,
    SystemLibs,
    Libs,
    Libnames,
    Libfiles,
    Components,
}

/// The one flag the external tool is passed for each operation. The
/// version flag has always been passed misspelled; it is kept as it is.
pub open spec fn flag_of(op: QueryOp) -> Seq<char> {
    match op {
        QueryOp::Version => "--verson"@,
        QueryOp::Prefix => "--prefix"@,
        QueryOp::SrcRoot => "--src-root"@,
        QueryOp::ObjRoot => "--obj-root"@,
        QueryOp::BinDir => "--bin-dir"@,
        QueryOp::IncludeDir => "--include-dir"@,
        QueryOp::LibDir => "--lib-dir"@,
        QueryOp::CmakeDir => "--cmake-dir"@,
        QueryOp::CppFlags => "--cppflags"@,
        QueryOp::CFlags => "--cflags"@,
        QueryOp::CxxFlags => "--cxxflags"@,
        QueryOp::Ldflags => "--ldflags"@,
        QueryOp::SystemLibs => "--system-libs"@,
        QueryOp::Libs => "--libs"@,
        QueryOp::Libnames => "--libnames"@,
        QueryOp::Libfiles => "--libfiles"@,
        QueryOp::Components => "--components"@,
    }
}

/// The argument list for one operation: exactly its flag, nothing else.
/// The runner passes each element to the process as one opaque argument.
pub fn query_args(op: QueryOp) -> (r: Vec<String>)
    ensures
        r@.len() == 1,
        r@[0]@ == flag_of(op),
{
    let flag: &str = match op {
        QueryOp::Version => "--verson",
        QueryOp::Prefix => "--prefix",
        QueryOp::SrcRoot => "--src-root",
        QueryOp::ObjRoot => "--obj-root",
        QueryOp::BinDir => "--bin-dir",
        QueryOp::IncludeDir => "--include-dir",
        QueryOp::LibDir => "--lib-dir",
        QueryOp::CmakeDir => "--cmake-dir",
        QueryOp::CppFlags => "--cppflags",
        QueryOp::CFlags => "--cflags",
        QueryOp::CxxFlags => "--cxxflags",
        QueryOp::Ldflags => "--ldflags",
        QueryOp::SystemLibs => "--system-libs",
        QueryOp::Libs => "--libs",
        QueryOp::Libnames => "--libnames",
        QueryOp::Libfiles => "--libfiles",
        QueryOp::Components => "--components",
    };
    let mut args: Vec<String> = Vec::new();
    args.push(String::from_str(flag));
    args
}

/// Print LLVM version.
pub fn version(run: SpawnOutcome) -> (r: Result<String, Error>)
    ensures
        text_decode_post(run, r),
{
    stdout_trimmed(run)
}

/// Print the installation prefix.
pub fn prefix(run: SpawnOutcome) -> (r: Result<DirPath, Error>)
    ensures
        path_decode_post(run, r),
{
    path_from(stdout_trimmed(run))
}

/// Print the source root LLVM was built from.
pub fn src_root(run: SpawnOutcome) -> (r: Result<DirPath, Error>)
    ensures
        path_decode_post(run, r),
{
    path_from(stdout_trimmed(run))
}

/// Print the object root used to build LLVM.
pub fn obj_root(run: SpawnOutcome) -> (r: Result<DirPath, Error>)
    ensures
        path_decode_post(run, r),
{
    path_from(stdout_trimmed(run))
}

/// Directory containing LLVM executables.
pub fn bin_dir(run: SpawnOutcome) -> (r: Result<DirPath, Error>)
    ensures
        path_decode_post(run, r),
{
    path_from(stdout_trimmed(run))
}

/// Directory containing LLVM headers.
pub fn include_dir(run: SpawnOutcome) -> (r: Result<DirPath, Error>)
    ensures
        path_decode_post(run, r),
{
    path_from(stdout_trimmed(run))
}

/// Directory containing LLVM libraries.
pub fn lib_dir(run: SpawnOutcome) -> (r: Result<DirPath, Error>)
    ensures
        path_decode_post(run, r),
{
    path_from(stdout_trimmed(run))
}

/// Directory containing LLVM cmake modules.
pub fn cmake_dir(run: SpawnOutcome) -> (r: Result<DirPath, Error>)
    ensures
        path_decode_post(run, r),
{
    path_from(stdout_trimmed(run))
}

/// C preprocessor flags for files that include LLVM headers.
pub fn cpp_flags(run: SpawnOutcome) -> (r: Result<SpaceSeparatedStrings, Error>)
    ensures
        words_decode_post(run, r),
{
    stdout_words(run)
}

/// C compiler flags for files that include LLVM headers.
pub fn c_flags(run: SpawnOutcome) -> (r: Result<SpaceSeparatedStrings, Error>)
    ensures
        words_decode_post(run, r),
{
    stdout_words(run)
}

/// C++ compiler flags for files that include LLVM headers.
pub fn cxx_flags(run: SpawnOutcome) -> (r: Result<SpaceSeparatedStrings, Error>)
    ensures
        words_decode_post(run, r),
{
    stdout_words(run)
}

/// Print Linker flags.
pub fn ldflags(run: SpawnOutcome) -> (r: Result<SpaceSeparatedStrings, Error>)
    ensures
        words_decode_post(run, r),
{
    stdout_words(run)
}

/// System Libraries needed to link against LLVM components.
pub fn system_libs(run: SpawnOutcome) -> (r: Result<SpaceSeparatedStrings, Error>)
    ensures
        words_decode_post(run, r),
{
    stdout_words(run)
}

/// Libraries needed to link against LLVM components.
pub fn libs(run: SpawnOutcome) -> (r: Result<SpaceSeparatedStrings, Error>)
    ensures
        words_decode_post(run, r),
{
    stdout_words(run)
}

/// Bare library names for in-tree builds.
pub fn libnames(run: SpawnOutcome) -> (r: Result<String, Error>)
    ensures
        text_decode_post(run, r),
{
    stdout_trimmed(run)
}

/// Fully qualified library filenames for makefile depends.
pub fn libfiles(run: SpawnOutcome) -> (r: Result<SpaceSeparatedStrings, Error>)
    ensures
        words_decode_post(run, r),
{
    stdout_words(run)
}

/// List of all possible components.
pub fn components(run: SpawnOutcome) -> (r: Result<SpaceSeparatedStrings, Error>)
    ensures
        words_decode_post(run, r),
{
    stdout_words(run)
}

} // verus!
