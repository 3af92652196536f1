//! The immutable configuration of one pipeline run, and the fixed names
//! the pipeline builds its commands around.

use vstd::prelude::*;

verus! {

/// The three report renderings the report tool can produce.
#[derive(Copy, Clone, Debug, PartialEq, Eq, Structural)]
pub enum OutputFormat {
    /// A directory tree of HTML pages.
    Html,
    /// A summary table streamed to the terminal.
    Report,
    /// An LCOV export, captured from the tool's standard output and
    /// written to a file.
    Lcov,
}

/// Everything the user chose for one run, parsed once and never changed.
pub struct Config {
    /// Which rendering to produce.
    pub output_format: OutputFormat,
    /// The binaries to analyse; must be non-empty for the pipeline to run.
    pub binaries: Vec<String>,
    /// Overrides the default output location for `Html` and `Lcov`.
    pub output_path: Option<String>,
    /// Extra exclusion patterns, appended after the two built-in ones.
    pub ignore_filename_regex: Vec<String>,
    /// When set, cleanup only announces what it would have deleted.
    pub no_delete: bool,
}

/// The fixed name of the consolidated profile database.
pub open spec fn spec_profdata_file() -> Seq<char> {
    "rust_coverage.profdata"@
}

/// The fixed name of the consolidated profile database.
pub fn profdata_file() -> (r: String)
    ensures
        r@ == spec_profdata_file(),
{
    "rust_coverage.profdata".to_owned()
}

/// The two exclusion patterns that every report invocation carries,
/// matching the package-cache and standard-library source paths.
pub open spec fn spec_builtin_ignore_patterns() -> Seq<Seq<char>> {
    seq!["\\.cargo/registry"@, "library/std"@]
}

/// The two exclusion patterns that every report invocation carries.
pub fn builtin_ignore_patterns() -> (r: Vec<String>)
    ensures
        r.deep_view() == spec_builtin_ignore_patterns(),
{
    let mut r: Vec<String> = Vec::new();
    r.push("\\.cargo/registry".to_owned());
    r.push("library/std".to_owned());
    proof {
        assert(r.deep_view() =~= spec_builtin_ignore_patterns());
    }
    r
}

/// The default output directory for the `Html` rendering.
pub open spec fn spec_default_html_dir() -> Seq<char> {
    "htmlcov/rust"@
}

/// The default output file for the `Lcov` rendering.
pub open spec fn spec_default_lcov_file() -> Seq<char> {
    "rust_coverage.lcov"@
}

} // verus!
