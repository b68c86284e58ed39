use vstd::prelude::*;

use crate::config::{ConfigModel, LicenseType, ProjectConfiguration};
use crate::files::{decimal, decimal_string, files_view, new_file, GeneratedFile};

verus! {

/// Separates a directory from what it holds.
pub const SEPARATOR: &'static str = "/";

/// Where the packaging metadata lives.
pub const PYPROJECT_PATH: &'static str = "/pyproject.toml";

/// Where the read-me lives.
pub const README_PATH: &'static str = "/README.md";

/// The package's initialisation file, below its source directory.
pub const INIT_FILE: &'static str = "/__init__.py";

/// The version file, below the source directory.
pub const VERSION_FILE: &'static str = "/_version.py";

/// The entry point of an application, below the source directory.
pub const MAIN_FILE: &'static str = "/main.py";

/// The initialisation file of the tests.
pub const TESTS_INIT_PATH: &'static str = "/tests/__init__.py";

/// Where the native extension's manifest lives.
pub const CARGO_PATH: &'static str = "/Cargo.toml";

/// Where the native extension's source lives.
pub const LIB_RS_PATH: &'static str = "/src/lib.rs";

/// Packaging metadata up to the package name.
pub const PYPROJECT_NAME: &'static str = "[tool.poetry]\nname = \"";

/// Packaging metadata from the name up to the author.
pub const PYPROJECT_AUTHORS: &'static str = "\"\nversion = \"0.1.0\"\ndescription = \"\"\nauthors = [\"";

/// Opens the author's email address.
pub const PYPROJECT_EMAIL: &'static str = " <";

/// Closes the authors and opens the license identifier.
pub const PYPROJECT_LICENSE: &'static str = ">\"]\nlicense = \"";

/// From the license identifier up to the supported Python versions.
pub const PYPROJECT_PYTHON: &'static str = "\"\nreadme = \"README.md\"\n\n[tool.poetry.dependencies]\npython = \"^";

/// The build backend of a pure Python package.
pub const PYPROJECT_BUILD_POETRY: &'static str = "\"\n\n[build-system]\nrequires = [\"poetry-core>=1.0.0\"]\nbuild-backend = \"poetry.core.masonry.api\"\n";

/// The build backend of a package with a native extension.
pub const PYPROJECT_BUILD_MATURIN: &'static str = "\"\n\n[build-system]\nrequires = [\"maturin>=1.0,<2.0\"]\nbuild-backend = \"maturin\"\n";

/// The formatter's line length setting.
pub const PYPROJECT_BLACK: &'static str = "\n[tool.black]\nline-length = ";

/// The linter's line length setting.
pub const PYPROJECT_RUFF: &'static str = "\n\n[tool.ruff]\nline-length = ";

/// Ends a line.
pub const LINE_END: &'static str = "\n";

/// Opens the read-me's title.
pub const README_HEAD: &'static str = "# ";

/// The package's initialisation file up to the package name.
pub const INIT_HEAD: &'static str = "from ";

/// The rest of the package's initialisation file.
pub const INIT_TAIL: &'static str = "._version import VERSION\n\n__version__ = VERSION\n";

/// The version file.
pub const VERSION_CONTENT: &'static str = "VERSION = \"0.1.0\"\n";

/// An application's entry point.
pub const MAIN_CONTENT: &'static str = "def main() -> int:\n    return 0\n\n\nif __name__ == \"__main__\":\n    raise SystemExit(main())\n";

/// The content of an empty file.
pub const EMPTY: &'static str = "";

/// The native extension's manifest up to its crate name.
pub const CARGO_HEAD: &'static str = "[package]\nname = \"";

/// The manifest from the crate name up to the library name.
pub const CARGO_LIB: &'static str = "\"\nversion = \"0.1.0\"\nedition = \"2021\"\n\n[lib]\nname = \"_";

/// The rest of the native extension's manifest.
pub const CARGO_TAIL: &'static str = "\"\ncrate-type = [\"cdylib\"]\n\n[dependencies]\npyo3 = { version = \"0.19\", features = [\"extension-module\"] }\n";

/// The native extension's module up to its name.
pub const LIB_RS_HEAD: &'static str = "use pyo3::prelude::*;\n\n#[pymodule]\nfn _";

/// The rest of the native extension's module.
pub const LIB_RS_TAIL: &'static str = "(_py: Python, _m: &PyModule) -> PyResult<()> {\n    Ok(())\n}\n";

/// The license's identifier in the packaging metadata.
pub open spec fn license_id(license: LicenseType) -> Seq<char> {
    match license {
        LicenseType::Mit => "MIT"@,
        LicenseType::Apache2 => "Apache-2.0"@,
        LicenseType::NoLicense => "Proprietary"@,
    }
}

/// The packaging metadata; a native extension changes the build backend.
pub open spec fn pyproject_content(m: ConfigModel) -> Seq<char> {
    PYPROJECT_NAME@ + m.project_slug + PYPROJECT_AUTHORS@ + m.creator + PYPROJECT_EMAIL@
        + m.creator_email + PYPROJECT_LICENSE@ + license_id(m.license) + PYPROJECT_PYTHON@
        + m.min_python_version + (if m.use_pyo3 {
        PYPROJECT_BUILD_MATURIN@
    } else {
        PYPROJECT_BUILD_POETRY@
    }) + PYPROJECT_BLACK@ + decimal(m.max_line_length) + PYPROJECT_RUFF@ + decimal(
        m.max_line_length,
    ) + LINE_END@
}

/// The path of `file` in the source directory.
pub open spec fn source_path(m: ConfigModel, file: Seq<char>) -> Seq<char> {
    m.project_slug + SEPARATOR@ + m.source_dir + file
}

/// The files of the project's layout: packaging metadata, read-me, package,
/// version file, tests, and for an application its entry point.
pub open spec fn layout_files(m: ConfigModel) -> Seq<(Seq<char>, Seq<char>)> {
    let base = seq![
        (m.project_slug + PYPROJECT_PATH@, pyproject_content(m)),
        (m.project_slug + README_PATH@, README_HEAD@ + m.project_name + LINE_END@),
        (source_path(m, INIT_FILE@), INIT_HEAD@ + m.source_dir + INIT_TAIL@),
        (source_path(m, VERSION_FILE@), VERSION_CONTENT@),
        (m.project_slug + TESTS_INIT_PATH@, EMPTY@),
    ];
    if m.is_application {
        base.push((source_path(m, MAIN_FILE@), MAIN_CONTENT@))
    } else {
        base
    }
}

/// The files of the native extension: its manifest and its module.
pub open spec fn native_binding_files(m: ConfigModel) -> Seq<(Seq<char>, Seq<char>)> {
    seq![
        (m.project_slug + CARGO_PATH@, CARGO_HEAD@ + m.source_dir + CARGO_LIB@ + m.source_dir
            + CARGO_TAIL@),
        (m.project_slug + LIB_RS_PATH@, LIB_RS_HEAD@ + m.source_dir + LIB_RS_TAIL@),
    ]
}

fn license_identifier(license: LicenseType) -> (r: &'static str)
    ensures
        r@ == license_id(license),
{
    match license {
        LicenseType::Mit => "MIT",
        LicenseType::Apache2 => "Apache-2.0",
        LicenseType::NoLicense => "Proprietary",
    }
}

fn slug_path(c: &ProjectConfiguration, tail: &str) -> (r: String)
    ensures
        r@ == c.project_slug@ + tail@,
{
    let mut p = String::from_str(c.project_slug.as_str());
    p.append(tail);
    p
}

fn source_file_path(c: &ProjectConfiguration, file: &str) -> (r: String)
    ensures
        r@ == source_path(c@, file@),
{
    let mut p = String::from_str(c.project_slug.as_str());
    p.append(SEPARATOR);
    p.append(c.source_dir.as_str());
    p.append(file);
    p
}

fn pyproject(c: &ProjectConfiguration) -> (r: String)
    ensures
        r@ == pyproject_content(c@),
{
    let mut s = String::from_str(PYPROJECT_NAME);
    s.append(c.project_slug.as_str());
    s.append(PYPROJECT_AUTHORS);
    s.append(c.creator.as_str());
    s.append(PYPROJECT_EMAIL);
    s.append(c.creator_email.as_str());
    s.append(PYPROJECT_LICENSE);
    s.append(license_identifier(c.license));
    s.append(PYPROJECT_PYTHON);
    s.append(c.min_python_version.as_str());
    if c.use_pyo3 {
        s.append(PYPROJECT_BUILD_MATURIN);
    } else {
        s.append(PYPROJECT_BUILD_POETRY);
    }
    let width = decimal_string(c.max_line_length);
    s.append(PYPROJECT_BLACK);
    s.append(width.as_str());
    s.append(PYPROJECT_RUFF);
    s.append(width.as_str());
    s.append(LINE_END);
    s
}

/// The files of the project's layout, as `layout_files` states them.
pub fn create_project_layout(c: &ProjectConfiguration) -> (r: Vec<GeneratedFile>)
    ensures
        files_view(r@) == layout_files(c@),
{
    let mut r: Vec<GeneratedFile> = Vec::new();
    r.push(new_file(slug_path(c, PYPROJECT_PATH), pyproject(c)));
    let mut readme = String::from_str(README_HEAD);
    readme.append(c.project_name.as_str());
    readme.append(LINE_END);
    r.push(new_file(slug_path(c, README_PATH), readme));
    let mut init = String::from_str(INIT_HEAD);
    init.append(c.source_dir.as_str());
    init.append(INIT_TAIL);
    r.push(new_file(source_file_path(c, INIT_FILE), init));
    r.push(new_file(source_file_path(c, VERSION_FILE), String::from_str(VERSION_CONTENT)));
    r.push(new_file(slug_path(c, TESTS_INIT_PATH), String::from_str(EMPTY)));
    if c.is_application {
        r.push(new_file(source_file_path(c, MAIN_FILE), String::from_str(MAIN_CONTENT)));
    }
    assert(files_view(r@) =~= layout_files(c@));
    r
}

/// The files of the native extension, as `native_binding_files` states them.
pub fn create_native_binding_files(c: &ProjectConfiguration) -> (r: Vec<GeneratedFile>)
    ensures
        files_view(r@) == native_binding_files(c@),
{
    let mut cargo = String::from_str(CARGO_HEAD);
    cargo.append(c.source_dir.as_str());
    cargo.append(CARGO_LIB);
    cargo.append(c.source_dir.as_str());
    cargo.append(CARGO_TAIL);
    let mut lib = String::from_str(LIB_RS_HEAD);
    lib.append(c.source_dir.as_str());
    lib.append(LIB_RS_TAIL);
    let r = vec![
        new_file(slug_path(c, CARGO_PATH), cargo),
        new_file(slug_path(c, LIB_RS_PATH), lib),
    ];
    assert(files_view(r@) =~= native_binding_files(c@));
    r
}

} // verus!
