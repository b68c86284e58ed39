use vstd::prelude::*;

use crate::files::{is_version, texts};
use crate::github_actions::{check_test_matrix, valid_test_matrix};
use crate::slug::{module_name, module_name_of, project_slug, slug_of};

verus! {

/// The licenses a project can be generated with.
#[derive(Clone, Copy, Debug, PartialEq, Eq, Structural)]
pub enum LicenseType {
    Mit,
    Apache2,
    NoLicense,
}

/// The resolved choices that drive the generation of one project.
pub struct ProjectConfiguration {
    pub project_name: String,
    pub project_slug: String,
    pub source_dir: String,
    pub creator: String,
    pub creator_email: String,
    pub license: LicenseType,
    pub copyright_year: u64,
    pub min_python_version: String,
    pub python_version: String,
    pub is_application: bool,
    pub use_pyo3: bool,
    pub github_action_python_test_versions: Vec<String>,
    pub use_multi_os_ci: bool,
    pub use_dependabot: bool,
    pub use_continuous_deployment: bool,
    pub use_release_drafter: bool,
    pub max_line_length: u64,
    pub download_latest_packages: bool,
}

/// What a `ProjectConfiguration` holds, as mathematical values.
pub struct ConfigModel {
    pub project_name: Seq<char>,
    pub project_slug: Seq<char>,
    pub source_dir: Seq<char>,
    pub creator: Seq<char>,
    pub creator_email: Seq<char>,
    pub license: LicenseType,
    pub copyright_year: nat,
    pub min_python_version: Seq<char>,
    pub python_version: Seq<char>,
    pub is_application: bool,
    pub use_pyo3: bool,
    pub test_versions: Seq<Seq<char>>,
    pub use_multi_os_ci: bool,
    pub use_dependabot: bool,
    pub use_continuous_deployment: bool,
    pub use_release_drafter: bool,
    pub max_line_length: nat,
    pub download_latest_packages: bool,
}

impl View for ProjectConfiguration {
    type V = ConfigModel;

    open spec fn view(&self) -> ConfigModel {
        ConfigModel {
            project_name: self.project_name@,
            project_slug: self.project_slug@,
            source_dir: self.source_dir@,
            creator: self.creator@,
            creator_email: self.creator_email@,
            license: self.license,
            copyright_year: self.copyright_year as nat,
            min_python_version: self.min_python_version@,
            python_version: self.python_version@,
            is_application: self.is_application,
            use_pyo3: self.use_pyo3,
            test_versions: texts(self.github_action_python_test_versions@),
            use_multi_os_ci: self.use_multi_os_ci,
            use_dependabot: self.use_dependabot,
            use_continuous_deployment: self.use_continuous_deployment,
            use_release_drafter: self.use_release_drafter,
            max_line_length: self.max_line_length as nat,
            download_latest_packages: self.download_latest_packages,
        }
    }
}

/// The directory that holds the tests of a generated project.
pub const TESTS_DIR: &'static str = "tests";

/// A configuration whose every value lies in its domain: the slug is the
/// non-empty slug of the name, the source directory its module name (and not
/// the tests' directory, whose files it would overwrite), the versions a
/// valid test matrix, and the line length positive.
pub open spec fn valid_config(m: ConfigModel) -> bool {
    &&& m.project_slug == slug_of(m.project_name)
    &&& m.project_slug.len() > 0
    &&& m.source_dir == module_name_of(m.project_slug)
    &&& m.source_dir != TESTS_DIR@
    &&& is_version(m.python_version)
    &&& valid_test_matrix(m.min_python_version, m.test_versions)
    &&& m.max_line_length > 0
}

/// Decides `valid_config`.
pub fn check_config(c: &ProjectConfiguration) -> (r: bool)
    ensures
        r == valid_config(c@),
{
    let slug = project_slug(c.project_name.as_str());
    if !(slug == c.project_slug) || slug.unicode_len() == 0 {
        return false;
    }
    let src = module_name(slug.as_str());
    if !(src == c.source_dir) || src == String::from_str(TESTS_DIR) {
        return false;
    }
    crate::files::check_version(c.python_version.as_str()) && check_test_matrix(
        c.min_python_version.as_str(),
        c.github_action_python_test_versions.as_slice(),
    ) && c.max_line_length > 0
}

} // verus!
