use vstd::prelude::*;

use crate::config::{valid_config, TESTS_DIR, ConfigModel, LicenseType, ProjectConfiguration};
use crate::files::{is_version, texts, GenerationError};
use crate::github_actions::{contains_text, valid_test_matrix};
use crate::settings::{
    check_domain, copy_strings, in_domain, resolve_setting, resolved, Setting, SettingModel,
    SettingValue, SettingValues,
};
use crate::slug::{
    has_word_char, lemma_slug_safe, module_name, module_name_of, project_slug, slug_of,
};

verus! {

/// Whether every option resolves to a value in its domain, the name gives a
/// non-empty slug whose module name is not the tests' directory, and the
/// tested versions hold the minimum version.
pub open spec fn resolution_ok(
    name: Seq<char>,
    e: Map<Setting, SettingModel>,
    st: Map<Setting, SettingModel>,
    i: Map<Setting, SettingModel>,
) -> bool {
    &&& forall|s: Setting| in_domain(s, #[trigger] resolved(s, e, st, i))
    &&& has_word_char(name)
    &&& module_name_of(slug_of(name)) != TESTS_DIR@
    &&& resolved(Setting::GithubActionPythonTestVersions, e, st, i)->Versions_0.contains(
        resolved(Setting::MinPythonVersion, e, st, i)->Text_0,
    )
}

/// The configuration the three sources resolve to for project `name`.
pub open spec fn resolved_model(
    name: Seq<char>,
    e: Map<Setting, SettingModel>,
    st: Map<Setting, SettingModel>,
    i: Map<Setting, SettingModel>,
    year: nat,
) -> ConfigModel {
    ConfigModel {
        project_name: name,
        project_slug: slug_of(name),
        source_dir: module_name_of(slug_of(name)),
        creator: resolved(Setting::Creator, e, st, i)->Text_0,
        creator_email: resolved(Setting::CreatorEmail, e, st, i)->Text_0,
        license: resolved(Setting::License, e, st, i)->License_0,
        copyright_year: year,
        min_python_version: resolved(Setting::MinPythonVersion, e, st, i)->Text_0,
        python_version: resolved(Setting::PythonVersion, e, st, i)->Text_0,
        is_application: resolved(Setting::IsApplication, e, st, i)->Flag_0,
        use_pyo3: resolved(Setting::UsePyo3, e, st, i)->Flag_0,
        test_versions: resolved(Setting::GithubActionPythonTestVersions, e, st, i)->Versions_0,
        use_multi_os_ci: resolved(Setting::UseMultiOsCi, e, st, i)->Flag_0,
        use_dependabot: resolved(Setting::UseDependabot, e, st, i)->Flag_0,
        use_continuous_deployment: resolved(Setting::UseContinuousDeployment, e, st, i)->Flag_0,
        use_release_drafter: resolved(Setting::UseReleaseDrafter, e, st, i)->Flag_0,
        max_line_length: resolved(Setting::MaxLineLength, e, st, i)->Number_0,
        download_latest_packages: resolved(Setting::DownloadLatestPackages, e, st, i)->Flag_0,
    }
}

proof fn lemma_each_in_domain(
    e: Map<Setting, SettingModel>,
    st: Map<Setting, SettingModel>,
    it: Map<Setting, SettingModel>,
)
    requires
        in_domain(Setting::Creator, resolved(Setting::Creator, e, st, it)),
        in_domain(Setting::CreatorEmail, resolved(Setting::CreatorEmail, e, st, it)),
        in_domain(Setting::License, resolved(Setting::License, e, st, it)),
        in_domain(Setting::PythonVersion, resolved(Setting::PythonVersion, e, st, it)),
        in_domain(Setting::MinPythonVersion, resolved(Setting::MinPythonVersion, e, st, it)),
        in_domain(Setting::UsePyo3, resolved(Setting::UsePyo3, e, st, it)),
        in_domain(Setting::IsApplication, resolved(Setting::IsApplication, e, st, it)),
        in_domain(
            Setting::GithubActionPythonTestVersions,
            resolved(Setting::GithubActionPythonTestVersions, e, st, it),
        ),
        in_domain(Setting::MaxLineLength, resolved(Setting::MaxLineLength, e, st, it)),
        in_domain(Setting::UseDependabot, resolved(Setting::UseDependabot, e, st, it)),
        in_domain(
            Setting::UseContinuousDeployment,
            resolved(Setting::UseContinuousDeployment, e, st, it),
        ),
        in_domain(Setting::UseReleaseDrafter, resolved(Setting::UseReleaseDrafter, e, st, it)),
        in_domain(Setting::UseMultiOsCi, resolved(Setting::UseMultiOsCi, e, st, it)),
        in_domain(
            Setting::DownloadLatestPackages,
            resolved(Setting::DownloadLatestPackages, e, st, it),
        ),
    ensures
        forall|s: Setting| in_domain(s, #[trigger] resolved(s, e, st, it)),
{
    assert forall|s: Setting| in_domain(s, #[trigger] resolved(s, e, st, it)) by {
        match s {
            Setting::Creator => {},
            Setting::CreatorEmail => {},
            Setting::License => {},
            Setting::PythonVersion => {},
            Setting::MinPythonVersion => {},
            Setting::UsePyo3 => {},
            Setting::IsApplication => {},
            Setting::GithubActionPythonTestVersions => {},
            Setting::MaxLineLength => {},
            Setting::UseDependabot => {},
            Setting::UseContinuousDeployment => {},
            Setting::UseReleaseDrafter => {},
            Setting::UseMultiOsCi => {},
            Setting::DownloadLatestPackages => {},
        }
    }
}

/// A successful resolution always gives a valid configuration.
pub proof fn lemma_resolved_valid(
    name: Seq<char>,
    e: Map<Setting, SettingModel>,
    st: Map<Setting, SettingModel>,
    i: Map<Setting, SettingModel>,
    year: nat,
)
    requires
        resolution_ok(name, e, st, i),
    ensures
        valid_config(resolved_model(name, e, st, i, year)),
{
    lemma_slug_safe(name);
    let m = resolved_model(name, e, st, i, year);
    assert(in_domain(Setting::PythonVersion, resolved(Setting::PythonVersion, e, st, i)));
    assert(in_domain(Setting::MinPythonVersion, resolved(Setting::MinPythonVersion, e, st, i)));
    assert(in_domain(
        Setting::GithubActionPythonTestVersions,
        resolved(Setting::GithubActionPythonTestVersions, e, st, i),
    ));
    assert(in_domain(Setting::MaxLineLength, resolved(Setting::MaxLineLength, e, st, i)));
    assert(valid_test_matrix(m.min_python_version, m.test_versions));
}

/// The value option `s` resolves to, when it lies in the option's domain.
fn resolve_checked(
    s: Setting,
    explicit: &SettingValues,
    stored: &SettingValues,
    interactive: &SettingValues,
) -> (r: Option<SettingValue>)
    requires
        explicit.wf(),
        stored.wf(),
        interactive.wf(),
    ensures
        r is Some <==> in_domain(s, resolved(s, explicit@, stored@, interactive@)),
        r is Some ==> r->Some_0@ == resolved(s, explicit@, stored@, interactive@),
{
    let v = resolve_setting(s, explicit.get(s), stored, interactive.get(s));
    if check_domain(s, &v) {
        Some(v)
    } else {
        None
    }
}

fn text_of(v: SettingValue) -> (r: String)
    requires
        v@ is Text,
    ensures
        r@ == v@->Text_0,
{
    match v {
        SettingValue::Text(t) => t,
        _ => {
            proof {
                assert(false);
            }
            String::new()
        },
    }
}

fn flag_of(v: SettingValue) -> (r: bool)
    requires
        v@ is Flag,
    ensures
        r == v@->Flag_0,
{
    match v {
        SettingValue::Flag(b) => b,
        _ => false,
    }
}

/// Resolves every option for project `project_name` (explicit overrides
/// first, then stored defaults, then interactive answers, then fallbacks)
/// and derives the slug and source directory from the name. Fails with
/// `InvalidOption` exactly when `resolution_ok` does not hold.
#[verifier::rlimit(100)]
pub fn resolve_configuration(
    project_name: &str,
    explicit: &SettingValues,
    stored: &SettingValues,
    interactive: &SettingValues,
    copyright_year: u64,
) -> (r: Result<ProjectConfiguration, GenerationError>)
    requires
        explicit.wf(),
        stored.wf(),
        interactive.wf(),
    ensures
        resolution_ok(project_name@, explicit@, stored@, interactive@) ==> r is Ok && r->Ok_0@
            == resolved_model(
            project_name@,
            explicit@,
            stored@,
            interactive@,
            copyright_year as nat,
        ) && valid_config(r->Ok_0@),
        !resolution_ok(project_name@, explicit@, stored@, interactive@) ==> r
            == Err::<ProjectConfiguration, GenerationError>(GenerationError::InvalidOption),
{
    let ghost e = explicit@;
    let ghost st = stored@;
    let ghost it = interactive@;
    let creator = match resolve_checked(Setting::Creator, explicit, stored, interactive) {
        Some(v) => text_of(v),
        None => return Err(GenerationError::InvalidOption),
    };
    let creator_email = match resolve_checked(Setting::CreatorEmail, explicit, stored, interactive) {
        Some(v) => text_of(v),
        None => return Err(GenerationError::InvalidOption),
    };
    let license = match resolve_checked(Setting::License, explicit, stored, interactive) {
        Some(SettingValue::License(l)) => l,
        _ => return Err(GenerationError::InvalidOption),
    };
    let python_version = match resolve_checked(Setting::PythonVersion, explicit, stored, interactive) {
        Some(v) => text_of(v),
        None => return Err(GenerationError::InvalidOption),
    };
    let min_python_version = match resolve_checked(
        Setting::MinPythonVersion,
        explicit,
        stored,
        interactive,
    ) {
        Some(v) => text_of(v),
        None => return Err(GenerationError::InvalidOption),
    };
    let use_pyo3 = match resolve_checked(Setting::UsePyo3, explicit, stored, interactive) {
        Some(v) => flag_of(v),
        None => return Err(GenerationError::InvalidOption),
    };
    let is_application = match resolve_checked(Setting::IsApplication, explicit, stored, interactive) {
        Some(v) => flag_of(v),
        None => return Err(GenerationError::InvalidOption),
    };
    let versions = match resolve_checked(
        Setting::GithubActionPythonTestVersions,
        explicit,
        stored,
        interactive,
    ) {
        Some(SettingValue::Versions(v)) => v,
        _ => return Err(GenerationError::InvalidOption),
    };
    let max_line_length = match resolve_checked(Setting::MaxLineLength, explicit, stored, interactive) {
        Some(SettingValue::Number(n)) => n,
        _ => return Err(GenerationError::InvalidOption),
    };
    let use_dependabot = match resolve_checked(Setting::UseDependabot, explicit, stored, interactive) {
        Some(v) => flag_of(v),
        None => return Err(GenerationError::InvalidOption),
    };
    let use_continuous_deployment = match resolve_checked(
        Setting::UseContinuousDeployment,
        explicit,
        stored,
        interactive,
    ) {
        Some(v) => flag_of(v),
        None => return Err(GenerationError::InvalidOption),
    };
    let use_release_drafter = match resolve_checked(
        Setting::UseReleaseDrafter,
        explicit,
        stored,
        interactive,
    ) {
        Some(v) => flag_of(v),
        None => return Err(GenerationError::InvalidOption),
    };
    let use_multi_os_ci = match resolve_checked(Setting::UseMultiOsCi, explicit, stored, interactive) {
        Some(v) => flag_of(v),
        None => return Err(GenerationError::InvalidOption),
    };
    let download_latest_packages = match resolve_checked(
        Setting::DownloadLatestPackages,
        explicit,
        stored,
        interactive,
    ) {
        Some(v) => flag_of(v),
        None => return Err(GenerationError::InvalidOption),
    };
    let slug = project_slug(project_name);
    if slug.unicode_len() == 0 {
        return Err(GenerationError::InvalidOption);
    }
    let has_min = contains_text(&versions, &min_python_version);
    if !has_min {
        return Err(GenerationError::InvalidOption);
    }
    let source_dir = module_name(slug.as_str());
    if source_dir == String::from_str(TESTS_DIR) {
        return Err(GenerationError::InvalidOption);
    }
    let c = ProjectConfiguration {
        project_name: String::from_str(project_name),
        project_slug: slug,
        source_dir,
        creator,
        creator_email,
        license,
        copyright_year,
        min_python_version,
        python_version,
        is_application,
        use_pyo3,
        github_action_python_test_versions: versions,
        use_multi_os_ci,
        use_dependabot,
        use_continuous_deployment,
        use_release_drafter,
        max_line_length,
        download_latest_packages,
    };
    proof {
        lemma_each_in_domain(e, st, it);
        lemma_resolved_valid(project_name@, e, st, it, copyright_year as nat);
    }
    Ok(c)
}

} // verus!
