use python_project::config::{LicenseType, ProjectConfiguration};
use python_project::files::GenerationError;
use python_project::project_generator::{generate_project, select_emitters, Emitter};
use python_project::resolver::resolve_configuration;
use python_project::settings::{Setting, SettingValue, SettingValues};

fn strings(v: &[&str]) -> Vec<String> {
    v.iter().map(|s| s.to_string()).collect()
}

fn scenario_overrides() -> SettingValues {
    let mut e = SettingValues::new();
    e.set(Setting::License, SettingValue::License(LicenseType::Mit)).unwrap();
    e.set(Setting::Creator, SettingValue::Text("Jane Doe".to_string())).unwrap();
    e.set(Setting::CreatorEmail, SettingValue::Text("jane@example.com".to_string())).unwrap();
    e.set(Setting::MinPythonVersion, SettingValue::Text("3.9".to_string())).unwrap();
    e.set(
        Setting::GithubActionPythonTestVersions,
        SettingValue::Versions(strings(&["3.9", "3.10", "3.11"])),
    )
    .unwrap();
    e.set(Setting::UseMultiOsCi, SettingValue::Flag(false)).unwrap();
    e.set(Setting::UseDependabot, SettingValue::Flag(true)).unwrap();
    e.set(Setting::UseReleaseDrafter, SettingValue::Flag(false)).unwrap();
    e.set(Setting::UseContinuousDeployment, SettingValue::Flag(false)).unwrap();
    e
}

fn scenario_config() -> ProjectConfiguration {
    let none = SettingValues::new();
    resolve_configuration("My Cool App", &scenario_overrides(), &none, &none, 2024).unwrap()
}

#[test]
fn end_to_end_mit_single_os_with_dependabot() {
    let c = scenario_config();
    assert_eq!(c.project_slug, "my-cool-app");
    assert_eq!(c.source_dir, "my_cool_app");
    let files = generate_project(&c, false).unwrap();
    let paths: Vec<&str> = files.iter().map(|f| f.path.as_str()).collect();
    assert_eq!(
        paths,
        vec![
            "my-cool-app/pyproject.toml",
            "my-cool-app/README.md",
            "my-cool-app/my_cool_app/__init__.py",
            "my-cool-app/my_cool_app/_version.py",
            "my-cool-app/tests/__init__.py",
            "my-cool-app/my_cool_app/main.py",
            "my-cool-app/LICENSE",
            "my-cool-app/.github/workflows/testing.yml",
            "my-cool-app/.github/dependabot.yml",
        ]
    );
    assert!(files[6].content.contains("Copyright (c) 2024 Jane Doe"));
    assert!(files[7].content.contains("python-version: [\"3.9\", \"3.10\", \"3.11\"]\n    runs-on: ubuntu-latest\n"));
    assert!(!files[7].content.contains("macos-latest"));
    assert!(files.iter().all(|f| !f.path.contains("release_drafter")));
    assert!(files[0].content.contains("authors = [\"Jane Doe <jane@example.com>\"]\nlicense = \"MIT\"\n"));
    assert!(files[0].content.contains("python = \"^3.9\"\n"));
    assert!(files[0].content.contains("line-length = 100\n"));
    assert!(files[0].content.contains("build-backend = \"poetry.core.masonry.api\"\n"));
}

#[test]
fn existing_target_fails_before_anything_else() {
    let c = scenario_config();
    assert!(matches!(generate_project(&c, true), Err(GenerationError::TargetExists)));
}

#[test]
fn generation_is_deterministic() {
    let a = generate_project(&scenario_config(), false).unwrap();
    let b = generate_project(&scenario_config(), false).unwrap();
    assert_eq!(a.len(), b.len());
    for (x, y) in a.iter().zip(b.iter()) {
        assert_eq!(x.path, y.path);
        assert_eq!(x.content, y.content);
    }
}

#[test]
fn flags_select_emitters() {
    let mut c = scenario_config();
    assert_eq!(
        select_emitters(&c),
        vec![Emitter::ProjectLayout, Emitter::License, Emitter::CiLinuxOnly, Emitter::Dependabot]
    );
    c.use_multi_os_ci = true;
    c.use_dependabot = false;
    c.use_continuous_deployment = true;
    c.use_release_drafter = true;
    c.use_pyo3 = true;
    assert_eq!(
        select_emitters(&c),
        vec![
            Emitter::ProjectLayout,
            Emitter::License,
            Emitter::CiMultiOs,
            Emitter::PypiPublish,
            Emitter::ReleaseDrafter,
            Emitter::NativeBinding,
        ]
    );
    let files = generate_project(&c, false).unwrap();
    let paths: Vec<&str> = files.iter().map(|f| f.path.as_str()).collect();
    assert!(paths.contains(&"my-cool-app/.github/workflows/pypi_publish.yml"));
    assert!(paths.contains(&"my-cool-app/.github/release_drafter_template.yml"));
    assert!(paths.contains(&"my-cool-app/.github/workflows/release_drafter.yml"));
    assert!(paths.contains(&"my-cool-app/Cargo.toml"));
    assert!(paths.contains(&"my-cool-app/src/lib.rs"));
    assert!(!paths.contains(&"my-cool-app/.github/dependabot.yml"));
    let workflows: Vec<_> = files.iter().filter(|f| f.path.ends_with("testing.yml")).collect();
    assert_eq!(workflows.len(), 1);
    assert!(workflows[0].content.contains("os: [ubuntu-latest, windows-latest, macos-latest]"));
    assert!(files[0].content.contains("build-backend = \"maturin\"\n"));
}

#[test]
fn invalid_configuration_is_rejected() {
    let mut c = scenario_config();
    c.max_line_length = 0;
    assert!(matches!(generate_project(&c, false), Err(GenerationError::InvalidOption)));
    let mut c = scenario_config();
    c.project_slug = "other".to_string();
    assert!(matches!(generate_project(&c, false), Err(GenerationError::InvalidOption)));
}

#[test]
fn set_then_resolve_gives_the_value_back() {
    let mut stored = SettingValues::new();
    stored.set(Setting::MaxLineLength, SettingValue::Number(88)).unwrap();
    stored.set(Setting::Creator, SettingValue::Text("Ann".to_string())).unwrap();
    let none = SettingValues::new();
    let c = resolve_configuration("Tool", &none, &stored, &none, 2024).unwrap();
    assert_eq!(c.max_line_length, 88);
    assert_eq!(c.creator, "Ann");
    assert!(matches!(stored.get(Setting::MaxLineLength), Some(SettingValue::Number(88))));
}

#[test]
fn precedence_of_sources() {
    let mut explicit = SettingValues::new();
    let mut stored = SettingValues::new();
    let mut interactive = SettingValues::new();
    explicit.set(Setting::Creator, SettingValue::Text("explicit".to_string())).unwrap();
    stored.set(Setting::Creator, SettingValue::Text("stored".to_string())).unwrap();
    stored.set(Setting::CreatorEmail, SettingValue::Text("stored@x".to_string())).unwrap();
    interactive.set(Setting::CreatorEmail, SettingValue::Text("asked@x".to_string())).unwrap();
    interactive.set(Setting::UsePyo3, SettingValue::Flag(true)).unwrap();
    let c = resolve_configuration("Tool", &explicit, &stored, &interactive, 2024).unwrap();
    assert_eq!(c.creator, "explicit");
    assert_eq!(c.creator_email, "stored@x");
    assert!(c.use_pyo3);
    assert_eq!(c.python_version, "3.12");
    assert_eq!(c.github_action_python_test_versions, strings(&["3.9", "3.10", "3.11", "3.12"]));
}

#[test]
fn values_outside_their_domain_are_refused() {
    let mut s = SettingValues::new();
    assert!(matches!(s.set(Setting::MaxLineLength, SettingValue::Number(0)), Err(GenerationError::InvalidOption)));
    assert!(matches!(s.set(Setting::UseDependabot, SettingValue::Text("yes".to_string())), Err(GenerationError::InvalidOption)));
    assert!(matches!(
        s.set(Setting::GithubActionPythonTestVersions, SettingValue::Versions(vec![])),
        Err(GenerationError::InvalidOption)
    ));
    assert!(s.get(Setting::MaxLineLength).is_none());
    let none = SettingValues::new();
    assert!(matches!(resolve_configuration("!!", &none, &none, &none, 2024), Err(GenerationError::InvalidOption)));
    let mut e = SettingValues::new();
    e.set(Setting::MinPythonVersion, SettingValue::Text("3.8".to_string())).unwrap();
    assert!(matches!(resolve_configuration("Tool", &e, &none, &none, 2024), Err(GenerationError::InvalidOption)));
}

#[test]
fn reset_then_show_gives_fallbacks() {
    let mut s = SettingValues::new();
    s.set(Setting::UseDependabot, SettingValue::Flag(false)).unwrap();
    s.set(Setting::MaxLineLength, SettingValue::Number(79)).unwrap();
    let shown = s.show();
    assert!(matches!(shown[9], SettingValue::Flag(false)));
    assert!(matches!(shown[8], SettingValue::Number(79)));
    s.reset();
    let shown = s.show();
    assert_eq!(shown.len(), 14);
    assert!(matches!(&shown[0], SettingValue::Text(t) if t.is_empty()));
    assert!(matches!(shown[2], SettingValue::License(LicenseType::Mit)));
    assert!(matches!(&shown[3], SettingValue::Text(t) if t == "3.12"));
    assert!(matches!(&shown[4], SettingValue::Text(t) if t == "3.9"));
    assert!(matches!(shown[5], SettingValue::Flag(false)));
    assert!(matches!(shown[8], SettingValue::Number(100)));
    assert!(matches!(shown[9], SettingValue::Flag(true)));
    assert!(matches!(shown[13], SettingValue::Flag(true)));
}

#[test]
fn project_named_tests_is_rejected() {
    let none = SettingValues::new();
    assert!(matches!(resolve_configuration("Tests", &none, &none, &none, 2024), Err(GenerationError::InvalidOption)));
    let mut c = resolve_configuration("Tests X", &none, &none, &none, 2024).unwrap();
    c.project_name = "tests".to_string();
    c.project_slug = "tests".to_string();
    c.source_dir = "tests".to_string();
    assert!(matches!(generate_project(&c, false), Err(GenerationError::InvalidOption)));
}
