use python_project::files::GenerationError;
use python_project::github_actions::{
    create_ci_testing_linux_only_file, create_ci_testing_multi_os_file, create_dependabot_file,
    create_pypi_publish_file, create_release_drafter_file, matrix_versions,
};

fn versions(v: &[&str]) -> Vec<String> {
    v.iter().map(|s| s.to_string()).collect()
}

#[test]
fn linux_only_workflow_lists_quoted_versions() {
    let f = create_ci_testing_linux_only_file("my-app", "my_app", "3.9", &versions(&["3.9", "3.10", "3.11"]))
        .unwrap();
    assert_eq!(f.path, "my-app/.github/workflows/testing.yml");
    assert!(f.content.starts_with("name: Testing\n"));
    assert!(f.content.contains("        python-version: \"3.9\"\n"));
    assert!(f.content.contains("poetry run black my_app tests --check"));
    assert!(f.content.contains("python-version: [\"3.9\", \"3.10\", \"3.11\"]\n    runs-on: ubuntu-latest\n"));
    assert!(!f.content.contains("windows-latest"));
    assert!(f.content.ends_with("        poetry run pytest\n\n"));
}

#[test]
fn multi_os_workflow_adds_os_matrix() {
    let f = create_ci_testing_multi_os_file("my-app", "my_app", "3.9", &versions(&["3.9", "3.10"]))
        .unwrap();
    assert_eq!(f.path, "my-app/.github/workflows/testing.yml");
    assert!(f.content.contains(
        "python-version: [\"3.9\", \"3.10\"]\n        os: [ubuntu-latest, windows-latest, macos-latest]\n    runs-on: {{matrix.os}}\n"
    ));
}

#[test]
fn linting_job_is_the_same_in_both_workflows() {
    let v = versions(&["3.9", "3.12"]);
    let a = create_ci_testing_linux_only_file("p", "p", "3.9", &v).unwrap().content;
    let b = create_ci_testing_multi_os_file("p", "p", "3.9", &v).unwrap().content;
    let cut = "  testing:\n";
    assert_eq!(a.split(cut).next(), b.split(cut).next());
}

#[test]
fn repeated_versions_are_listed_once() {
    assert_eq!(matrix_versions(&versions(&["3.9", "3.10", "3.9", "3.10", "3.11"])), "\"3.9\", \"3.10\", \"3.11\"");
    assert_eq!(matrix_versions(&versions(&["3.9"])), "\"3.9\"");
    assert_eq!(matrix_versions(&versions(&[])), "");
}

#[test]
fn invalid_test_matrix_is_rejected() {
    let r = create_ci_testing_linux_only_file("p", "p", "3.9", &versions(&[]));
    assert!(matches!(r, Err(GenerationError::InvalidOption)));
    let r = create_ci_testing_multi_os_file("p", "p", "3.9", &versions(&["3.10"]));
    assert!(matches!(r, Err(GenerationError::InvalidOption)));
    let r = create_ci_testing_linux_only_file("p", "p", "3.9", &versions(&["3.9", "3..10"]));
    assert!(matches!(r, Err(GenerationError::InvalidOption)));
    let r = create_ci_testing_linux_only_file("p", "p", "three", &versions(&["three"]));
    assert!(matches!(r, Err(GenerationError::InvalidOption)));
}

#[test]
fn dependabot_file_is_static() {
    let f = create_dependabot_file("my-app");
    assert_eq!(f.path, "my-app/.github/dependabot.yml");
    assert!(f.content.starts_with("version: 2\nupdates:\n  - package-ecosystem: \"pip\"\n"));
    assert!(f.content.contains("  - package-ecosystem: github-actions\n"));
}

#[test]
fn publish_workflow_uses_minimum_version() {
    let f = create_pypi_publish_file("my-app", "3.9").unwrap();
    assert_eq!(f.path, "my-app/.github/workflows/pypi_publish.yml");
    assert!(f.content.contains("        python-version: \"3.9\"\n"));
    assert!(f.content.contains("secrets.PYPI_API_KEY"));
    assert!(f.content.ends_with("      run: poetry publish --build\n"));
    assert!(matches!(create_pypi_publish_file("my-app", "3."), Err(GenerationError::InvalidOption)));
}

#[test]
fn release_drafter_writes_template_and_workflow() {
    let files = create_release_drafter_file("my-app");
    assert_eq!(files.len(), 2);
    assert_eq!(files[0].path, "my-app/.github/release_drafter_template.yml");
    assert!(files[0].content.starts_with("name-template: 'v$RESOLVED_VERSION'\n"));
    assert!(files[0].content.contains("  - title: '⚠ Breaking changes'\n"));
    assert_eq!(files[1].path, "my-app/.github/workflows/release_drafter.yml");
    assert!(files[1].content.contains("      - uses: release-drafter/release-drafter@v5\n"));
}
