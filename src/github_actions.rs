use vstd::prelude::*;

use crate::files::{
    check_version, files_view, is_version, new_file, texts, GeneratedFile, GenerationError,
};

verus! {

/// Where the testing workflow of a project lives.
pub const TESTING_WORKFLOW_PATH: &'static str = "/.github/workflows/testing.yml";

/// Where the dependency bot's configuration lives.
pub const DEPENDABOT_PATH: &'static str = "/.github/dependabot.yml";

/// Where the package publishing workflow lives.
pub const PYPI_PUBLISH_PATH: &'static str = "/.github/workflows/pypi_publish.yml";

/// Where the release drafter's categorisation template lives.
pub const RELEASE_DRAFTER_TEMPLATE_PATH: &'static str = "/.github/release_drafter_template.yml";

/// Where the release drafter workflow lives.
pub const RELEASE_DRAFTER_PATH: &'static str = "/.github/workflows/release_drafter.yml";

/// Opening of the testing workflow, up to the linting job's Python version.
pub const CI_HEAD: &'static str = r#"name: Testing

on:
  push:
    branches:
    - main
  pull_request:
jobs:
  linting:
    runs-on: ubuntu-latest
    steps:
    - uses: actions/checkout@v3
    - name: Set up Python
      uses: actions/setup-python@v4
      with:
        python-version: ""#;

/// Linting steps up to the directory that black checks.
pub const CI_LINT_MID: &'static str = r#""
    - name: Get full Python version
      id: full-python-version
      run: echo version=$(python -c "import sys; print('-'.join(str(v) for v in sys.version_info))") >> $GITHUB_OUTPUT
    - name: Install Poetry
      run: |
        pip install pipx
        pipx install poetry
    - name: Configure poetry
      run: |
        poetry config virtualenvs.create true
        poetry config virtualenvs.in-project true
    - name: Cache poetry venv
      uses: actions/cache@v3
      id: poetry-cache
      with:
        path: .venv
        key: venv-${{ runner.os }}-${{ steps.full-python-version.outputs.version }}-${{ hashFiles('**/poetry.lock') }}
    - name: Ensure cache is healthy
      if: steps.poetry-cache.outputs.cache-hit == 'true'
      shell: bash
      run: timeout 10s poetry run pip --version || rm -rf .venv
    - name: Install Dependencies
      run: poetry install
    - name: Black check
      run: |
        poetry run black "#;

/// The rest of the linting job, up to the testing job's version list.
pub const CI_LINT_TAIL: &'static str = r#" tests --check
    - name: Lint with ruff
      run: |
        poetry run ruff check .
    - name: mypy check
      run: |
        poetry run mypy .

  testing:
    strategy:
      fail-fast: false
      matrix:
        python-version: ["#;

/// End of the matrix when the tests run on Linux alone.
pub const CI_MATRIX_LINUX: &'static str = r#"]
    runs-on: ubuntu-latest
"#;

/// End of the matrix when the tests run on three operating systems.
pub const CI_MATRIX_MULTI_OS: &'static str = r#"]
        os: [ubuntu-latest, windows-latest, macos-latest]
    runs-on: {{matrix.os}}
"#;

/// The testing job's steps.
pub const CI_TEST_STEPS: &'static str = r#"    steps:
    - uses: actions/checkout@v3
    - name: Set up Python {{ matrix.python-version }}
      uses: actions/setup-python@v4
      with:
        python-version: {{ matrix.python-version }}
    - name: Get full Python version
      id: full-python-version
      run: echo version=$(python -c "import sys; print('-'.join(str(v) for v in sys.version_info))") >> $GITHUB_OUTPUT
    - name: Install Poetry
      run: |
        pip install pipx
        pipx install poetry
    - name: Configure poetry
      run: |
        poetry config virtualenvs.create true
        poetry config virtualenvs.in-project true
    - name: Cache poetry venv
      uses: actions/cache@v3
      id: poetry-cache
      with:
        path: .venv
        key: venv-${{ runner.os }}-${{ steps.full-python-version.outputs.version }}-${{ hashFiles('**/poetry.lock') }}
    - name: Ensure cache is healthy
      if: steps.poetry-cache.outputs.cache-hit == 'true'
      shell: bash
      run: timeout 10s poetry run pip --version || rm -rf .venv
    - name: Install Dependencies
      run: poetry install
    - name: Test with pytest
      run: |
        poetry run pytest

"#;

/// Surrounds each version of the matrix.
pub const QUOTE: &'static str = "\"";

/// What separates two entries of the version list.
pub const LIST_SEPARATOR: &'static str = ", ";

/// The dependency bot's configuration.
pub const DEPENDABOT_CONTENT: &'static str = r#"version: 2
updates:
  - package-ecosystem: "pip"
    directory: "/"
    schedule:
      interval: "daily"
    labels:
    - skip-changelog
    - dependencies
  - package-ecosystem: github-actions
    directory: '/'
    schedule:
      interval: daily
    labels:
    - skip-changelog
    - dependencies
"#;

/// The publishing workflow up to the Python version it builds with.
pub const PYPI_PUBLISH_HEAD: &'static str = r#"name: PyPi Publish
on:
  release:
    types:
    - published
jobs:
  deploy:
    runs-on: ubuntu-latest
    steps:
    - uses: actions/checkout@v2
    - name: Set up Python
      uses: actions/setup-python@v4
      with:
        python-version: ""#;

/// The rest of the publishing workflow; the token stays a placeholder.
pub const PYPI_PUBLISH_TAIL: &'static str = r#""
    - name: Install Poetry
      run: |
        pip install pipx
        pipx install poetry
    - name: Install Dependencies
      run: |
        poetry install
    - name: Add pypi token to Poetry
      run: |
        poetry config pypi-token.pypi {{ "${{ secrets.PYPI_API_KEY }}" }}
    - name: Publish package
      run: poetry publish --build
"#;

/// The release drafter's categorisation template.
pub const RELEASE_DRAFTER_TEMPLATE_CONTENT: &'static str = r#"name-template: 'v$RESOLVED_VERSION'
tag-template: 'v$RESOLVED_VERSION'
exclude-labels:
  - 'dependencies'
  - 'skip-changelog'
version-resolver:
  minor:
    labels:
      - 'breaking-change'
      - 'enhancement'
  default: patch
categories:
  - title: 'Features'
    labels:
      - 'enhancement'
  - title: 'Bug Fixes'
    labels:
      - 'bug'
  - title: '⚠ Breaking changes'
    label: 'breaking-change'
change-template: '- $TITLE @$AUTHOR (#$NUMBER)'
template: |
  ## Changes

  $CHANGES
"#;

/// The release drafter workflow.
pub const RELEASE_DRAFTER_CONTENT: &'static str = r#"name: Release Drafter

on:
  push:
    branches:
      - main

jobs:
  update_release_draft:
    runs-on: ubuntu-latest
    steps:
      - uses: release-drafter/release-drafter@v5
        with:
          config-name: release_drafter_template.yml
        env:
          GITHUB_TOKEN: ${{ secrets.GITHUB_TOKEN }}
"#;

/// The versions with every repeat of an earlier one left out, in order.
pub open spec fn distinct_in_order(s: Seq<Seq<char>>) -> Seq<Seq<char>>
    decreases s.len(),
{
    if s.len() == 0 {
        Seq::empty()
    } else {
        let d = distinct_in_order(s.drop_last());
        if d.contains(s.last()) {
            d
        } else {
            d.push(s.last())
        }
    }
}

/// A version in double quotes.
pub open spec fn quoted(v: Seq<char>) -> Seq<char> {
    QUOTE@ + v + QUOTE@
}

/// The quoted versions separated by `", "`.
pub open spec fn quoted_list(s: Seq<Seq<char>>) -> Seq<char>
    decreases s.len(),
{
    if s.len() == 0 {
        Seq::empty()
    } else if s.len() == 1 {
        quoted(s[0])
    } else {
        quoted_list(s.drop_last()) + LIST_SEPARATOR@ + quoted(s.last())
    }
}

/// The test matrix that a workflow lists for the given versions.
pub open spec fn matrix_of(versions: Seq<Seq<char>>) -> Seq<char> {
    quoted_list(distinct_in_order(versions))
}

/// The inputs a testing workflow accepts: a valid minimum version, and a
/// non-empty list of valid versions that holds the minimum.
pub open spec fn valid_test_matrix(min_version: Seq<char>, versions: Seq<Seq<char>>) -> bool {
    &&& is_version(min_version)
    &&& versions.len() > 0
    &&& forall|i: int| 0 <= i < versions.len() ==> is_version(#[trigger] versions[i])
    &&& versions.contains(min_version)
}

/// The linting job, which both testing workflows share, and the opening of the
/// testing job.
pub open spec fn ci_lint_part(source_dir: Seq<char>, min_version: Seq<char>) -> Seq<char> {
    CI_HEAD@ + min_version + CI_LINT_MID@ + source_dir + CI_LINT_TAIL@
}

/// The testing workflow that runs the tests on Linux alone.
pub open spec fn linux_only_content(
    source_dir: Seq<char>,
    min_version: Seq<char>,
    versions: Seq<Seq<char>>,
) -> Seq<char> {
    ci_lint_part(source_dir, min_version) + matrix_of(versions) + CI_MATRIX_LINUX@ + CI_TEST_STEPS@
}

/// The testing workflow that runs the tests on Linux, Windows and macOS.
pub open spec fn multi_os_content(
    source_dir: Seq<char>,
    min_version: Seq<char>,
    versions: Seq<Seq<char>>,
) -> Seq<char> {
    ci_lint_part(source_dir, min_version) + matrix_of(versions) + CI_MATRIX_MULTI_OS@
        + CI_TEST_STEPS@
}

/// The publishing workflow for a package that supports `min_version` and up.
pub open spec fn pypi_publish_content(min_version: Seq<char>) -> Seq<char> {
    PYPI_PUBLISH_HEAD@ + min_version + PYPI_PUBLISH_TAIL@
}

/// Whether `v` holds a string equal to `s`.
pub fn contains_text(v: &Vec<String>, s: &String) -> (r: bool)
    ensures
        r == texts(v@).contains(s@),
{
    let mut j: usize = 0;
    while j < v.len()
        invariant
            0 <= j <= v@.len(),
            forall|k: int| 0 <= k < j ==> v@[k]@ != s@,
        decreases v.len() - j,
    {
        if v[j] == *s {
            assert(texts(v@)[j as int] == s@);
            return true;
        }
        j += 1;
    }
    proof {
        if texts(v@).contains(s@) {
            let k = choose|k: int| 0 <= k < texts(v@).len() && texts(v@)[k] == s@;
            assert(v@[k]@ == s@);
        }
    }
    false
}

/// The test matrix's version list: each version once, in the order of its
/// first occurrence, quoted and separated by `", "`.
pub fn matrix_versions(versions: &[String]) -> (r: String)
    ensures
        r@ == matrix_of(texts(versions@)),
{
    let mut seen: Vec<String> = Vec::new();
    let mut out = String::new();
    let mut i: usize = 0;
    while i < versions.len()
        invariant
            0 <= i <= versions@.len(),
            texts(seen@) == distinct_in_order(texts(versions@.subrange(0, i as int))),
            out@ == quoted_list(texts(seen@)),
        decreases versions.len() - i,
    {
        let v = &versions[i];
        proof {
            assert(texts(versions@.subrange(0, i + 1)).drop_last() =~= texts(
                versions@.subrange(0, i as int),
            ));
            assert(texts(versions@.subrange(0, i + 1)).last() == v@);
        }
        if !contains_text(&seen, v) {
            let ghost old_seen = seen@;
            if seen.len() > 0 {
                out.append(LIST_SEPARATOR);
            }
            out.append(QUOTE);
            out.append(v.as_str());
            out.append(QUOTE);
            seen.push(v.clone());
            proof {
                assert(texts(seen@) =~= texts(old_seen).push(v@));
                assert(texts(seen@).drop_last() =~= texts(old_seen));
                if old_seen.len() == 0 {
                    assert(out@ =~= quoted(v@));
                } else {
                    assert(out@ =~= quoted_list(texts(old_seen)) + LIST_SEPARATOR@ + quoted(v@));
                }
            }
        }
        i += 1;
    }
    assert(versions@.subrange(0, i as int) =~= versions@);
    out
}

/// Decides `valid_test_matrix`.
pub fn check_test_matrix(min_python_version: &str, versions: &[String]) -> (r: bool)
    ensures
        r == valid_test_matrix(min_python_version@, texts(versions@)),
{
    if !check_version(min_python_version) || versions.len() == 0 {
        return false;
    }
    let min_text = String::from_str(min_python_version);
    let mut has_min = false;
    let mut i: usize = 0;
    while i < versions.len()
        invariant
            min_text@ == min_python_version@,
            0 <= i <= versions@.len(),
            forall|k: int| 0 <= k < i ==> is_version(#[trigger] versions@[k]@),
            has_min <==> exists|k: int| 0 <= k < i && #[trigger] versions@[k]@ == min_python_version@,
        decreases versions.len() - i,
    {
        if !check_version(versions[i].as_str()) {
            assert(texts(versions@)[i as int] == versions@[i as int]@);
            return false;
        }
        if versions[i] == min_text {
            has_min = true;
        }
        i += 1;
    }
    proof {
        if has_min {
            let k = choose|k: int| 0 <= k < i && #[trigger] versions@[k]@ == min_python_version@;
            assert(texts(versions@)[k] == min_python_version@);
        }
        if texts(versions@).contains(min_python_version@) {
            let k = choose|k: int|
                0 <= k < texts(versions@).len() && texts(versions@)[k] == min_python_version@;
            assert(versions@[k]@ == min_python_version@);
        }
        assert forall|k: int| 0 <= k < texts(versions@).len() implies is_version(
            #[trigger] texts(versions@)[k],
        ) by {
            assert(is_version(versions@[k]@));
        }
    }
    has_min
}

/// The path of the testing workflow of the project in directory `slug`.
pub open spec fn testing_workflow_path(slug: Seq<char>) -> Seq<char> {
    slug + TESTING_WORKFLOW_PATH@
}

/// The path of the dependency bot's configuration.
pub open spec fn dependabot_path(slug: Seq<char>) -> Seq<char> {
    slug + DEPENDABOT_PATH@
}

/// The path of the publishing workflow.
pub open spec fn pypi_publish_path(slug: Seq<char>) -> Seq<char> {
    slug + PYPI_PUBLISH_PATH@
}

/// The path of the release drafter's template.
pub open spec fn release_drafter_template_path(slug: Seq<char>) -> Seq<char> {
    slug + RELEASE_DRAFTER_TEMPLATE_PATH@
}

/// The path of the release drafter workflow.
pub open spec fn release_drafter_path(slug: Seq<char>) -> Seq<char> {
    slug + RELEASE_DRAFTER_PATH@
}

/// The two files of the release drafter: its template, then its workflow.
pub open spec fn release_drafter_files(slug: Seq<char>) -> Seq<(Seq<char>, Seq<char>)> {
    seq![
        (release_drafter_template_path(slug), RELEASE_DRAFTER_TEMPLATE_CONTENT@),
        (release_drafter_path(slug), RELEASE_DRAFTER_CONTENT@),
    ]
}

/// Builds the testing workflow; `multi_os` picks the matrix's ending.
fn testing_workflow(
    project_slug: &str,
    source_dir: &str,
    min_python_version: &str,
    versions: &[String],
    multi_os: bool,
) -> (r: GeneratedFile)
    ensures
        r@.0 == testing_workflow_path(project_slug@),
        multi_os ==> r@.1 == multi_os_content(
            source_dir@,
            min_python_version@,
            texts(versions@),
        ),
        !multi_os ==> r@.1 == linux_only_content(
            source_dir@,
            min_python_version@,
            texts(versions@),
        ),
{
    let mut path = String::from_str(project_slug);
    path.append(TESTING_WORKFLOW_PATH);
    let mut content = String::from_str(CI_HEAD);
    content.append(min_python_version);
    content.append(CI_LINT_MID);
    content.append(source_dir);
    content.append(CI_LINT_TAIL);
    let matrix = matrix_versions(versions);
    content.append(matrix.as_str());
    if multi_os {
        content.append(CI_MATRIX_MULTI_OS);
    } else {
        content.append(CI_MATRIX_LINUX);
    }
    content.append(CI_TEST_STEPS);
    new_file(path, content)
}

/// The testing workflow that lints with `min_python_version` and runs the
/// tests on Linux for each version of the list. Fails with `InvalidOption`
/// exactly when the versions do not form a valid test matrix.
pub fn create_ci_testing_linux_only_file(
    project_slug: &str,
    source_dir: &str,
    min_python_version: &str,
    github_action_python_test_versions: &[String],
) -> (r: Result<GeneratedFile, GenerationError>)
    ensures
        valid_test_matrix(min_python_version@, texts(github_action_python_test_versions@)) ==> r
            is Ok && r->Ok_0@ == (
            testing_workflow_path(project_slug@),
            linux_only_content(
                source_dir@,
                min_python_version@,
                texts(github_action_python_test_versions@),
            ),
        ),
        !valid_test_matrix(min_python_version@, texts(github_action_python_test_versions@)) ==> r
            == Err::<GeneratedFile, GenerationError>(GenerationError::InvalidOption),
{
    if !check_test_matrix(min_python_version, github_action_python_test_versions) {
        return Err(GenerationError::InvalidOption);
    }
    Ok(
        testing_workflow(
            project_slug,
            source_dir,
            min_python_version,
            github_action_python_test_versions,
            false,
        ),
    )
}

/// The testing workflow that lints with `min_python_version` and runs the
/// tests on Linux, Windows and macOS for each version of the list. Fails
/// with `InvalidOption` exactly when the versions do not form a valid test
/// matrix.
pub fn create_ci_testing_multi_os_file(
    project_slug: &str,
    source_dir: &str,
    min_python_version: &str,
    github_action_python_test_versions: &[String],
) -> (r: Result<GeneratedFile, GenerationError>)
    ensures
        valid_test_matrix(min_python_version@, texts(github_action_python_test_versions@)) ==> r
            is Ok && r->Ok_0@ == (
            testing_workflow_path(project_slug@),
            multi_os_content(
                source_dir@,
                min_python_version@,
                texts(github_action_python_test_versions@),
            ),
        ),
        !valid_test_matrix(min_python_version@, texts(github_action_python_test_versions@)) ==> r
            == Err::<GeneratedFile, GenerationError>(GenerationError::InvalidOption),
{
    if !check_test_matrix(min_python_version, github_action_python_test_versions) {
        return Err(GenerationError::InvalidOption);
    }
    Ok(
        testing_workflow(
            project_slug,
            source_dir,
            min_python_version,
            github_action_python_test_versions,
            true,
        ),
    )
}

/// The dependency bot's configuration: daily updates of pip packages and of
/// GitHub actions.
pub fn create_dependabot_file(project_slug: &str) -> (r: GeneratedFile)
    ensures
        r@ == (dependabot_path(project_slug@), DEPENDABOT_CONTENT@),
{
    let mut path = String::from_str(project_slug);
    path.append(DEPENDABOT_PATH);
    new_file(path, String::from_str(DEPENDABOT_CONTENT))
}

/// The workflow that publishes the package on each release, built with
/// `min_python_version`. Fails with `InvalidOption` exactly when that is no
/// version.
pub fn create_pypi_publish_file(project_slug: &str, min_python_version: &str) -> (r: Result<
    GeneratedFile,
    GenerationError,
>)
    ensures
        is_version(min_python_version@) ==> r is Ok && r->Ok_0@ == (
            pypi_publish_path(project_slug@),
            pypi_publish_content(min_python_version@),
        ),
        !is_version(min_python_version@) ==> r == Err::<GeneratedFile, GenerationError>(
            GenerationError::InvalidOption,
        ),
{
    if !check_version(min_python_version) {
        return Err(GenerationError::InvalidOption);
    }
    let mut path = String::from_str(project_slug);
    path.append(PYPI_PUBLISH_PATH);
    let mut content = String::from_str(PYPI_PUBLISH_HEAD);
    content.append(min_python_version);
    content.append(PYPI_PUBLISH_TAIL);
    Ok(new_file(path, content))
}

/// The release drafter: its categorisation template, then the workflow that
/// drafts release notes on each push to main.
pub fn create_release_drafter_file(project_slug: &str) -> (r: Vec<GeneratedFile>)
    ensures
        files_view(r@) == release_drafter_files(project_slug@),
{
    let mut template_path = String::from_str(project_slug);
    template_path.append(RELEASE_DRAFTER_TEMPLATE_PATH);
    let mut path = String::from_str(project_slug);
    path.append(RELEASE_DRAFTER_PATH);
    let r = vec![
        new_file(template_path, String::from_str(RELEASE_DRAFTER_TEMPLATE_CONTENT)),
        new_file(path, String::from_str(RELEASE_DRAFTER_CONTENT)),
    ];
    assert(files_view(r@) =~= release_drafter_files(project_slug@));
    r
}

} // verus!
