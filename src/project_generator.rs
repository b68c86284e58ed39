use vstd::prelude::*;

use crate::config::{check_config, valid_config, ConfigModel, LicenseType, ProjectConfiguration};
use crate::files::{files_view, GeneratedFile, GenerationError};
use crate::github_actions::{
    create_ci_testing_linux_only_file, create_ci_testing_multi_os_file, create_dependabot_file,
    create_pypi_publish_file, create_release_drafter_file, dependabot_path, linux_only_content,
    multi_os_content, pypi_publish_content, pypi_publish_path, release_drafter_files,
    release_drafter_path, release_drafter_template_path, testing_workflow_path, DEPENDABOT_PATH,
    PYPI_PUBLISH_PATH, RELEASE_DRAFTER_PATH, RELEASE_DRAFTER_TEMPLATE_PATH,
    TESTING_WORKFLOW_PATH,
};
use crate::licenses::{create_license_file, license_files};
use crate::python_files::{
    create_native_binding_files, create_project_layout, layout_files, native_binding_files,
};

verus! {

/// The emitters, each producing the files of one concern.
#[derive(Clone, Copy, Debug, PartialEq, Eq, Structural)]
pub enum Emitter {
    ProjectLayout,
    License,
    CiLinuxOnly,
    CiMultiOs,
    Dependabot,
    PypiPublish,
    ReleaseDrafter,
    NativeBinding,
}

/// `e` when `flag` holds, else nothing.
pub open spec fn when(flag: bool, e: Emitter) -> Seq<Emitter> {
    if flag {
        seq![e]
    } else {
        Seq::empty()
    }
}

/// The emitters a configuration selects, in the order they run: the layout
/// and the license always, then one testing workflow, then each automation
/// whose flag is set, then the native extension.
pub open spec fn selected_emitters(m: ConfigModel) -> Seq<Emitter> {
    seq![Emitter::ProjectLayout, Emitter::License] + (if m.use_multi_os_ci {
        seq![Emitter::CiMultiOs]
    } else {
        seq![Emitter::CiLinuxOnly]
    }) + when(m.use_dependabot, Emitter::Dependabot) + when(
        m.use_continuous_deployment,
        Emitter::PypiPublish,
    ) + when(m.use_release_drafter, Emitter::ReleaseDrafter) + when(
        m.use_pyo3,
        Emitter::NativeBinding,
    )
}

/// The files one emitter produces for a configuration.
pub open spec fn emitter_files(e: Emitter, m: ConfigModel) -> Seq<(Seq<char>, Seq<char>)> {
    match e {
        Emitter::ProjectLayout => layout_files(m),
        Emitter::License => license_files(
            m.project_slug,
            m.license,
            m.creator,
            m.copyright_year,
        ),
        Emitter::CiLinuxOnly => seq![
            (testing_workflow_path(m.project_slug), linux_only_content(
                m.source_dir,
                m.min_python_version,
                m.test_versions,
            )),
        ],
        Emitter::CiMultiOs => seq![
            (testing_workflow_path(m.project_slug), multi_os_content(
                m.source_dir,
                m.min_python_version,
                m.test_versions,
            )),
        ],
        Emitter::Dependabot => seq![
            (dependabot_path(m.project_slug), crate::github_actions::DEPENDABOT_CONTENT@),
        ],
        Emitter::PypiPublish => seq![
            (pypi_publish_path(m.project_slug), pypi_publish_content(m.min_python_version)),
        ],
        Emitter::ReleaseDrafter => release_drafter_files(m.project_slug),
        Emitter::NativeBinding => native_binding_files(m),
    }
}

/// The files of a sequence of emitters, in their order.
pub open spec fn files_of(es: Seq<Emitter>, m: ConfigModel) -> Seq<(Seq<char>, Seq<char>)>
    decreases es.len(),
{
    if es.len() == 0 {
        Seq::empty()
    } else {
        files_of(es.drop_last(), m) + emitter_files(es.last(), m)
    }
}

/// Every file of a project generated from `m`.
pub open spec fn project_files(m: ConfigModel) -> Seq<(Seq<char>, Seq<char>)> {
    files_of(selected_emitters(m), m)
}

/// The emitters the configuration selects, as `selected_emitters` states.
pub fn select_emitters(c: &ProjectConfiguration) -> (r: Vec<Emitter>)
    ensures
        r@ == selected_emitters(c@),
{
    let mut r: Vec<Emitter> = vec![Emitter::ProjectLayout, Emitter::License];
    if c.use_multi_os_ci {
        r.push(Emitter::CiMultiOs);
    } else {
        r.push(Emitter::CiLinuxOnly);
    }
    if c.use_dependabot {
        r.push(Emitter::Dependabot);
    }
    if c.use_continuous_deployment {
        r.push(Emitter::PypiPublish);
    }
    if c.use_release_drafter {
        r.push(Emitter::ReleaseDrafter);
    }
    if c.use_pyo3 {
        r.push(Emitter::NativeBinding);
    }
    assert(r@ =~= selected_emitters(c@));
    r
}

/// Runs one emitter on a valid configuration.
pub fn run_emitter(e: Emitter, c: &ProjectConfiguration) -> (r: Vec<GeneratedFile>)
    requires
        valid_config(c@),
    ensures
        files_view(r@) == emitter_files(e, c@),
{
    let slug = c.project_slug.as_str();
    let one = match e {
        Emitter::ProjectLayout => {
            return create_project_layout(c);
        },
        Emitter::License => {
            return create_license_file(slug, c.license, c.creator.as_str(), c.copyright_year);
        },
        Emitter::CiLinuxOnly => create_ci_testing_linux_only_file(
            slug,
            c.source_dir.as_str(),
            c.min_python_version.as_str(),
            c.github_action_python_test_versions.as_slice(),
        ),
        Emitter::CiMultiOs => create_ci_testing_multi_os_file(
            slug,
            c.source_dir.as_str(),
            c.min_python_version.as_str(),
            c.github_action_python_test_versions.as_slice(),
        ),
        Emitter::Dependabot => Ok(create_dependabot_file(slug)),
        Emitter::PypiPublish => create_pypi_publish_file(slug, c.min_python_version.as_str()),
        Emitter::ReleaseDrafter => {
            return create_release_drafter_file(slug);
        },
        Emitter::NativeBinding => {
            return create_native_binding_files(c);
        },
    };
    match one {
        Ok(f) => {
            let r = vec![f];
            assert(files_view(r@) =~= emitter_files(e, c@));
            r
        },
        Err(_) => {
            proof {
                assert(false);
            }
            Vec::new()
        },
    }
}

/// Every file of the project, for a configuration whose values all lie in
/// their domains; fails with `TargetExists` when the project's directory is
/// already there (`target_exists`), and otherwise with `InvalidOption`
/// exactly when the configuration is not valid.
pub fn generate_project(c: &ProjectConfiguration, target_exists: bool) -> (r: Result<
    Vec<GeneratedFile>,
    GenerationError,
>)
    ensures
        target_exists ==> r == Err::<Vec<GeneratedFile>, GenerationError>(
            GenerationError::TargetExists,
        ),
        !target_exists && !valid_config(c@) ==> r == Err::<Vec<GeneratedFile>, GenerationError>(
            GenerationError::InvalidOption,
        ),
        !target_exists && valid_config(c@) ==> r is Ok && files_view(r->Ok_0@) == project_files(
            c@,
        ),
{
    if target_exists {
        return Err(GenerationError::TargetExists);
    }
    if !check_config(c) {
        return Err(GenerationError::InvalidOption);
    }
    let emitters = select_emitters(c);
    let mut out: Vec<GeneratedFile> = Vec::new();
    let mut i: usize = 0;
    while i < emitters.len()
        invariant
            valid_config(c@),
            emitters@ == selected_emitters(c@),
            0 <= i <= emitters@.len(),
            files_view(out@) == files_of(emitters@.subrange(0, i as int), c@),
        decreases emitters.len() - i,
    {
        let mut files = run_emitter(emitters[i], c);
        let ghost before = out@;
        let ghost added = files@;
        out.append(&mut files);
        proof {
            let s = emitters@.subrange(0, i + 1);
            assert(s.drop_last() =~= emitters@.subrange(0, i as int));
            assert(files_view(out@) =~= files_view(before) + files_view(added));
        }
        i += 1;
    }
    assert(emitters@.subrange(0, i as int) =~= emitters@);
    Ok(out)
}

/// Whether some file of `files` lives at `p`.
pub open spec fn has_path(files: Seq<(Seq<char>, Seq<char>)>, p: Seq<char>) -> bool {
    exists|i: int| 0 <= i < files.len() && (#[trigger] files[i]).0 == p
}

/// Generation is deterministic: configurations that hold the same values
/// give the same files, path for path and byte for byte.
pub proof fn lemma_generation_deterministic(a: ConfigModel, b: ConfigModel)
    requires
        a == b,
    ensures
        project_files(a) == project_files(b),
        selected_emitters(a) == selected_emitters(b),
{
}

/// Each automation emitter is selected exactly when its flag is set, the
/// multi-OS testing workflow exactly when multi-OS testing is asked for, and
/// the Linux-only one exactly when it is not; the layout and the license
/// emitters always run.
pub proof fn lemma_emitters_follow_flags(m: ConfigModel)
    ensures
        selected_emitters(m).contains(Emitter::Dependabot) <==> m.use_dependabot,
        selected_emitters(m).contains(Emitter::PypiPublish) <==> m.use_continuous_deployment,
        selected_emitters(m).contains(Emitter::ReleaseDrafter) <==> m.use_release_drafter,
        selected_emitters(m).contains(Emitter::NativeBinding) <==> m.use_pyo3,
        selected_emitters(m).contains(Emitter::CiMultiOs) <==> m.use_multi_os_ci,
        selected_emitters(m).contains(Emitter::CiLinuxOnly) <==> !m.use_multi_os_ci,
        selected_emitters(m).contains(Emitter::ProjectLayout),
        selected_emitters(m).contains(Emitter::License),
{
    lemma_selected_contains(m, Emitter::ProjectLayout);
    lemma_selected_contains(m, Emitter::License);
    lemma_selected_contains(m, Emitter::CiLinuxOnly);
    lemma_selected_contains(m, Emitter::CiMultiOs);
    lemma_selected_contains(m, Emitter::Dependabot);
    lemma_selected_contains(m, Emitter::PypiPublish);
    lemma_selected_contains(m, Emitter::ReleaseDrafter);
    lemma_selected_contains(m, Emitter::NativeBinding);
}

proof fn lemma_selected_contains(m: ConfigModel, x: Emitter)
    ensures
        selected_emitters(m).contains(x) <==> (x == Emitter::ProjectLayout || x == Emitter::License
            || (x == Emitter::CiMultiOs && m.use_multi_os_ci) || (x == Emitter::CiLinuxOnly
            && !m.use_multi_os_ci) || (x == Emitter::Dependabot && m.use_dependabot) || (x
            == Emitter::PypiPublish && m.use_continuous_deployment) || (x == Emitter::ReleaseDrafter
            && m.use_release_drafter) || (x == Emitter::NativeBinding && m.use_pyo3)),
{
    let s0 = seq![Emitter::ProjectLayout, Emitter::License];
    let ci = if m.use_multi_os_ci {
        seq![Emitter::CiMultiOs]
    } else {
        seq![Emitter::CiLinuxOnly]
    };
    let w1 = when(m.use_dependabot, Emitter::Dependabot);
    let w2 = when(m.use_continuous_deployment, Emitter::PypiPublish);
    let w3 = when(m.use_release_drafter, Emitter::ReleaseDrafter);
    let w4 = when(m.use_pyo3, Emitter::NativeBinding);
    {
        lemma_contains_concat(s0, ci, x);
        lemma_contains_concat(s0 + ci, w1, x);
        lemma_contains_concat(s0 + ci + w1, w2, x);
        lemma_contains_concat(s0 + ci + w1 + w2, w3, x);
        lemma_contains_concat(s0 + ci + w1 + w2 + w3, w4, x);
    }
    {
        if s0.contains(x) {
            let i = choose|i: int| 0 <= i < s0.len() && s0[i] == x;
            assert(i == 0 || i == 1);
        }
        if x == Emitter::ProjectLayout {
            assert(s0[0] == x);
        }
        if x == Emitter::License {
            assert(s0[1] == x);
        }
    }
    {
        if x == ci[0] {
            assert(ci[0] == x);
        }
        if ci.contains(x) {
            let i = choose|i: int| 0 <= i < ci.len() && ci[i] == x;
        }
    }
    lemma_when_contains(m.use_dependabot, Emitter::Dependabot);
    lemma_when_contains(m.use_continuous_deployment, Emitter::PypiPublish);
    lemma_when_contains(m.use_release_drafter, Emitter::ReleaseDrafter);
    lemma_when_contains(m.use_pyo3, Emitter::NativeBinding);
}

proof fn lemma_contains_concat(a: Seq<Emitter>, b: Seq<Emitter>, x: Emitter)
    ensures
        (a + b).contains(x) <==> a.contains(x) || b.contains(x),
{
    let c = a + b;
    if c.contains(x) {
        let i = choose|i: int| 0 <= i < c.len() && c[i] == x;
        if i < a.len() {
            assert(a[i] == x);
        } else {
            assert(b[i - a.len()] == x);
        }
    }
    if a.contains(x) {
        let i = choose|i: int| 0 <= i < a.len() && a[i] == x;
        assert(c[i] == x);
    }
    if b.contains(x) {
        let i = choose|i: int| 0 <= i < b.len() && b[i] == x;
        assert(c[a.len() + i] == x);
    }
}

proof fn lemma_when_contains(flag: bool, e: Emitter)
    ensures
        forall|x: Emitter| #[trigger] when(flag, e).contains(x) <==> (flag && x == e),
{
    assert forall|x: Emitter| #[trigger] when(flag, e).contains(x) <==> (flag && x == e) by {
        if flag && x == e {
            assert(when(flag, e)[0] == x);
        }
    }
}

/// The two testing emitters never both run: exactly one of them does, and
/// both write the same workflow path.
pub proof fn lemma_ci_emitters_exclusive(m: ConfigModel)
    ensures
        selected_emitters(m).contains(Emitter::CiMultiOs) != selected_emitters(m).contains(
            Emitter::CiLinuxOnly,
        ),
        emitter_files(Emitter::CiMultiOs, m)[0].0 == emitter_files(Emitter::CiLinuxOnly, m)[0].0,
{
    lemma_emitters_follow_flags(m);
}

proof fn lemma_has_path_concat(
    a: Seq<(Seq<char>, Seq<char>)>,
    b: Seq<(Seq<char>, Seq<char>)>,
    p: Seq<char>,
)
    ensures
        has_path(a + b, p) <==> has_path(a, p) || has_path(b, p),
{
    let f = a + b;
    if has_path(f, p) {
        let i = choose|i: int| 0 <= i < f.len() && (#[trigger] f[i]).0 == p;
        if i < a.len() {
            assert(a[i] == f[i]);
        } else {
            assert(b[i - a.len()] == f[i]);
        }
    }
    if has_path(a, p) {
        let i = choose|i: int| 0 <= i < a.len() && (#[trigger] a[i]).0 == p;
        assert(f[i] == a[i]);
    }
    if has_path(b, p) {
        let i = choose|i: int| 0 <= i < b.len() && (#[trigger] b[i]).0 == p;
        assert(f[a.len() + i] == b[i]);
    }
}

proof fn lemma_has_path_files_of(es: Seq<Emitter>, m: ConfigModel, p: Seq<char>)
    ensures
        has_path(files_of(es, m), p) <==> exists|j: int|
            0 <= j < es.len() && has_path(emitter_files(#[trigger] es[j], m), p),
    decreases es.len(),
{
    if es.len() > 0 {
        let q = es.drop_last();
        lemma_has_path_files_of(q, m, p);
        lemma_has_path_concat(files_of(q, m), emitter_files(es.last(), m), p);
        if exists|j: int| 0 <= j < es.len() && has_path(emitter_files(#[trigger] es[j], m), p) {
            let j = choose|j: int| 0 <= j < es.len() && has_path(emitter_files(#[trigger] es[j], m), p);
            if j < q.len() {
                assert(q[j] == es[j]);
            }
        }
        if exists|j: int| 0 <= j < q.len() && has_path(emitter_files(#[trigger] q[j], m), p) {
            let j = choose|j: int| 0 <= j < q.len() && has_path(emitter_files(#[trigger] q[j], m), p);
            assert(es[j] == q[j]);
        }
        if has_path(emitter_files(es.last(), m), p) {
            assert(has_path(emitter_files(es[es.len() - 1], m), p));
        }
    }
}

/// The emitter that owns a path below the project's `.github` directory.
pub open spec fn automation_owner(tail: Seq<char>) -> Emitter {
    if tail == DEPENDABOT_PATH@ {
        Emitter::Dependabot
    } else if tail == PYPI_PUBLISH_PATH@ {
        Emitter::PypiPublish
    } else {
        Emitter::ReleaseDrafter
    }
}

/// The paths an automation flag controls.
pub open spec fn is_automation_tail(tail: Seq<char>) -> bool {
    tail == DEPENDABOT_PATH@ || tail == PYPI_PUBLISH_PATH@ || tail == RELEASE_DRAFTER_PATH@
        || tail == RELEASE_DRAFTER_TEMPLATE_PATH@
}

proof fn lemma_reveal_tails()
    ensures
        TESTING_WORKFLOW_PATH@.len() == 30,
        DEPENDABOT_PATH@.len() == 23,
        PYPI_PUBLISH_PATH@.len() == 35,
        RELEASE_DRAFTER_TEMPLATE_PATH@.len() == 37,
        RELEASE_DRAFTER_PATH@.len() == 38,
        crate::python_files::PYPROJECT_PATH@.len() == 15,
        crate::python_files::README_PATH@.len() == 10,
        crate::python_files::TESTS_INIT_PATH@.len() == 18,
        crate::python_files::CARGO_PATH@.len() == 11,
        crate::python_files::LIB_RS_PATH@.len() == 11,
        crate::licenses::LICENSE_PATH@.len() == 8,
        crate::python_files::INIT_FILE@.len() == 12,
        crate::python_files::VERSION_FILE@.len() == 12,
        crate::python_files::MAIN_FILE@.len() == 8,
        crate::python_files::INIT_FILE@.last() == 'y',
        crate::python_files::VERSION_FILE@.last() == 'y',
        crate::python_files::MAIN_FILE@.last() == 'y',
        DEPENDABOT_PATH@.last() == 'l',
        PYPI_PUBLISH_PATH@.last() == 'l',
        RELEASE_DRAFTER_PATH@.last() == 'l',
        RELEASE_DRAFTER_TEMPLATE_PATH@.last() == 'l',
{
    reveal_strlit("/.github/workflows/testing.yml");
    reveal_strlit("/.github/dependabot.yml");
    reveal_strlit("/.github/workflows/pypi_publish.yml");
    reveal_strlit("/.github/release_drafter_template.yml");
    reveal_strlit("/.github/workflows/release_drafter.yml");
    reveal_strlit("/pyproject.toml");
    reveal_strlit("/README.md");
    reveal_strlit("/tests/__init__.py");
    reveal_strlit("/Cargo.toml");
    reveal_strlit("/src/lib.rs");
    reveal_strlit("/LICENSE");
    reveal_strlit("/__init__.py");
    reveal_strlit("/_version.py");
    reveal_strlit("/main.py");
}

proof fn lemma_source_path_last(m: ConfigModel, file: Seq<char>)
    requires
        file.len() > 0,
    ensures
        crate::python_files::source_path(m, file).last() == file.last(),
{
}

proof fn lemma_only_owner_writes(e: Emitter, m: ConfigModel, tail: Seq<char>)
    requires
        is_automation_tail(tail),
        has_path(emitter_files(e, m), m.project_slug + tail),
    ensures
        e == automation_owner(tail),
{
    lemma_reveal_tails();
    let files = emitter_files(e, m);
    let p = m.project_slug + tail;
    let i = choose|i: int| 0 <= i < files.len() && (#[trigger] files[i]).0 == p;
    assert(p.len() == m.project_slug.len() + tail.len());
    assert(p.last() == 'l');
    match e {
        Emitter::ProjectLayout => {
            lemma_source_path_last(m, crate::python_files::INIT_FILE@);
            lemma_source_path_last(m, crate::python_files::VERSION_FILE@);
            lemma_source_path_last(m, crate::python_files::MAIN_FILE@);
            assert(false);
        },
        Emitter::ReleaseDrafter => {
            assert(tail == RELEASE_DRAFTER_PATH@ || tail == RELEASE_DRAFTER_TEMPLATE_PATH@);
        },
        _ => {},
    }
}

/// An automation file (the dependency bot's configuration, the publishing
/// workflow, the release drafter's workflow and template) is among the
/// generated files exactly when the flag of its emitter is set.
pub proof fn lemma_automation_file_iff_flag(m: ConfigModel, tail: Seq<char>)
    requires
        is_automation_tail(tail),
    ensures
        has_path(project_files(m), m.project_slug + tail) <==> selected_emitters(m).contains(
            automation_owner(tail),
        ),
        tail == DEPENDABOT_PATH@ ==> (has_path(project_files(m), dependabot_path(m.project_slug))
            <==> m.use_dependabot),
        tail == PYPI_PUBLISH_PATH@ ==> (has_path(project_files(m), pypi_publish_path(m.project_slug))
            <==> m.use_continuous_deployment),
        tail == RELEASE_DRAFTER_PATH@ ==> (has_path(project_files(m), release_drafter_path(m.project_slug))
            <==> m.use_release_drafter),
        tail == RELEASE_DRAFTER_TEMPLATE_PATH@ ==> (has_path(
            project_files(m),
            release_drafter_template_path(m.project_slug),
        ) <==> m.use_release_drafter),
{
    lemma_reveal_tails();
    lemma_emitters_follow_flags(m);
    let es = selected_emitters(m);
    let p = m.project_slug + tail;
    let owner = automation_owner(tail);
    lemma_has_path_files_of(es, m, p);
    if has_path(project_files(m), p) {
        let j = choose|j: int| 0 <= j < es.len() && has_path(emitter_files(#[trigger] es[j], m), p);
        lemma_only_owner_writes(es[j], m, tail);
    }
    if es.contains(owner) {
        let j = choose|j: int| 0 <= j < es.len() && es[j] == owner;
        let files = emitter_files(owner, m);
        if tail == RELEASE_DRAFTER_TEMPLATE_PATH@ {
            assert(files[0].0 == p);
        } else if tail == RELEASE_DRAFTER_PATH@ {
            assert(files[1].0 == p);
        } else {
            assert(files[0].0 == p);
        }
        assert(has_path(emitter_files(es[j], m), p));
    }
}

proof fn lemma_file_in_files_of(es: Seq<Emitter>, m: ConfigModel, j: int, k: int)
    requires
        0 <= j < es.len(),
        0 <= k < emitter_files(es[j], m).len(),
    ensures
        files_of(es, m).contains(emitter_files(es[j], m)[k]),
    decreases es.len(),
{
    let q = es.drop_last();
    let a = files_of(q, m);
    let b = emitter_files(es.last(), m);
    assert(files_of(es, m) == a + b);
    if j == es.len() - 1 {
        assert((a + b)[a.len() + k] == b[k]);
    } else {
        assert(q[j] == es[j]);
        lemma_file_in_files_of(q, m, j, k);
        let i = choose|i: int| 0 <= i < a.len() && a[i] == emitter_files(es[j], m)[k];
        assert((a + b)[i] == a[i]);
    }
}

/// The project's testing workflow is the multi-OS one, with its matrix over
/// three operating systems, when multi-OS testing is asked for, and the
/// Linux-only one otherwise.
pub proof fn lemma_testing_workflow_follows_flag(m: ConfigModel)
    ensures
        m.use_multi_os_ci ==> project_files(m).contains(
            (
                testing_workflow_path(m.project_slug),
                multi_os_content(m.source_dir, m.min_python_version, m.test_versions),
            ),
        ),
        !m.use_multi_os_ci ==> project_files(m).contains(
            (
                testing_workflow_path(m.project_slug),
                linux_only_content(m.source_dir, m.min_python_version, m.test_versions),
            ),
        ),
{
    let es = selected_emitters(m);
    assert(es[2] == if m.use_multi_os_ci {
        Emitter::CiMultiOs
    } else {
        Emitter::CiLinuxOnly
    });
    lemma_file_in_files_of(es, m, 2, 0);
}

} // verus!
