use vstd::prelude::*;

use crate::config::LicenseType;
use crate::files::{check_version, is_version, texts};

verus! {

/// Every option a project can be configured with.
#[derive(Clone, Copy, Debug, PartialEq, Eq, Structural)]
pub enum Setting {
    Creator,
    CreatorEmail,
    License,
    PythonVersion,
    MinPythonVersion,
    UsePyo3,
    IsApplication,
    GithubActionPythonTestVersions,
    MaxLineLength,
    UseDependabot,
    UseContinuousDeployment,
    UseReleaseDrafter,
    UseMultiOsCi,
    DownloadLatestPackages,
}

/// How many options there are.
pub const SETTING_COUNT: usize = 14;

/// The value of one option.
pub enum SettingValue {
    Text(String),
    Flag(bool),
    Number(u64),
    Versions(Vec<String>),
    License(LicenseType),
}

/// What a `SettingValue` holds, as a mathematical value.
pub enum SettingModel {
    Text(Seq<char>),
    Flag(bool),
    Number(nat),
    Versions(Seq<Seq<char>>),
    License(LicenseType),
}

impl View for SettingValue {
    type V = SettingModel;

    open spec fn view(&self) -> SettingModel {
        match self {
            SettingValue::Text(s) => SettingModel::Text(s@),
            SettingValue::Flag(b) => SettingModel::Flag(*b),
            SettingValue::Number(n) => SettingModel::Number(*n as nat),
            SettingValue::Versions(v) => SettingModel::Versions(texts(v@)),
            SettingValue::License(l) => SettingModel::License(*l),
        }
    }
}

/// The position of an option in the registry.
pub open spec fn setting_index(s: Setting) -> int {
    match s {
        Setting::Creator => 0,
        Setting::CreatorEmail => 1,
        Setting::License => 2,
        Setting::PythonVersion => 3,
        Setting::MinPythonVersion => 4,
        Setting::UsePyo3 => 5,
        Setting::IsApplication => 6,
        Setting::GithubActionPythonTestVersions => 7,
        Setting::MaxLineLength => 8,
        Setting::UseDependabot => 9,
        Setting::UseContinuousDeployment => 10,
        Setting::UseReleaseDrafter => 11,
        Setting::UseMultiOsCi => 12,
        Setting::DownloadLatestPackages => 13,
    }
}

/// The registry: every option once, in a fixed order.
pub open spec fn registry() -> Seq<Setting> {
    seq![
        Setting::Creator,
        Setting::CreatorEmail,
        Setting::License,
        Setting::PythonVersion,
        Setting::MinPythonVersion,
        Setting::UsePyo3,
        Setting::IsApplication,
        Setting::GithubActionPythonTestVersions,
        Setting::MaxLineLength,
        Setting::UseDependabot,
        Setting::UseContinuousDeployment,
        Setting::UseReleaseDrafter,
        Setting::UseMultiOsCi,
        Setting::DownloadLatestPackages,
    ]
}

/// Whether `v` lies in the domain of option `s`.
pub open spec fn in_domain(s: Setting, v: SettingModel) -> bool {
    match s {
        Setting::Creator | Setting::CreatorEmail => v is Text,
        Setting::License => v is License,
        Setting::PythonVersion | Setting::MinPythonVersion => v is Text && is_version(v->Text_0),
        Setting::GithubActionPythonTestVersions => v is Versions && v->Versions_0.len() > 0 && (
        forall|i: int|
            0 <= i < v->Versions_0.len() ==> is_version(#[trigger] v->Versions_0[i])),
        Setting::MaxLineLength => v is Number && v->Number_0 > 0,
        _ => v is Flag,
    }
}

/// The value an option takes when no source gives one.
pub open spec fn fallback(s: Setting) -> SettingModel {
    match s {
        Setting::Creator => SettingModel::Text(Seq::empty()),
        Setting::CreatorEmail => SettingModel::Text(Seq::empty()),
        Setting::License => SettingModel::License(LicenseType::Mit),
        Setting::PythonVersion => SettingModel::Text(DEFAULT_PYTHON_VERSION@),
        Setting::MinPythonVersion => SettingModel::Text(DEFAULT_MIN_PYTHON_VERSION@),
        Setting::UsePyo3 => SettingModel::Flag(false),
        Setting::IsApplication => SettingModel::Flag(true),
        Setting::GithubActionPythonTestVersions => SettingModel::Versions(default_test_versions()),
        Setting::MaxLineLength => SettingModel::Number(DEFAULT_MAX_LINE_LENGTH as nat),
        Setting::UseDependabot => SettingModel::Flag(true),
        Setting::UseContinuousDeployment => SettingModel::Flag(true),
        Setting::UseReleaseDrafter => SettingModel::Flag(true),
        Setting::UseMultiOsCi => SettingModel::Flag(true),
        Setting::DownloadLatestPackages => SettingModel::Flag(true),
    }
}

/// The Python version a project uses by default.
pub const DEFAULT_PYTHON_VERSION: &'static str = "3.12";

/// The oldest Python version a project supports by default.
pub const DEFAULT_MIN_PYTHON_VERSION: &'static str = "3.9";

/// A version tested by default.
pub const DEFAULT_TEST_VERSION_1: &'static str = "3.9";

/// A version tested by default.
pub const DEFAULT_TEST_VERSION_2: &'static str = "3.10";

/// A version tested by default.
pub const DEFAULT_TEST_VERSION_3: &'static str = "3.11";

/// A version tested by default.
pub const DEFAULT_TEST_VERSION_4: &'static str = "3.12";

/// The line length by default.
pub const DEFAULT_MAX_LINE_LENGTH: u64 = 100;

/// The versions tested when no source gives them.
pub open spec fn default_test_versions() -> Seq<Seq<char>> {
    seq![
        DEFAULT_TEST_VERSION_1@,
        DEFAULT_TEST_VERSION_2@,
        DEFAULT_TEST_VERSION_3@,
        DEFAULT_TEST_VERSION_4@,
    ]
}

/// A partial assignment of values to options: the stored defaults, the
/// explicit overrides of one invocation, or the answers given interactively.
pub struct SettingValues {
    entries: Vec<Option<SettingValue>>,
}

impl View for SettingValues {
    type V = Map<Setting, SettingModel>;

    closed spec fn view(&self) -> Map<Setting, SettingModel> {
        Map::new(
            |s: Setting| self.entries@[setting_index(s)] is Some,
            |s: Setting| self.entries@[setting_index(s)]->Some_0@,
        )
    }
}

/// The value option `s` resolves to: an explicit override first, then a
/// stored default, then an interactive answer, then the fallback.
pub open spec fn resolved(
    s: Setting,
    explicit: Map<Setting, SettingModel>,
    stored: Map<Setting, SettingModel>,
    interactive: Map<Setting, SettingModel>,
) -> SettingModel {
    if explicit.contains_key(s) {
        explicit[s]
    } else if stored.contains_key(s) {
        stored[s]
    } else if interactive.contains_key(s) {
        interactive[s]
    } else {
        fallback(s)
    }
}

/// What each option shows as: its stored value, or else its fallback.
pub open spec fn shown(stored: Map<Setting, SettingModel>) -> Seq<SettingModel> {
    registry().map_values(|s: Setting| resolved(s, Map::empty(), stored, Map::empty()))
}

fn index_of(s: Setting) -> (r: usize)
    ensures
        r as int == setting_index(s),
        r < SETTING_COUNT,
{
    match s {
        Setting::Creator => 0,
        Setting::CreatorEmail => 1,
        Setting::License => 2,
        Setting::PythonVersion => 3,
        Setting::MinPythonVersion => 4,
        Setting::UsePyo3 => 5,
        Setting::IsApplication => 6,
        Setting::GithubActionPythonTestVersions => 7,
        Setting::MaxLineLength => 8,
        Setting::UseDependabot => 9,
        Setting::UseContinuousDeployment => 10,
        Setting::UseReleaseDrafter => 11,
        Setting::UseMultiOsCi => 12,
        Setting::DownloadLatestPackages => 13,
    }
}

/// A copy of a list of strings.
pub fn copy_strings(v: &Vec<String>) -> (r: Vec<String>)
    ensures
        texts(r@) == texts(v@),
{
    let mut r: Vec<String> = Vec::new();
    let mut i: usize = 0;
    while i < v.len()
        invariant
            0 <= i <= v@.len(),
            texts(r@) == texts(v@.subrange(0, i as int)),
        decreases v.len() - i,
    {
        let ghost before = r@;
        let c = v[i].clone();
        r.push(c);
        assert(texts(v@.subrange(0, i + 1)) =~= texts(v@.subrange(0, i as int)).push(v@[i as int]@));
        assert(texts(r@) =~= texts(before).push(v@[i as int]@));
        i += 1;
    }
    assert(v@.subrange(0, i as int) =~= v@);
    r
}

impl SettingValue {
    /// A copy of the value.
    pub fn copy(&self) -> (r: SettingValue)
        ensures
            r@ == self@,
    {
        match self {
            SettingValue::Text(s) => SettingValue::Text(s.clone()),
            SettingValue::Flag(b) => SettingValue::Flag(*b),
            SettingValue::Number(n) => SettingValue::Number(*n),
            SettingValue::Versions(v) => SettingValue::Versions(copy_strings(v)),
            SettingValue::License(l) => SettingValue::License(*l),
        }
    }
}

/// The fallback of option `s`, as `fallback` states it.
pub fn fallback_value(s: Setting) -> (r: SettingValue)
    ensures
        r@ == fallback(s),
{
    match s {
        Setting::Creator | Setting::CreatorEmail => SettingValue::Text(String::new()),
        Setting::License => SettingValue::License(LicenseType::Mit),
        Setting::PythonVersion => SettingValue::Text(String::from_str(DEFAULT_PYTHON_VERSION)),
        Setting::MinPythonVersion => SettingValue::Text(
            String::from_str(DEFAULT_MIN_PYTHON_VERSION),
        ),
        Setting::UsePyo3 => SettingValue::Flag(false),
        Setting::IsApplication => SettingValue::Flag(true),
        Setting::GithubActionPythonTestVersions => {
            let v = vec![
                String::from_str(DEFAULT_TEST_VERSION_1),
                String::from_str(DEFAULT_TEST_VERSION_2),
                String::from_str(DEFAULT_TEST_VERSION_3),
                String::from_str(DEFAULT_TEST_VERSION_4),
            ];
            assert(texts(v@) =~= default_test_versions());
            SettingValue::Versions(v)
        },
        Setting::MaxLineLength => SettingValue::Number(DEFAULT_MAX_LINE_LENGTH),
        _ => SettingValue::Flag(true),
    }
}

/// Whether `vs` is a non-empty list of versions.
pub fn check_versions(vs: &Vec<String>) -> (r: bool)
    ensures
        r == (texts(vs@).len() > 0 && forall|i: int|
            0 <= i < texts(vs@).len() ==> is_version(#[trigger] texts(vs@)[i])),
{
    if vs.len() == 0 {
        return false;
    }
    let mut i: usize = 0;
    while i < vs.len()
        invariant
            0 <= i <= vs@.len(),
            forall|k: int| 0 <= k < i ==> is_version(#[trigger] vs@[k]@),
        decreases vs.len() - i,
    {
        if !check_version(vs[i].as_str()) {
            assert(texts(vs@)[i as int] == vs@[i as int]@);
            return false;
        }
        i += 1;
    }
    assert forall|k: int| 0 <= k < texts(vs@).len() implies is_version(
        #[trigger] texts(vs@)[k],
    ) by {
        assert(is_version(vs@[k]@));
    }
    true
}

/// Decides `in_domain`.
pub fn check_domain(s: Setting, v: &SettingValue) -> (r: bool)
    ensures
        r == in_domain(s, v@),
{
    match v {
        SettingValue::Text(t) => match s {
            Setting::Creator | Setting::CreatorEmail => true,
            Setting::PythonVersion | Setting::MinPythonVersion => check_version(t.as_str()),
            _ => false,
        },
        SettingValue::Flag(_) => match s {
            Setting::UsePyo3 | Setting::IsApplication | Setting::UseDependabot
            | Setting::UseContinuousDeployment | Setting::UseReleaseDrafter | Setting::UseMultiOsCi
            | Setting::DownloadLatestPackages => true,
            _ => false,
        },
        SettingValue::Number(n) => s == Setting::MaxLineLength && *n > 0,
        SettingValue::Versions(vs) => s == Setting::GithubActionPythonTestVersions
            && check_versions(vs),
        SettingValue::License(_) => s == Setting::License,
    }
}

impl SettingValues {
    /// Each entry is for the option at its position.
    pub closed spec fn wf(&self) -> bool {
        self.entries@.len() == SETTING_COUNT
    }

    /// No value for any option.
    pub fn new() -> (r: SettingValues)
        ensures
            r.wf(),
            r@ == Map::<Setting, SettingModel>::empty(),
    {
        let mut entries: Vec<Option<SettingValue>> = Vec::new();
        let mut i: usize = 0;
        while i < SETTING_COUNT
            invariant
                0 <= i <= SETTING_COUNT,
                entries@.len() == i,
                forall|k: int| 0 <= k < i ==> entries@[k] is None,
            decreases SETTING_COUNT - i,
        {
            entries.push(None);
            i += 1;
        }
        let r = SettingValues { entries };
        assert(r@ =~= Map::<Setting, SettingModel>::empty());
        r
    }

    /// The value given for option `s`, if any.
    pub fn get(&self, s: Setting) -> (r: Option<&SettingValue>)
        requires
            self.wf(),
        ensures
            r is Some <==> self@.contains_key(s),
            r is Some ==> r->Some_0@ == self@[s],
    {
        let i = index_of(s);
        match &self.entries[i] {
            Some(v) => Some(v),
            None => None,
        }
    }

    /// Gives option `s` the value `v`; fails with `InvalidOption`, changing
    /// nothing, when `v` lies outside the option's domain.
    pub fn set(&mut self, s: Setting, v: SettingValue) -> (r: Result<
        (),
        crate::files::GenerationError,
    >)
        requires
            old(self).wf(),
        ensures
            final(self).wf(),
            in_domain(s, v@) ==> r is Ok && final(self)@ == old(self)@.insert(s, v@),
            !in_domain(s, v@) ==> r is Err && r->Err_0
                == crate::files::GenerationError::InvalidOption && final(self)@ == old(self)@,
    {
        if !check_domain(s, &v) {
            return Err(crate::files::GenerationError::InvalidOption);
        }
        let i = index_of(s);
        let ghost v_model = v@;
        self.entries.set(i, Some(v));
        proof {
            assert forall|t: Setting| setting_index(t) == i implies t == s by {}
        }
        assert(self@ =~= old(self)@.insert(s, v_model));
        Ok(())
    }

    /// Forgets every value.
    pub fn reset(&mut self)
        requires
            old(self).wf(),
        ensures
            final(self).wf(),
            final(self)@ == Map::<Setting, SettingModel>::empty(),
    {
        *self = SettingValues::new();
    }

    /// Each option's stored value, or its fallback, in registry order.
    pub fn show(&self) -> (r: Vec<SettingValue>)
        requires
            self.wf(),
        ensures
            r@.map_values(|v: SettingValue| v@) == shown(self@),
    {
        let all = all_settings();
        let mut r: Vec<SettingValue> = Vec::new();
        let mut i: usize = 0;
        while i < all.len()
            invariant
                self.wf(),
                all@ == registry(),
                0 <= i <= all@.len(),
                r@.len() == i,
                forall|k: int| 0 <= k < i ==> (#[trigger] r@[k])@ == resolved(
                    registry()[k],
                    Map::empty(),
                    self@,
                    Map::empty(),
                ),
            decreases all.len() - i,
        {
            let v = resolve_setting(all[i], None, self, None);
            r.push(v);
            i += 1;
        }
        assert(r@.map_values(|v: SettingValue| v@) =~= shown(self@));
        r
    }
}

/// Every option, in registry order.
pub fn all_settings() -> (r: Vec<Setting>)
    ensures
        r@ == registry(),
{
    let r = vec![
        Setting::Creator,
        Setting::CreatorEmail,
        Setting::License,
        Setting::PythonVersion,
        Setting::MinPythonVersion,
        Setting::UsePyo3,
        Setting::IsApplication,
        Setting::GithubActionPythonTestVersions,
        Setting::MaxLineLength,
        Setting::UseDependabot,
        Setting::UseContinuousDeployment,
        Setting::UseReleaseDrafter,
        Setting::UseMultiOsCi,
        Setting::DownloadLatestPackages,
    ];
    assert(r@ =~= registry());
    r
}

/// The value option `s` resolves to, as `resolved` states it.
pub fn resolve_setting(
    s: Setting,
    explicit: Option<&SettingValue>,
    stored: &SettingValues,
    interactive: Option<&SettingValue>,
) -> (r: SettingValue)
    requires
        stored.wf(),
    ensures
        r@ == resolved(
            s,
            if explicit is Some {
                Map::empty().insert(s, explicit->Some_0@)
            } else {
                Map::empty()
            },
            stored@,
            if interactive is Some {
                Map::empty().insert(s, interactive->Some_0@)
            } else {
                Map::empty()
            },
        ),
{
    if let Some(v) = explicit {
        return v.copy();
    }
    if let Some(v) = stored.get(s) {
        return v.copy();
    }
    if let Some(v) = interactive {
        return v.copy();
    }
    fallback_value(s)
}

/// Setting a valid value and resolving with no override and no answer gives
/// that value back; after a reset every option shows its fallback.
pub proof fn lemma_set_then_resolve(
    stored: Map<Setting, SettingModel>,
    s: Setting,
    v: SettingModel,
)
    ensures
        resolved(s, Map::empty(), stored.insert(s, v), Map::empty()) == v,
        shown(Map::empty()) == registry().map_values(|t: Setting| fallback(t)),
{
    assert(shown(Map::empty()) =~= registry().map_values(|t: Setting| fallback(t)));
}

} // verus!
