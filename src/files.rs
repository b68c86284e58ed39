use vstd::prelude::*;

verus! {

/// One file of a generated project: a path relative to the directory the
/// project is generated in, and its literal content.
pub struct GeneratedFile {
    pub path: String,
    pub content: String,
}

impl View for GeneratedFile {
    type V = (Seq<char>, Seq<char>);

    open spec fn view(&self) -> (Seq<char>, Seq<char>) {
        (self.path@, self.content@)
    }
}

/// Why a project cannot be generated.
#[derive(Debug, PartialEq, Eq, Structural, Clone, Copy)]
pub enum GenerationError {
    /// A configuration value lies outside its domain.
    InvalidOption,
    /// The directory the project would be generated in already exists.
    TargetExists,
    /// A file could not be written.
    WriteFailure,
}

/// The files as (path, content) pairs.
pub open spec fn files_view(v: Seq<GeneratedFile>) -> Seq<(Seq<char>, Seq<char>)> {
    v.map_values(|f: GeneratedFile| f@)
}

/// The paths of a sequence of files.
pub open spec fn paths_of(v: Seq<(Seq<char>, Seq<char>)>) -> Seq<Seq<char>> {
    v.map_values(|f: (Seq<char>, Seq<char>)| f.0)
}

/// The texts held by a sequence of strings.
pub open spec fn texts(v: Seq<String>) -> Seq<Seq<char>> {
    v.map_values(|s: String| s@)
}

/// Builds a file from its path and content.
pub fn new_file(path: String, content: String) -> (r: GeneratedFile)
    ensures
        r@ == (path@, content@),
{
    GeneratedFile { path, content }
}

/// A version string: one or more decimal digits, possibly separated by
/// single dots (`3`, `3.9`, `3.10.2`).
pub open spec fn is_version(s: Seq<char>) -> bool {
    &&& s.len() > 0
    &&& '0' <= s[0] <= '9'
    &&& '0' <= s.last() <= '9'
    &&& forall|i: int| 0 <= i < s.len() ==> ('0' <= #[trigger] s[i] <= '9' || s[i] == '.')
    &&& forall|i: int|
        0 <= i < s.len() - 1 ==> (#[trigger] s[i] == '.' ==> '0' <= s[i + 1] <= '9')
}

/// Decides `is_version`.
pub fn check_version(s: &str) -> (r: bool)
    ensures
        r == is_version(s@),
{
    let n = s.unicode_len();
    if n == 0 {
        return false;
    }
    let first = s.get_char(0);
    let last = s.get_char(n - 1);
    if !('0' <= first && first <= '9') || !('0' <= last && last <= '9') {
        return false;
    }
    let mut i: usize = 0;
    while i < n
        invariant
            n == s@.len(),
            0 <= i <= n,
            '0' <= s@[0] <= '9',
            '0' <= s@.last() <= '9',
            forall|j: int| 0 <= j < i ==> ('0' <= #[trigger] s@[j] <= '9' || s@[j] == '.'),
            forall|j: int|
                0 <= j < i && j < n - 1 ==> (#[trigger] s@[j] == '.' ==> '0' <= s@[j + 1] <= '9'),
        decreases n - i,
    {
        let c = s.get_char(i);
        if c == '.' {
            if i + 1 < n {
                let d = s.get_char(i + 1);
                if !('0' <= d && d <= '9') {
                    return false;
                }
            }
        } else if !('0' <= c && c <= '9') {
            return false;
        }
        i += 1;
    }
    true
}


/// The digit for `d < 10`.
pub open spec fn digit_char(d: nat) -> char {
    "0123456789"@[d as int]
}

/// The decimal digits of `n`, with no leading zero.
pub open spec fn decimal(n: nat) -> Seq<char>
    decreases n,
{
    if n < 10 {
        seq![digit_char(n)]
    } else {
        decimal(n / 10).push(digit_char(n % 10))
    }
}

/// `n` written in decimal.
pub fn decimal_string(n: u64) -> (r: String)
    ensures
        r@ == decimal(n as nat),
    decreases n,
{
    let digits = "0123456789";
    proof {
        reveal_strlit("0123456789");
    }
    let mut s = if n < 10 {
        String::new()
    } else {
        decimal_string(n / 10)
    };
    crate::slug::push_char(&mut s, digits.get_char((n % 10) as usize));
    proof {
        if n < 10 {
            assert(s@ =~= seq![digit_char(n as nat)]);
        }
    }
    s
}

} // verus!
