use vstd::prelude::*;

verus! {

/// A character that a slug keeps: an ASCII letter or digit, or `_`.
pub open spec fn is_word_char(c: char) -> bool {
    ('a' <= c <= 'z') || ('A' <= c <= 'Z') || ('0' <= c <= '9') || c == '_'
}

/// `c` with an upper-case ASCII letter made lower-case.
pub open spec fn lower_char(c: char) -> char {
    if 'A' <= c <= 'Z' {
        (c as u32 + 32) as char
    } else {
        c
    }
}

/// The slug of a project name: its runs of word characters, lower-cased and
/// joined by single hyphens; every other character only separates runs.
pub open spec fn slug_of(s: Seq<char>) -> Seq<char>
    decreases s.len(),
{
    if s.len() == 0 {
        Seq::empty()
    } else {
        let p = slug_of(s.drop_last());
        let c = s.last();
        if !is_word_char(c) {
            p
        } else if p.len() == 0 {
            seq![lower_char(c)]
        } else if !is_word_char(s[s.len() - 2]) {
            p + seq!['-', lower_char(c)]
        } else {
            p.push(lower_char(c))
        }
    }
}

/// A filesystem-safe slug: lower-case letters, digits, `_` and `-`, with no
/// `-` at either end and never two in a row, so no segment is empty.
pub open spec fn is_safe_slug(t: Seq<char>) -> bool {
    &&& forall|i: int|
        0 <= i < t.len() ==> ((is_word_char(#[trigger] t[i]) && !('A' <= t[i] <= 'Z')) || t[i]
            == '-')
    &&& t.len() > 0 ==> t[0] != '-' && t.last() != '-'
    &&& forall|i: int| 0 <= i < t.len() - 1 ==> (#[trigger] t[i] == '-' ==> t[i + 1] != '-')
}

/// Whether `s` holds a word character at all.
pub open spec fn has_word_char(s: Seq<char>) -> bool {
    exists|i: int| 0 <= i < s.len() && is_word_char(#[trigger] s[i])
}

/// The Python module name for a slug: its hyphens become underscores.
pub open spec fn module_name_of(slug: Seq<char>) -> Seq<char> {
    slug.map_values(|c: char| if c == '-' { '_' } else { c })
}

/// Relies on char::to_ascii_lowercase: 'A' to 'Z' become 'a' to 'z', every
/// other character is kept.
#[verifier::external_body]
fn ascii_lowercase(c: char) -> (r: char)
    ensures
        'A' <= c <= 'Z' ==> r as u32 == c as u32 + 32,
        !('A' <= c <= 'Z') ==> r == c,
{
    c.to_ascii_lowercase()
}

/// Relies on String::push: appends one character.
#[verifier::external_body]
pub(crate) fn push_char(s: &mut String, c: char)
    ensures
        final(s)@ == old(s)@.push(c),
{
    s.push(c)
}

proof fn lemma_lower_char(c: char)
    requires
        is_word_char(c),
    ensures
        is_word_char(lower_char(c)),
        !('A' <= lower_char(c) <= 'Z'),
{
}

/// Every slug is safe, and it is empty exactly when the name holds no word
/// character.
pub proof fn lemma_slug_safe(s: Seq<char>)
    ensures
        is_safe_slug(slug_of(s)),
        slug_of(s).len() == 0 <==> !has_word_char(s),
        s.len() > 0 && slug_of(s).len() > 0 ==> (is_word_char(s.last()) <==> slug_of(s).last()
            != '-' && slug_of(s).last() == lower_char(s.last())),
    decreases s.len(),
{
    if s.len() > 0 {
        let q = s.drop_last();
        lemma_slug_safe(q);
        let c = s.last();
        if is_word_char(c) {
            lemma_lower_char(c);
            assert(has_word_char(s)) by {
                assert(is_word_char(s[s.len() - 1]));
            }
        } else {
            if has_word_char(s) {
                let i = choose|i: int| 0 <= i < s.len() && is_word_char(#[trigger] s[i]);
                assert(q[i] == s[i]);
            }
            if has_word_char(q) {
                let i = choose|i: int| 0 <= i < q.len() && is_word_char(#[trigger] q[i]);
                assert(s[i] == q[i]);
            }
            if slug_of(s).len() > 0 && q.len() > 0 {
                lemma_last_not_hyphen(q);
            }
        }
    }
}

proof fn lemma_last_not_hyphen(s: Seq<char>)
    ensures
        slug_of(s).len() > 0 ==> slug_of(s).last() != '-',
    decreases s.len(),
{
    if s.len() > 0 {
        lemma_last_not_hyphen(s.drop_last());
        if is_word_char(s.last()) {
            lemma_lower_char(s.last());
        }
    }
}

proof fn lemma_slug_of_near_slug(t: Seq<char>)
    requires
        forall|i: int|
            0 <= i < t.len() ==> ((is_word_char(#[trigger] t[i]) && !('A' <= t[i] <= 'Z')) || t[i]
                == '-'),
        t.len() > 0 ==> t[0] != '-',
        forall|i: int| 0 <= i < t.len() - 1 ==> (#[trigger] t[i] == '-' ==> t[i + 1] != '-'),
    ensures
        slug_of(t) == if t.len() > 0 && t.last() == '-' {
            t.drop_last()
        } else {
            t
        },
    decreases t.len(),
{
    if t.len() > 0 {
        let q = t.drop_last();
        assert forall|i: int| 0 <= i < q.len() - 1 implies (#[trigger] q[i] == '-' ==> q[i + 1]
            != '-') by {
            assert(q[i] == t[i] && q[i + 1] == t[i + 1]);
        }
        assert forall|i: int| 0 <= i < q.len() implies ((is_word_char(#[trigger] q[i]) && !('A'
            <= q[i] <= 'Z')) || q[i] == '-') by {
            assert(q[i] == t[i]);
        }
        lemma_slug_of_near_slug(q);
        let c = t.last();
        if c == '-' {
            if q.len() > 0 {
                assert(t[t.len() - 2] != '-');
            }
            assert(slug_of(t) =~= q);
        } else if q.len() == 0 {
            assert(slug_of(t) =~= t);
        } else if q.last() == '-' {
            assert(q.len() >= 2);
            assert(slug_of(t) =~= t);
        } else {
            assert(slug_of(t) =~= t);
        }
    }
}

/// Deriving a slug is idempotent: a slug is its own slug.
pub proof fn lemma_slug_idempotent(s: Seq<char>)
    ensures
        slug_of(slug_of(s)) == slug_of(s),
{
    lemma_slug_safe(s);
    lemma_slug_of_near_slug(slug_of(s));
}

/// The slug of a project name, as `slug_of` states it.
pub fn project_slug(project_name: &str) -> (r: String)
    ensures
        r@ == slug_of(project_name@),
        is_safe_slug(r@),
        r@.len() == 0 <==> !has_word_char(project_name@),
{
    let n = project_name.unicode_len();
    let mut out = String::new();
    let mut i: usize = 0;
    while i < n
        invariant
            n == project_name@.len(),
            0 <= i <= n,
            out@ == slug_of(project_name@.subrange(0, i as int)),
        decreases n - i,
    {
        let c = project_name.get_char(i);
        let ghost t = project_name@.subrange(0, i + 1);
        proof {
            assert(t.drop_last() =~= project_name@.subrange(0, i as int));
            assert(t.last() == c);
        }
        let word = ('a' <= c && c <= 'z') || ('A' <= c && c <= 'Z') || ('0' <= c && c <= '9') || c
            == '_';
        if word {
            let lc = ascii_lowercase(c);
            assert(lc == lower_char(c));
            if out.unicode_len() == 0 {
                push_char(&mut out, lc);
                assert(out@ =~= seq![lower_char(c)]);
            } else {
                let p = project_name.get_char(i - 1);
                assert(t[t.len() - 2] == p);
                let pw = ('a' <= p && p <= 'z') || ('A' <= p && p <= 'Z') || ('0' <= p && p <= '9')
                    || p == '_';
                if !pw {
                    push_char(&mut out, '-');
                }
                push_char(&mut out, lc);
            }
        }
        i += 1;
    }
    proof {
        assert(project_name@.subrange(0, n as int) =~= project_name@);
        lemma_slug_safe(project_name@);
    }
    out
}

/// The module name for a slug, as `module_name_of` states it.
pub fn module_name(slug: &str) -> (r: String)
    ensures
        r@ == module_name_of(slug@),
{
    let n = slug.unicode_len();
    let mut out = String::new();
    let mut i: usize = 0;
    while i < n
        invariant
            n == slug@.len(),
            0 <= i <= n,
            out@ == module_name_of(slug@.subrange(0, i as int)),
        decreases n - i,
    {
        let c = slug.get_char(i);
        if c == '-' {
            push_char(&mut out, '_');
        } else {
            push_char(&mut out, c);
        }
        assert(out@ =~= module_name_of(slug@.subrange(0, i + 1)));
        i += 1;
    }
    assert(slug@.subrange(0, n as int) =~= slug@);
    out
}

} // verus!
