//! Exclude-pattern model: borg patterns, gitignore patterns, and the partial
//! conversions between the two languages.

use vstd::prelude::*;

use crate::strutil::{
    concat_str, drop_first_char, ends_with_char, first_char_is, last_char_is, push_char,
    starts_with_char,
};

verus! {

/// A borg exclude pattern, one of the five kinds borg accepts. Stringifies
/// with the `fm:`, `sh:`, `re:`, `pp:` or `pf:` prefix before the payload.
#[derive(Debug)]
pub enum BorgPattern {
    FnMatch(String),
    Shell(String),
    Regex(String),
    PathPrefix(String),
    PathFullMatch(String),
}

/// The mathematical value of a [`BorgPattern`]: the kind and the payload's
/// characters.
pub enum BorgPatternView {
    FnMatch(Seq<char>),
    Shell(Seq<char>),
    Regex(Seq<char>),
    PathPrefix(Seq<char>),
    PathFullMatch(Seq<char>),
}

impl View for BorgPattern {
    type V = BorgPatternView;

    open spec fn view(&self) -> BorgPatternView {
        match self {
            BorgPattern::FnMatch(s) => BorgPatternView::FnMatch(s@),
            BorgPattern::Shell(s) => BorgPatternView::Shell(s@),
            BorgPattern::Regex(s) => BorgPatternView::Regex(s@),
            BorgPattern::PathPrefix(s) => BorgPatternView::PathPrefix(s@),
            BorgPattern::PathFullMatch(s) => BorgPatternView::PathFullMatch(s@),
        }
    }
}

impl Clone for BorgPattern {
    fn clone(&self) -> (res: Self)
        ensures
            res == *self,
    {
        match self {
            BorgPattern::FnMatch(s) => BorgPattern::FnMatch(s.clone()),
            BorgPattern::Shell(s) => BorgPattern::Shell(s.clone()),
            BorgPattern::Regex(s) => BorgPattern::Regex(s.clone()),
            BorgPattern::PathPrefix(s) => BorgPattern::PathPrefix(s.clone()),
            BorgPattern::PathFullMatch(s) => BorgPattern::PathFullMatch(s.clone()),
        }
    }
}

impl PartialEq for BorgPattern {
    fn eq(&self, other: &Self) -> (r: bool) {
        match (self, other) {
            (BorgPattern::FnMatch(a), BorgPattern::FnMatch(b)) => *a == *b,
            (BorgPattern::Shell(a), BorgPattern::Shell(b)) => *a == *b,
            (BorgPattern::Regex(a), BorgPattern::Regex(b)) => *a == *b,
            (BorgPattern::PathPrefix(a), BorgPattern::PathPrefix(b)) => *a == *b,
            (BorgPattern::PathFullMatch(a), BorgPattern::PathFullMatch(b)) => *a == *b,
            _ => false,
        }
    }
}

impl vstd::std_specs::cmp::PartialEqSpecImpl for BorgPattern {
    open spec fn obeys_eq_spec() -> bool {
        true
    }

    open spec fn eq_spec(&self, other: &Self) -> bool {
        match (self, other) {
            (BorgPattern::FnMatch(a), BorgPattern::FnMatch(b)) => a@ == b@,
            (BorgPattern::Shell(a), BorgPattern::Shell(b)) => a@ == b@,
            (BorgPattern::Regex(a), BorgPattern::Regex(b)) => a@ == b@,
            (BorgPattern::PathPrefix(a), BorgPattern::PathPrefix(b)) => a@ == b@,
            (BorgPattern::PathFullMatch(a), BorgPattern::PathFullMatch(b)) => a@ == b@,
            _ => false,
        }
    }
}

/// A raw gitignore line, kept without any prefix.
#[derive(Debug)]
pub struct GitIgnorePattern {
    pub pattern: String,
}

impl View for GitIgnorePattern {
    type V = Seq<char>;

    open spec fn view(&self) -> Seq<char> {
        self.pattern@
    }
}

impl Clone for GitIgnorePattern {
    fn clone(&self) -> (res: Self)
        ensures
            res == *self,
    {
        GitIgnorePattern { pattern: self.pattern.clone() }
    }
}

impl PartialEq for GitIgnorePattern {
    fn eq(&self, other: &Self) -> (r: bool) {
        self.pattern == other.pattern
    }
}

impl vstd::std_specs::cmp::PartialEqSpecImpl for GitIgnorePattern {
    open spec fn obeys_eq_spec() -> bool {
        true
    }

    open spec fn eq_spec(&self, other: &Self) -> bool {
        self.pattern@ == other.pattern@
    }
}

/// The stable wire form of a borg pattern: two-letter kind, a colon, payload.
pub open spec fn spec_borg_string(p: BorgPatternView) -> Seq<char> {
    match p {
        BorgPatternView::FnMatch(s) => "fm:"@ + s,
        BorgPatternView::Shell(s) => "sh:"@ + s,
        BorgPatternView::Regex(s) => "re:"@ + s,
        BorgPatternView::PathPrefix(s) => "pp:"@ + s,
        BorgPatternView::PathFullMatch(s) => "pf:"@ + s,
    }
}

impl BorgPattern {
    /// Renders the pattern in its wire form (`--exclude`-compatible).
    pub fn to_string(&self) -> (r: String)
        ensures
            r@ == spec_borg_string(self@),
    {
        match self {
            BorgPattern::FnMatch(s) => concat_str("fm:", s.as_str()),
            BorgPattern::Shell(s) => concat_str("sh:", s.as_str()),
            BorgPattern::Regex(s) => concat_str("re:", s.as_str()),
            BorgPattern::PathPrefix(s) => concat_str("pp:", s.as_str()),
            BorgPattern::PathFullMatch(s) => concat_str("pf:", s.as_str()),
        }
    }
}

/// Whether `s` starts with the two given characters followed by a colon.
pub open spec fn has_pattern_prefix(s: Seq<char>, c0: char, c1: char) -> bool {
    s.len() >= 3 && s[0] == c0 && s[1] == c1 && s[2] == ':'
}

/// Parsing a string as a borg pattern: one of the five two-letter prefixes is
/// required; anything else is rejected.
pub open spec fn spec_parse_borg(s: Seq<char>) -> Result<BorgPatternView, Seq<char>> {
    if has_pattern_prefix(s, 'f', 'm') {
        Ok(BorgPatternView::FnMatch(s.skip(3)))
    } else if has_pattern_prefix(s, 's', 'h') {
        Ok(BorgPatternView::Shell(s.skip(3)))
    } else if has_pattern_prefix(s, 'r', 'e') {
        Ok(BorgPatternView::Regex(s.skip(3)))
    } else if has_pattern_prefix(s, 'p', 'p') {
        Ok(BorgPatternView::PathPrefix(s.skip(3)))
    } else if has_pattern_prefix(s, 'p', 'f') {
        Ok(BorgPatternView::PathFullMatch(s.skip(3)))
    } else {
        Err("Currently you must specify pattern type."@)
    }
}

fn check_prefix(s: &String, c0: char, c1: char) -> (r: bool)
    ensures
        r == has_pattern_prefix(s@, c0, c1),
{
    let n = s.unicode_len();
    if n < 3 {
        return false;
    }
    let a = s.as_str();
    a.get_char(0) == c0 && a.get_char(1) == c1 && a.get_char(2) == ':'
}

fn payload_after_prefix(s: &String) -> (r: String)
    requires
        s@.len() >= 3,
    ensures
        r@ == s@.skip(3),
{
    let n = s.unicode_len();
    let r = s.as_str().substring_char(3, n).to_owned();
    proof {
        assert(r@ =~= s@.skip(3));
    }
    r
}

/// Parses a borg pattern from its wire form; a recognized kind prefix is
/// mandatory.
pub fn borg_pattern_from_string(s: &String) -> (r: Result<BorgPattern, &'static str>)
    ensures
        match r {
            Ok(p) => spec_parse_borg(s@) == Ok::<BorgPatternView, Seq<char>>(p@),
            Err(e) => spec_parse_borg(s@) == Err::<BorgPatternView, Seq<char>>(e@),
        },
{
    if check_prefix(s, 'f', 'm') {
        Ok(BorgPattern::FnMatch(payload_after_prefix(s)))
    } else if check_prefix(s, 's', 'h') {
        Ok(BorgPattern::Shell(payload_after_prefix(s)))
    } else if check_prefix(s, 'r', 'e') {
        Ok(BorgPattern::Regex(payload_after_prefix(s)))
    } else if check_prefix(s, 'p', 'p') {
        Ok(BorgPattern::PathPrefix(payload_after_prefix(s)))
    } else if check_prefix(s, 'p', 'f') {
        Ok(BorgPattern::PathFullMatch(payload_after_prefix(s)))
    } else {
        Err("Currently you must specify pattern type.")
    }
}

/// `s` with every `\/` occurrence removed, scanning left to right; this is
/// how escaped slashes are discounted before the slash test.
pub open spec fn strip_escaped_slashes(s: Seq<char>) -> Seq<char>
    decreases s.len(),
{
    if s.len() == 0 {
        Seq::empty()
    } else if s.len() >= 2 && s[0] == '\\' && s[1] == '/' {
        strip_escaped_slashes(s.skip(2))
    } else {
        seq![s[0]] + strip_escaped_slashes(s.skip(1))
    }
}

/// Whether some character of `s` is a slash.
pub open spec fn contains_slash(s: Seq<char>) -> bool {
    exists|i: int| 0 <= i < s.len() && s[i] == '/'
}

proof fn lemma_contains_slash_cons(c: char, t: Seq<char>)
    ensures
        contains_slash(seq![c] + t) == (c == '/' || contains_slash(t)),
{
    let s = seq![c] + t;
    if c == '/' {
        assert(s[0] == '/');
    }
    if contains_slash(t) {
        let i = choose|i: int| 0 <= i < t.len() && t[i] == '/';
        assert(s[i + 1] == '/');
    }
    if contains_slash(s) {
        let i = choose|i: int| 0 <= i < s.len() && s[i] == '/';
        if i > 0 {
            assert(t[i - 1] == '/');
        }
    }
}

/// Whether `s` contains a slash that is not escaped by a backslash.
fn has_unescaped_slash(s: &String) -> (r: bool)
    ensures
        r == contains_slash(strip_escaped_slashes(s@)),
{
    let n = s.unicode_len();
    let a = s.as_str();
    let mut i: usize = 0;
    proof {
        assert(s@.skip(0) =~= s@);
    }
    while i < n
        invariant
            n == s@.len(),
            i <= n,
            a@ == s@,
            contains_slash(strip_escaped_slashes(s@)) == contains_slash(
                strip_escaped_slashes(s@.skip(i as int)),
            ),
        decreases n - i,
    {
        let c = a.get_char(i);
        proof {
            assert(s@.skip(i as int)[0] == s@[i as int]);
        }
        if c == '\\' && i + 1 < n && a.get_char(i + 1) == '/' {
            proof {
                assert(s@.skip(i as int)[1] == s@[i as int + 1]);
                assert(s@.skip(i as int).skip(2) =~= s@.skip(i as int + 2));
            }
            i = i + 2;
        } else {
            proof {
                assert(s@.skip(i as int).skip(1) =~= s@.skip(i as int + 1));
                if s@.skip(i as int).len() >= 2 && s@.skip(i as int)[0] == '\\' && s@.skip(
                    i as int,
                )[1] == '/' {
                    assert(c == '\\' && i + 1 < n && s@[i as int + 1] == '/');
                }
                lemma_contains_slash_cons(c, strip_escaped_slashes(s@.skip(i as int + 1)));
                assert(strip_escaped_slashes(s@.skip(i as int)) =~= seq![c]
                    + strip_escaped_slashes(s@.skip(i as int + 1)));
            }
            if c == '/' {
                return true;
            }
            i = i + 1;
        }
    }
    proof {
        assert(s@.skip(n as int) =~= Seq::<char>::empty());
    }
    false
}

/// Conversion of a gitignore line into a borg pattern. Negation is rejected;
/// a line with no unescaped slash is anchored below every directory with
/// `**/`; a leading slash is dropped; the result is a shell-kind pattern.
pub open spec fn spec_gitignore_to_borg(g: Seq<char>) -> Result<BorgPatternView, Seq<char>> {
    if starts_with_char(g, '!') {
        Err("Negation is not supported"@)
    } else {
        let anchored = if !contains_slash(strip_escaped_slashes(g)) {
            "**/"@ + g
        } else {
            g
        };
        let normalized = if starts_with_char(anchored, '/') {
            anchored.skip(1)
        } else {
            anchored
        };
        Ok(BorgPatternView::Shell(normalized))
    }
}

/// Converts a gitignore pattern into a borg pattern; fails on negation.
pub fn gitignore_to_borg(g: &GitIgnorePattern) -> (r: Result<BorgPattern, &'static str>)
    ensures
        match r {
            Ok(p) => spec_gitignore_to_borg(g@) == Ok::<BorgPatternView, Seq<char>>(p@),
            Err(e) => spec_gitignore_to_borg(g@) == Err::<BorgPatternView, Seq<char>>(e@),
        },
{
    if first_char_is(&g.pattern, '!') {
        return Err("Negation is not supported");
    }
    let anchored = if !has_unescaped_slash(&g.pattern) {
        concat_str("**/", g.pattern.as_str())
    } else {
        g.pattern.clone()
    };
    let normalized = if first_char_is(&anchored, '/') {
        drop_first_char(&anchored)
    } else {
        anchored
    };
    Ok(BorgPattern::Shell(normalized))
}

/// `s` with a slash put in front unless one is already there.
pub open spec fn ensure_leading_slash(s: Seq<char>) -> Seq<char> {
    if starts_with_char(s, '/') {
        s
    } else {
        "/"@ + s
    }
}

/// `s` with a slash appended unless one is already there.
pub open spec fn ensure_trailing_slash(s: Seq<char>) -> Seq<char> {
    if ends_with_char(s, '/') {
        s
    } else {
        s.push('/')
    }
}

fn make_leading_slash(s: &String) -> (r: String)
    ensures
        r@ == ensure_leading_slash(s@),
{
    if first_char_is(s, '/') {
        s.clone()
    } else {
        concat_str("/", s.as_str())
    }
}

fn make_trailing_slash(s: String) -> (r: String)
    ensures
        r@ == ensure_trailing_slash(s@),
{
    if last_char_is(&s, '/') {
        s
    } else {
        let mut r = s;
        push_char(&mut r, '/');
        r
    }
}

/// Conversion of a borg pattern into a gitignore line. Only the shell,
/// path-prefix and path-full-match kinds convert; the result is anchored with
/// a leading slash, and a path-prefix additionally with a trailing slash.
pub open spec fn spec_borg_to_gitignore(p: BorgPatternView) -> Result<Seq<char>, Seq<char>> {
    match p {
        BorgPatternView::FnMatch(_) => Err("Cannot convert fnmatch pattern to gitignore pattern"@),
        BorgPatternView::Regex(_) => Err("Cannot convert regex pattern to gitignore pattern"@),
        BorgPatternView::Shell(s) => Ok(ensure_leading_slash(s)),
        BorgPatternView::PathPrefix(s) => Ok(ensure_trailing_slash(ensure_leading_slash(s))),
        BorgPatternView::PathFullMatch(s) => Ok(ensure_leading_slash(s)),
    }
}

/// Converts a borg pattern into a gitignore pattern; fails for the fnmatch
/// and regex kinds.
pub fn borg_to_gitignore(p: &BorgPattern) -> (r: Result<GitIgnorePattern, &'static str>)
    ensures
        match r {
            Ok(g) => spec_borg_to_gitignore(p@) == Ok::<Seq<char>, Seq<char>>(g@),
            Err(e) => spec_borg_to_gitignore(p@) == Err::<Seq<char>, Seq<char>>(e@),
        },
{
    match p {
        BorgPattern::FnMatch(_) => Err("Cannot convert fnmatch pattern to gitignore pattern"),
        BorgPattern::Regex(_) => Err("Cannot convert regex pattern to gitignore pattern"),
        BorgPattern::Shell(s) => Ok(GitIgnorePattern { pattern: make_leading_slash(s) }),
        BorgPattern::PathPrefix(s) => Ok(
            GitIgnorePattern { pattern: make_trailing_slash(make_leading_slash(s)) },
        ),
        BorgPattern::PathFullMatch(s) => Ok(GitIgnorePattern { pattern: make_leading_slash(s) }),
    }
}

/// Parsing a string as a gitignore pattern: a string with a borg kind prefix
/// is parsed as a borg pattern and converted; anything else is taken verbatim.
pub open spec fn spec_gitignore_from_string(s: Seq<char>) -> Result<Seq<char>, Seq<char>> {
    match spec_parse_borg(s) {
        Ok(p) => spec_borg_to_gitignore(p),
        Err(_) => Ok(s),
    }
}

/// Parses a gitignore pattern from a string, converting a borg-prefixed
/// string through the borg-to-gitignore rules.
pub fn gitignore_pattern_from_string(s: &String) -> (r: Result<GitIgnorePattern, &'static str>)
    ensures
        match r {
            Ok(g) => spec_gitignore_from_string(s@) == Ok::<Seq<char>, Seq<char>>(g@),
            Err(e) => spec_gitignore_from_string(s@) == Err::<Seq<char>, Seq<char>>(e@),
        },
{
    match borg_pattern_from_string(s) {
        Ok(p) => borg_to_gitignore(&p),
        Err(_) => Ok(GitIgnorePattern { pattern: s.clone() }),
    }
}

/// Replacement of `from` by `to` everywhere outside escapes: the text is
/// walked left to right, a backslash always escapes the following character
/// (both are emitted verbatim and never take part in a match), and every
/// other occurrence of `from` is replaced by `to`. A trailing backslash with
/// nothing after it is emitted as it stands.
pub open spec fn spec_replace_possibly_escaped(s: Seq<char>, from: Seq<char>, to: Seq<char>) -> Seq<
    char,
>
    decreases s.len(),
{
    if s.len() == 0 {
        Seq::empty()
    } else if s[0] == '\\' {
        if s.len() == 1 {
            s
        } else {
            seq![s[0], s[1]] + spec_replace_possibly_escaped(s.skip(2), from, to)
        }
    } else if 0 < from.len() <= s.len() && s.subrange(0, from.len() as int) == from {
        to + spec_replace_possibly_escaped(s.skip(from.len() as int), from, to)
    } else {
        seq![s[0]] + spec_replace_possibly_escaped(s.skip(1), from, to)
    }
}

fn match_at(a: &str, i: usize, pat: &str) -> (r: bool)
    requires
        i + pat@.len() <= a@.len(),
        a@.len() <= usize::MAX,
    ensures
        r == (a@.subrange(i as int, i as int + pat@.len() as int) == pat@),
{
    let m = pat.unicode_len();
    let mut j: usize = 0;
    while j < m
        invariant
            i + m <= a@.len(),
            a@.len() <= usize::MAX,
            m == pat@.len(),
            j <= m,
            forall|k: int| 0 <= k < j ==> a@[i + k] == pat@[k],
        decreases m - j,
    {
        if a.get_char(i + j) != pat.get_char(j) {
            proof {
                assert(a@.subrange(i as int, i as int + m as int)[j as int] == a@[i + j]);
            }
            return false;
        }
        j = j + 1;
    }
    proof {
        assert(a@.subrange(i as int, i as int + m as int) =~= pat@);
    }
    true
}

/// Replaces `from` by `to` everywhere outside backslash escapes.
pub fn replace_possibly_escaped(s: String, replace_from: &str, replace_to: &str) -> (r: String)
    requires
        replace_from@.len() > 0,
    ensures
        r@ == spec_replace_possibly_escaped(s@, replace_from@, replace_to@),
{
    let ghost f = replace_from@;
    let ghost t = replace_to@;
    let n = s.unicode_len();
    let m = replace_from.unicode_len();
    let a = s.as_str();
    let mut out = String::new();
    let mut i: usize = 0;
    proof {
        assert(s@.skip(0) =~= s@);
    }
    while i < n
        invariant
            n == s@.len(),
            m == f.len(),
            m > 0,
            a@ == s@,
            replace_from@ == f,
            replace_to@ == t,
            i <= n,
            spec_replace_possibly_escaped(s@, f, t) == out@ + spec_replace_possibly_escaped(
                s@.skip(i as int),
                f,
                t,
            ),
        decreases n - i,
    {
        let ghost rest = s@.skip(i as int);
        let ghost out_before = out@;
        let c = a.get_char(i);
        proof {
            assert(rest[0] == s@[i as int]);
        }
        if c == '\\' {
            if i + 1 < n {
                push_char(&mut out, c);
                push_char(&mut out, a.get_char(i + 1));
                proof {
                    assert(rest[1] == s@[i as int + 1]);
                    assert(rest.skip(2) =~= s@.skip(i as int + 2));
                    assert(out@ =~= out_before + seq![c, s@[i as int + 1]]);
                    assert(out_before + (seq![c, s@[i as int + 1]]
                        + spec_replace_possibly_escaped(rest.skip(2), f, t)) =~= out@
                        + spec_replace_possibly_escaped(s@.skip(i as int + 2), f, t));
                }
                i = i + 2;
            } else {
                push_char(&mut out, c);
                proof {
                    assert(rest =~= seq![c]);
                    assert(out@ =~= out_before + rest);
                    assert(s@.skip(i as int + 1) =~= Seq::<char>::empty());
                    assert(out_before + rest =~= out@ + spec_replace_possibly_escaped(
                        s@.skip(i as int + 1),
                        f,
                        t,
                    ));
                }
                i = i + 1;
            }
        } else {
            let matched = if m <= n - i {
                let mr = match_at(a, i, replace_from);
                proof {
                    assert(rest.subrange(0, m as int) =~= s@.subrange(
                        i as int,
                        i as int + m as int,
                    ));
                }
                mr
            } else {
                false
            };
            if matched {
                out.append(replace_to);
                proof {
                    assert(rest.skip(m as int) =~= s@.skip(i as int + m as int));
                    assert(out_before + (t + spec_replace_possibly_escaped(
                        rest.skip(m as int),
                        f,
                        t,
                    )) =~= out@ + spec_replace_possibly_escaped(s@.skip(i as int + m as int), f, t));
                }
                i = i + m;
            } else {
                push_char(&mut out, c);
                proof {
                    if m <= rest.len() {
                        assert(rest.subrange(0, m as int) =~= s@.subrange(
                            i as int,
                            i as int + m as int,
                        ));
                    }
                    assert(rest.skip(1) =~= s@.skip(i as int + 1));
                    assert(out@ =~= out_before + seq![c]);
                    assert(out_before + (seq![c] + spec_replace_possibly_escaped(
                        rest.skip(1),
                        f,
                        t,
                    )) =~= out@ + spec_replace_possibly_escaped(s@.skip(i as int + 1), f, t));
                }
                i = i + 1;
            }
        }
    }
    proof {
        assert(s@.skip(n as int) =~= Seq::<char>::empty());
        assert(out@ + Seq::<char>::empty() =~= out@);
    }
    out
}

/// Whether the character counts as blank space here: the ASCII space set.
pub open spec fn is_space_char(c: char) -> bool {
    c == ' ' || c == '\t' || c == '\r' || c == '\n' || c == '\u{000B}' || c == '\u{000C}'
}

/// A line of nothing but blank space (the empty line included).
pub open spec fn is_blank_line(s: Seq<char>) -> bool {
    forall|i: int| 0 <= i < s.len() ==> is_space_char(s[i])
}

/// A line that the gitignore reader keeps: neither a comment nor blank.
pub open spec fn keeps_line(s: Seq<char>) -> bool {
    !starts_with_char(s, '#') && !is_blank_line(s)
}

/// The gitignore lines kept, in order: comments and blank lines are omitted,
/// everything else (negation lines included) is retained verbatim.
pub open spec fn spec_read_gitignore(lines: Seq<Seq<char>>) -> Seq<Seq<char>>
    decreases lines.len(),
{
    if lines.len() == 0 {
        Seq::empty()
    } else if keeps_line(lines.last()) {
        spec_read_gitignore(lines.drop_last()).push(lines.last())
    } else {
        spec_read_gitignore(lines.drop_last())
    }
}

/// The characters of each string in the vector.
pub open spec fn strs_view(v: Seq<String>) -> Seq<Seq<char>> {
    v.map_values(|s: String| s@)
}

/// The characters of each gitignore pattern in the vector.
pub open spec fn gitignore_pats_view(v: Seq<GitIgnorePattern>) -> Seq<Seq<char>> {
    v.map_values(|p: GitIgnorePattern| p@)
}

fn line_is_blank(s: &String) -> (r: bool)
    ensures
        r == is_blank_line(s@),
{
    let n = s.unicode_len();
    let a = s.as_str();
    let mut i: usize = 0;
    while i < n
        invariant
            n == s@.len(),
            a@ == s@,
            i <= n,
            forall|j: int| 0 <= j < i ==> is_space_char(s@[j]),
        decreases n - i,
    {
        let c = a.get_char(i);
        if !(c == ' ' || c == '\t' || c == '\r' || c == '\n' || c == '\u{000B}' || c
            == '\u{000C}') {
            return false;
        }
        i = i + 1;
    }
    true
}

/// Reads gitignore patterns out of the lines of a gitignore file: blank lines
/// and comment lines are skipped, the remaining lines are kept verbatim.
pub fn read_gitignore(lines: &Vec<String>) -> (r: Vec<GitIgnorePattern>)
    ensures
        gitignore_pats_view(r@) == spec_read_gitignore(strs_view(lines@)),
{
    let mut r: Vec<GitIgnorePattern> = Vec::new();
    let mut i: usize = 0;
    proof {
        assert(strs_view(lines@.take(0)) =~= Seq::<Seq<char>>::empty());
        assert(gitignore_pats_view(r@) =~= spec_read_gitignore(strs_view(lines@.take(0))));
    }
    while i < lines.len()
        invariant
            i <= lines@.len(),
            gitignore_pats_view(r@) == spec_read_gitignore(strs_view(lines@.take(i as int))),
        decreases lines@.len() - i,
    {
        let ghost prefix = strs_view(lines@.take(i as int));
        let line = &lines[i];
        proof {
            assert(strs_view(lines@.take(i as int + 1)) =~= prefix.push(line@));
            assert(strs_view(lines@.take(i as int + 1)).drop_last() =~= prefix);
        }
        if !(first_char_is(line, '#') || line_is_blank(line)) {
            let ghost before = r@;
            r.push(GitIgnorePattern { pattern: line.clone() });
            proof {
                assert(gitignore_pats_view(r@) =~= gitignore_pats_view(before).push(line@));
            }
        }
        i = i + 1;
    }
    proof {
        assert(lines@.take(lines@.len() as int) =~= lines@);
    }
    r
}

/// Law: conversion to gitignore succeeds exactly for the shell, path-prefix
/// and path-full-match kinds; fnmatch and regex patterns are rejected.
pub proof fn lemma_borg_to_gitignore_domain(p: BorgPatternView)
    ensures
        spec_borg_to_gitignore(p) is Ok <==> (p matches BorgPatternView::Shell(_) || p matches
            BorgPatternView::PathPrefix(_) || p matches BorgPatternView::PathFullMatch(_)),
{
}

/// Law: a gitignore pattern that does not begin with `!` always converts to
/// a borg pattern of the shell kind; one that begins with `!` fails with the
/// negation error.
pub proof fn lemma_gitignore_to_borg_domain(g: Seq<char>)
    ensures
        !starts_with_char(g, '!') ==> (spec_gitignore_to_borg(g) matches Ok(p) && p matches
            BorgPatternView::Shell(_)),
        starts_with_char(g, '!') ==> spec_gitignore_to_borg(g) == Err::<BorgPatternView, Seq<char>>(
            "Negation is not supported"@,
        ),
{
}

/// Law: converting a shell, path-prefix or path-full-match borg pattern to
/// gitignore and back succeeds and yields a shell pattern whose payload is
/// the original payload up to normalization: one leading slash is removed,
/// and a path-prefix payload additionally gains a trailing slash unless its
/// normalized form is empty.
pub proof fn lemma_borg_gitignore_round_trip(p: BorgPatternView)
    requires
        p matches BorgPatternView::Shell(_) || p matches BorgPatternView::PathPrefix(_)
            || p matches BorgPatternView::PathFullMatch(_),
    ensures
        ({
            let g = spec_borg_to_gitignore(p);
            &&& g is Ok
            &&& spec_gitignore_to_borg(g->Ok_0) matches Ok(q)
            &&& (match p {
                BorgPatternView::Shell(s) => q == BorgPatternView::Shell(strip_leading_slash(s)),
                BorgPatternView::PathFullMatch(s) => q == BorgPatternView::Shell(
                    strip_leading_slash(s),
                ),
                BorgPatternView::PathPrefix(s) => q == BorgPatternView::Shell(
                    if strip_leading_slash(s).len() == 0 {
                        strip_leading_slash(s)
                    } else {
                        ensure_trailing_slash(strip_leading_slash(s))
                    },
                ),
                _ => false,
            })
        }),
{
    reveal_strlit("/");
    assert("/"@ =~= seq!['/']);
    let g = spec_borg_to_gitignore(p)->Ok_0;
    let s = match p {
        BorgPatternView::Shell(s) => s,
        BorgPatternView::PathPrefix(s) => s,
        BorgPatternView::PathFullMatch(s) => s,
        BorgPatternView::FnMatch(s) => s,
        BorgPatternView::Regex(s) => s,
    };
    let led = ensure_leading_slash(s);
    assert(starts_with_char(led, '/'));
    assert(starts_with_char(g, '/'));
    assert(g[0] != '!' && g[0] != '\\');
    assert(strip_escaped_slashes(g) =~= seq![g[0]] + strip_escaped_slashes(g.skip(1)));
    assert(contains_slash(strip_escaped_slashes(g))) by {
        assert((seq![g[0]] + strip_escaped_slashes(g.skip(1)))[0] == '/');
    }
    assert(spec_gitignore_to_borg(g) == Ok::<BorgPatternView, Seq<char>>(
        BorgPatternView::Shell(g.skip(1)),
    ));
    match p {
        BorgPatternView::Shell(s0) => {
            if starts_with_char(s0, '/') {
                assert(g.skip(1) == strip_leading_slash(s0));
            } else {
                assert((seq!['/'] + s0).skip(1) =~= s0);
            }
        },
        BorgPatternView::PathFullMatch(s0) => {
            if starts_with_char(s0, '/') {
                assert(g.skip(1) == strip_leading_slash(s0));
            } else {
                assert((seq!['/'] + s0).skip(1) =~= s0);
            }
        },
        BorgPatternView::PathPrefix(s0) => {
            let t = strip_leading_slash(s0);
            if starts_with_char(s0, '/') {
                assert(led == s0);
                assert(t =~= led.skip(1));
            } else {
                assert(led =~= seq!['/'] + s0);
                assert(t == s0);
                assert(led.skip(1) =~= t);
            }
            if t.len() == 0 {
                assert(led =~= seq!['/']);
                assert(ends_with_char(led, '/'));
                assert(g == led);
                assert(g.skip(1) =~= t);
            } else {
                assert(led.len() == t.len() + 1);
                assert(led[led.len() - 1] == t[t.len() - 1]);
                if ends_with_char(t, '/') {
                    assert(ends_with_char(led, '/'));
                    assert(g == led);
                    assert(g.skip(1) == t);
                    assert(ensure_trailing_slash(t) == t);
                } else {
                    assert(!ends_with_char(led, '/'));
                    assert(g == led.push('/'));
                    assert(g.skip(1) =~= t.push('/'));
                    assert(ensure_trailing_slash(t) == t.push('/'));
                }
            }
        },
        _ => {},
    }
}

/// `s` without its leading slash, when one is there.
pub open spec fn strip_leading_slash(s: Seq<char>) -> Seq<char> {
    if starts_with_char(s, '/') {
        s.skip(1)
    } else {
        s
    }
}

} // verus!
