//! Cross-platform text literals used by tests (paths, file URIs, line
//! endings), and the argument and attribute rules of the `perf` test marker.
//!
//! Each text function takes whether the target is Windows; on other targets
//! the text is returned unchanged.
use vstd::prelude::*;

verus! {

/// `s` with every occurrence of `pat` replaced by `rep`, scanning from the left
/// and never matching inside a replacement or an earlier match.
pub open spec fn replace_all(s: Seq<char>, pat: Seq<char>, rep: Seq<char>) -> Seq<char>
    decreases s.len(),
{
    if s.len() == 0 {
        Seq::empty()
    } else if 0 < pat.len() <= s.len() && s.take(pat.len() as int) == pat {
        rep + replace_all(s.skip(pat.len() as int), pat, rep)
    } else {
        seq![s[0]] + replace_all(s.skip(1), pat, rep)
    }
}

/// A Windows path: forward slashes become backslashes, and a path that then
/// starts with a backslash is put on drive `C:`.
pub open spec fn windows_path(s: Seq<char>) -> Seq<char> {
    let r = replace_all(s, seq!['/'], seq!['\\']);
    if r.len() > 0 && r[0] == '\\' {
        seq!['C', ':'] + r
    } else {
        r
    }
}

/// Whether `a` and `b` hold the same characters.
pub fn str_eq(a: &str, b: &str) -> (r: bool)
    ensures
        r == (a@ == b@),
{
    let n = a.unicode_len();
    let m = b.unicode_len();
    if n != m {
        return false;
    }
    let mut i: usize = 0;
    while i < n
        invariant
            n == a@.len(),
            m == b@.len(),
            n == m,
            i <= n,
            a@.take(i as int) == b@.take(i as int),
        decreases n - i,
    {
        if a.get_char(i) != b.get_char(i) {
            return false;
        }
        proof {
            assert(a@.take(i + 1) =~= a@.take(i as int).push(a@[i as int]));
            assert(b@.take(i + 1) =~= b@.take(i as int).push(b@[i as int]));
        }
        i = i + 1;
    }
    proof {
        assert(a@.take(n as int) =~= a@);
        assert(b@.take(n as int) =~= b@);
    }
    true
}

/// Whether `pat` occurs in `s` at character index `i`.
fn matches_at(s: &str, n: usize, pat: &str, m: usize, i: usize) -> (r: bool)
    requires
        n == s@.len(),
        m == pat@.len(),
        i <= n,
    ensures
        r == (i + m <= n && s@.subrange(i as int, i + m) == pat@),
{
    if m > n - i {
        return false;
    }
    let mut j: usize = 0;
    while j < m
        invariant
            n == s@.len(),
            m == pat@.len(),
            i + m <= n,
            j <= m,
            s@.subrange(i as int, i + j) == pat@.take(j as int),
        decreases m - j,
    {
        if s.get_char(i + j) != pat.get_char(j) {
            proof {
                assert(s@.subrange(i as int, i + m)[j as int] == s@[i + j]);
            }
            return false;
        }
        proof {
            assert(s@.subrange(i as int, i + j + 1) =~= s@.subrange(i as int, i + j).push(s@[i + j]));
            assert(pat@.take(j + 1) =~= pat@.take(j as int).push(pat@[j as int]));
        }
        j = j + 1;
    }
    proof {
        assert(pat@.take(m as int) =~= pat@);
    }
    true
}

/// Replace every occurrence of the non-empty `pat` in `s` by `rep`.
pub fn replace_str(s: &str, pat: &str, rep: &str) -> (r: String)
    requires
        pat@.len() > 0,
    ensures
        r@ == replace_all(s@, pat@, rep@),
{
    let n = s.unicode_len();
    let m = pat.unicode_len();
    let mut out = String::new();
    let mut i: usize = 0;
    proof {
        assert(s@.skip(0) =~= s@);
        assert(out@ + replace_all(s@, pat@, rep@) =~= replace_all(s@, pat@, rep@));
    }
    while i < n
        invariant
            n == s@.len(),
            m == pat@.len(),
            m > 0,
            i <= n,
            out@ + replace_all(s@.skip(i as int), pat@, rep@) == replace_all(s@, pat@, rep@),
        decreases n - i,
    {
        let ghost rest = s@.skip(i as int);
        if matches_at(s, n, pat, m, i) {
            proof {
                assert(rest.take(m as int) =~= s@.subrange(i as int, i + m));
                assert(rest.skip(m as int) =~= s@.skip(i + m));
                assert(replace_all(rest, pat@, rep@) == rep@ + replace_all(rest.skip(m as int), pat@, rep@));
                assert(out@ + rep@ + replace_all(s@.skip(i + m), pat@, rep@) =~= out@ + (rep@ + replace_all(
                    s@.skip(i + m),
                    pat@,
                    rep@,
                )));
            }
            out.append(rep);
            i = i + m;
        } else {
            let c = s.substring_char(i, i + 1);
            proof {
                assert(rest.len() > 0);
                if m <= rest.len() {
                    assert(rest.take(m as int) =~= s@.subrange(i as int, i + m));
                }
                assert(rest.skip(1) =~= s@.skip(i + 1));
                assert(c@ =~= seq![rest[0]]);
                assert(replace_all(rest, pat@, rep@) == seq![rest[0]] + replace_all(rest.skip(1), pat@, rep@));
                assert(out@ + c@ + replace_all(s@.skip(i + 1), pat@, rep@) =~= out@ + (c@ + replace_all(
                    s@.skip(i + 1),
                    pat@,
                    rep@,
                )));
            }
            out.append(c);
            i = i + 1;
        }
    }
    proof {
        assert(s@.skip(n as int) =~= Seq::<char>::empty());
        assert(out@ + Seq::<char>::empty() =~= out@);
    }
    out
}

/// A path literal for the target: on Windows, `/` becomes `\` and an absolute
/// path is put on drive `C:`; elsewhere the path is returned unmodified.
pub fn path(input: &str, windows: bool) -> (r: String)
    ensures
        r@ == if windows { windows_path(input@) } else { input@ },
{
    if !windows {
        return String::from_str(input);
    }
    proof {
        reveal_strlit("/");
        reveal_strlit("\\");
        reveal_strlit("C:");
        assert("/"@ =~= seq!['/']);
        assert("\\"@ =~= seq!['\\']);
        assert("C:"@ =~= seq!['C', ':']);
    }
    let replaced = replace_str(input, "/", "\\");
    let len = replaced.as_str().unicode_len();
    if len > 0 && replaced.as_str().get_char(0) == '\\' {
        String::from_str("C:").concat(replaced.as_str())
    } else {
        replaced
    }
}

/// A file URI for the target: on Windows, `file:///` becomes `file:///C:/`;
/// elsewhere the URI is returned as is.
pub fn uri(input: &str, windows: bool) -> (r: String)
    ensures
        r@ == if windows { replace_all(input@, "file:///"@, "file:///C:/"@) } else { input@ },
{
    if !windows {
        return String::from_str(input);
    }
    proof {
        reveal_strlit("file:///");
    }
    replace_str(input, "file:///", "file:///C:/")
}

/// Text with line endings for the target: on Windows, `\n` becomes `\r\n`;
/// elsewhere the text is returned as is.
pub fn line_endings(input: &str, windows: bool) -> (r: String)
    ensures
        r@ == if windows { replace_all(input@, seq!['\n'], seq!['\r', '\n']) } else { input@ },
{
    if !windows {
        return String::from_str(input);
    }
    proof {
        reveal_strlit("\n");
        reveal_strlit("\r\n");
        assert("\n"@ =~= seq!['\n']);
        assert("\r\n"@ =~= seq!['\r', '\n']);
    }
    replace_str(input, "\n", "\r\n")
}

/// Replacing a one-character pattern by text that lacks that character leaves
/// none of it.
pub proof fn lemma_replaced_char_gone(s: Seq<char>, c: char, rep: Seq<char>)
    requires
        !rep.contains(c),
    ensures
        !replace_all(s, seq![c], rep).contains(c),
    decreases s.len(),
{
    if s.len() > 0 {
        lemma_replaced_char_gone(s.skip(1), c, rep);
        let rest = replace_all(s.skip(1), seq![c], rep);
        if s.take(1) == seq![c] {
            assert forall|k: int| 0 <= k < (rep + rest).len() implies (rep + rest)[k] != c by {
                if k < rep.len() {
                    assert(rep[k] == (rep + rest)[k]);
                } else {
                    assert(rest[k - rep.len()] == (rep + rest)[k]);
                }
            }
        } else {
            assert(s[0] != c) by {
                if s[0] == c {
                    assert(s.take(1) =~= seq![c]);
                }
            }
            assert forall|k: int| 0 <= k < (seq![s[0]] + rest).len() implies (seq![s[0]] + rest)[k] != c by {
                if k > 0 {
                    assert(rest[k - 1] == (seq![s[0]] + rest)[k]);
                }
            }
        }
    }
}

/// Replacing a character that does not occur changes nothing.
pub proof fn lemma_replace_absent_char(s: Seq<char>, c: char, rep: Seq<char>)
    requires
        !s.contains(c),
    ensures
        replace_all(s, seq![c], rep) == s,
    decreases s.len(),
{
    if s.len() > 0 {
        assert(!s.skip(1).contains(c)) by {
            if s.skip(1).contains(c) {
                let k = choose|k: int| 0 <= k < s.skip(1).len() && s.skip(1)[k] == c;
                assert(s[k + 1] == c);
            }
        }
        lemma_replace_absent_char(s.skip(1), c, rep);
        assert(s.take(1) != seq![c]) by {
            if s.take(1) == seq![c] {
                assert(s.take(1)[0] == s[0]);
            }
        }
        assert(seq![s[0]] + s.skip(1) =~= s);
    }
}

/// A Windows path holds no forward slash.
pub proof fn lemma_windows_path_has_no_slash(s: Seq<char>)
    ensures
        !windows_path(s).contains('/'),
{
    lemma_replaced_char_gone(s, '/', seq!['\\']);
    let r = replace_all(s, seq!['/'], seq!['\\']);
    if r.len() > 0 && r[0] == '\\' {
        assert forall|k: int| 0 <= k < (seq!['C', ':'] + r).len() implies (seq!['C', ':'] + r)[k] != '/' by {
            if k >= 2 {
                assert((seq!['C', ':'] + r)[k] == r[k - 2]);
            }
        }
    }
}

/// Turning a path into a Windows path twice is the same as doing it once.
pub proof fn lemma_windows_path_idempotent(s: Seq<char>)
    ensures
        windows_path(windows_path(s)) == windows_path(s),
{
    let w = windows_path(s);
    lemma_windows_path_has_no_slash(s);
    lemma_replace_absent_char(w, '/', seq!['\\']);
    let r = replace_all(s, seq!['/'], seq!['\\']);
    if r.len() > 0 && r[0] == '\\' {
        assert(w[0] == 'C');
    }
}

/// With Windows line endings every line feed follows a carriage return.
pub proof fn lemma_crlf_line_feeds(s: Seq<char>)
    ensures
        ({
            let r = replace_all(s, seq!['\n'], seq!['\r', '\n']);
            forall|k: int| #![trigger r[k]] 0 <= k < r.len() && r[k] == '\n' ==> k > 0 && r[k - 1] == '\r'
        }),
    decreases s.len(),
{
    if s.len() > 0 {
        lemma_crlf_line_feeds(s.skip(1));
        let rest = replace_all(s.skip(1), seq!['\n'], seq!['\r', '\n']);
        let r = replace_all(s, seq!['\n'], seq!['\r', '\n']);
        if s.take(1) == seq!['\n'] {
            assert(r == seq!['\r', '\n'] + rest);
            assert forall|k: int| #![trigger r[k]] 0 <= k < r.len() && r[k] == '\n' implies k > 0 && r[k - 1] == '\r' by {
                if k >= 2 {
                    assert(r[k] == rest[k - 2]);
                    if k - 2 > 0 {
                        assert(r[k - 1] == rest[k - 3]);
                    } else {
                        assert(rest[0] == '\n');
                    }
                }
            }
        } else {
            assert(s[0] != '\n') by {
                if s[0] == '\n' {
                    assert(s.take(1) =~= seq!['\n']);
                }
            }
            assert(r == seq![s[0]] + rest);
            assert forall|k: int| #![trigger r[k]] 0 <= k < r.len() && r[k] == '\n' implies k > 0 && r[k - 1] == '\r' by {
                if k >= 1 {
                    assert(r[k] == rest[k - 1]);
                    if k - 1 > 0 {
                        assert(r[k - 1] == rest[k - 2]);
                    } else {
                        assert(rest[0] == '\n');
                    }
                }
            }
        }
    }
}

/// How `perf` treats an argument of its attribute.
#[derive(Clone, Copy, Debug, PartialEq, Eq, Structural)]
pub enum PerfArgument {
    /// `iterations = N` or `weight = N`: the value is parsed and ignored.
    Valued,
    /// An importance level (`critical`, `important`, `average`, `iffy`,
    /// `fluff`): accepted and ignored.
    Level,
    /// Anything else: rejected with "unexpected identifier".
    Unexpected,
}

pub open spec fn perf_argument_of(name: Seq<char>) -> PerfArgument {
    if name == "iterations"@ || name == "weight"@ {
        PerfArgument::Valued
    } else if name == "critical"@ || name == "important"@ || name == "average"@ || name == "iffy"@ || name
        == "fluff"@ {
        PerfArgument::Level
    } else {
        PerfArgument::Unexpected
    }
}

/// Classify an argument of the `perf` attribute by its identifier.
pub fn perf_argument(name: &str) -> (r: PerfArgument)
    ensures
        r == perf_argument_of(name@),
        r == PerfArgument::Valued <==> (name@ == "iterations"@ || name@ == "weight"@),
        r == PerfArgument::Level <==> (name@ == "critical"@ || name@ == "important"@ || name@ == "average"@
            || name@ == "iffy"@ || name@ == "fluff"@),
{
    proof {
        reveal_strlit("iterations");
        reveal_strlit("weight");
        reveal_strlit("critical");
        reveal_strlit("important");
        reveal_strlit("average");
        reveal_strlit("iffy");
        reveal_strlit("fluff");
        assert("iterations"@.len() == 10 && "weight"@.len() == 6);
        assert("critical"@.len() == 8 && "important"@.len() == 9 && "average"@.len() == 7);
        assert("iffy"@.len() == 4 && "fluff"@.len() == 5);
    }
    if str_eq(name, "iterations") || str_eq(name, "weight") {
        PerfArgument::Valued
    } else if str_eq(name, "critical") || str_eq(name, "important") || str_eq(name, "average") || str_eq(
        name,
        "iffy",
    ) || str_eq(name, "fluff") {
        PerfArgument::Level
    } else {
        PerfArgument::Unexpected
    }
}

/// Whether one of the attributes (given by the last segment of its path) is
/// already a `test` attribute.
pub open spec fn has_test_attribute(last_segments: Seq<String>) -> bool {
    exists|k: int| 0 <= k < last_segments.len() && #[trigger] last_segments[k]@ == "test"@
}

/// The attributes of a `perf` test function: its own attributes (whose paths
/// end in `last_segments`), then `test_attribute` unless one of them is
/// already a test attribute, then `allow_attribute` (`allow(non_snake_case)`).
/// The arguments of `perf` itself change nothing here.
pub fn apply_perf_attributes<T>(attrs: Vec<T>, last_segments: &Vec<String>, test_attribute: T, allow_attribute: T) -> (r: Vec<T>)
    requires
        attrs.len() == last_segments.len(),
    ensures
        r@ == attrs@ + if has_test_attribute(last_segments@) {
            seq![allow_attribute]
        } else {
            seq![test_attribute, allow_attribute]
        },
{
    let mut found = false;
    let mut k: usize = 0;
    while k < last_segments.len()
        invariant
            k <= last_segments@.len(),
            found == exists|j: int| 0 <= j < k && #[trigger] last_segments@[j]@ == "test"@,
        decreases last_segments@.len() - k,
    {
        if str_eq(last_segments[k].as_str(), "test") {
            found = true;
        }
        k = k + 1;
    }
    let ghost before = attrs@;
    let mut r = attrs;
    if !found {
        r.push(test_attribute);
    }
    r.push(allow_attribute);
    proof {
        if found {
            assert(r@ =~= before + seq![allow_attribute]);
        } else {
            assert(r@ =~= before + seq![test_attribute, allow_attribute]);
        }
    }
    r
}

} // verus!
