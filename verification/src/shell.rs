//! Shell startup-file integration: a guard line is appended to an rc
//! file unless the file already contains it, so that the user's shell
//! sources the generated environment file exactly once.

use vstd::prelude::*;

verus! {

/// `sub` occurs in `s` starting at index `i`.
pub open spec fn matches_at(s: Seq<char>, sub: Seq<char>, i: int) -> bool {
    0 <= i && i + sub.len() <= s.len() && s.subrange(i, i + sub.len() as int) == sub
}

/// `sub` occurs somewhere in `s`.
pub open spec fn has_substring(s: Seq<char>, sub: Seq<char>) -> bool {
    exists|i: int| matches_at(s, sub, i)
}

/// What an rc file must hold afterwards: unchanged if the line already
/// occurs in it, otherwise the line plus a newline appended.
pub open spec fn ensure_sourced_spec(content: Seq<char>, line: Seq<char>) -> Seq<char> {
    if has_substring(content, line) {
        content
    } else {
        content + line + "\n"@
    }
}

fn match_at(s: &str, sub: &str, i: usize, n: usize, m: usize) -> (r: bool)
    requires
        n == s@.len(),
        m == sub@.len(),
        i + m <= n,
    ensures
        r == matches_at(s@, sub@, i as int),
{
    let mut j: usize = 0;
    while j < m
        invariant
            n == s@.len(),
            m == sub@.len(),
            i + m <= n,
            j <= m,
            forall|k: int| 0 <= k < j ==> s@[i + k] == sub@[k],
        decreases m - j,
    {
        if s.get_char(i + j) != sub.get_char(j) {
            proof {
                assert(s@.subrange(i as int, i as int + m)[j as int] != sub@[j as int]);
            }
            return false;
        }
        j = j + 1;
    }
    proof {
        assert(s@.subrange(i as int, i as int + m) =~= sub@);
    }
    true
}

/// Decides `has_substring` by a scan over every start position.
pub fn contains_sub(s: &str, sub: &str) -> (r: bool)
    ensures
        r == has_substring(s@, sub@),
{
    let n = s.unicode_len();
    let m = sub.unicode_len();
    if m > n {
        return false;
    }
    let mut i: usize = 0;
    while i <= n - m
        invariant
            n == s@.len(),
            m == sub@.len(),
            m <= n,
            i <= n - m + 1,
            forall|k: int| 0 <= k < i ==> !matches_at(s@, sub@, k),
        decreases n - m - i + 1,
    {
        if match_at(s, sub, i, n, m) {
            return true;
        }
        proof {
            if m == 0 {
                assert(s@.subrange(i as int, i as int) =~= sub@);
            }
        }
        i = i + 1;
    }
    proof {
        assert forall|k: int| !matches_at(s@, sub@, k) by {
            if 0 <= k && k + sub@.len() <= s@.len() {
                assert(k < i);
            }
        }
    }
    false
}

/// Returns the rc file's content with the guard line present: unchanged
/// when the line already occurs, otherwise with the line appended.
pub fn ensure_sourced(content: &str, line: &str) -> (r: String)
    ensures
        r@ == ensure_sourced_spec(content@, line@),
{
    if contains_sub(content, line) {
        String::from_str(content)
    } else {
        let mut out = String::from_str(content);
        out.append(line);
        out.append("\n");
        out
    }
}

/// The guard line that makes a shell source the environment file.
pub fn vctx_source_line() -> (r: &'static str)
    ensures
        r@ == "[ -f ~/.vctx ] && source ~/.vctx"@,
{
    "[ -f ~/.vctx ] && source ~/.vctx"
}

/// Appending the guard line is idempotent: once the line is in the rc
/// file, running the integration again leaves the file unchanged.
pub proof fn lemma_ensure_sourced_idempotent(content: Seq<char>, line: Seq<char>)
    ensures
        ensure_sourced_spec(ensure_sourced_spec(content, line), line) == ensure_sourced_spec(
            content,
            line,
        ),
{
    if !has_substring(content, line) {
        let once = ensure_sourced_spec(content, line);
        assert(once.subrange(content.len() as int, content.len() + line.len() as int) =~= line);
        assert(matches_at(once, line, content.len() as int));
    }
}

} // verus!
