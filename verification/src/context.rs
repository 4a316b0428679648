//! The activation state machine: what a selection or a switch back to
//! the previous context must do to the two state files.  The caller
//! reads the files and performs the writes; the decisions are here.
//!
//! The current environment file doubles as the record of the active
//! context: its name is parsed back out of the file's first
//! `export VAULT_CONTEXT='...'` line.

use vstd::prelude::*;

use crate::model::SharedData;
use crate::render::{render, render_spec};
use crate::store::find_profile;
use crate::text::{
    find_char, lemma_find_char, lemma_find_char_is, lemma_rfind_char, lemma_rfind_char_is,
    rfind_char, starts_with, str_starts_with,
};

verus! {

/// The start of the line that records the active context's name.
pub open spec fn ctx_prefix() -> Seq<char> {
    "export VAULT_CONTEXT='"@
}

/// The first line of `s` that starts with the context prefix.  A line
/// is everything up to the next newline, or to the end of the text.
pub open spec fn first_ctx_line(s: Seq<char>) -> Option<Seq<char>>
    decreases s.len(),
{
    if s.len() == 0 {
        None
    } else {
        match find_char(s, '\n') {
            Some(p) => {
                let line = s.take(p as int);
                if starts_with(line, ctx_prefix()) {
                    Some(line)
                } else if p + 1 <= s.len() {
                    first_ctx_line(s.skip(p as int + 1))
                } else {
                    None
                }
            },
            None => if starts_with(s, ctx_prefix()) {
                Some(s)
            } else {
                None
            },
        }
    }
}

/// The active context's name recorded in environment-file text: what
/// stands between the prefix and the last single quote of the first
/// context line.  `None` when no context line exists or when its only
/// quote is the prefix's own.
pub open spec fn current_context_spec(s: Seq<char>) -> Option<Seq<char>> {
    match first_ctx_line(s) {
        Some(line) => match rfind_char(line, '\'') {
            Some(e) => if ctx_prefix().len() <= e {
                Some(line.subrange(ctx_prefix().len() as int, e as int))
            } else {
                None
            },
            None => None,
        },
        None => None,
    }
}

fn line_end(s: &str, start: usize, n: usize) -> (j: usize)
    requires
        n == s@.len(),
        start <= n,
    ensures
        start <= j <= n,
        forall|k: int| start <= k < j ==> s@[k] != '\n',
        j < n ==> s@[j as int] == '\n',
{
    let mut j: usize = start;
    while j < n && s.get_char(j) != '\n'
        invariant
            n == s@.len(),
            start <= j <= n,
            forall|k: int| start <= k < j ==> s@[k] != '\n',
        decreases n - j,
    {
        j = j + 1;
    }
    j
}

fn ctx_line_value(line: &str) -> (r: Option<String>)
    ensures
        r.deep_view() == match rfind_char(line@, '\'') {
            Some(e) => if 22 <= e {
                Some(line@.subrange(22, e as int))
            } else {
                None::<Seq<char>>
            },
            None => None::<Seq<char>>,
        },
{
    let m = line.unicode_len();
    let mut k: usize = m;
    while k > 0
        invariant
            m == line@.len(),
            k <= m,
            forall|t: int| k <= t < m ==> line@[t] != '\'',
        decreases k,
    {
        let kk = k - 1;
        if line.get_char(kk) == '\'' {
            proof {
                lemma_rfind_char_is(line@, '\'', kk as int);
            }
            if kk >= 22 {
                let val = line.substring_char(22, kk);
                return Some(String::from_str(val));
            }
            return None;
        }
        k = kk;
    }
    proof {
        lemma_rfind_char(line@, '\'');
        match rfind_char(line@, '\'') {
            Some(e) => {
                assert(line@[e as int] != '\'');
            },
            None => {},
        }
    }
    None
}

/// Reads the recorded context name out of environment-file text.
pub fn current_context_of(s: &str) -> (r: Option<String>)
    ensures
        r.deep_view() == current_context_spec(s@),
{
    let n = s.unicode_len();
    let mut start: usize = 0;
    proof {
        assert(s@.skip(0) =~= s@);
    }
    while start < n
        invariant
            start <= n,
            n == s@.len(),
            first_ctx_line(s@) == first_ctx_line(s@.skip(start as int)),
        decreases n - start,
    {
        let ghost u = s@.skip(start as int);
        let j = line_end(s, start, n);
        let line = s.substring_char(start, j);
        proof {
            assert(line@ =~= u.take(j - start as int));
            if j < n {
                assert(u[j - start as int] == s@[j as int]);
                assert forall|k: int| 0 <= k < j - start implies u[k] != '\n' by {
                    assert(u[k] == s@[start + k]);
                }
                lemma_find_char_is(u, '\n', j - start as int);
            } else {
                assert forall|k: int| 0 <= k < u.len() implies u[k] != '\n' by {
                    assert(u[k] == s@[start + k]);
                }
                lemma_find_char(u, '\n');
                match find_char(u, '\n') {
                    Some(p) => {
                        assert(u[p as int] == '\n');
                    },
                    None => {},
                }
                assert(line@ =~= u);
            }
        }
        if str_starts_with(line, "export VAULT_CONTEXT='") {
            proof {
                assert(first_ctx_line(u) == Some(line@));
                reveal_strlit("export VAULT_CONTEXT='");
                assert(ctx_prefix().len() == 22);
            }
            return ctx_line_value(line);
        }
        if j == n {
            return None;
        }
        proof {
            assert(s@.skip(j + 1) =~= u.skip(j - start + 1));
        }
        start = j + 1;
    }
    proof {
        assert(s@.skip(start as int) =~= s@.skip(n as int));
    }
    None
}

/// What selecting a profile by name must do to the state files.
pub struct SelectPlan {
    /// The profile exists and the switch goes ahead.  On a miss the
    /// caller reports the name and re-runs the store file seeding as
    /// a fallback recovery, which an existing store survives intact.
    pub found: bool,
    /// New content of the current environment file, when found.
    pub new_env_file: Option<String>,
    /// Name to record in the previous-context marker: whatever was
    /// active so far, left alone when nothing was.
    pub new_previous: Option<String>,
}

/// Decides a selection: look the name up, render the profile, and
/// snapshot the currently recorded context into the marker.
pub fn plan_select(data: &SharedData, name: &str, env_file: Option<&str>) -> (p: SelectPlan)
    ensures
        ({
            let cs = data.configs.deep_view();
            let f = find_profile(cs, name@);
            let snap = match env_file {
                Some(e) => current_context_spec(e@),
                None => None::<Seq<char>>,
            };
            &&& p.found == (f is Some)
            &&& p.new_env_file.deep_view() == (match f {
                Some(i) => Some(render_spec(cs[i as int])),
                None => None::<Seq<char>>,
            })
            &&& p.new_previous.deep_view() == (if f is Some {
                snap
            } else {
                None::<Seq<char>>
            })
        }),
{
    match data.find_by_name(name) {
        Some(c) => {
            let block = render(c);
            let prev = match env_file {
                Some(e) => current_context_of(e),
                None => None,
            };
            SelectPlan { found: true, new_env_file: Some(block), new_previous: prev }
        },
        None => SelectPlan { found: false, new_env_file: None, new_previous: None },
    }
}

/// What switching back to the previous context must do.
pub struct RecallPlan {
    /// Name to record in the previous-context marker: the context
    /// recorded in the environment file, left alone when none is.
    pub new_previous: Option<String>,
    /// The name being switched back to, if any: the snapshot just
    /// taken, or failing that the marker already on disk.
    pub restored: Option<String>,
    /// New content of the current environment file.  A restore writes
    /// an empty block rather than re-resolving the profile's fields, a
    /// known limitation of the switch-back path; `None` when there is
    /// nothing to restore, in which case nothing is written at all.
    pub new_env_file: Option<String>,
}

/// Decides a switch to the previous context: snapshot the recorded
/// context first, then restore whatever the marker now names.
pub fn plan_recall(env_file: Option<&str>, marker: Option<&str>) -> (p: RecallPlan)
    ensures
        ({
            let snap = match env_file {
                Some(e) => current_context_spec(e@),
                None => None::<Seq<char>>,
            };
            let effective = if snap is Some {
                snap
            } else {
                match marker {
                    Some(m) => Some(m@),
                    None => None::<Seq<char>>,
                }
            };
            &&& p.new_previous.deep_view() == snap
            &&& p.restored.deep_view() == effective
            &&& p.new_env_file.deep_view() == (if effective is Some {
                Some(Seq::<char>::empty())
            } else {
                None::<Seq<char>>
            })
        }),
{
    let snap: Option<String> = match env_file {
        Some(e) => current_context_of(e),
        None => None,
    };
    let restored: Option<String> = match (&snap, marker) {
        (Some(s), _) => Some(s.clone()),
        (None, Some(m)) => Some(String::from_str(m)),
        (None, None) => None,
    };
    let new_env_file: Option<String> = match &restored {
        Some(_) => Some(String::new()),
        None => None,
    };
    RecallPlan { new_previous: snap, restored, new_env_file }
}

} // verus!
