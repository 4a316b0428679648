//! The command surface: the parsed flags, the rename-pair syntax, and
//! the rule that picks exactly one action per invocation.

use vstd::prelude::*;

use crate::model::RenameArgs;
use crate::text::{find_char, lemma_find_char, lemma_find_char_is};

verus! {

impl RenameArgs {
    /// Splits `old,new` at the first comma; everything after it, more
    /// commas included, is the new name.  `None` when no comma occurs.
    pub fn from_str(s: &str) -> (r: Option<RenameArgs>)
        ensures
            match find_char(s@, ',') {
                Some(p) => r matches Some(ra) && ra.0@ == s@.subrange(0, p as int) && ra.1@
                    == s@.subrange(p as int + 1, s@.len() as int),
                None => r is None,
            },
    {
        let n = s.unicode_len();
        let mut i: usize = 0;
        while i < n
            invariant
                i <= n,
                n == s@.len(),
                forall|j: int| 0 <= j < i ==> s@[j] != ',',
            decreases n - i,
        {
            if s.get_char(i) == ',' {
                proof {
                    lemma_find_char_is(s@, ',', i as int);
                }
                let old_name = s.substring_char(0, i);
                let new_name = s.substring_char(i + 1, n);
                return Some(
                    RenameArgs(String::from_str(old_name), String::from_str(new_name)),
                );
            }
            i = i + 1;
        }
        proof {
            lemma_find_char(s@, ',');
            match find_char(s@, ',') {
                Some(p) => {
                    assert(s@[p as int] != ',');
                },
                None => {},
            }
        }
        None
    }
}

/// The parsed command line: at most one action flag is honoured, in
/// the fixed priority `action_of` states.
pub struct Args {
    pub switchcontext: bool,
    pub currentcontext: bool,
    pub delete: Option<String>,
    pub rename: Option<RenameArgs>,
    pub vault_context: Option<String>,
}

/// The one operation an invocation performs.
pub enum Action {
    /// Print the active context's name.
    ShowCurrent,
    /// Switch back to the previous context.
    SwitchPrevious,
    /// Delete every profile with this name.
    Delete(String),
    /// Select the profile with this name.
    Select(String),
    /// Rename the first profile with the old name.
    Rename(RenameArgs),
    /// List the stored profile names.
    List,
}

/// Picks the action: show-current wins, then switch-to-previous, then
/// delete, then select-by-name, then rename; with nothing given, list.
pub fn action_of(args: Args) -> (a: Action)
    ensures
        args.currentcontext ==> a is ShowCurrent,
        !args.currentcontext && args.switchcontext ==> a is SwitchPrevious,
        !args.currentcontext && !args.switchcontext && args.delete is Some ==> (a matches
            Action::Delete(n) && n@ == args.delete->0@),
        !args.currentcontext && !args.switchcontext && args.delete is None
            && args.vault_context is Some ==> (a matches Action::Select(n) && n@
            == args.vault_context->0@),
        !args.currentcontext && !args.switchcontext && args.delete is None
            && args.vault_context is None && args.rename is Some ==> (a matches Action::Rename(ra)
            && ra.0@ == (args.rename->0).0@ && ra.1@ == (args.rename->0).1@),
        !args.currentcontext && !args.switchcontext && args.delete is None
            && args.vault_context is None && args.rename is None ==> a is List,
{
    if args.currentcontext {
        Action::ShowCurrent
    } else if args.switchcontext {
        Action::SwitchPrevious
    } else if let Some(name) = args.delete {
        Action::Delete(name)
    } else if let Some(name) = args.vault_context {
        Action::Select(name)
    } else if let Some(pair) = args.rename {
        Action::Rename(pair)
    } else {
        Action::List
    }
}

} // verus!
