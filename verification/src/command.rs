//! Debug-server commands: an immutable command name plus ordered arguments,
//! owned values with no lifetime dependency on a device.

use vstd::prelude::*;

use crate::error::Error;
use crate::marshal::{check_nul_free, nul_free};

verus! {

/// The characters that separate tokens in a command line.
pub open spec fn is_break(c: char) -> bool {
    c == ' ' || c == '\t' || c == '\n' || c == '\r'
}

/// The length of the leading unbroken run of `s`: the first token ends here.
pub open spec fn token_end(s: Seq<char>) -> int
    decreases s.len(),
{
    if s.len() == 0 {
        0
    } else if is_break(s[0]) {
        0
    } else {
        1 + token_end(s.drop_first())
    }
}

pub proof fn lemma_token_end_bounds(s: Seq<char>)
    ensures
        0 <= token_end(s) <= s.len(),
        s.len() > 0 && !is_break(s[0]) ==> 1 <= token_end(s),
    decreases s.len(),
{
    if s.len() > 0 && !is_break(s[0]) {
        lemma_token_end_bounds(s.drop_first());
    }
}

/// The maximal break-separated tokens of `s`, in order.
pub open spec fn tokens_of(s: Seq<char>) -> Seq<Seq<char>>
    decreases s.len(),
    via tokens_of_decreases
{
    if s.len() == 0 {
        Seq::empty()
    } else if is_break(s[0]) {
        tokens_of(s.drop_first())
    } else {
        seq![s.subrange(0, token_end(s))] + tokens_of(s.subrange(token_end(s), s.len() as int))
    }
}

#[via_fn]
proof fn tokens_of_decreases(s: Seq<char>) {
    lemma_token_end_bounds(s);
}

/// If the first `j` characters are unbroken and the run stops at `j`, the
/// first token ends exactly at `j`.
pub proof fn lemma_token_end_run(s: Seq<char>, j: int)
    requires
        0 <= j <= s.len(),
        forall|k: int| 0 <= k < j ==> !is_break(s[k]),
        j == s.len() || is_break(s[j]),
    ensures
        token_end(s) == j,
    decreases s.len(),
{
    if j > 0 {
        let rest = s.drop_first();
        assert forall|k: int| 0 <= k < j - 1 implies !is_break(rest[k]) by {
            assert(rest[k] == s[k + 1]);
        }
        lemma_token_end_run(rest, j - 1);
    }
}

/// Skipping one leading break character does not change the tokens.
pub proof fn lemma_tokens_skip_break(s: Seq<char>, i: int, n: int)
    requires
        0 <= i < n <= s.len(),
        is_break(s[i]),
    ensures
        tokens_of(s.subrange(i, n)) == tokens_of(s.subrange(i + 1, n)),
{
    let rem = s.subrange(i, n);
    assert(rem.drop_first() =~= s.subrange(i + 1, n));
}

/// An unbroken run from `i` to `j` is exactly the next token.
pub proof fn lemma_tokens_take_run(s: Seq<char>, i: int, j: int, n: int)
    requires
        0 <= i < j <= n <= s.len(),
        forall|k: int| i <= k < j ==> !is_break(s[k]),
        j == n || is_break(s[j]),
    ensures
        tokens_of(s.subrange(i, n)) == seq![s.subrange(i, j)] + tokens_of(s.subrange(j, n)),
{
    let rem = s.subrange(i, n);
    assert forall|k: int| 0 <= k < j - i implies !is_break(rem[k]) by {
        assert(rem[k] == s[i + k]);
    }
    if j < n {
        assert(is_break(rem[j - i]));
    }
    lemma_token_end_run(rem, j - i);
    assert(rem.subrange(0, j - i) =~= s.subrange(i, j));
    assert(rem.subrange(j - i, rem.len() as int) =~= s.subrange(j, n));
}

/// An immutable debug-server command: a command name and an ordered argument
/// list, reusable across sends.
#[derive(Debug, PartialEq, Eq)]
pub struct DebugServerCommand {
    pub command: String,
    pub arguments: Vec<String>,
}

impl DebugServerCommand {
    /// Every part of the command can cross the C boundary.
    pub open spec fn wf(&self) -> bool {
        &&& nul_free(self.command@)
        &&& forall|i: int| 0 <= i < self.arguments@.len() ==> nul_free(#[trigger] self.arguments@[i]@)
    }

    /// Builds the command once.  Construction fails locally (`BuildError`)
    /// exactly when the command or an argument cannot be marshalled for the
    /// native layer; no native call is involved.
    pub fn new(command: String, arguments: Vec<String>) -> (r: Result<DebugServerCommand, Error>)
        ensures
            match r {
                Ok(c) => {
                    &&& c.command == command
                    &&& c.arguments == arguments
                    &&& c.wf()
                },
                Err(e) => {
                    &&& e == Error::BuildError
                    &&& !(nul_free(command@) && (forall|i: int|
                        0 <= i < arguments@.len() ==> nul_free(#[trigger] arguments@[i]@)))
                },
            },
    {
        if !check_nul_free(command.as_str()) {
            return Err(Error::BuildError);
        }
        let mut i: usize = 0;
        while i < arguments.len()
            invariant
                0 <= i <= arguments@.len(),
                forall|j: int| 0 <= j < i ==> nul_free(#[trigger] arguments@[j]@),
            decreases arguments@.len() - i,
        {
            if !check_nul_free(arguments[i].as_str()) {
                return Err(Error::BuildError);
            }
            i += 1;
        }
        Ok(DebugServerCommand { command, arguments })
    }

    /// Builds a command from one whitespace-separated line: the first token
    /// is the command, the remaining tokens are the arguments.  The split is
    /// lossy for arguments with embedded whitespace — there is no quoting —
    /// which is a known limitation of this convenience form.  Fails with
    /// `BuildError` when the line holds no token at all, or when a token
    /// cannot be marshalled.
    pub fn from_line(line: &str) -> (r: Result<DebugServerCommand, Error>)
        ensures
            match r {
                Ok(c) => {
                    &&& tokens_of(line@).len() > 0
                    &&& c.command@ == tokens_of(line@)[0]
                    &&& c.arguments@.len() == tokens_of(line@).len() - 1
                    &&& forall|i: int| 0 <= i < c.arguments@.len()
                        ==> (#[trigger] c.arguments@[i])@ == tokens_of(line@)[i + 1]
                    &&& c.wf()
                },
                Err(e) => {
                    &&& e == Error::BuildError
                    &&& (tokens_of(line@).len() == 0 || exists|i: int|
                        0 <= i < tokens_of(line@).len() && !nul_free(#[trigger] tokens_of(line@)[i]))
                },
            },
    {
        let n: usize = line.unicode_len();
        let mut toks: Vec<String> = Vec::new();
        let mut i: usize = 0;
        proof {
            assert(line@.subrange(0, n as int) =~= line@);
        }
        while i < n
            invariant
                0 <= i <= n,
                n == line@.len(),
                tokens_of(line@) == toks@.map_values(|t: String| t@) + tokens_of(
                    line@.subrange(i as int, n as int),
                ),
            decreases n - i,
        {
            if is_break_char(line.get_char(i)) {
                proof {
                    lemma_tokens_skip_break(line@, i as int, n as int);
                }
                i += 1;
            } else {
                let start = i;
                let mut j = i;
                while j < n && !is_break_char(line.get_char(j))
                    invariant
                        start <= j <= n,
                        n == line@.len(),
                        forall|k: int| start <= k < j ==> !is_break(line@[k]),
                    decreases n - j,
                {
                    j += 1;
                }
                let tok = line.substring_char(start, j);
                let tok_string = String::from_str(tok);
                let ghost pre = toks@;
                toks.push(tok_string);
                proof {
                    lemma_tokens_take_run(line@, start as int, j as int, n as int);
                    let pre_views = pre.map_values(|t: String| t@);
                    assert(toks@.map_values(|t: String| t@) =~= pre_views.push(tok_string@));
                    assert(pre_views.push(tok_string@) + tokens_of(
                        line@.subrange(j as int, n as int),
                    ) =~= pre_views + (seq![line@.subrange(start as int, j as int)] + tokens_of(
                        line@.subrange(j as int, n as int),
                    )));
                }
                i = j;
            }
        }
        proof {
            assert(line@.subrange(n as int, n as int) =~= Seq::<char>::empty());
            assert(toks@.map_values(|t: String| t@) + tokens_of(Seq::<char>::empty())
                =~= toks@.map_values(|t: String| t@));
        }
        if toks.len() == 0 {
            return Err(Error::BuildError);
        }
        let command = toks[0].clone();
        let mut arguments: Vec<String> = Vec::new();
        let mut k: usize = 1;
        while k < toks.len()
            invariant
                1 <= k <= toks@.len(),
                arguments@.len() == k - 1,
                forall|j: int| 0 <= j < arguments@.len() ==> arguments@[j] == toks@[j + 1],
            decreases toks@.len() - k,
        {
            arguments.push(toks[k].clone());
            k += 1;
        }
        let ghost args_snapshot = arguments@;
        let r = DebugServerCommand::new(command, arguments);
        proof {
            let views = toks@.map_values(|t: String| t@);
            assert(tokens_of(line@) =~= views);
            match &r {
                Ok(c) => {
                    assert forall|ii: int| 0 <= ii < c.arguments@.len() implies (
                    #[trigger] c.arguments@[ii])@ == tokens_of(line@)[ii + 1] by {
                        assert(c.arguments@[ii] == toks@[ii + 1]);
                        assert(views[ii + 1] == toks@[ii + 1]@);
                    }
                    assert(c.command@ == views[0]);
                },
                Err(_) => {
                    if !nul_free(views[0]) {
                        assert(!nul_free(tokens_of(line@)[0]));
                    } else {
                        let bad = choose|ii: int|
                            0 <= ii < args_snapshot.len() && !nul_free(
                                #[trigger] args_snapshot[ii]@,
                            );
                        assert(args_snapshot[bad]@ == views[bad + 1]);
                        assert(!nul_free(tokens_of(line@)[bad + 1]));
                    }
                },
            }
        }
        r
    }
}

/// The executable mirror of `is_break`.
pub fn is_break_char(c: char) -> (r: bool)
    ensures
        r == is_break(c),
{
    c == ' ' || c == '\t' || c == '\n' || c == '\r'
}

} // verus!
