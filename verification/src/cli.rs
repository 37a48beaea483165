//! The command surface of the client as plain data: what can be asked of
//! it, and the parsing of `key:value` script arguments. The shell maps its
//! argument parser onto these types one-to-one.

use vstd::prelude::*;

verus! {

/// Everything the client is invoked with.
#[derive(Debug, PartialEq)]
pub struct Args {
    /// Selects the target server by its profile id.
    pub server: Option<String>,
    /// Where the configuration file is located.
    pub config_path: Option<String>,
    /// Print more information.
    pub verbose: bool,
    /// What to do.
    pub subcommand: Command,
}

/// The top-level subcommands.
#[derive(Debug, PartialEq)]
pub enum Command {
    Power(PowerCommand),
    Hms(HmsCommand),
    Admin(AdminCommand),
    /// Displays the configuration file's path.
    Config,
}

/// The power subcommands.
#[derive(Debug, PartialEq)]
pub enum PowerCommand {
    /// Shows the user's switches, or all of them.
    Switches { all: bool },
    /// Displays the current power draw and a historic summary.
    Draw { simple: bool },
    /// Toggles each listed switch individually.
    Toggle { switch_ids: Vec<String> },
    /// Activates the listed switches.
    On { switch_ids: Vec<String> },
    /// Deactivates the listed switches.
    Off { switch_ids: Vec<String> },
}

/// The Homescript subcommands.
#[derive(Debug, PartialEq)]
pub enum HmsCommand {
    /// The interactive live terminal.
    Repl,
    Script(HmsScriptCommand),
    /// Runs a script by its id, with arguments.
    Run { scipt_id: String, args: Vec<HmsArg> },
}

/// One `key:value` argument of a script run.
#[derive(Clone, Debug, PartialEq)]
pub struct HmsArg {
    pub key: String,
    pub value: String,
}

/// The script subcommands.
#[derive(Debug, PartialEq)]
pub enum HmsScriptCommand {
    /// Displays the personal scripts.
    Ls,
    /// Creates a script locally and on the remote.
    New { id: String, name: Option<String>, workspace: Option<String> },
    /// Clones scripts from the server into local workspaces.
    Clone { ids: Vec<String>, all: bool },
    /// Deletes scripts from the local filesystem and the server.
    Del { ids: Vec<String> },
    /// Pushes local changes to the server.
    Push { force: bool },
    /// Pulls upstream changes to the local filesystem.
    Pull,
    /// Runs the current workspace's script.
    Run,
    /// Lints the current workspace's script, or all personal scripts.
    Lint { all: bool },
}

/// The administrative subcommands.
#[derive(Debug, PartialEq)]
pub enum AdminCommand {
    /// Shows debug information.
    Debug,
    /// Exports the server's configuration into a file.
    Export,
}

/// Splits a text at its first colon: the part before it and the part after
/// it, or nothing when there is no colon.
pub open spec fn split_first_colon(s: Seq<char>) -> Option<(Seq<char>, Seq<char>)>
    decreases s.len(),
{
    if s.len() == 0 {
        None
    } else if s[0] == ':' {
        Some((Seq::empty(), s.drop_first()))
    } else {
        match split_first_colon(s.drop_first()) {
            Some(parts) => Some((seq![s[0]] + parts.0, parts.1)),
            None => None,
        }
    }
}

/// The value of an argument text: what stands between the first colon and
/// the second one, or the rest when there is no second colon.
pub open spec fn arg_value_of(rest: Seq<char>) -> Seq<char> {
    match split_first_colon(rest) {
        Some(parts) => parts.0,
        None => rest,
    }
}

proof fn lemma_split_at(s: Seq<char>, p: int)
    requires
        0 <= p < s.len(),
        s[p] == ':',
        forall|j: int| 0 <= j < p ==> s[j] != ':',
    ensures
        split_first_colon(s) == Some((s.subrange(0, p), s.subrange(p + 1, s.len() as int))),
    decreases p,
{
    if p == 0 {
        assert(s.subrange(0, 0) =~= Seq::<char>::empty());
        assert(s.subrange(1, s.len() as int) =~= s.drop_first());
    } else {
        lemma_split_at(s.drop_first(), p - 1);
        assert(seq![s[0]] + s.drop_first().subrange(0, p - 1) =~= s.subrange(0, p));
        assert(s.drop_first().subrange(p, s.len() - 1) =~= s.subrange(p + 1, s.len() as int));
    }
}

proof fn lemma_split_none(s: Seq<char>)
    requires
        forall|j: int| 0 <= j < s.len() ==> s[j] != ':',
    ensures
        split_first_colon(s) is None,
    decreases s.len(),
{
    if s.len() > 0 {
        lemma_split_none(s.drop_first());
    }
}

/// Finds the first colon at or after `from`.
fn find_colon(s: &str, from: usize) -> (r: Option<usize>)
    requires
        from <= s@.len(),
    ensures
        match r {
            Some(p) => from <= p < s@.len() && s@[p as int] == ':' && forall|j: int|
                from <= j < p ==> s@[j] != ':',
            None => forall|j: int| from <= j < s@.len() ==> s@[j] != ':',
        },
{
    let n = s.unicode_len();
    let mut i: usize = from;
    while i < n
        invariant
            from <= i <= n,
            n == s@.len(),
            forall|j: int| from <= j < i ==> s@[j] != ':',
        decreases n - i,
    {
        if s.get_char(i) == ':' {
            return Some(i);
        }
        i = i + 1;
    }
    None
}

impl HmsArg {
    /// Parses one `key:value` argument: the key is everything before the
    /// first colon, the value everything between the first colon and the
    /// second (or the end). A text without a colon has no value and is
    /// rejected.
    pub fn from_str(s: &str) -> (r: Result<HmsArg, &'static str>)
        ensures
            match r {
                Ok(arg) => split_first_colon(s@) matches Some(parts) && arg.key@ == parts.0
                    && arg.value@ == arg_value_of(parts.1),
                Err(m) => split_first_colon(s@) is None && m@ == "Could not parse argument value"@,
            },
    {
        let n = s.unicode_len();
        match find_colon(s, 0) {
            None => {
                proof {
                    lemma_split_none(s@);
                }
                Err("Could not parse argument value")
            },
            Some(p) => {
                proof {
                    lemma_split_at(s@, p as int);
                }
                let key = s.substring_char(0, p).to_owned();
                let rest_end = match find_colon(s, p + 1) {
                    Some(q) => q,
                    None => n,
                };
                let value = s.substring_char(p + 1, rest_end).to_owned();
                proof {
                    let rest = s@.subrange(p + 1, s@.len() as int);
                    if rest_end < n {
                        assert(rest[rest_end - p - 1] == ':');
                        lemma_split_at(rest, rest_end - p - 1);
                        assert(rest.subrange(0, rest_end - p - 1) =~= s@.subrange(
                            p + 1,
                            rest_end as int,
                        ));
                    } else {
                        assert(forall|j: int| 0 <= j < rest.len() ==> rest[j] != ':');
                        lemma_split_none(rest);
                        assert(rest =~= s@.subrange(p + 1, rest_end as int));
                    }
                }
                Ok(HmsArg { key, value })
            },
        }
    }
}

} // verus!
