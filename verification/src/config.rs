//! The parts of the client's configuration that carry decisions: the
//! Homescript options, the server profiles, and the validation that every
//! profile is usable before any connection is attempted. Reading and
//! writing the configuration file is the shell's concern.

use vstd::prelude::*;

verus! {

/// The Homescript options of the configuration file.
#[derive(Clone, Copy, PartialEq, Eq, Structural, Debug)]
pub struct HomescriptConfig {
    pub lint_on_push: bool,
    pub use_repl_history: bool,
}

impl Default for HomescriptConfig {
    /// By default pushes are linted first and the REPL keeps a history.
    fn default() -> (r: Self)
        ensures
            r.lint_on_push,
            r.use_repl_history,
    {
        HomescriptConfig { lint_on_push: true, use_repl_history: true }
    }
}

/// One server profile: where to reach the server and how to authenticate,
/// either by token or by username and password.
#[derive(Clone, Debug, PartialEq)]
pub struct SmarthomeServer {
    pub id: String,
    pub url: String,
    pub username: String,
    pub password: String,
    pub token: String,
}

impl Default for SmarthomeServer {
    /// The placeholder profile written into a fresh configuration file.
    fn default() -> (r: Self)
        ensures
            r.id@ == "default"@,
            r.url@ == "http://smarthome.box"@,
            r.username@ == Seq::<char>::empty(),
            r.password@ == Seq::<char>::empty(),
            r.token@ == "--------------------------------"@,
    {
        SmarthomeServer {
            id: String::from_str("default"),
            url: String::from_str("http://smarthome.box"),
            username: String::new(),
            password: String::new(),
            token: String::from_str("--------------------------------"),
        }
    }
}

/// Why a configuration was rejected.
#[derive(Debug, PartialEq)]
pub enum ValidateError {
    /// A token and a username or password were given at once; carries the
    /// server's id.
    AmbiguousAuth(String),
    /// Two server profiles share this id.
    DuplicateID(String),
    /// The token is not well-formed; carries the server's id, the token,
    /// and what is wrong with it.
    InvalidToken { server_id: String, token: String, message: &'static str },
    /// Neither a token nor a username was given; carries the server's id.
    EmptyUserName(String),
    /// The configuration names no server at all.
    NoServers,
}

/// What can be wrong with one server profile, in the order the checks run.
pub enum ProfileIssue {
    DuplicateId,
    MissingAuth,
    TokenLength,
    TokenCharset,
    AmbiguousAuth,
}

/// Whether the token has the wrong shape: a space or a non-ASCII character.
pub open spec fn token_charset_bad(token: Seq<char>) -> bool {
    (exists|k: int| 0 <= k < token.len() && token[k] == ' ')
        || !vstd::utf8::is_ascii_chars(token)
}

/// The first problem of the profile at `i` in `servers`, if any.
pub open spec fn profile_issue(servers: Seq<SmarthomeServer>, i: int) -> Option<ProfileIssue> {
    let s = servers[i];
    if exists|j: int| 0 <= j < i && servers[j].id@ == s.id@ {
        Some(ProfileIssue::DuplicateId)
    } else if s.token@.len() == 0 {
        if s.username@.len() == 0 {
            Some(ProfileIssue::MissingAuth)
        } else {
            None
        }
    } else if s.token@.len() != 32 {
        Some(ProfileIssue::TokenLength)
    } else if token_charset_bad(s.token@) {
        Some(ProfileIssue::TokenCharset)
    } else if s.username@.len() > 0 || s.password@.len() > 0 {
        Some(ProfileIssue::AmbiguousAuth)
    } else {
        None
    }
}

/// The error reported for the profile at `i`, for each possible issue.
pub open spec fn error_reports_issue(
    servers: Seq<SmarthomeServer>,
    i: int,
    issue: ProfileIssue,
    e: ValidateError,
) -> bool {
    match issue {
        ProfileIssue::DuplicateId => e == ValidateError::DuplicateID(servers[i].id),
        ProfileIssue::MissingAuth => e == ValidateError::EmptyUserName(servers[i].id),
        ProfileIssue::TokenLength => e matches ValidateError::InvalidToken {
            server_id,
            token,
            message,
        } && server_id == servers[i].id && token == servers[i].token && message@
            == "Token does not have the length of 32 characters."@,
        ProfileIssue::TokenCharset => e matches ValidateError::InvalidToken {
            server_id,
            token,
            message,
        } && server_id == servers[i].id && token == servers[i].token && message@
            == "Token may not contain whitespaces or non-ASCII characters"@,
        ProfileIssue::AmbiguousAuth => e == ValidateError::AmbiguousAuth(servers[i].id),
    }
}

/// Checks whether `token` holds a space character.
fn token_has_space(token: &String) -> (r: bool)
    ensures
        r == exists|k: int| 0 <= k < token@.len() && token@[k] == ' ',
{
    let s = token.as_str();
    let n = s.unicode_len();
    let mut i: usize = 0;
    while i < n
        invariant
            i <= n,
            s@ == token@,
            n == s@.len(),
            forall|j: int| 0 <= j < i ==> s@[j] != ' ',
        decreases n - i,
    {
        if s.get_char(i) == ' ' {
            return true;
        }
        i = i + 1;
    }
    false
}

/// Checks whether an earlier profile uses the same id as profile `i`.
fn id_taken_before(servers: &Vec<SmarthomeServer>, i: usize) -> (r: bool)
    requires
        i < servers@.len(),
    ensures
        r == exists|j: int| 0 <= j < i && servers@[j].id@ == servers@[i as int].id@,
{
    let mut j: usize = 0;
    while j < i
        invariant
            j <= i,
            i < servers@.len(),
            forall|k: int| 0 <= k < j ==> servers@[k].id@ != servers@[i as int].id@,
        decreases i - j,
    {
        if servers[j].id.eq(&servers[i].id) {
            return true;
        }
        j = j + 1;
    }
    false
}

/// Validates every server profile before any of them is used: at least one
/// profile must exist, ids must be unique, and each profile must carry
/// exactly one well-formed way to authenticate. The first problem found, in
/// profile order, is reported.
pub fn validate_servers(servers: &Vec<SmarthomeServer>) -> (r: Result<(), ValidateError>)
    ensures
        match r {
            Ok(()) => servers@.len() > 0 && forall|i: int|
                0 <= i < servers@.len() ==> profile_issue(servers@, i) is None,
            Err(e) => (servers@.len() == 0 && e is NoServers) || exists|i: int|
                {
                    &&& 0 <= i < servers@.len()
                    &&& forall|j: int| 0 <= j < i ==> profile_issue(servers@, j) is None
                    &&& (#[trigger] profile_issue(servers@, i)) matches Some(issue) && error_reports_issue(
                        servers@,
                        i,
                        issue,
                        e,
                    )
                },
        },
{
    let n = servers.len();
    if n == 0 {
        return Err(ValidateError::NoServers);
    }
    let mut i: usize = 0;
    while i < n
        invariant
            i <= n,
            n == servers@.len(),
            forall|j: int| 0 <= j < i ==> profile_issue(servers@, j) is None,
        decreases n - i,
    {
        let server = &servers[i];
        if id_taken_before(servers, i) {
            proof {
                assert(profile_issue(servers@, i as int) == Some(ProfileIssue::DuplicateId));
            }
            return Err(ValidateError::DuplicateID(server.id.clone()));
        }
        if server.token.as_str().is_empty() {
            if server.username.as_str().is_empty() {
                proof {
                    assert(profile_issue(servers@, i as int) == Some(ProfileIssue::MissingAuth));
                }
                return Err(ValidateError::EmptyUserName(server.id.clone()));
            }
        } else {
            if server.token.as_str().unicode_len() != 32 {
                proof {
                    assert(profile_issue(servers@, i as int) == Some(ProfileIssue::TokenLength));
                }
                return Err(
                    ValidateError::InvalidToken {
                        server_id: server.id.clone(),
                        token: server.token.clone(),
                        message: "Token does not have the length of 32 characters.",
                    },
                );
            }
            if token_has_space(&server.token) || !server.token.is_ascii() {
                proof {
                    assert(profile_issue(servers@, i as int) == Some(ProfileIssue::TokenCharset));
                }
                return Err(
                    ValidateError::InvalidToken {
                        server_id: server.id.clone(),
                        token: server.token.clone(),
                        message: "Token may not contain whitespaces or non-ASCII characters",
                    },
                );
            }
            if !server.username.as_str().is_empty() || !server.password.as_str().is_empty() {
                proof {
                    assert(profile_issue(servers@, i as int) == Some(ProfileIssue::AmbiguousAuth));
                }
                return Err(ValidateError::AmbiguousAuth(server.id.clone()));
            }
        }
        proof {
            assert(profile_issue(servers@, i as int) is None);
        }
        i = i + 1;
    }
    Ok(())
}

} // verus!

verus! {

/// The text each validation error is reported with.
pub open spec fn validate_error_message(e: ValidateError) -> Seq<char> {
    match e {
        ValidateError::AmbiguousAuth(id) => "Ambiguous authentication at server `"@ + id@
            + "`: username or password specified whilst token is not empty"@,
        ValidateError::DuplicateID(id) => "Duplicate server ID: the ID `"@ + id@
            + "` must be unique"@,
        ValidateError::InvalidToken { server_id, token, message } => "Malformed access token: token `"@
            + token@ + "` at server `"@ + server_id@ + "` is invalid: "@ + message@,
        ValidateError::EmptyUserName(id) => "No authentication provided for server `"@ + id@
            + "`: token and username are both empty"@,
        ValidateError::NoServers => "No servers specified: at least one (default) server must be specified to use this CLI"@,
    }
}

impl ValidateError {
    /// Renders this validation error for the user.
    pub fn message(&self) -> (r: String)
        ensures
            r@ == validate_error_message(*self),
    {
        let mut s = String::new();
        match self {
            ValidateError::AmbiguousAuth(id) => {
                s.append("Ambiguous authentication at server `");
                s.append(id.as_str());
                s.append("`: username or password specified whilst token is not empty");
            },
            ValidateError::DuplicateID(id) => {
                s.append("Duplicate server ID: the ID `");
                s.append(id.as_str());
                s.append("` must be unique");
            },
            ValidateError::InvalidToken { server_id, token, message } => {
                s.append("Malformed access token: token `");
                s.append(token.as_str());
                s.append("` at server `");
                s.append(server_id.as_str());
                s.append("` is invalid: ");
                s.append(message);
            },
            ValidateError::EmptyUserName(id) => {
                s.append("No authentication provided for server `");
                s.append(id.as_str());
                s.append("`: token and username are both empty");
            },
            ValidateError::NoServers => {
                s.append(
                    "No servers specified: at least one (default) server must be specified to use this CLI",
                );
            },
        }
        proof {
            assert(s@ =~= validate_error_message(*self));
        }
        s
    }
}

} // verus!
