//! Sync-engine decisions: create, delete, clone, pull and push, with the
//! drift detection and the lint gate.
//!
//! Every operation treats the remote as authoritative and the local copy as
//! a disposable cache. The functions here decide; the thin unverified shell
//! around the library performs the remote calls and the file writes the
//! decisions ask for, and feeds their outcomes back in.

use vstd::prelude::*;

use crate::errors::{
    is_fallback_error, fallback_error, Error, RemoteFailure, STATUS_CONFLICT, STATUS_UNPROCESSABLE,
};
use crate::manifest::{
    encode_manifest, is_manifest_for, manifest_text, parse_manifest, HomescriptMetadata,
};
use crate::script::{ExecutionResult, HomescriptData, ScriptKind};
use crate::text::is_space;

verus! {

// ---------------------------------------------------------------------------
// Opening a workspace
// ---------------------------------------------------------------------------
/// Interprets the manifest file of the current directory: a missing file
/// means the directory is no workspace at all, an unparsable one means the
/// workspace is corrupt and must be cloned again.
pub fn read_manifest(manifest: Option<&String>) -> (r: Result<HomescriptMetadata, Error>)
    ensures
        match r {
            Ok(meta) => manifest matches Some(text) && is_manifest_for(text@, meta.id@),
            Err(e) => match e {
                Error::NotAWorkspace => manifest is None,
                Error::CorruptManifest => manifest matches Some(text) && forall|id: Seq<char>|
                    !is_manifest_for(text@, id),
                _ => false,
            },
        },
{
    match manifest {
        None => Err(Error::NotAWorkspace),
        Some(text) => match parse_manifest(text.as_str()) {
            Some(meta) => Ok(meta),
            None => Err(Error::CorruptManifest),
        },
    }
}

/// Interprets the code file of a workspace: the manifest alone does not make
/// a workspace, the code file must exist too.
pub fn require_code_file(code: Option<String>) -> (r: Result<String, Error>)
    ensures
        match r {
            Ok(text) => code matches Some(given) && text == given,
            Err(e) => code is None && e is NotAWorkspace,
        },
{
    match code {
        None => Err(Error::NotAWorkspace),
        Some(text) => Ok(text),
    }
}

// ---------------------------------------------------------------------------
// Finding a script in the fetched list
// ---------------------------------------------------------------------------
/// The first script in `scripts` whose id is `id`, if any.
pub open spec fn lookup_script(scripts: Seq<HomescriptData>, id: Seq<char>) -> Option<
    HomescriptData,
>
    decreases scripts.len(),
{
    if scripts.len() == 0 {
        None
    } else if scripts[0].id@ == id {
        Some(scripts[0])
    } else {
        lookup_script(scripts.drop_first(), id)
    }
}

proof fn lemma_lookup_found(scripts: Seq<HomescriptData>, id: Seq<char>, i: int)
    requires
        0 <= i < scripts.len(),
        scripts[i].id@ == id,
        forall|j: int| 0 <= j < i ==> scripts[j].id@ != id,
    ensures
        lookup_script(scripts, id) == Some(scripts[i]),
    decreases i,
{
    if i > 0 {
        lemma_lookup_found(scripts.drop_first(), id, i - 1);
    }
}

proof fn lemma_lookup_absent(scripts: Seq<HomescriptData>, id: Seq<char>)
    requires
        forall|j: int| 0 <= j < scripts.len() ==> scripts[j].id@ != id,
    ensures
        lookup_script(scripts, id) is None,
    decreases scripts.len(),
{
    if scripts.len() > 0 {
        lemma_lookup_absent(scripts.drop_first(), id);
    }
}

/// Finds the first script with the given id and returns its index.
pub fn find_script(scripts: &Vec<HomescriptData>, id: &String) -> (r: Option<usize>)
    ensures
        match r {
            Some(i) => i < scripts@.len() && lookup_script(scripts@, id@) == Some(
                scripts@[i as int],
            ) && scripts@[i as int].id@ == id@,
            None => lookup_script(scripts@, id@) is None,
        },
{
    let n = scripts.len();
    let mut i: usize = 0;
    while i < n
        invariant
            i <= n,
            n == scripts@.len(),
            forall|j: int| 0 <= j < i ==> scripts@[j].id@ != id@,
        decreases n - i,
    {
        if scripts[i].id.eq(id) {
            proof {
                lemma_lookup_found(scripts@, id@, i as int);
            }
            return Some(i);
        }
        i = i + 1;
    }
    proof {
        lemma_lookup_absent(scripts@, id@);
    }
    None
}

impl HomescriptData {
    /// A field-by-field copy of this record.
    pub fn duplicate(&self) -> (r: HomescriptData)
        ensures
            r == *self,
    {
        HomescriptData {
            id: self.id.clone(),
            name: self.name.clone(),
            description: self.description.clone(),
            quick_actions_enabled: self.quick_actions_enabled,
            scheduler_enabled: self.scheduler_enabled,
            is_widget: self.is_widget,
            code: self.code.clone(),
            md_icon: self.md_icon.clone(),
            kind: self.kind,
            workspace: self.workspace.clone(),
        }
    }
}

/// Resolves the manifest's id against the caller's script list; a script
/// that is no longer in the list is no longer accessible.
pub fn resolve_script(scripts: &Vec<HomescriptData>, id: &String) -> (r: Result<
    HomescriptData,
    Error,
>)
    ensures
        match r {
            Ok(record) => lookup_script(scripts@, id@) == Some(record),
            Err(e) => lookup_script(scripts@, id@) is None && (e matches
                Error::ScriptNoLongerAccessible { id: eid } && eid@ == id@),
        },
{
    match find_script(scripts, id) {
        Some(i) => Ok(scripts[i].duplicate()),
        None => Err(Error::ScriptNoLongerAccessible { id: id.clone() }),
    }
}

// ---------------------------------------------------------------------------
// Pull
// ---------------------------------------------------------------------------
/// What a `pull` has to do once the remote record is known.
#[derive(Debug, PartialEq)]
pub enum PullOutcome {
    /// Local and remote code are byte-for-byte identical; nothing to write.
    UpToDate,
    /// The remote differs; the local code file must be overwritten with
    /// this code.
    Overwrite { code: String },
}

/// Decides whether a `pull` is a no-op. The remote is authoritative: any
/// difference means the local code file is overwritten with the remote code.
/// The manifest is never touched.
pub fn pull_decision(local_code: &String, remote: &HomescriptData) -> (r: PullOutcome)
    ensures
        r is UpToDate <==> local_code@ == remote.code@,
        r matches PullOutcome::Overwrite { code } ==> code == remote.code && local_code@
            != remote.code@,
{
    if local_code.eq(&remote.code) {
        PullOutcome::UpToDate
    } else {
        PullOutcome::Overwrite { code: remote.code.clone() }
    }
}

// ---------------------------------------------------------------------------
// Push
// ---------------------------------------------------------------------------
/// The new record a push submits: the fetched record reused verbatim with
/// only the code swapped, so that fields the workspace does not track (name,
/// description, flags) are never lost.
pub open spec fn is_splice(old: HomescriptData, code: String, r: HomescriptData) -> bool {
    &&& r.id == old.id
    &&& r.name == old.name
    &&& r.description == old.description
    &&& r.quick_actions_enabled == old.quick_actions_enabled
    &&& r.scheduler_enabled == old.scheduler_enabled
    &&& r.is_widget == old.is_widget
    &&& r.md_icon == old.md_icon
    &&& r.kind == old.kind
    &&& r.workspace == old.workspace
    &&& r.code == code
}

/// Builds the record a push submits: `remote` with its code replaced by the
/// local code, every other field kept verbatim.
pub fn splice_code(remote: &HomescriptData, local_code: &String) -> (r: HomescriptData)
    ensures
        is_splice(*remote, *local_code, r),
{
    HomescriptData {
        id: remote.id.clone(),
        name: remote.name.clone(),
        description: remote.description.clone(),
        quick_actions_enabled: remote.quick_actions_enabled,
        scheduler_enabled: remote.scheduler_enabled,
        is_widget: remote.is_widget,
        code: local_code.clone(),
        md_icon: remote.md_icon.clone(),
        kind: remote.kind,
        workspace: remote.workspace.clone(),
    }
}

/// The first decision of a `push`, taken as soon as the remote record is
/// fetched.
#[derive(Debug, PartialEq)]
pub enum PushPlan {
    /// Local and remote code are identical; nothing to submit.
    UpToDate,
    /// The code differs and the lint hook is on: lint the local code first,
    /// then let [`resolve_lint_gate`] decide.
    LintFirst,
    /// The code differs and no lint hook is configured: submit this record.
    Submit { record: HomescriptData },
}

/// Decides what a `push` does once the remote record is known: nothing when
/// there is no drift, a lint first when the lint hook is on, otherwise an
/// immediate submission of the spliced record.
pub fn plan_push(local_code: &String, remote: &HomescriptData, lint_on_push: bool) -> (r: PushPlan)
    ensures
        r is UpToDate <==> local_code@ == remote.code@,
        r is LintFirst <==> (local_code@ != remote.code@ && lint_on_push),
        r matches PushPlan::Submit { record } ==> is_splice(*remote, *local_code, record)
            && local_code@ != remote.code@ && !lint_on_push,
{
    if local_code.eq(&remote.code) {
        PushPlan::UpToDate
    } else if lint_on_push {
        PushPlan::LintFirst
    } else {
        PushPlan::Submit { record: splice_code(remote, local_code) }
    }
}

/// Applies the lint gate. A clean lint proceeds; findings block the push
/// with `LintErrors` unless `force` is set, in which case the push proceeds
/// and the returned flag says that the findings were downgraded to a
/// warning. This is the only place an error is deliberately downgraded.
pub fn resolve_lint_gate(
    remote: &HomescriptData,
    local_code: &String,
    lint: ExecutionResult,
    force: bool,
) -> (r: Result<(HomescriptData, bool), Error>)
    ensures
        match r {
            Ok(submission) => (lint.success || force) && is_splice(
                *remote,
                *local_code,
                submission.0,
            ) && (submission.1 <==> !lint.success),
            Err(e) => !lint.success && !force && (e matches Error::LintErrors {
                diagnostics,
                code,
                file_contents,
            } && diagnostics == lint.diagnostics && code == local_code && file_contents
                == lint.file_contents),
        },
{
    if lint.success {
        Ok((splice_code(remote, local_code), false))
    } else if force {
        Ok((splice_code(remote, local_code), true))
    } else {
        Err(
            Error::LintErrors {
                diagnostics: lint.diagnostics,
                code: local_code.clone(),
                file_contents: lint.file_contents,
            },
        )
    }
}

// ---------------------------------------------------------------------------
// Create
// ---------------------------------------------------------------------------
/// A valid script id: at most thirty characters, none of them whitespace.
pub open spec fn valid_id(id: Seq<char>) -> bool {
    id.len() <= 30 && forall|i: int| 0 <= i < id.len() ==> !is_space(#[trigger] id[i])
}

/// A valid script name: at most thirty characters.
pub open spec fn valid_name(name: Seq<char>) -> bool {
    name.len() <= 30
}

/// A valid workspace-group name: at most fifty characters.
pub open spec fn valid_workspace(workspace: Seq<char>) -> bool {
    workspace.len() <= 50
}

/// Checks a string for whitespace and the thirty-character limit.
fn check_id(id: &String) -> (r: bool)
    ensures
        r == valid_id(id@),
{
    let s = id.as_str();
    let n = s.unicode_len();
    if n > 30 {
        return false;
    }
    let mut i: usize = 0;
    while i < n
        invariant
            i <= n,
            s@ == id@,
            n == s@.len(),
            n <= 30,
            forall|j: int| 0 <= j < i ==> !is_space(#[trigger] s@[j]),
        decreases n - i,
    {
        let c = s.get_char(i);
        if c == ' ' || c == '\t' || c == '\n' || c == '\r' {
            proof {
                assert(is_space(id@[i as int]));
            }
            return false;
        }
        i = i + 1;
    }
    true
}

/// The name a new script gets when none is given: the id itself.
pub open spec fn effective_name(id: Seq<char>, name: Option<String>) -> Seq<char> {
    match name {
        Some(n) => n@,
        None => id,
    }
}

/// The workspace group a new script gets when none is given.
pub open spec fn effective_workspace(workspace: Option<String>) -> Seq<char> {
    match workspace {
        Some(w) => w@,
        None => "default"@,
    }
}

/// What `plan_create` returns on success: the record the remote is asked to
/// create, with empty code and description and default flags.
pub open spec fn is_new_record(
    id: String,
    name: Option<String>,
    workspace: Option<String>,
    r: HomescriptData,
) -> bool {
    &&& r.id == id
    &&& r.name@ == effective_name(id@, name)
    &&& r.description@ == Seq::<char>::empty()
    &&& !r.quick_actions_enabled
    &&& !r.scheduler_enabled
    &&& !r.is_widget
    &&& r.code@ == Seq::<char>::empty()
    &&& r.md_icon@ == "code"@
    &&& r.kind == ScriptKind::Normal
    &&& r.workspace@ == effective_workspace(workspace)
}

/// Validates a `create` locally and, only when everything passes, builds the
/// record to send to the remote. No remote request exists until validation
/// has succeeded, so invalid input never costs a round trip.
pub fn plan_create(
    id: String,
    name: Option<String>,
    workspace: Option<String>,
    dir_exists: bool,
) -> (r: Result<HomescriptData, Error>)
    ensures
        match r {
            Ok(record) => !dir_exists && valid_id(id@) && valid_name(effective_name(id@, name))
                && valid_workspace(effective_workspace(workspace)) && is_new_record(
                id,
                name,
                workspace,
                record,
            ),
            Err(e) => match e {
                Error::WorkspaceAlreadyExists { id: eid } => dir_exists && eid == id,
                Error::InvalidInput { message } => !dir_exists && if !valid_id(id@) {
                    message@ == "id must not contain whitespace and shall not exceed 30 characters"@
                } else if !valid_name(effective_name(id@, name)) {
                    message@ == "name must not exceed 30 characters"@
                } else {
                    !valid_workspace(effective_workspace(workspace)) && message@
                        == "workspace must not exceed 50 characters"@
                },
                _ => false,
            },
        },
{
    if dir_exists {
        return Err(Error::WorkspaceAlreadyExists { id });
    }
    if !check_id(&id) {
        return Err(
            Error::InvalidInput {
                message: String::from_str(
                    "id must not contain whitespace and shall not exceed 30 characters",
                ),
            },
        );
    }
    let name: String = match name {
        Some(n) => n,
        None => id.clone(),
    };
    if name.as_str().unicode_len() > 30 {
        return Err(
            Error::InvalidInput { message: String::from_str("name must not exceed 30 characters") },
        );
    }
    let workspace: String = match workspace {
        Some(w) => w,
        None => String::from_str("default"),
    };
    if workspace.as_str().unicode_len() > 50 {
        return Err(
            Error::InvalidInput {
                message: String::from_str("workspace must not exceed 50 characters"),
            },
        );
    }
    Ok(
        HomescriptData {
            id,
            name,
            description: String::new(),
            quick_actions_enabled: false,
            scheduler_enabled: false,
            is_widget: false,
            code: String::new(),
            md_icon: String::from_str("code"),
            kind: ScriptKind::Normal,
            workspace,
        },
    )
}

/// Classifies a failed remote `create`: the status for a rejected entity
/// means the id is already taken on the remote.
pub fn classify_create_failure(id: &String, f: RemoteFailure) -> (e: Error)
    ensures
        (f matches RemoteFailure::Status { code } && code == STATUS_UNPROCESSABLE) ==> (e matches
            Error::ScriptAlreadyExists { id: eid } && eid@ == id@),
        !(f matches RemoteFailure::Status { code } && code == STATUS_UNPROCESSABLE)
            ==> is_fallback_error(f, e),
{
    match f {
        RemoteFailure::Status { code } => {
            if code == STATUS_UNPROCESSABLE {
                Error::ScriptAlreadyExists { id: id.clone() }
            } else {
                fallback_error(RemoteFailure::Status { code })
            }
        },
        other => fallback_error(other),
    }
}

// ---------------------------------------------------------------------------
// Delete
// ---------------------------------------------------------------------------
/// Classifies a failed remote `delete`: a rejected entity means the script
/// does not exist, a conflict means automations depend on it. Both are
/// terminal; the local workspace is only removed after a remote success.
pub fn classify_delete_failure(id: &String, f: RemoteFailure) -> (e: Error)
    ensures
        (f matches RemoteFailure::Status { code } && code == STATUS_UNPROCESSABLE) ==> (e matches
            Error::ScriptDoesNotExist { id: eid } && eid@ == id@),
        (f matches RemoteFailure::Status { code } && code == STATUS_CONFLICT) ==> (e matches
            Error::HasDependentAutomations { id: eid } && eid@ == id@),
        !(f matches RemoteFailure::Status { code } && (code == STATUS_UNPROCESSABLE || code
            == STATUS_CONFLICT)) ==> is_fallback_error(f, e),
{
    match f {
        RemoteFailure::Status { code } => {
            if code == STATUS_UNPROCESSABLE {
                Error::ScriptDoesNotExist { id: id.clone() }
            } else if code == STATUS_CONFLICT {
                Error::HasDependentAutomations { id: id.clone() }
            } else {
                fallback_error(RemoteFailure::Status { code })
            }
        },
        other => fallback_error(other),
    }
}

/// What happens after the remote answered a `delete`: only a remote success
/// lets the local workspace directory (named after the id) be removed, and
/// that removal is best-effort; any remote failure leaves the local
/// workspace untouched.
pub fn delete_step(id: &String, failure: Option<RemoteFailure>) -> (r: Result<String, Error>)
    ensures
        match r {
            Ok(directory) => failure is None && directory@ == id@,
            Err(e) => failure matches Some(f) && match f {
                RemoteFailure::Status { code } => if code == STATUS_UNPROCESSABLE {
                    e matches Error::ScriptDoesNotExist { id: eid } && eid@ == id@
                } else if code == STATUS_CONFLICT {
                    e matches Error::HasDependentAutomations { id: eid } && eid@ == id@
                } else {
                    is_fallback_error(f, e)
                },
                RemoteFailure::Transport { .. } => is_fallback_error(f, e),
            },
        },
{
    match failure {
        None => Ok(id.clone()),
        Some(f) => Err(classify_delete_failure(id, f)),
    }
}

// ---------------------------------------------------------------------------
// Clone
// ---------------------------------------------------------------------------
/// The files a fresh workspace consists of: a directory named after the id,
/// the code file holding the remote code verbatim, and the manifest.
pub struct WorkspaceFiles {
    pub directory: String,
    pub code_file: String,
    pub code: String,
    pub manifest_file: String,
    pub manifest: String,
}

/// Lays out the workspace for `record`: what to name the directory and the
/// two files, and what to write into them. Writing these files is exactly
/// what `clone` does for one script; the caller must refuse to write when
/// the directory already exists.
pub fn workspace_files(record: &HomescriptData) -> (r: WorkspaceFiles)
    ensures
        r.directory@ == record.id@,
        r.code_file@ == record.id@ + ".hms"@,
        r.code == record.code,
        r.manifest_file@ == ".hms.toml"@,
        r.manifest@ == manifest_text(record.id@),
{
    WorkspaceFiles {
        directory: record.id.clone(),
        code_file: crate::manifest::code_file_name(record.id.as_str()),
        code: record.code.clone(),
        manifest_file: String::from_str(crate::manifest::manifest_file_name()),
        manifest: encode_manifest(&HomescriptMetadata { id: record.id.clone() }),
    }
}

/// One entry of a clone batch: either the record to write, or the id that
/// was requested but is absent from the fetched list.
#[derive(Debug)]
pub enum CloneItem {
    Found { record: HomescriptData },
    Missing { id: String },
}

/// The item a clone batch produces for one requested id.
pub open spec fn clone_item_for(fetched: Seq<HomescriptData>, id: String) -> CloneItem {
    match lookup_script(fetched, id@) {
        Some(record) => CloneItem::Found { record },
        None => CloneItem::Missing { id },
    }
}

/// Resolves a clone batch against the fetched script list, one outcome per
/// entry. With `clone_all` every fetched script is cloned; otherwise exactly
/// the requested ids are, in order, and a missing id fails that one entry
/// without aborting the others.
pub fn clone_outcomes(
    requested: &Vec<String>,
    clone_all: bool,
    fetched: &Vec<HomescriptData>,
) -> (r: Vec<CloneItem>)
    ensures
        clone_all ==> r@.len() == fetched@.len() && forall|i: int|
            0 <= i < fetched@.len() ==> r@[i] == (CloneItem::Found { record: fetched@[i] }),
        !clone_all ==> r@.len() == requested@.len() && forall|i: int|
            0 <= i < requested@.len() ==> r@[i] == clone_item_for(fetched@, requested@[i]),
{
    let mut r: Vec<CloneItem> = Vec::new();
    if clone_all {
        let n = fetched.len();
        let mut i: usize = 0;
        while i < n
            invariant
                i <= n,
                n == fetched@.len(),
                r@.len() == i,
                forall|j: int|
                    0 <= j < i ==> r@[j] == (CloneItem::Found { record: fetched@[j] }),
            decreases n - i,
        {
            r.push(CloneItem::Found { record: fetched[i].duplicate() });
            i = i + 1;
        }
    } else {
        let n = requested.len();
        let mut i: usize = 0;
        while i < n
            invariant
                i <= n,
                n == requested@.len(),
                r@.len() == i,
                forall|j: int| 0 <= j < i ==> r@[j] == clone_item_for(fetched@, requested@[j]),
            decreases n - i,
        {
            let item = match find_script(fetched, &requested[i]) {
                Some(k) => CloneItem::Found { record: fetched[k].duplicate() },
                None => CloneItem::Missing { id: requested[i].clone() },
            };
            r.push(item);
            i = i + 1;
        }
    }
    r
}

// ---------------------------------------------------------------------------
// Laws
// ---------------------------------------------------------------------------
/// Cloning a script and pulling right away is a no-op: the clone wrote the
/// remote code verbatim, so the pull finds local and remote identical and
/// reports the workspace already up to date.
pub proof fn lemma_clone_then_pull_up_to_date(
    record: HomescriptData,
    files: WorkspaceFiles,
    outcome: PullOutcome,
)
    requires
        files.code == record.code,
        outcome is UpToDate <==> files.code@ == record.code@,
    ensures
        outcome is UpToDate,
{
}

/// Pushing twice without intervening edits submits once: the first push
/// replaced the remote code with the local code, so the second push finds
/// them identical and reports the workspace already up to date.
pub proof fn lemma_push_idempotent(
    local_code: String,
    remote: HomescriptData,
    submitted: HomescriptData,
    second: PushPlan,
)
    requires
        is_splice(remote, local_code, submitted),
        second is UpToDate <==> local_code@ == submitted.code@,
    ensures
        second is UpToDate,
{
}

} // verus!
