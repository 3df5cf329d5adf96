use vstd::prelude::*;
use vstd::string::*;
use crate::text::{is_space, lemma_trim_of_unpadded, trim_spec};

verus! {

#[verifier::external_type_specification]
#[verifier::external_body]
pub struct ExIoError(std::io::Error);

/// Errors that can occur when working with the workspace file.
#[derive(Debug)]
pub enum WorkspaceError {
    /// The host reports no user data directory.
    DataDirNotFound,
    /// The workspace file exists but could not be read.
    ReadFailed(std::io::Error),
    /// The directory or the workspace file could not be written.
    WriteFailed(std::io::Error),
    /// There is no workspace file yet.
    WorkspaceFileNotFound,
}

/// The name of the store's own directory under the data directory.
pub open spec fn store_dir_name() -> Seq<char> {
    "codecluster"@
}

/// The name of the workspace file inside the store's directory.
pub open spec fn file_name() -> Seq<char> {
    "workspace"@
}

/// `seg` appended to `base` as one more path component, `/` between the two
/// unless `base` is empty or already ends with one.
pub open spec fn join_spec(base: Seq<char>, seg: Seq<char>) -> Seq<char> {
    if base.len() == 0 || base.last() == '/' {
        base + seg
    } else {
        base + seq!['/'] + seg
    }
}

/// The store's directory under the data directory `d`.
pub open spec fn codecluster_dir_spec(d: Seq<char>) -> Seq<char> {
    join_spec(d, store_dir_name())
}

/// The workspace file under the data directory `d`.
pub open spec fn workspace_file_spec(d: Seq<char>) -> Seq<char> {
    join_spec(codecluster_dir_spec(d), file_name())
}

/// The workspace path used when none has been recorded: the store's directory.
pub open spec fn default_path_spec(d: Seq<char>) -> Seq<char> {
    codecluster_dir_spec(d)
}

/// Whether `s` ends with `suffix`.
pub open spec fn ends_with(s: Seq<char>, suffix: Seq<char>) -> bool {
    suffix.len() <= s.len() && s.subrange(s.len() - suffix.len(), s.len() as int) == suffix
}

/// Whatever the data directory, the workspace file path ends with the
/// components `codecluster/workspace`.
pub proof fn lemma_workspace_file_suffix(d: Seq<char>)
    ensures
        ends_with(workspace_file_spec(d), "codecluster/workspace"@),
{
    reveal_strlit("codecluster");
    reveal_strlit("workspace");
    reveal_strlit("codecluster/workspace");
    let c = codecluster_dir_spec(d);
    assert(c.last() == 'r');
    let w = workspace_file_spec(d);
    assert(w == c + seq!['/'] + file_name());
    assert(w.subrange(w.len() - 21, w.len() as int) =~= "codecluster/workspace"@);
}

/// The default path never ends with white space, so it is its own trim
/// unless the data directory starts with white space.
pub proof fn lemma_default_path_unpadded(d: Seq<char>)
    requires
        !is_space(default_path_spec(d)[0]),
    ensures
        trim_spec(default_path_spec(d)) == default_path_spec(d),
{
    reveal_strlit("codecluster");
    lemma_trim_of_unpadded(default_path_spec(d));
}

/// `seg` appended to `base` as one more path component.
pub fn join_segment(base: &str, seg: &str) -> (r: String)
    ensures
        r@ == join_spec(base@, seg@),
{
    let n = base.unicode_len();
    let mut r = String::from_str(base);
    if n == 0 || base.get_char(n - 1) == '/' {
        r.append(seg);
    } else {
        let sep = "/";
        proof {
            reveal_strlit("/");
        }
        r.append(sep);
        r.append(seg);
    }
    r
}

/// The store's directory under the data directory `data_dir`.
pub fn codecluster_dir_in(data_dir: &str) -> (r: String)
    ensures
        r@ == codecluster_dir_spec(data_dir@),
{
    join_segment(data_dir, "codecluster")
}

/// The workspace file under the data directory `data_dir`.
pub fn workspace_file_in(data_dir: &str) -> (r: String)
    ensures
        r@ == workspace_file_spec(data_dir@),
{
    let dir = codecluster_dir_in(data_dir);
    join_segment(dir.as_str(), "workspace")
}

/// Relies on `dirs::data_dir`: the user's data directory as the host reports it,
/// or `None`. The answer depends on the environment, so nothing is promised of it.
#[verifier::external_body]
pub(crate) fn host_data_dir() -> (r: Option<String>) {
    dirs::data_dir().map(|p| p.to_string_lossy().into_owned())
}

/// The data directory that the host reported: `d` as it is, or
/// `DataDirNotFound` when there is none.
pub fn data_dir_from(host: Option<String>) -> (r: Result<String, WorkspaceError>)
    ensures
        match host {
            Some(d) => r matches Ok(p) && p@ == d@,
            None => r matches Err(e) && e is DataDirNotFound,
        },
{
    match host {
        Some(d) => Ok(d),
        None => Err(WorkspaceError::DataDirNotFound),
    }
}

/// The store's directory under the data directory that the host reported.
pub fn codecluster_dir_from(host: Option<String>) -> (r: Result<String, WorkspaceError>)
    ensures
        match host {
            Some(d) => r matches Ok(p) && p@ == codecluster_dir_spec(d@),
            None => r matches Err(e) && e is DataDirNotFound,
        },
{
    let d = data_dir_from(host)?;
    Ok(codecluster_dir_in(d.as_str()))
}

/// The workspace file under the data directory that the host reported.
pub fn workspace_file_from(host: Option<String>) -> (r: Result<String, WorkspaceError>)
    ensures
        match host {
            Some(d) => r matches Ok(p) && p@ == workspace_file_spec(d@),
            None => r matches Err(e) && e is DataDirNotFound,
        },
{
    let d = data_dir_from(host)?;
    Ok(workspace_file_in(d.as_str()))
}

/// The default workspace path under the data directory that the host reported.
pub fn default_path_from(host: Option<String>) -> (r: Result<String, WorkspaceError>)
    ensures
        match host {
            Some(d) => r matches Ok(p) && p@ == default_path_spec(d@),
            None => r matches Err(e) && e is DataDirNotFound,
        },
{
    codecluster_dir_from(host)
}

/// The user's data directory, or `DataDirNotFound` when the host reports none
/// (see `data_dir_from` for each answer of the host).
pub fn get_data_dir() -> (r: Result<String, WorkspaceError>)
    ensures
        r matches Err(e) ==> e is DataDirNotFound,
{
    data_dir_from(host_data_dir())
}

/// The store's directory under the user's data directory (see
/// `codecluster_dir_from` for each answer of the host).
pub fn get_codecluster_data_dir() -> (r: Result<String, WorkspaceError>)
    ensures
        match r {
            Ok(p) => exists|d: Seq<char>| p@ == #[trigger] codecluster_dir_spec(d),
            Err(e) => e is DataDirNotFound,
        },
{
    let host = host_data_dir();
    let ghost h = host;
    let r = codecluster_dir_from(host);
    assert(h is Some ==> r->Ok_0@ == codecluster_dir_spec(h->Some_0@));
    r
}

/// The workspace file under the user's data directory (see
/// `workspace_file_from` for each answer of the host).
pub fn get_workspace_file_path() -> (r: Result<String, WorkspaceError>)
    ensures
        match r {
            Ok(p) => {
                &&& exists|d: Seq<char>| p@ == #[trigger] workspace_file_spec(d)
                &&& ends_with(p@, "codecluster/workspace"@)
            },
            Err(e) => e is DataDirNotFound,
        },
{
    let host = host_data_dir();
    let ghost h = host;
    let r = workspace_file_from(host);
    proof {
        if h is Some {
            lemma_workspace_file_suffix(h->Some_0@);
        }
    }
    assert(h is Some ==> r->Ok_0@ == workspace_file_spec(h->Some_0@));
    r
}

/// The workspace path used when none has been recorded: the store's directory
/// under the user's data directory (see `default_path_from` for each answer of
/// the host).
pub fn get_default_workspace_path() -> (r: Result<String, WorkspaceError>)
    ensures
        match r {
            Ok(p) => exists|d: Seq<char>| p@ == #[trigger] default_path_spec(d),
            Err(e) => e is DataDirNotFound,
        },
{
    let host = host_data_dir();
    let ghost h = host;
    let r = default_path_from(host);
    assert(h is Some ==> r->Ok_0@ == default_path_spec(h->Some_0@));
    r
}

} // verus!
