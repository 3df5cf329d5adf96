use std::collections::{HashMap, HashSet};

use codecluster_workspace::session::{begin_exists, begin_probe, begin_write, fits_stage, resume};
use codecluster_workspace::text::{is_space_char, trim};
use codecluster_workspace::workspace::{
    codecluster_dir_from, codecluster_dir_in, data_dir_from, default_path_from, join_segment,
    workspace_file_from, workspace_file_in,
};
use codecluster_workspace::{
    get_codecluster_data_dir, get_current_workspace_path, get_default_workspace_path,
    get_workspace_file_path, read_workspace_path, workspace_file_exists, write_workspace_path,
    Reply, Request, Stage, Step, WorkspaceError,
};

/// An in-memory host: files with their text, and created directories.
#[derive(Default, Clone, PartialEq, Debug)]
struct MemHost {
    files: HashMap<String, String>,
    dirs: HashSet<String>,
    writes: usize,
}

impl MemHost {
    fn serve(&mut self, request: &Request) -> Reply {
        match request {
            Request::CheckExists { path } => {
                Reply::Exists(self.files.contains_key(path) || self.dirs.contains(path))
            }
            Request::ReadFile { path } => match self.files.get(path) {
                Some(c) => Reply::Contents(Ok(c.clone())),
                None => Reply::Contents(Err(std::io::Error::from(std::io::ErrorKind::NotFound))),
            },
            Request::CreateDirAll { path } => {
                self.dirs.insert(path.clone());
                Reply::Done(Ok(()))
            }
            Request::WriteFile { path, contents } => {
                self.writes += 1;
                self.files.insert(path.clone(), contents.clone());
                Reply::Done(Ok(()))
            }
        }
    }

    fn drive(&mut self, mut step: Step) -> Step {
        loop {
            match step {
                Step::Pending { stage, request } => {
                    let reply = self.serve(&request);
                    assert!(fits_stage(&stage, &reply));
                    step = resume(stage, reply);
                }
                done => return done,
            }
        }
    }

    fn finish(&mut self, step: Step) -> Result<String, WorkspaceError> {
        match self.drive(step) {
            Step::Finished(r) => r,
            _ => panic!("session ended without a path"),
        }
    }

    fn has_file(&mut self, data_dir: &str) -> bool {
        match self.drive(begin_exists(Some(data_dir.to_string()))) {
            Step::Answered(b) => b,
            _ => panic!("session ended without an answer"),
        }
    }

    fn read(&mut self, data_dir: &str) -> Result<String, WorkspaceError> {
        self.finish(begin_probe(Some(data_dir.to_string()), false))
    }

    fn current(&mut self, data_dir: &str) -> Result<String, WorkspaceError> {
        self.finish(begin_probe(Some(data_dir.to_string()), true))
    }

    fn write(&mut self, data_dir: &str, path: &str) -> Result<String, WorkspaceError> {
        self.finish(begin_write(Some(data_dir.to_string()), path.to_string()))
    }
}

fn io_error() -> std::io::Error {
    std::io::Error::from(std::io::ErrorKind::PermissionDenied)
}

#[test]
fn test_workspace_file_exists() {
    let _ = workspace_file_exists();
}

#[test]
fn test_default_workspace_path() {
    let result = get_default_workspace_path();
    assert!(result.is_ok());
    let default_path = result.unwrap();
    assert!(default_path.contains("codecluster"));
}

#[test]
fn test_read_workspace_path() {
    let mut host = MemHost::default();
    let result = host.finish(read_workspace_path());
    assert!(matches!(result, Err(WorkspaceError::WorkspaceFileNotFound)));
}

#[test]
fn workspace_file_path_ends_with_components() {
    let path = get_workspace_file_path().unwrap();
    assert!(path.ends_with("codecluster/workspace"));
    assert_eq!(workspace_file_in("/tmp/x"), "/tmp/x/codecluster/workspace");
    assert_eq!(workspace_file_in("C:\\data"), "C:\\data/codecluster/workspace");
}

#[test]
fn codecluster_dir_joins_components() {
    assert_eq!(codecluster_dir_in("/tmp/x"), "/tmp/x/codecluster");
    assert_eq!(codecluster_dir_in("/tmp/x/"), "/tmp/x/codecluster");
    assert_eq!(codecluster_dir_in(""), "codecluster");
    assert_eq!(join_segment("a", "b"), "a/b");
    let dir = get_codecluster_data_dir().unwrap();
    assert!(dir.ends_with("/codecluster"));
    assert_eq!(get_default_workspace_path().unwrap(), dir);
}

#[test]
fn trim_strips_outer_white_space() {
    assert_eq!(trim("  /a b/c \t\n"), "/a b/c");
    assert_eq!(trim(""), "");
    assert_eq!(trim(" \n\t "), "");
    assert_eq!(trim("\u{3000}x y\u{a0}\u{2028}"), "x y");
    assert_eq!(trim("\u{85}é\u{200a}"), "é");
    for s in ["a", " a", "a ", "\u{b}a\u{c}b\r", "\u{1680}\u{2000}z\u{202f}\u{205f}", "x\u{200b}"] {
        assert_eq!(trim(s), s.trim());
    }
}

#[test]
fn space_chars_match_std() {
    for c in ['\t', '\n', '\u{b}', '\u{c}', '\r', ' ', '\u{85}', '\u{a0}', '\u{1680}', '\u{2000}',
        '\u{2005}', '\u{200a}', '\u{2028}', '\u{2029}', '\u{202f}', '\u{205f}', '\u{3000}',
        'a', '\u{200b}', '\u{feff}', '\u{1f}', '\u{180e}', '0'] {
        assert_eq!(is_space_char(c), c.is_whitespace(), "{:?}", c);
    }
}

#[test]
fn scenario_tmp_x() {
    let mut host = MemHost::default();
    assert!(!host.dirs.contains("/tmp/x/codecluster"));
    assert_eq!(codecluster_dir_in("/tmp/x"), "/tmp/x/codecluster");
    assert_eq!(host.current("/tmp/x").unwrap(), "/tmp/x/codecluster");
    assert_eq!(host.files.get("/tmp/x/codecluster/workspace").unwrap(), "/tmp/x/codecluster");
    assert!(host.dirs.contains("/tmp/x/codecluster"));
    host.write("/tmp/x", "/srv/proj").unwrap();
    assert_eq!(host.read("/tmp/x").unwrap(), "/srv/proj");
}

#[test]
fn write_then_read_trims() {
    let mut host = MemHost::default();
    assert_eq!(host.write("/d", "  /my proj/dir \n").unwrap(), "  /my proj/dir \n");
    assert_eq!(host.files.get("/d/codecluster/workspace").unwrap(), "  /my proj/dir \n");
    assert_eq!(host.read("/d").unwrap(), "/my proj/dir");
    host.write("/d", "/plain").unwrap();
    assert_eq!(host.read("/d").unwrap(), "/plain");
}

#[test]
fn exists_before_and_after_write() {
    let mut host = MemHost::default();
    assert!(!host.has_file("/d"));
    host.write("/d", "/w").unwrap();
    assert!(host.has_file("/d"));
    assert!(!host.has_file("/other"));
}

#[test]
fn current_initialises_with_default() {
    let mut host = MemHost::default();
    let first = host.current("/home/u/.local/share").unwrap();
    assert_eq!(first, "/home/u/.local/share/codecluster");
    assert!(host.has_file("/home/u/.local/share"));
    assert_eq!(host.read("/home/u/.local/share").unwrap(), first);
}

#[test]
fn current_twice_writes_once() {
    let mut host = MemHost::default();
    let first = host.current("/d").unwrap();
    let after_first = host.clone();
    let second = host.current("/d").unwrap();
    assert_eq!(first, second);
    assert_eq!(host, after_first);
    assert_eq!(host.writes, 1);
}

#[test]
fn current_reads_recorded_path() {
    let mut host = MemHost::default();
    host.write("/d", "/test/workspace/path\n").unwrap();
    assert_eq!(host.current("/d").unwrap(), "/test/workspace/path");
    assert_eq!(host.writes, 1);
}

#[test]
fn missing_data_dir_errors() {
    let mut host = MemHost::default();
    assert!(matches!(host.finish(begin_probe(None, false)), Err(WorkspaceError::DataDirNotFound)));
    assert!(matches!(host.finish(begin_probe(None, true)), Err(WorkspaceError::DataDirNotFound)));
    assert!(matches!(
        host.finish(begin_write(None, "/w".to_string())),
        Err(WorkspaceError::DataDirNotFound)
    ));
    assert!(matches!(host.drive(begin_exists(None)), Step::Answered(false)));
}

#[test]
fn read_failure_is_reported() {
    let step = resume(Stage::Loading { data_dir: "/d".to_string() }, Reply::Contents(Err(io_error())));
    assert!(matches!(step, Step::Finished(Err(WorkspaceError::ReadFailed(_)))));
}

#[test]
fn write_failures_are_reported() {
    let stage = Stage::Creating { data_dir: "/d".to_string(), contents: "/w".to_string() };
    let step = resume(stage, Reply::Done(Err(io_error())));
    assert!(matches!(step, Step::Finished(Err(WorkspaceError::WriteFailed(_)))));
    let stage = Stage::Writing { data_dir: "/d".to_string(), contents: "/w".to_string() };
    let step = resume(stage, Reply::Done(Err(io_error())));
    assert!(matches!(step, Step::Finished(Err(WorkspaceError::WriteFailed(_)))));
}

#[test]
fn current_propagates_write_failure() {
    let stage = Stage::Probing { data_dir: "/d".to_string(), create_if_missing: true };
    let step = resume(stage, Reply::Exists(false));
    match step {
        Step::Pending { stage, request } => {
            match &request {
                Request::CreateDirAll { path } => assert_eq!(path, "/d/codecluster"),
                _ => panic!("expected a directory request"),
            }
            let step = resume(stage, Reply::Done(Err(io_error())));
            assert!(matches!(step, Step::Finished(Err(WorkspaceError::WriteFailed(_)))));
        }
        _ => panic!("expected a pending step"),
    }
}

#[test]
fn replies_fit_their_stage() {
    let checking = Stage::Checking { data_dir: "/d".to_string() };
    assert!(fits_stage(&checking, &Reply::Exists(true)));
    assert!(!fits_stage(&checking, &Reply::Done(Ok(()))));
    let loading = Stage::Loading { data_dir: "/d".to_string() };
    assert!(fits_stage(&loading, &Reply::Contents(Ok(String::new()))));
    assert!(!fits_stage(&loading, &Reply::Exists(false)));
}

#[test]
fn entry_points_start_sessions() {
    match write_workspace_path("/srv/proj") {
        Step::Pending { request: Request::CreateDirAll { path }, .. } => {
            assert!(path.ends_with("/codecluster"))
        }
        _ => panic!("expected a directory request"),
    }
    match get_current_workspace_path() {
        Step::Pending { request: Request::CheckExists { path }, .. } => {
            assert!(path.ends_with("codecluster/workspace"))
        }
        _ => panic!("expected an existence check"),
    }
}

#[test]
fn host_answers_map_to_paths() {
    assert_eq!(data_dir_from(Some("/tmp/x".to_string())).unwrap(), "/tmp/x");
    assert_eq!(codecluster_dir_from(Some("/tmp/x".to_string())).unwrap(), "/tmp/x/codecluster");
    assert_eq!(
        workspace_file_from(Some("/tmp/x".to_string())).unwrap(),
        "/tmp/x/codecluster/workspace"
    );
    assert_eq!(default_path_from(Some("/tmp/x".to_string())).unwrap(), "/tmp/x/codecluster");
    assert!(matches!(data_dir_from(None), Err(WorkspaceError::DataDirNotFound)));
    assert!(matches!(codecluster_dir_from(None), Err(WorkspaceError::DataDirNotFound)));
    assert!(matches!(workspace_file_from(None), Err(WorkspaceError::DataDirNotFound)));
    assert!(matches!(default_path_from(None), Err(WorkspaceError::DataDirNotFound)));
}
