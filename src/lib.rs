pub mod session;
pub mod text;
pub mod workspace;

pub use session::{
    get_current_workspace_path, read_workspace_path, workspace_file_exists, write_workspace_path,
    Reply, Request, Stage, Step,
};
pub use workspace::{
    get_codecluster_data_dir, get_data_dir, get_default_workspace_path, get_workspace_file_path,
    WorkspaceError,
};
