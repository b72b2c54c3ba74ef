//! Extraction-and-classification pipeline for wallpaper packages.
//!
//! The library holds the decisions of the pipeline: which paths are usable,
//! the command handed to the converter, which files a scan keeps, where each
//! discovered file goes, and the order in which a job runs and cleans up.
//! The filesystem and the converter process are driven by the caller, which
//! reports what happened back to the state machines defined here.

pub mod extension;
pub mod form;
pub mod job;
pub mod path;
pub mod route;
pub mod scan;
pub mod validate;

pub use extension::{extension_set, has_wanted_extension};
pub use form::{check_search_param, demo, same_text, ParamCheck, RepkgApp};
pub use job::{shell_line, Event, Job, JobError, Param, Run, RunState, Stage, WORKSPACE_DIR};
pub use path::{copy_strings, relative_to};
pub use route::{
    move_files_to_directory, plan_file, plan_routes, FailedStep, FilePlan, Mode, Placement,
    RouteFailure, RouteReport,
};
pub use scan::{DirEntry, EntryKind, ScanEntry, Scanner};
pub use validate::{check_path, PathKind, PathMeta, ValidationError};
