//! Finding the program to start for an application that the user picked.
//!
//! On macOS an application is a bundle, a directory whose name ends in
//! `.app`; the program to start is named in the bundle's property list.
//! Reading that list is left to the caller, who hands in what it found.

use crate::text::ends_with;
use vstd::prelude::*;
use vstd::string::*;

verus! {

/// The platform that the program runs on, as far as launching differs.
#[derive(Clone, Copy, Debug, PartialEq, Eq, Structural)]
pub enum Platform {
    MacOs,
    Windows,
    Other,
}

/// What the crate reads of the property list of an application bundle.
#[derive(Clone, Debug, PartialEq, Eq)]
pub struct AppPlist {
    /// `CFBundleExecutable`: the name of the program inside the bundle.
    pub cf_bundle_executable: String,
    /// `CFBundleIconFile`: the name of the bundle's icon, if it names one.
    pub cf_bundle_icon_file: Option<String>,
}

/// Whether `path` names an application bundle.
pub open spec fn is_bundle_path(path: Seq<char>) -> bool {
    ".app"@.is_suffix_of(path)
}

/// Whether starting `path` on `platform` takes a look into a bundle.
pub open spec fn needs_bundle(platform: Platform, path: Seq<char>) -> bool {
    platform is MacOs && is_bundle_path(path)
}

/// Whether `path` names an application bundle.
pub fn is_app_bundle(path: &str) -> (bundle: bool)
    ensures
        bundle == is_bundle_path(path@),
{
    ends_with(path, ".app")
}

/// Whether the property list of `path` has to be read before
/// [`get_app_binary_path`] can answer for it.
pub fn needs_bundle_info(platform: Platform, path: &str) -> (needed: bool)
    ensures
        needed == needs_bundle(platform, path@),
{
    match platform {
        Platform::MacOs => is_app_bundle(path),
        _ => false,
    }
}

/// Names the property list of the bundle `app_bundle`, which the caller has
/// found to be a directory or not.
pub fn application_plist(app_bundle: &str, is_dir: bool) -> (r: Result<String, String>)
    ensures
        is_dir ==> r is Ok && r->Ok_0@ == app_bundle@ + "/Contents/Info.plist"@,
        !is_dir ==> r is Err && r->Err_0@ == "app_bundle is not a directory!"@,
{
    if !is_dir {
        return Err(String::from_str("app_bundle is not a directory!"));
    }
    let mut file = String::from_str(app_bundle);
    file.append("/Contents/Info.plist");
    Ok(file)
}

/// The program that a bundle at `path` with the executable `executable`
/// starts.
pub open spec fn bundle_binary(path: Seq<char>, executable: Seq<char>) -> Seq<char> {
    path + "/Contents/MacOS/"@ + executable
}

/// The program that the bundle at `path` starts, by its property list.
pub fn bundle_binary_path(path: &str, info: &AppPlist) -> (binary: String)
    ensures
        binary@ == bundle_binary(path@, info.cf_bundle_executable@),
{
    let mut binary = String::from_str(path);
    binary.append("/Contents/MacOS/");
    binary.append(info.cf_bundle_executable.as_str());
    binary
}

/// The program to start for the application at `path`, or the message of
/// the failure to find it out.
///
/// A bundle on macOS starts the executable that its property list names;
/// `info` is what reading that list gave, and its failure is the failure to
/// find the program.  Every other path is the program itself, whatever
/// `info` holds.
pub open spec fn app_binary(platform: Platform, path: Seq<char>, info: Result<AppPlist, String>)
    -> Result<Seq<char>, Seq<char>> {
    if needs_bundle(platform, path) {
        match info {
            Ok(list) => Ok(bundle_binary(path, list.cf_bundle_executable@)),
            Err(why) => Err(why@),
        }
    } else {
        Ok(path)
    }
}

/// The program to start for the application at `path`.  `info` is what
/// reading the property list of `path` gave; it is looked at only for a
/// bundle on macOS.
pub fn get_app_binary_path(platform: Platform, path: &str, info: Result<AppPlist, String>) -> (r:
    Result<String, String>)
    ensures
        match app_binary(platform, path@, info) {
            Ok(program) => r matches Ok(p) && p@ == program,
            Err(why) => r matches Err(w) && w@ == why,
        },
{
    if !needs_bundle_info(platform, path) {
        return Ok(String::from_str(path));
    }
    match info {
        Ok(plist) => Ok(bundle_binary_path(path, &plist)),
        Err(why) => Err(why),
    }
}

/// Refuses a launch that lacks the application or the worktree.
pub fn check_launch(app_path: &str, worktree_path: &str) -> (r: Result<(), String>)
    ensures
        (app_path@.len() == 0 || worktree_path@.len() == 0) ==> r is Err && r->Err_0@
            == "app_path or worktree_path is empty!"@,
        (app_path@.len() > 0 && worktree_path@.len() > 0) ==> r is Ok,
{
    if app_path.is_empty() || worktree_path.is_empty() {
        Err(String::from_str("app_path or worktree_path is empty!"))
    } else {
        Ok(())
    }
}

/// What the caller does next to start an application on a worktree.
#[derive(Clone, Debug, PartialEq, Eq)]
pub enum LaunchStep {
    /// Read the property list of the bundle `bundle` and call
    /// [`launch_listed`].
    ReadList { bundle: String },
    /// Start `program` with the worktree as its one argument.
    Start { program: String, worktree: String },
    /// Start nothing, for the reason given.
    Refuse(String),
}

/// The mathematical value of a [`LaunchStep`].
pub enum LaunchModel {
    ReadList { bundle: Seq<char> },
    Start { program: Seq<char>, worktree: Seq<char> },
    Refuse(Seq<char>),
}

impl View for LaunchStep {
    type V = LaunchModel;

    open spec fn view(&self) -> LaunchModel {
        match *self {
            LaunchStep::ReadList { bundle } => LaunchModel::ReadList { bundle: bundle@ },
            LaunchStep::Start { program, worktree } => LaunchModel::Start {
                program: program@,
                worktree: worktree@,
            },
            LaunchStep::Refuse(why) => LaunchModel::Refuse(why@),
        }
    }
}

/// The first step of a launch: nothing starts without an application and a
/// worktree, a bundle has its property list read, and every other
/// application starts as it is.
pub open spec fn launch_begun(platform: Platform, app_path: Seq<char>, worktree_path: Seq<char>)
    -> LaunchModel {
    if app_path.len() == 0 || worktree_path.len() == 0 {
        LaunchModel::Refuse("app_path or worktree_path is empty!"@)
    } else if needs_bundle(platform, app_path) {
        LaunchModel::ReadList { bundle: app_path }
    } else {
        LaunchModel::Start { program: app_path, worktree: worktree_path }
    }
}

/// The step after the property list of the bundle `app_path` was read, or
/// could not be read: the program of the application starts, or nothing
/// does.
pub open spec fn launch_after_list(
    platform: Platform,
    app_path: Seq<char>,
    worktree_path: Seq<char>,
    info: Result<AppPlist, String>,
) -> LaunchModel {
    match app_binary(platform, app_path, info) {
        Ok(program) => LaunchModel::Start { program, worktree: worktree_path },
        Err(why) => LaunchModel::Refuse(why),
    }
}

/// Takes up the launch of `app_path` on `worktree_path`.
pub fn begin_launch(platform: Platform, app_path: &str, worktree_path: &str) -> (step: LaunchStep)
    ensures
        step@ == launch_begun(platform, app_path@, worktree_path@),
{
    match check_launch(app_path, worktree_path) {
        Err(why) => LaunchStep::Refuse(why),
        Ok(()) => {
            if needs_bundle_info(platform, app_path) {
                LaunchStep::ReadList { bundle: String::from_str(app_path) }
            } else {
                LaunchStep::Start {
                    program: String::from_str(app_path),
                    worktree: String::from_str(worktree_path),
                }
            }
        },
    }
}

/// Goes on with the launch of `app_path` after its property list was read,
/// or could not be read.
pub fn launch_listed(
    platform: Platform,
    app_path: &str,
    worktree_path: &str,
    info: Result<AppPlist, String>,
) -> (step: LaunchStep)
    ensures
        step@ == launch_after_list(platform, app_path@, worktree_path@, info),
{
    match get_app_binary_path(platform, app_path, info) {
        Ok(program) => LaunchStep::Start { program, worktree: String::from_str(worktree_path) },
        Err(why) => LaunchStep::Refuse(why),
    }
}

} // verus!
