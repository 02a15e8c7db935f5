//! The applications that are offered before the user has configured any.

use crate::launcher::Platform;
use vstd::prelude::*;
use vstd::string::*;

verus! {

/// An application that can be started on a worktree.
#[derive(Clone, Debug, PartialEq, Eq)]
pub struct Action {
    /// The name shown to the user.
    pub name: String,
    /// The program or the bundle to start.
    pub path: String,
    /// The file whose icon is shown, where it is not `path`.
    pub icon: Option<String>,
    /// Arguments that go before the worktree.
    pub arguments: Option<String>,
}

/// The mathematical value of an [`Action`].
pub struct ActionModel {
    pub name: Seq<char>,
    pub path: Seq<char>,
    pub icon: Option<Seq<char>>,
    pub arguments: Option<Seq<char>>,
}

impl View for Action {
    type V = ActionModel;

    open spec fn view(&self) -> ActionModel {
        ActionModel {
            name: self.name@,
            path: self.path@,
            icon: match self.icon {
                Some(icon) => Some(icon@),
                None => None,
            },
            arguments: match self.arguments {
                Some(arguments) => Some(arguments@),
                None => None,
            },
        }
    }
}

impl ActionModel {
    /// The action that starts `path` under the name `name` and shows the
    /// icon of `path` itself.
    pub open spec fn plain(name: Seq<char>, path: Seq<char>) -> ActionModel {
        ActionModel { name, path, icon: None, arguments: None }
    }
}

/// Where the editor is installed, on the platforms on which it is offered.
pub open spec fn editor_path(platform: Platform) -> Option<Seq<char>> {
    match platform {
        Platform::MacOs => Some("/Applications/Visual Studio Code.app"@),
        Platform::Windows => Some("C:/Program Files/Microsoft VS Code/Code.exe"@),
        Platform::Other => None,
    }
}

/// The actions of `platform`: the editor where it is installed, then the
/// file manager, then on macOS the terminal.
pub open spec fn default_actions(platform: Platform, editor_installed: bool) -> Seq<ActionModel> {
    let editor = match editor_path(platform) {
        Some(path) if editor_installed => seq![ActionModel::plain("Visual Studio Code"@, path)],
        _ => Seq::<ActionModel>::empty(),
    };
    let rest = match platform {
        Platform::MacOs => seq![
            ActionModel {
                name: "Finder"@,
                path: "open"@,
                icon: Some("/System/Library/CoreServices/Finder.app"@),
                arguments: None,
            },
            ActionModel::plain("Terminal"@, "/System/Applications/Utilities/Terminal.app"@),
        ],
        Platform::Windows => seq![ActionModel::plain("Explorer"@, "explorer.exe"@)],
        Platform::Other => Seq::<ActionModel>::empty(),
    };
    editor + rest
}

/// The path at which the caller looks for the editor, if the platform has
/// one.
pub fn editor_location(platform: Platform) -> (location: Option<&'static str>)
    ensures
        match location {
            Some(path) => editor_path(platform) == Some(path@),
            None => editor_path(platform) is None,
        },
{
    match platform {
        Platform::MacOs => Some("/Applications/Visual Studio Code.app"),
        Platform::Windows => Some("C:/Program Files/Microsoft VS Code/Code.exe"),
        Platform::Other => None,
    }
}

fn plain_action(name: &str, path: &str) -> (action: Action)
    ensures
        action@ == ActionModel::plain(name@, path@),
{
    Action { name: String::from_str(name), path: String::from_str(path), icon: None, arguments: None }
}

/// The actions that are offered on `platform`.  `editor_installed` says
/// whether the caller found the editor at [`editor_location`].
pub fn get_default_actions(platform: Platform, editor_installed: bool) -> (actions: Vec<Action>)
    ensures
        actions@.map_values(|a: Action| a@) == default_actions(platform, editor_installed),
{
    let mut actions: Vec<Action> = Vec::new();
    if editor_installed {
        match editor_location(platform) {
            Some(path) => actions.push(plain_action("Visual Studio Code", path)),
            None => {},
        }
    }
    match platform {
        Platform::MacOs => {
            actions.push(
                Action {
                    name: String::from_str("Finder"),
                    path: String::from_str("open"),
                    icon: Some(String::from_str("/System/Library/CoreServices/Finder.app")),
                    arguments: None,
                },
            );
            actions.push(plain_action("Terminal", "/System/Applications/Utilities/Terminal.app"));
        },
        Platform::Windows => {
            actions.push(plain_action("Explorer", "explorer.exe"));
        },
        Platform::Other => {},
    }
    assert(actions@.map_values(|a: Action| a@) =~= default_actions(platform, editor_installed));
    actions
}

} // verus!
