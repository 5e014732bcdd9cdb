//! The directory that the model's tools are confined to.

use crate::config::{Config, ConfigView};
use vstd::prelude::*;
use vstd::string::*;

verus! {

/// An opened workspace: the root as it is shown, and whether that root is a very broad
/// directory.
#[derive(Debug, PartialEq, Eq)]
pub struct Workspace {
    pub root: String,
    pub broad: bool,
}

/// The view of `Workspace`.
pub struct WorkspaceView {
    pub root: Seq<char>,
    pub broad: bool,
}

impl View for Workspace {
    type V = WorkspaceView;

    open spec fn view(&self) -> WorkspaceView {
        WorkspaceView { root: self.root@, broad: self.broad }
    }
}

impl Clone for Workspace {
    fn clone(&self) -> (copy: Self)
        ensures
            copy == *self,
    {
        Workspace { root: self.root.clone(), broad: self.broad }
    }
}

/// The view of a workspace that may be missing.
pub open spec fn workspace_view(workspace: Option<Workspace>) -> Option<WorkspaceView> {
    match workspace {
        Some(workspace) => Some(workspace@),
        None => None,
    }
}

/// The line about an opened workspace: where commands run, then a warning if nobody is asked
/// before they do, then one if the directory is very broad.
pub open spec fn opened_status<R>(config: ConfigView<R>, workspace: WorkspaceView) -> Seq<char> {
    let place = "commands run in "@ + workspace.root;
    let attended = if config.tools.require_approval {
        place
    } else {
        place + " — UNATTENDED, no approval prompt"@
    };
    if workspace.broad {
        attended + " — this is a very broad directory"@
    } else {
        attended
    }
}

/// The line about the workspace, given what came of opening it.
pub open spec fn workspace_status<R>(
    config: ConfigView<R>,
    opened: Option<Result<Workspace, String>>,
) -> Seq<char> {
    if !config.tools.enabled {
        "off (enabled = false in config.toml)"@
    } else {
        match opened->0 {
            Ok(workspace) => opened_status(config, workspace@),
            Err(error) => "off — "@ + error@,
        }
    }
}

/// The workspace that the session has, given what came of opening it.
pub open spec fn workspace_kept<R>(
    config: ConfigView<R>,
    opened: Option<Result<Workspace, String>>,
) -> Option<Workspace> {
    if config.tools.enabled && opened->0 is Ok {
        Some(opened->0->Ok_0)
    } else {
        None
    }
}

/// The directory to open as the workspace; none if the tools are switched off, in which case
/// nothing is opened at all.
pub fn workspace_to_open<R>(config: &Config<R>) -> (path: Option<String>)
    ensures
        path == (if config.tools.enabled {
            Some(config.tools.workspace)
        } else {
            None
        }),
{
    if config.tools.enabled {
        Some(config.tools.workspace.clone())
    } else {
        None
    }
}

/// Settles the workspace of the session and the line that describes the outcome. `opened` is
/// what came of opening the directory that `workspace_to_open` gave, if it gave one. A
/// workspace that cannot be opened stops nothing: the session runs without one.
pub fn open_workspace<R>(
    config: &Config<R>,
    opened: Option<Result<Workspace, String>>,
) -> (settled: (Option<Workspace>, String))
    requires
        config.tools.enabled ==> opened is Some,
    ensures
        settled.0 == workspace_kept(config@, opened),
        settled.1@ == workspace_status(config@, opened),
{
    if !config.tools.enabled {
        return (None, "off (enabled = false in config.toml)".to_string());
    }
    match opened.unwrap() {
        Ok(workspace) => {
            let mut status = "commands run in ".to_string();
            status.append(workspace.root.as_str());
            if !config.tools.require_approval {
                status.append(" — UNATTENDED, no approval prompt");
            }
            if workspace.broad {
                status.append(" — this is a very broad directory");
            }
            (Some(workspace), status)
        },
        Err(error) => {
            let mut status = "off — ".to_string();
            status.append(error.as_str());
            (None, status)
        },
    }
}

/// The status line opens with `off` exactly when the session has no workspace.
pub proof fn law_off_means_no_workspace<R>(
    config: ConfigView<R>,
    opened: Option<Result<Workspace, String>>,
)
    requires
        config.tools.enabled ==> opened is Some,
    ensures
        "off"@.is_prefix_of(workspace_status(config, opened)) <==> workspace_kept(
            config,
            opened,
        ) is None,
{
    reveal_strlit("off");
    reveal_strlit("off (enabled = false in config.toml)");
    reveal_strlit("off — ");
    reveal_strlit("commands run in ");
    let status = workspace_status(config, opened);
    if workspace_kept(config, opened) is None {
        assert("off"@ =~= status.subrange(0, 3));
    } else {
        assert(status[0] == 'c');
        assert("off"@[0] == 'o');
        if "off"@.is_prefix_of(status) {
            assert(status.subrange(0, 3)[0] == status[0]);
        }
    }
}

/// The line about an opened workspace says where commands run. It warns that nobody is asked
/// exactly where the approval is switched off, and that the directory is very broad exactly
/// where it is, in this order; nothing else has a part in it.
pub proof fn law_warnings_are_given_where_they_are_due<R>(
    config: ConfigView<R>,
    workspace: Workspace,
)
    requires
        config.tools.enabled,
    ensures
        workspace_status(config, Some(Ok(workspace))) == "commands run in "@ + workspace.root@ + (
        if config.tools.require_approval {
            Seq::<char>::empty()
        } else {
            " — UNATTENDED, no approval prompt"@
        }) + (if workspace.broad {
            " — this is a very broad directory"@
        } else {
            Seq::<char>::empty()
        }),
{
    assert(workspace_status(config, Some(Ok(workspace))) =~= "commands run in "@
        + workspace.root@ + (if config.tools.require_approval {
        Seq::<char>::empty()
    } else {
        " — UNATTENDED, no approval prompt"@
    }) + (if workspace.broad {
        " — this is a very broad directory"@
    } else {
        Seq::<char>::empty()
    }));
}

/// Two settings that agree on the approval give the same line about the same workspace, and
/// two that do not give different ones: switching the approval off adds its warning.
pub proof fn law_line_depends_on_approval_only<R>(
    one: ConfigView<R>,
    other: ConfigView<R>,
    workspace: Workspace,
)
    requires
        one.tools.enabled,
        other.tools.enabled,
    ensures
        workspace_status(one, Some(Ok(workspace))) == workspace_status(other, Some(Ok(workspace)))
            <==> one.tools.require_approval == other.tools.require_approval,
        one.tools.require_approval && !other.tools.require_approval ==> workspace_status(
            other,
            Some(Ok(workspace)),
        ).len() == workspace_status(one, Some(Ok(workspace))).len()
            + " — UNATTENDED, no approval prompt"@.len(),
{
    reveal_strlit(" — UNATTENDED, no approval prompt");
    let a = workspace_status(one, Some(Ok(workspace)));
    let b = workspace_status(other, Some(Ok(workspace)));
    assert(" — UNATTENDED, no approval prompt"@.len() > 0);
    if one.tools.require_approval != other.tools.require_approval {
        assert(a.len() != b.len());
    }
}

/// With the tools switched on, the session has exactly the workspace that was opened, and none
/// where it could not be, which the line says together with the reason. With the tools switched
/// off it has none, whatever came of opening one.
pub proof fn law_workspace_is_kept_where_tools_are_on<R>(
    config: ConfigView<R>,
    opened: Option<Result<Workspace, String>>,
    workspace: Workspace,
    error: String,
)
    ensures
        config.tools.enabled ==> {
            &&& workspace_kept(config, Some(Ok(workspace))) == Some(workspace)
            &&& workspace_kept(config, Some(Err(error))) is None
            &&& workspace_status(config, Some(Err(error))) == "off — "@ + error@
        },
        !config.tools.enabled ==> {
            &&& workspace_kept(config, opened) is None
            &&& workspace_status(config, opened) == "off (enabled = false in config.toml)"@
        },
{
}

} // verus!
