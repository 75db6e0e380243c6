//! The agent that a profile talks to when a conversation names none, and
//! the small workspace it is given.

use crate::text::{replace_all, replaced, sanitize, sanitized};
use vstd::prelude::*;
use vstd::string::*;

verus! {

/// The identifier of the default agent of a profile: `desktop-` and the
/// profile's name with every character that is no ASCII letter or digit
/// replaced by a hyphen.
pub open spec fn default_agent_text(profile_id: Seq<char>) -> Seq<char> {
    "desktop-"@ + sanitized(profile_id)
}

/// The identifier of the default agent of a profile.
pub fn default_agent_id(profile_id: &str) -> (r: String)
    ensures
        r@ == default_agent_text(profile_id@),
{
    let safe = sanitize(profile_id);
    let mut id = String::from_str("desktop-");
    id.append(safe.as_str());
    id
}

/// The name of the profile directory that holds the workspace of a tool
/// profile: the tool profile's name with `ocd-` replaced by `p_`.
pub fn workspace_profile_id(openclaw_profile: &str) -> (r: String)
    ensures
        r@ == replaced(openclaw_profile@, "ocd-"@, "p_"@),
{
    replace_all(openclaw_profile, "ocd-", "p_")
}

/// A file of the workspace.
#[derive(Debug)]
pub struct WorkspaceFile {
    pub name: String,
    pub content: String,
}

/// `WorkspaceFile` with its texts as sequences of characters.
pub ghost struct WorkspaceFileView {
    pub name: Seq<char>,
    pub content: Seq<char>,
}

impl View for WorkspaceFile {
    type V = WorkspaceFileView;

    open spec fn view(&self) -> WorkspaceFileView {
        WorkspaceFileView { name: self.name@, content: self.content@ }
    }
}

impl DeepView for WorkspaceFile {
    type V = WorkspaceFileView;

    open spec fn deep_view(&self) -> WorkspaceFileView {
        self@
    }
}

/// The files of a minimal workspace, in the order in which they are made.
pub open spec fn minimal_workspace() -> Seq<WorkspaceFileView> {
    seq![
        WorkspaceFileView {
            name: "SOUL.md"@,
            content: "# SOUL\n\nYou are OpenClaw Desktop (local-first). Be direct, concise, and helpful.\n"@,
        },
        WorkspaceFileView {
            name: "USER.md"@,
            content: "# USER\n\nName: aashu\n\nNotes: prefers local-first behavior.\n"@,
        },
        WorkspaceFileView {
            name: "MEMORY.md"@,
            content: "# MEMORY\n\n(Desktop profile memory)\n"@,
        },
        WorkspaceFileView {
            name: "AGENTS.md"@,
            content: "# AGENTS\n\nThis is the OpenClaw Desktop workspace. Prefer small context.\n"@,
        },
    ]
}

/// The files of a minimal workspace. Each is written where it does not
/// exist yet; a file that exists is left as it is.
pub fn ensure_minimal_workspace() -> (r: Vec<WorkspaceFile>)
    ensures
        r.deep_view() == minimal_workspace(),
{
    let mut files: Vec<WorkspaceFile> = Vec::new();
    files.push(
        WorkspaceFile {
            name: String::from_str("SOUL.md"),
            content: String::from_str(
                "# SOUL\n\nYou are OpenClaw Desktop (local-first). Be direct, concise, and helpful.\n",
            ),
        },
    );
    files.push(
        WorkspaceFile {
            name: String::from_str("USER.md"),
            content: String::from_str(
                "# USER\n\nName: aashu\n\nNotes: prefers local-first behavior.\n",
            ),
        },
    );
    files.push(
        WorkspaceFile {
            name: String::from_str("MEMORY.md"),
            content: String::from_str("# MEMORY\n\n(Desktop profile memory)\n"),
        },
    );
    files.push(
        WorkspaceFile {
            name: String::from_str("AGENTS.md"),
            content: String::from_str(
                "# AGENTS\n\nThis is the OpenClaw Desktop workspace. Prefer small context.\n",
            ),
        },
    );
    files
}

} // verus!
