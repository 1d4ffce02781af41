//! Bootstrap of the host-side helper scripts that the input lane needs.
//!
//! Before queueing an input command, the dispatcher probes the host for the
//! four helper scripts and installs the missing ones.  The probe answers
//! with a comma-separated list of flags; this module parses that answer,
//! plans which scripts to install, and renders the summary of what was
//! installed.  The script sources themselves are opaque blobs owned by the
//! unverified side.

use vstd::prelude::*;

use crate::text::{
    contains_sub, join_with, joined, split_on, split_str, str_contains, trim_str, trimmed,
};

verus! {

/// Which helper scripts the probe found installed.
#[derive(Clone, Copy, Debug, PartialEq, Eq, Structural)]
pub struct ScriptStatus {
    pub poller: bool,
    pub handler: bool,
    pub movement: bool,
    pub click_support: bool,
}

/// Part `i` of the comma-split, trimmed probe answer mentions `true`.
pub open spec fn part_reports_true(s: Seq<char>, i: int) -> bool {
    let parts = split_on(trimmed(s), ',');
    i < parts.len() && contains_sub(parts[i], "true"@)
}

/// Parses the probe answer: four comma-separated flags, one per script, in
/// the order poller, handler, movement, click support.  A missing or
/// malformed part counts as not installed.
pub fn parse_script_status(s: &str) -> (r: ScriptStatus)
    ensures
        r.poller == part_reports_true(s@, 0),
        r.handler == part_reports_true(s@, 1),
        r.movement == part_reports_true(s@, 2),
        r.click_support == part_reports_true(s@, 3),
{
    let t = trim_str(s);
    let parts = split_str(t.as_str(), ',');
    proof {
        assert(parts.deep_view() == split_on(trimmed(s@), ','));
    }
    let poller = if parts.len() > 0 {
        str_contains(parts[0].as_str(), "true")
    } else {
        false
    };
    let handler = if parts.len() > 1 {
        str_contains(parts[1].as_str(), "true")
    } else {
        false
    };
    let movement = if parts.len() > 2 {
        str_contains(parts[2].as_str(), "true")
    } else {
        false
    };
    let click_support = if parts.len() > 3 {
        str_contains(parts[3].as_str(), "true")
    } else {
        false
    };
    ScriptStatus { poller, handler, movement, click_support }
}

/// One of the four helper scripts the input lane relies on.
#[derive(Clone, Copy, Debug, PartialEq, Eq, Structural)]
pub enum ScriptKind {
    InputPoller,
    InputHandler,
    MovementHandler,
    ClickSupport,
}

/// Where the script is written in the host's hierarchy.
pub open spec fn spec_script_path(k: ScriptKind) -> Seq<char> {
    match k {
        ScriptKind::InputPoller => "ServerScriptService.MCPInputPoller"@,
        ScriptKind::InputHandler => "StarterPlayer.StarterPlayerScripts.MCPInputHandler"@,
        ScriptKind::MovementHandler => "StarterPlayer.StarterPlayerScripts.MCPMovementHandler"@,
        ScriptKind::ClickSupport => "ReplicatedStorage.MCPClickSupport"@,
    }
}

/// The script class the host should give the script.
pub open spec fn spec_script_type(k: ScriptKind) -> Seq<char> {
    match k {
        ScriptKind::InputPoller => "Script"@,
        ScriptKind::InputHandler => "LocalScript"@,
        ScriptKind::MovementHandler => "LocalScript"@,
        ScriptKind::ClickSupport => "ModuleScript"@,
    }
}

/// How the script is named in the installation summary.
pub open spec fn spec_script_label(k: ScriptKind) -> Seq<char> {
    match k {
        ScriptKind::InputPoller => "MCPInputPoller (ServerScriptService)"@,
        ScriptKind::InputHandler => "MCPInputHandler (StarterPlayerScripts)"@,
        ScriptKind::MovementHandler => "MCPMovementHandler (StarterPlayerScripts)"@,
        ScriptKind::ClickSupport => "MCPClickSupport (ReplicatedStorage)"@,
    }
}

impl ScriptKind {
    /// Where the script is written in the host's hierarchy.
    pub fn path(&self) -> (r: String)
        ensures
            r@ == spec_script_path(*self),
    {
        match self {
            ScriptKind::InputPoller => "ServerScriptService.MCPInputPoller".to_owned(),
            ScriptKind::InputHandler => "StarterPlayer.StarterPlayerScripts.MCPInputHandler"
                .to_owned(),
            ScriptKind::MovementHandler => "StarterPlayer.StarterPlayerScripts.MCPMovementHandler"
                .to_owned(),
            ScriptKind::ClickSupport => "ReplicatedStorage.MCPClickSupport".to_owned(),
        }
    }

    /// The script class the host should give the script.
    pub fn script_type(&self) -> (r: String)
        ensures
            r@ == spec_script_type(*self),
    {
        match self {
            ScriptKind::InputPoller => "Script".to_owned(),
            ScriptKind::InputHandler => "LocalScript".to_owned(),
            ScriptKind::MovementHandler => "LocalScript".to_owned(),
            ScriptKind::ClickSupport => "ModuleScript".to_owned(),
        }
    }

    /// How the script is named in the installation summary.
    pub fn label(&self) -> (r: String)
        ensures
            r@ == spec_script_label(*self),
    {
        match self {
            ScriptKind::InputPoller => "MCPInputPoller (ServerScriptService)".to_owned(),
            ScriptKind::InputHandler => "MCPInputHandler (StarterPlayerScripts)".to_owned(),
            ScriptKind::MovementHandler => "MCPMovementHandler (StarterPlayerScripts)".to_owned(),
            ScriptKind::ClickSupport => "MCPClickSupport (ReplicatedStorage)".to_owned(),
        }
    }
}

/// The scripts to install for a probe answer: exactly the missing ones, in
/// the fixed installation order.
pub open spec fn spec_install_plan(st: ScriptStatus) -> Seq<ScriptKind> {
    (if !st.poller {
        seq![ScriptKind::InputPoller]
    } else {
        Seq::empty()
    }) + (if !st.handler {
        seq![ScriptKind::InputHandler]
    } else {
        Seq::empty()
    }) + (if !st.movement {
        seq![ScriptKind::MovementHandler]
    } else {
        Seq::empty()
    }) + (if !st.click_support {
        seq![ScriptKind::ClickSupport]
    } else {
        Seq::empty()
    })
}

/// Plans which scripts to install for a probe answer.
pub fn plan_script_installs(st: &ScriptStatus) -> (r: Vec<ScriptKind>)
    ensures
        r@ == spec_install_plan(*st),
{
    let mut r: Vec<ScriptKind> = Vec::new();
    if !st.poller {
        r.push(ScriptKind::InputPoller);
    }
    if !st.handler {
        r.push(ScriptKind::InputHandler);
    }
    if !st.movement {
        r.push(ScriptKind::MovementHandler);
    }
    if !st.click_support {
        r.push(ScriptKind::ClickSupport);
    }
    proof {
        assert(r@ =~= spec_install_plan(*st));
    }
    r
}

/// The labels of the installed scripts, joined with a comma and space.
pub open spec fn spec_install_summary(installed: Seq<ScriptKind>) -> Seq<char> {
    joined(installed.map_values(|k: ScriptKind| spec_script_label(k)), ", "@)
}

/// Renders what was installed: `None` when nothing was, else the labels
/// joined with `", "`.
pub fn install_summary(installed: &Vec<ScriptKind>) -> (r: Option<String>)
    ensures
        installed@.len() == 0 ==> r is None,
        installed@.len() > 0 ==> (r matches Some(s) && s@ == spec_install_summary(installed@)),
{
    if installed.len() == 0 {
        return None;
    }
    let mut labels: Vec<String> = Vec::new();
    let ghost target = installed@.map_values(|k: ScriptKind| spec_script_label(k));
    let mut i: usize = 0;
    while i < installed.len()
        invariant
            i <= installed@.len(),
            target == installed@.map_values(|k: ScriptKind| spec_script_label(k)),
            labels.deep_view() == target.subrange(0, i as int),
        decreases installed@.len() - i,
    {
        let k = installed[i];
        let ghost pre_dv = labels.deep_view();
        let lab = k.label();
        let ghost labv = lab@;
        labels.push(lab);
        proof {
            assert(labels.deep_view() =~= pre_dv.push(labv));
            assert(target[i as int] == spec_script_label(installed@[i as int]));
            assert(labels.deep_view() =~= target.subrange(0, i + 1));
        }
        i += 1;
    }
    proof {
        assert(labels.deep_view() =~= target);
    }
    Some(join_with(&labels, ", "))
}

} // verus!
