//! The state of the node runtime.

use vstd::prelude::*;
use crate::descriptor::{declared_name, find_declared_name, text_of, UNNAMED_PROJECT};

verus! {

/// The state of the node runtime: where its project lies, what the project
/// is called, and whether the runtime is live.
#[derive(Debug, Clone, PartialEq, Eq)]
pub struct LazoNode {
    pub project_path: String,
    pub project_name: String,
    pub is_running: bool,
}

/// The state of the node runtime, as a mathematical value.
pub struct LazoNodeView {
    pub project_path: Seq<char>,
    pub project_name: Seq<char>,
    pub is_running: bool,
}

impl View for LazoNode {
    type V = LazoNodeView;

    open spec fn view(&self) -> LazoNodeView {
        LazoNodeView {
            project_path: self.project_path@,
            project_name: self.project_name@,
            is_running: self.is_running,
        }
    }
}

/// The runtime's state before any descriptor is read.
pub open spec fn node_opened(path: Seq<char>) -> LazoNodeView {
    LazoNodeView { project_path: path, project_name: "Unnamed Project"@, is_running: false }
}

/// The runtime's state once the descriptor is read. A descriptor that
/// declares a name gives the project that name; one that declares none,
/// or a missing one, changes nothing.
pub open spec fn node_synced(state: LazoNodeView, descriptor: Option<Seq<char>>) -> LazoNodeView {
    match descriptor {
        Some(content) => match declared_name(content) {
            Some(name) => LazoNodeView { project_name: name, ..state },
            None => state,
        },
        None => state,
    }
}

impl LazoNode {
    /// The runtime's state for the project at `path`, given what was read
    /// of its descriptor: `None` where the file could not be read.
    pub fn new(path: String, descriptor: Option<&str>) -> (node: LazoNode)
        ensures
            node@ == node_synced(node_opened(path@), text_of(descriptor)),
    {
        let mut node = LazoNode {
            project_path: path,
            project_name: String::from_str(UNNAMED_PROJECT),
            is_running: false,
        };
        node.sync_with_project_file(descriptor);
        node
    }

    /// Takes over what was read of the descriptor: `None` where the file
    /// could not be read.
    pub fn sync_with_project_file(&mut self, descriptor: Option<&str>)
        ensures
            final(self)@ == node_synced(old(self)@, text_of(descriptor)),
    {
        match descriptor {
            Some(content) => {
                match find_declared_name(content) {
                    Some(name) => {
                        self.project_name = name;
                    },
                    None => {},
                }
            },
            None => {},
        }
    }

    /// The control button was pressed: a live runtime stops, a stopped one
    /// goes live.
    pub fn toggle_running(&mut self)
        ensures
            final(self)@ == (LazoNodeView { is_running: !old(self).is_running, ..old(self)@ }),
    {
        self.is_running = !self.is_running;
    }

    /// The word that shows the runtime's status.
    pub fn status_label(&self) -> (label: &'static str)
        ensures
            label@ == if self.is_running {
                "LIVE"@
            } else {
                "STANDBY"@
            },
    {
        if self.is_running {
            "LIVE"
        } else {
            "STANDBY"
        }
    }

    /// The words on the control button.
    pub fn control_label(&self) -> (label: &'static str)
        ensures
            label@ == if self.is_running {
                "STOP EXECUTION"@
            } else {
                "START RUNTIME"@
            },
    {
        if self.is_running {
            "STOP EXECUTION"
        } else {
            "START RUNTIME"
        }
    }
}

} // verus!
