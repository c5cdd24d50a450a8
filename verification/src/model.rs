//! The state of the model editor.

use vstd::prelude::*;
use crate::descriptor::{declared_name, find_declared_name, text_of, UNNAMED_PROJECT};

verus! {

/// The state of the model editor: where its project lies, what the project
/// is called, and what went wrong when the descriptor was read.
#[derive(Debug, Clone, PartialEq, Eq)]
pub struct LazoModel {
    pub project_path: String,
    pub project_name: String,
    pub error_msg: Option<String>,
}

/// The state of the model editor, as a mathematical value.
pub struct LazoModelView {
    pub project_path: Seq<char>,
    pub project_name: Seq<char>,
    pub error_msg: Option<Seq<char>>,
}

impl View for LazoModel {
    type V = LazoModelView;

    open spec fn view(&self) -> LazoModelView {
        LazoModelView {
            project_path: self.project_path@,
            project_name: self.project_name@,
            error_msg: match self.error_msg {
                Some(message) => Some(message@),
                None => None,
            },
        }
    }
}

/// The editor's state before any descriptor is read.
pub open spec fn model_opened(path: Seq<char>) -> LazoModelView {
    LazoModelView { project_path: path, project_name: "Unnamed Project"@, error_msg: None }
}

/// The editor's state once the descriptor is read. A descriptor that
/// declares a name gives the project that name, one that declares none
/// changes nothing, and a missing one is recorded as an error.
pub open spec fn model_synced(state: LazoModelView, descriptor: Option<Seq<char>>) -> LazoModelView {
    match descriptor {
        Some(content) => match declared_name(content) {
            Some(name) => LazoModelView { project_name: name, ..state },
            None => state,
        },
        None => LazoModelView {
            error_msg: Some("CRITICAL: project.toml not found in the specified path."@),
            ..state
        },
    }
}

impl LazoModel {
    /// The editor's state for the project at `path`, given what was read of
    /// its descriptor: `None` where the file could not be read.
    pub fn new(path: String, descriptor: Option<&str>) -> (model: LazoModel)
        ensures
            model@ == model_synced(model_opened(path@), text_of(descriptor)),
            model.error_msg is Some <==> descriptor is None,
    {
        let mut model = LazoModel {
            project_path: path,
            project_name: String::from_str(UNNAMED_PROJECT),
            error_msg: None,
        };
        model.sync_with_project_file(descriptor);
        model
    }

    /// Takes over what was read of the descriptor: `None` where the file
    /// could not be read.
    pub fn sync_with_project_file(&mut self, descriptor: Option<&str>)
        ensures
            final(self)@ == model_synced(old(self)@, text_of(descriptor)),
            descriptor is None ==> final(self).error_msg is Some,
            descriptor is Some ==> final(self).error_msg == old(self).error_msg,
    {
        match descriptor {
            Some(content) => {
                match find_declared_name(content) {
                    Some(name) => {
                        self.project_name = name;
                    },
                    None => {},
                }
            },
            None => {
                self.error_msg = Some(
                    String::from_str("CRITICAL: project.toml not found in the specified path."),
                );
            },
        }
    }

    /// Whether the editor shows its canvas: it does unless an error is
    /// recorded, which it shows in the canvas's place.
    pub fn shows_canvas(&self) -> (shown: bool)
        ensures
            shown == (self.error_msg is None),
    {
        self.error_msg.is_none()
    }
}

} // verus!
