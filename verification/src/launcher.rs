//! The state of the launcher: the home screen with its two modules and the
//! dialog that creates a project and starts a module on it.

use vstd::prelude::*;
use crate::descriptor::{descriptor_for, descriptor_text, text_of};
use crate::text::{chars_of, string_of, trim, trimmed};

verus! {

/// The two modules that the launcher starts.
#[derive(Debug, Clone, Copy, PartialEq, Eq, Structural)]
pub enum Module {
    Node,
    Model,
}

/// The name of a module as the launcher shows it.
pub open spec fn module_label(module: Module) -> Seq<char> {
    match module {
        Module::Node => "NODE"@,
        Module::Model => "MODEL"@,
    }
}

/// The program that runs a module, as the launcher starts it from the
/// build directory. On Windows its name ends in `.exe`.
pub open spec fn module_program(module: Module, windows: bool) -> Seq<char> {
    match module {
        Module::Node => if windows {
            "./target/debug/lazo-node.exe"@
        } else {
            "./target/debug/lazo-node"@
        },
        Module::Model => if windows {
            "./target/debug/lazo-model.exe"@
        } else {
            "./target/debug/lazo-model"@
        },
    }
}

impl Module {
    /// The name of the module as the launcher shows it.
    pub fn label(&self) -> (label: &'static str)
        ensures
            label@ == module_label(*self),
    {
        match self {
            Module::Node => "NODE",
            Module::Model => "MODEL",
        }
    }

    /// The program that runs the module.
    pub fn program(&self, windows: bool) -> (program: &'static str)
        ensures
            program@ == module_program(*self, windows),
    {
        match self {
            Module::Node => if windows {
                "./target/debug/lazo-node.exe"
            } else {
                "./target/debug/lazo-node"
            },
            Module::Model => if windows {
                "./target/debug/lazo-model.exe"
            } else {
                "./target/debug/lazo-model"
            },
        }
    }
}

/// The state of the launcher.
#[derive(Debug, Clone, PartialEq, Eq)]
pub struct LazoMain {
    /// The project's name as typed into the dialog.
    pub project_name: String,
    /// The directory under which the project is created.
    pub project_base_path: String,
    /// Whether the dialog is open.
    pub show_modal: bool,
    /// The module that the dialog was opened for.
    pub pending_module: Option<Module>,
}

/// The state of the launcher, as a mathematical value.
pub struct LazoMainView {
    pub project_name: Seq<char>,
    pub project_base_path: Seq<char>,
    pub show_modal: bool,
    pub pending_module: Option<Module>,
}

impl View for LazoMain {
    type V = LazoMainView;

    open spec fn view(&self) -> LazoMainView {
        LazoMainView {
            project_name: self.project_name@,
            project_base_path: self.project_base_path@,
            show_modal: self.show_modal,
            pending_module: self.pending_module,
        }
    }
}

/// What the launcher has to do outside itself when a project is started:
/// create the project's directory with its descriptor, unless the directory
/// exists, and start the module's program on that directory.
#[derive(Debug, Clone, PartialEq, Eq)]
pub struct LaunchPlan {
    /// The directory under which the project lies.
    pub base_path: String,
    /// The name of the project's directory under `base_path`.
    pub directory: String,
    /// The text of the descriptor to write into a new directory.
    pub descriptor: String,
    /// The program to start, if a module was chosen.
    pub program: Option<String>,
}

/// A plan, as a mathematical value.
pub struct LaunchPlanView {
    pub base_path: Seq<char>,
    pub directory: Seq<char>,
    pub descriptor: Seq<char>,
    pub program: Option<Seq<char>>,
}

impl View for LaunchPlan {
    type V = LaunchPlanView;

    open spec fn view(&self) -> LaunchPlanView {
        LaunchPlanView {
            base_path: self.base_path@,
            directory: self.directory@,
            descriptor: self.descriptor@,
            program: match self.program {
                Some(program) => Some(program@),
                None => None,
            },
        }
    }
}

/// What a plan has written into the project's directory: the descriptor
/// where the directory is new, nothing where it exists.
pub open spec fn descriptor_written(plan: LaunchPlanView, directory_exists: bool) -> Option<
    Seq<char>,
> {
    if directory_exists {
        None
    } else {
        Some(plan.descriptor)
    }
}

impl LaunchPlan {
    /// The descriptor to write into the project's directory once it is
    /// created, given whether the directory exists: an existing project is
    /// left as it is.
    pub fn descriptor_to_write(&self, directory_exists: bool) -> (text: Option<&str>)
        ensures
            text_of(text) == descriptor_written(self@, directory_exists),
    {
        if directory_exists {
            None
        } else {
            Some(self.descriptor.as_str())
        }
    }
}

/// What happens in the launcher's window.
#[derive(Debug, Clone, PartialEq, Eq)]
pub enum LauncherEvent {
    /// The button of a module was pressed.
    ModuleChosen(Module),
    /// The folder picker of the dialog returned a directory.
    FolderPicked(String),
    /// The dialog was confirmed.
    Start,
    /// The dialog was given up.
    Abort,
}

/// The launcher as it starts: nothing typed, no dialog, no module.
pub open spec fn launcher_started() -> LazoMainView {
    LazoMainView {
        project_name: Seq::empty(),
        project_base_path: Seq::empty(),
        show_modal: false,
        pending_module: None,
    }
}

/// Whether a project can be started from what the dialog holds: its name
/// is more than white space and a place to store it is given.
pub open spec fn startable(state: LazoMainView) -> bool {
    trimmed(state.project_name).len() > 0 && state.project_base_path.len() > 0
}

/// The plan for the project that the dialog names. The project's
/// directory and its name in the descriptor are the name typed, without
/// the white space around it.
pub open spec fn planned(state: LazoMainView, windows: bool) -> LaunchPlanView {
    LaunchPlanView {
        base_path: state.project_base_path,
        directory: trimmed(state.project_name),
        descriptor: descriptor_text(trimmed(state.project_name)),
        program: match state.pending_module {
            Some(module) => Some(module_program(module, windows)),
            None => None,
        },
    }
}

/// The launcher once a project is started: the dialog is closed and the
/// name cleared; the storage location and the module stay.
pub open spec fn launched(state: LazoMainView) -> LazoMainView {
    LazoMainView { project_name: Seq::empty(), show_modal: false, ..state }
}

impl Default for LazoMain {
    /// The launcher as it starts.
    fn default() -> (state: LazoMain)
        ensures
            state@ == launcher_started(),
    {
        LazoMain {
            project_name: String::new(),
            project_base_path: String::new(),
            show_modal: false,
            pending_module: None,
        }
    }
}

impl LazoMain {
    /// A module's button was pressed: the dialog opens for that module.
    pub fn select_module(&mut self, module: Module)
        ensures
            final(self)@ == (LazoMainView {
                pending_module: Some(module),
                show_modal: true,
                ..old(self)@
            }),
    {
        self.pending_module = Some(module);
        self.show_modal = true;
    }

    /// The dialog's folder picker returned a directory.
    pub fn set_base_path(&mut self, path: String)
        ensures
            final(self)@ == (LazoMainView { project_base_path: path@, ..old(self)@ }),
    {
        self.project_base_path = path;
    }

    /// The dialog was given up: it closes and keeps what was typed.
    pub fn abort(&mut self)
        ensures
            final(self)@ == (LazoMainView { show_modal: false, ..old(self)@ }),
    {
        self.show_modal = false;
    }

    /// Whether the dialog lets a project be started.
    pub fn can_start(&self) -> (ok: bool)
        ensures
            ok == startable(self@),
    {
        let name = trim(&chars_of(self.project_name.as_str()));
        name.len() > 0 && !self.project_base_path.as_str().is_empty()
    }

    /// Starts the project that the dialog names: returns what is to be done
    /// outside the launcher, closes the dialog and clears the name.
    pub fn launch_and_create_project(&mut self, windows: bool) -> (plan: LaunchPlan)
        ensures
            plan@ == planned(old(self)@, windows),
            final(self)@ == launched(old(self)@),
    {
        let name = string_of(&trim(&chars_of(self.project_name.as_str())));
        let descriptor = descriptor_for(name.as_str());
        let program = match self.pending_module {
            Some(module) => Some(String::from_str(module.program(windows))),
            None => None,
        };
        let plan = LaunchPlan {
            base_path: self.project_base_path.clone(),
            directory: name,
            descriptor,
            program,
        };
        self.show_modal = false;
        self.project_name = String::new();
        plan
    }

    /// Takes one event of the launcher's window and returns what is to be
    /// done outside the launcher, if anything. A confirmation counts only
    /// while a project can be started; otherwise it changes nothing.
    pub fn update(&mut self, event: LauncherEvent, windows: bool) -> (plan: Option<LaunchPlan>)
        ensures
            match event {
                LauncherEvent::ModuleChosen(module) => {
                    &&& plan is None
                    &&& final(self)@ == (LazoMainView {
                        pending_module: Some(module),
                        show_modal: true,
                        ..old(self)@
                    })
                },
                LauncherEvent::FolderPicked(path) => {
                    &&& plan is None
                    &&& final(self)@ == (LazoMainView { project_base_path: path@, ..old(self)@ })
                },
                LauncherEvent::Start => if startable(old(self)@) {
                    &&& plan is Some
                    &&& plan->0@ == planned(old(self)@, windows)
                    &&& final(self)@ == launched(old(self)@)
                } else {
                    &&& plan is None
                    &&& final(self)@ == old(self)@
                },
                LauncherEvent::Abort => {
                    &&& plan is None
                    &&& final(self)@ == (LazoMainView { show_modal: false, ..old(self)@ })
                },
            },
    {
        match event {
            LauncherEvent::ModuleChosen(module) => {
                self.select_module(module);
                None
            },
            LauncherEvent::FolderPicked(path) => {
                self.set_base_path(path);
                None
            },
            LauncherEvent::Start => {
                if self.can_start() {
                    Some(self.launch_and_create_project(windows))
                } else {
                    None
                }
            },
            LauncherEvent::Abort => {
                self.abort();
                None
            },
        }
    }
}

} // verus!
