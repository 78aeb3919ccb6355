//! The launcher: the configuration, the surface and the shortcut behind one
//! command surface, and the laws that hold of every run of commands.

use vstd::prelude::*;
use crate::config::{texts, Config};
use crate::dispatch::{dispatch, dispatch_of, Category, Dispatch, DispatchView};
use crate::shortcut::{is_press_of, surface_after_event, Shortcut, ShortcutEvent, ShortcutListener};
use crate::surface::{Visibility, VisibilityController, WindowRequest};

verus! {

/// The state of a launcher, as the contracts speak of it.
pub struct LauncherState {
    pub urls: Map<Seq<char>, Seq<char>>,
    pub programs: Map<Seq<char>, Seq<char>>,
    pub binding: Shortcut,
    pub surface: Visibility,
}

/// What a launcher can be asked to do.
#[derive(Clone, Debug, PartialEq, Eq)]
pub enum Command {
    ShowWindow,
    HideWindow,
    OpenUrl(String),
    RunProgram(String),
    Shortcut(ShortcutEvent),
}

/// The mathematical reading of a [`Command`].
pub enum CommandView {
    ShowWindow,
    HideWindow,
    OpenUrl(Seq<char>),
    RunProgram(Seq<char>),
    Shortcut(ShortcutEvent),
}

impl View for Command {
    type V = CommandView;

    open spec fn view(&self) -> CommandView {
        match self {
            Command::ShowWindow => CommandView::ShowWindow,
            Command::HideWindow => CommandView::HideWindow,
            Command::OpenUrl(name) => CommandView::OpenUrl(name@),
            Command::RunProgram(name) => CommandView::RunProgram(name@),
            Command::Shortcut(event) => CommandView::Shortcut(*event),
        }
    }
}

/// What the caller has to carry out after a command: at most one action of
/// the operating system, and at most one request to the window system.
#[derive(Clone, Debug, PartialEq, Eq)]
pub struct Effects {
    pub dispatch: Option<Dispatch>,
    pub window: Option<WindowRequest>,
}

/// The mathematical reading of [`Effects`].
pub struct EffectsView {
    pub dispatch: Option<DispatchView>,
    pub window: Option<WindowRequest>,
}

impl View for Effects {
    type V = EffectsView;

    open spec fn view(&self) -> EffectsView {
        EffectsView {
            dispatch: match self.dispatch {
                Some(action) => Some(action@),
                None => None,
            },
            window: self.window,
        }
    }
}

/// The visibility of the surface after `command`.
pub open spec fn surface_after(state: LauncherState, command: CommandView) -> Visibility {
    match command {
        CommandView::ShowWindow => Visibility::Visible,
        CommandView::HideWindow => Visibility::Hidden,
        CommandView::OpenUrl(_) => state.surface,
        CommandView::RunProgram(_) => Visibility::Hidden,
        CommandView::Shortcut(event) => surface_after_event(state.binding, state.surface, event),
    }
}

/// The state after `command`: only the surface can differ.
pub open spec fn step(state: LauncherState, command: CommandView) -> LauncherState {
    LauncherState { surface: surface_after(state, command), ..state }
}

/// What `command` asks of the caller in `state`.
pub open spec fn effects_of(state: LauncherState, command: CommandView) -> EffectsView {
    match command {
        CommandView::ShowWindow => EffectsView {
            dispatch: None,
            window: Some(WindowRequest::ShowAndFocus),
        },
        CommandView::HideWindow => EffectsView { dispatch: None, window: Some(WindowRequest::Hide) },
        CommandView::OpenUrl(name) => EffectsView {
            dispatch: Some(dispatch_of(state.urls, state.programs, Category::Url, name)),
            window: None,
        },
        CommandView::RunProgram(name) => EffectsView {
            dispatch: Some(dispatch_of(state.urls, state.programs, Category::Program, name)),
            window: Some(WindowRequest::Hide),
        },
        CommandView::Shortcut(event) => EffectsView {
            dispatch: None,
            window: if is_press_of(state.binding, event) {
                Some(WindowRequest::ShowAndFocus)
            } else {
                None
            },
        },
    }
}

/// The state after a run of commands, taken in order.
pub open spec fn run(state: LauncherState, commands: Seq<CommandView>) -> LauncherState
    decreases commands.len(),
{
    if commands.len() == 0 {
        state
    } else {
        step(run(state, commands.drop_last()), commands.last())
    }
}

/// The launcher: one configuration, one surface, one bound shortcut.
pub struct Launcher {
    config: Config,
    controller: VisibilityController,
    listener: ShortcutListener,
}

impl View for Launcher {
    type V = LauncherState;

    closed spec fn view(&self) -> LauncherState {
        LauncherState {
            urls: self.config.urls(),
            programs: self.config.programs(),
            binding: self.listener.binding(),
            surface: self.controller.surface(),
        }
    }
}

impl Launcher {
    /// A launcher over `config`, with `binding` as its shortcut and a
    /// surface that starts out as `surface`.
    pub fn new(config: Config, binding: Shortcut, surface: Visibility) -> (launcher: Launcher)
        ensures
            launcher@ == (LauncherState {
                urls: config.urls(),
                programs: config.programs(),
                binding,
                surface,
            }),
    {
        Launcher {
            config,
            controller: VisibilityController::new(surface),
            listener: ShortcutListener::new(binding),
        }
    }

    /// The configuration.
    pub fn config(&self) -> (config: &Config)
        ensures
            config.urls() == self@.urls,
            config.programs() == self@.programs,
    {
        &self.config
    }

    /// The visibility of the surface.
    pub fn visibility(&self) -> (surface: Visibility)
        ensures
            surface == self@.surface,
    {
        self.controller.visibility()
    }

    /// The key combination that is bound.
    pub fn bound_shortcut(&self) -> (binding: Shortcut)
        ensures
            binding == self@.binding,
    {
        self.listener.bound_shortcut()
    }

    /// The names that stand for a URL, each once.
    pub fn get_urls(&self) -> (names: Vec<String>)
        ensures
            texts(names@).to_set() == self@.urls.dom(),
            texts(names@).no_duplicates(),
            names.len() == self@.urls.dom().len(),
    {
        self.config.list_url_names()
    }

    /// The names that stand for a program, each once.
    pub fn get_programs(&self) -> (names: Vec<String>)
        ensures
            texts(names@).to_set() == self@.programs.dom(),
            texts(names@).no_duplicates(),
            names.len() == self@.programs.dom().len(),
    {
        self.config.list_program_names()
    }

    /// Shows the surface and asks for the focus.
    pub fn show_window(&mut self) -> (request: WindowRequest)
        ensures
            final(self)@ == step(old(self)@, CommandView::ShowWindow),
            request == WindowRequest::ShowAndFocus,
    {
        self.controller.show_window()
    }

    /// Hides the surface.
    pub fn hide_window(&mut self) -> (request: WindowRequest)
        ensures
            final(self)@ == step(old(self)@, CommandView::HideWindow),
            request == WindowRequest::Hide,
    {
        self.controller.hide_window()
    }

    /// Says what is to be opened for `name`. The launcher stays as it is:
    /// the surface is left alone.
    pub fn open_url(&self, name: &str) -> (action: Dispatch)
        ensures
            action@ == dispatch_of(self@.urls, self@.programs, Category::Url, name@),
    {
        dispatch(&self.config, Category::Url, name)
    }

    /// Says what is to be launched for `name`, and hides the surface whether
    /// or not the name is known.
    pub fn run_program(&mut self, name: &str) -> (outcome: (Dispatch, WindowRequest))
        ensures
            final(self)@ == step(old(self)@, CommandView::RunProgram(name@)),
            final(self)@.surface == Visibility::Hidden,
            outcome.0@ == dispatch_of(old(self)@.urls, old(self)@.programs, Category::Program, name@),
            outcome.1 == WindowRequest::Hide,
    {
        let action = dispatch(&self.config, Category::Program, name);
        let request = self.controller.hide_window();
        (action, request)
    }

    /// Takes a key event on a registered combination: a press of the bound
    /// one shows the surface, anything else changes nothing.
    pub fn on_shortcut(&mut self, event: ShortcutEvent) -> (request: Option<WindowRequest>)
        ensures
            final(self)@ == step(old(self)@, CommandView::Shortcut(event)),
            request == effects_of(old(self)@, CommandView::Shortcut(event)).window,
    {
        self.listener.on_event(event, &mut self.controller)
    }

    /// Carries out one command and says what is left for the caller to do.
    pub fn handle(&mut self, command: &Command) -> (effects: Effects)
        ensures
            final(self)@ == step(old(self)@, command@),
            effects@ == effects_of(old(self)@, command@),
    {
        match command {
            Command::ShowWindow => Effects { dispatch: None, window: Some(self.show_window()) },
            Command::HideWindow => Effects { dispatch: None, window: Some(self.hide_window()) },
            Command::OpenUrl(name) => Effects {
                dispatch: Some(self.open_url(name.as_str())),
                window: None,
            },
            Command::RunProgram(name) => {
                let (action, request) = self.run_program(name.as_str());
                Effects { dispatch: Some(action), window: Some(request) }
            },
            Command::Shortcut(event) => Effects {
                dispatch: None,
                window: self.on_shortcut(*event),
            },
        }
    }
}

} // verus!
