use handy::config::Config;
use handy::dispatch::{dispatch, Category, Dispatch};
use handy::failure::{Failure, Severity};
use handy::launcher::{Command, Effects, Launcher};
use handy::shortcut::{Shortcut, ShortcutEvent, ShortcutListener, ShortcutState};
use handy::surface::{Visibility, VisibilityController, WindowRequest};

const CONTROL_SPACE: Shortcut = Shortcut { id: 7 };
const CONTROL_ENTER: Shortcut = Shortcut { id: 8 };

fn example_config() -> Config {
    Config::from_entries(
        vec![("docs".to_string(), "https://example.com".to_string())],
        vec![("calc".to_string(), "/Applications/Calculator.app".to_string())],
    )
}

fn example_launcher(surface: Visibility) -> Launcher {
    Launcher::new(example_config(), CONTROL_SPACE, surface)
}

fn press(shortcut: Shortcut) -> ShortcutEvent {
    ShortcutEvent { shortcut, state: ShortcutState::Pressed }
}

fn release(shortcut: Shortcut) -> ShortcutEvent {
    ShortcutEvent { shortcut, state: ShortcutState::Released }
}

#[test]
fn scenario_of_one_url_and_one_program() {
    let mut launcher = example_launcher(Visibility::Visible);
    assert_eq!(launcher.get_urls(), vec!["docs".to_string()]);
    assert_eq!(launcher.get_programs(), vec!["calc".to_string()]);

    assert_eq!(launcher.open_url("docs"), Dispatch::OpenUrl("https://example.com".to_string()));
    assert_eq!(launcher.visibility(), Visibility::Visible);
    assert_eq!(launcher.open_url("missing"), Dispatch::NotFound);
    assert_eq!(launcher.visibility(), Visibility::Visible);

    assert_eq!(
        launcher.run_program("calc"),
        (Dispatch::LaunchProgram("/Applications/Calculator.app".to_string()), WindowRequest::Hide)
    );
    assert_eq!(launcher.visibility(), Visibility::Hidden);

    launcher.show_window();
    assert_eq!(launcher.run_program("missing"), (Dispatch::NotFound, WindowRequest::Hide));
    assert_eq!(launcher.visibility(), Visibility::Hidden);
}

#[test]
fn new_launcher_is_as_it_was_made() {
    let launcher = example_launcher(Visibility::Hidden);
    assert_eq!(launcher.visibility(), Visibility::Hidden);
    assert_eq!(launcher.bound_shortcut(), CONTROL_SPACE);
    assert_eq!(launcher.config().resolve_url("docs"), Some(&"https://example.com".to_string()));
    let launcher = example_launcher(Visibility::Visible);
    assert_eq!(launcher.visibility(), Visibility::Visible);
}

#[test]
fn dispatch_resolves_in_the_category_asked_for() {
    let config = example_config();
    assert_eq!(
        dispatch(&config, Category::Url, "docs"),
        Dispatch::OpenUrl("https://example.com".to_string())
    );
    assert_eq!(dispatch(&config, Category::Program, "docs"), Dispatch::NotFound);
    assert_eq!(
        dispatch(&config, Category::Program, "calc"),
        Dispatch::LaunchProgram("/Applications/Calculator.app".to_string())
    );
    assert_eq!(dispatch(&config, Category::Url, "calc"), Dispatch::NotFound);
    assert_eq!(dispatch(&config, Category::Url, ""), Dispatch::NotFound);
}

#[test]
fn open_url_leaves_a_hidden_surface_hidden() {
    let launcher = example_launcher(Visibility::Hidden);
    assert_eq!(launcher.open_url("docs"), Dispatch::OpenUrl("https://example.com".to_string()));
    assert_eq!(launcher.visibility(), Visibility::Hidden);
}

#[test]
fn run_program_hides_from_either_state() {
    for start in [Visibility::Hidden, Visibility::Visible] {
        for name in ["calc", "missing", "docs", ""] {
            let mut launcher = example_launcher(start);
            let (_, request) = launcher.run_program(name);
            assert_eq!(request, WindowRequest::Hide);
            assert_eq!(launcher.visibility(), Visibility::Hidden);
        }
    }
}

#[test]
fn controller_starts_as_told() {
    assert_eq!(VisibilityController::new(Visibility::Hidden).visibility(), Visibility::Hidden);
    assert_eq!(VisibilityController::new(Visibility::Visible).visibility(), Visibility::Visible);
}

#[test]
fn show_twice_is_visible() {
    let mut controller = VisibilityController::new(Visibility::Hidden);
    assert_eq!(controller.show_window(), WindowRequest::ShowAndFocus);
    assert_eq!(controller.visibility(), Visibility::Visible);
    assert_eq!(controller.show_window(), WindowRequest::ShowAndFocus);
    assert_eq!(controller.visibility(), Visibility::Visible);
}

#[test]
fn hide_twice_is_hidden() {
    let mut controller = VisibilityController::new(Visibility::Visible);
    assert_eq!(controller.hide_window(), WindowRequest::Hide);
    assert_eq!(controller.visibility(), Visibility::Hidden);
    assert_eq!(controller.hide_window(), WindowRequest::Hide);
    assert_eq!(controller.visibility(), Visibility::Hidden);
}

#[test]
fn launcher_show_and_hide_pass_through() {
    let mut launcher = example_launcher(Visibility::Hidden);
    assert_eq!(launcher.show_window(), WindowRequest::ShowAndFocus);
    assert_eq!(launcher.visibility(), Visibility::Visible);
    assert_eq!(launcher.show_window(), WindowRequest::ShowAndFocus);
    assert_eq!(launcher.visibility(), Visibility::Visible);
    assert_eq!(launcher.hide_window(), WindowRequest::Hide);
    assert_eq!(launcher.visibility(), Visibility::Hidden);
    assert_eq!(launcher.hide_window(), WindowRequest::Hide);
    assert_eq!(launcher.visibility(), Visibility::Hidden);
}

#[test]
fn listener_shows_on_press_only() {
    let listener = ShortcutListener::new(CONTROL_SPACE);
    assert_eq!(listener.bound_shortcut(), CONTROL_SPACE);
    let mut controller = VisibilityController::new(Visibility::Hidden);
    assert_eq!(listener.on_event(release(CONTROL_SPACE), &mut controller), None);
    assert_eq!(controller.visibility(), Visibility::Hidden);
    assert_eq!(
        listener.on_event(press(CONTROL_SPACE), &mut controller),
        Some(WindowRequest::ShowAndFocus)
    );
    assert_eq!(controller.visibility(), Visibility::Visible);
    assert_eq!(listener.on_event(release(CONTROL_SPACE), &mut controller), None);
    assert_eq!(controller.visibility(), Visibility::Visible);
}

#[test]
fn listener_passes_over_other_shortcuts() {
    let listener = ShortcutListener::new(CONTROL_SPACE);
    let mut controller = VisibilityController::new(Visibility::Hidden);
    assert_eq!(listener.on_event(press(CONTROL_ENTER), &mut controller), None);
    assert_eq!(controller.visibility(), Visibility::Hidden);
    assert_eq!(listener.on_event(press(Shortcut { id: 0 }), &mut controller), None);
    assert_eq!(controller.visibility(), Visibility::Hidden);
}

#[test]
fn press_on_hidden_surface_shows_it() {
    let mut launcher = example_launcher(Visibility::Hidden);
    assert_eq!(launcher.on_shortcut(press(CONTROL_SPACE)), Some(WindowRequest::ShowAndFocus));
    assert_eq!(launcher.visibility(), Visibility::Visible);
    assert_eq!(launcher.on_shortcut(release(CONTROL_SPACE)), None);
    assert_eq!(launcher.visibility(), Visibility::Visible);
}

#[test]
fn one_show_for_each_press_in_a_run_of_events() {
    let events = [
        release(CONTROL_SPACE),
        press(CONTROL_SPACE),
        release(CONTROL_SPACE),
        press(CONTROL_ENTER),
        press(CONTROL_SPACE),
        release(CONTROL_SPACE),
        release(CONTROL_ENTER),
    ];
    let mut launcher = example_launcher(Visibility::Hidden);
    let mut shows = 0;
    for event in events {
        if launcher.on_shortcut(event) == Some(WindowRequest::ShowAndFocus) {
            shows += 1;
        }
    }
    assert_eq!(shows, 2);
    assert_eq!(launcher.visibility(), Visibility::Visible);
}

#[test]
fn repeated_presses_make_a_hidden_surface_appear_once() {
    let mut launcher = example_launcher(Visibility::Hidden);
    let mut appearances = 0;
    for _ in 0..5 {
        let before = launcher.visibility();
        assert_eq!(launcher.on_shortcut(press(CONTROL_SPACE)), Some(WindowRequest::ShowAndFocus));
        if before == Visibility::Hidden && launcher.visibility() == Visibility::Visible {
            appearances += 1;
        }
    }
    assert_eq!(appearances, 1);
    assert_eq!(launcher.visibility(), Visibility::Visible);
}

#[test]
fn releases_alone_leave_the_surface_alone() {
    let mut launcher = example_launcher(Visibility::Hidden);
    for _ in 0..4 {
        assert_eq!(launcher.on_shortcut(release(CONTROL_SPACE)), None);
    }
    assert_eq!(launcher.visibility(), Visibility::Hidden);
}

#[test]
fn handle_answers_each_command() {
    let mut launcher = example_launcher(Visibility::Hidden);
    assert_eq!(
        launcher.handle(&Command::ShowWindow),
        Effects { dispatch: None, window: Some(WindowRequest::ShowAndFocus) }
    );
    assert_eq!(launcher.visibility(), Visibility::Visible);
    assert_eq!(
        launcher.handle(&Command::OpenUrl("docs".to_string())),
        Effects {
            dispatch: Some(Dispatch::OpenUrl("https://example.com".to_string())),
            window: None
        }
    );
    assert_eq!(launcher.visibility(), Visibility::Visible);
    assert_eq!(
        launcher.handle(&Command::OpenUrl("missing".to_string())),
        Effects { dispatch: Some(Dispatch::NotFound), window: None }
    );
    assert_eq!(
        launcher.handle(&Command::RunProgram("calc".to_string())),
        Effects {
            dispatch: Some(Dispatch::LaunchProgram("/Applications/Calculator.app".to_string())),
            window: Some(WindowRequest::Hide)
        }
    );
    assert_eq!(launcher.visibility(), Visibility::Hidden);
    assert_eq!(
        launcher.handle(&Command::Shortcut(press(CONTROL_SPACE))),
        Effects { dispatch: None, window: Some(WindowRequest::ShowAndFocus) }
    );
    assert_eq!(launcher.visibility(), Visibility::Visible);
    assert_eq!(
        launcher.handle(&Command::Shortcut(release(CONTROL_SPACE))),
        Effects { dispatch: None, window: None }
    );
    assert_eq!(launcher.visibility(), Visibility::Visible);
    assert_eq!(
        launcher.handle(&Command::RunProgram("missing".to_string())),
        Effects { dispatch: Some(Dispatch::NotFound), window: Some(WindowRequest::Hide) }
    );
    assert_eq!(launcher.visibility(), Visibility::Hidden);
    launcher.handle(&Command::ShowWindow);
    assert_eq!(
        launcher.handle(&Command::HideWindow),
        Effects { dispatch: None, window: Some(WindowRequest::Hide) }
    );
    assert_eq!(launcher.visibility(), Visibility::Hidden);
}

#[test]
fn no_command_changes_the_configuration() {
    let mut launcher = example_launcher(Visibility::Hidden);
    let commands = [
        Command::ShowWindow,
        Command::OpenUrl("docs".to_string()),
        Command::OpenUrl("missing".to_string()),
        Command::RunProgram("calc".to_string()),
        Command::RunProgram("missing".to_string()),
        Command::Shortcut(press(CONTROL_SPACE)),
        Command::Shortcut(release(CONTROL_SPACE)),
        Command::HideWindow,
    ];
    for command in commands.iter() {
        launcher.handle(command);
        assert_eq!(launcher.get_urls(), vec!["docs".to_string()]);
        assert_eq!(launcher.get_programs(), vec!["calc".to_string()]);
        assert_eq!(launcher.config().resolve_url("docs"), Some(&"https://example.com".to_string()));
        assert_eq!(launcher.config().resolve_url("missing"), None);
        assert_eq!(
            launcher.config().resolve_program("calc"),
            Some(&"/Applications/Calculator.app".to_string())
        );
        assert_eq!(launcher.bound_shortcut(), CONTROL_SPACE);
    }
}

#[test]
fn what_ends_the_process_and_what_does_not() {
    assert_eq!(Failure::ConfigLoad.severity(), Severity::Fatal);
    assert_eq!(Failure::ConfigParse.severity(), Severity::Fatal);
    assert_eq!(Failure::ShortcutRegistration.severity(), Severity::Fatal);
    assert_eq!(Failure::WindowUnavailable.severity(), Severity::Fatal);
    assert_eq!(Failure::UnknownName.severity(), Severity::Reported);
    assert_eq!(Failure::OsAction.severity(), Severity::Ignored);
    assert!(Failure::ConfigLoad.is_fatal());
    assert!(Failure::ConfigParse.is_fatal());
    assert!(Failure::ShortcutRegistration.is_fatal());
    assert!(Failure::WindowUnavailable.is_fatal());
    assert!(!Failure::UnknownName.is_fatal());
    assert!(!Failure::OsAction.is_fatal());
}
