//! What holds of every launcher, whatever it is asked.

use vstd::prelude::*;
use crate::dispatch::DispatchView;
use crate::launcher::{effects_of, run, step, CommandView, EffectsView, LauncherState};
use crate::shortcut::{is_press_of, Shortcut, ShortcutEvent};
use crate::surface::{Visibility, WindowRequest};

verus! {

/// No run of commands changes the configuration or the bound shortcut: a
/// name stands for the same target, or for none, before and after.
pub proof fn lemma_configuration_is_immutable(state: LauncherState, commands: Seq<CommandView>)
    ensures
        run(state, commands).urls == state.urls,
        run(state, commands).programs == state.programs,
        run(state, commands).binding == state.binding,
    decreases commands.len(),
{
    if commands.len() > 0 {
        lemma_configuration_is_immutable(state, commands.drop_last());
    }
}

/// Opening a URL under a name that stands for none asks for no action and
/// changes nothing.
pub proof fn lemma_unknown_url_does_nothing(state: LauncherState, name: Seq<char>)
    requires
        !state.urls.contains_key(name),
    ensures
        effects_of(state, CommandView::OpenUrl(name)) == (EffectsView {
            dispatch: Some(DispatchView::NotFound),
            window: None,
        }),
        step(state, CommandView::OpenUrl(name)) == state,
{
}

/// Running a program under a name that stands for none launches nothing;
/// all that is asked for is to hide the surface.
pub proof fn lemma_unknown_program_only_hides(state: LauncherState, name: Seq<char>)
    requires
        !state.programs.contains_key(name),
    ensures
        effects_of(state, CommandView::RunProgram(name)) == (EffectsView {
            dispatch: Some(DispatchView::NotFound),
            window: Some(WindowRequest::Hide),
        }),
{
}

/// After running a program the surface is hidden, whether or not the name
/// is known and whatever the surface was.
pub proof fn lemma_run_program_hides(state: LauncherState, name: Seq<char>)
    ensures
        step(state, CommandView::RunProgram(name)).surface == Visibility::Hidden,
        effects_of(state, CommandView::RunProgram(name)).window == Some(WindowRequest::Hide),
{
}

/// Showing twice is showing once, and hiding twice is hiding once.
pub proof fn lemma_show_and_hide_are_idempotent(state: LauncherState)
    ensures
        step(state, CommandView::ShowWindow).surface == Visibility::Visible,
        step(step(state, CommandView::ShowWindow), CommandView::ShowWindow) == step(
            state,
            CommandView::ShowWindow,
        ),
        step(state, CommandView::HideWindow).surface == Visibility::Hidden,
        step(step(state, CommandView::HideWindow), CommandView::HideWindow) == step(
            state,
            CommandView::HideWindow,
        ),
{
}

/// The commands that a run of key events amounts to.
pub open spec fn shortcut_commands(events: Seq<ShortcutEvent>) -> Seq<CommandView> {
    events.map_values(|event: ShortcutEvent| CommandView::Shortcut(event))
}

/// How many of `events` are presses of `binding`.
pub open spec fn presses(binding: Shortcut, events: Seq<ShortcutEvent>) -> nat
    decreases events.len(),
{
    if events.len() == 0 {
        0
    } else {
        presses(binding, events.drop_last()) + if is_press_of(binding, events.last()) {
            1nat
        } else {
            0nat
        }
    }
}

/// How often a run of commands asks to show the surface.
pub open spec fn show_requests(state: LauncherState, commands: Seq<CommandView>) -> nat
    decreases commands.len(),
{
    if commands.len() == 0 {
        0
    } else {
        let before = run(state, commands.drop_last());
        show_requests(state, commands.drop_last()) + if effects_of(before, commands.last()).window
            == Some(WindowRequest::ShowAndFocus) {
            1nat
        } else {
            0nat
        }
    }
}

/// A press of the bound shortcut on a hidden surface makes it visible and
/// asks once to show it; a release changes nothing and asks nothing.
pub proof fn lemma_press_shows_release_does_nothing(state: LauncherState, event: ShortcutEvent)
    requires
        event.shortcut == state.binding,
    ensures
        event.state == crate::shortcut::ShortcutState::Pressed ==> step(
            state,
            CommandView::Shortcut(event),
        ).surface == Visibility::Visible && effects_of(state, CommandView::Shortcut(event)) == (
        EffectsView { dispatch: None, window: Some(WindowRequest::ShowAndFocus) }),
        event.state == crate::shortcut::ShortcutState::Released ==> step(
            state,
            CommandView::Shortcut(event),
        ) == state && effects_of(state, CommandView::Shortcut(event)) == (EffectsView {
            dispatch: None,
            window: None,
        }),
{
}

/// Over any run of key events the surface is asked to show exactly once for
/// each press of the bound shortcut, and it ends visible if there was such a
/// press and as it began if there was none.
pub proof fn lemma_one_show_per_press(state: LauncherState, events: Seq<ShortcutEvent>)
    ensures
        show_requests(state, shortcut_commands(events)) == presses(state.binding, events),
        run(state, shortcut_commands(events)).surface == if presses(state.binding, events) > 0 {
            Visibility::Visible
        } else {
            state.surface
        },
    decreases events.len(),
{
    let commands = shortcut_commands(events);
    if events.len() > 0 {
        let earlier = events.drop_last();
        assert(commands.drop_last() =~= shortcut_commands(earlier));
        assert(commands.last() == CommandView::Shortcut(events.last()));
        lemma_one_show_per_press(state, earlier);
        lemma_configuration_is_immutable(state, shortcut_commands(earlier));
    }
}

/// How often the surface goes from hidden to visible in a run of commands.
pub open spec fn appearances(state: LauncherState, commands: Seq<CommandView>) -> nat
    decreases commands.len(),
{
    if commands.len() == 0 {
        0
    } else {
        let before = run(state, commands.drop_last());
        appearances(state, commands.drop_last()) + if before.surface == Visibility::Hidden && step(
            before,
            commands.last(),
        ).surface == Visibility::Visible {
            1nat
        } else {
            0nat
        }
    }
}

/// Over any run of key events a hidden surface appears once if the bound
/// shortcut is pressed at all, however often the press is repeated, and a
/// visible surface never appears anew.
pub proof fn lemma_surface_appears_once(state: LauncherState, events: Seq<ShortcutEvent>)
    ensures
        appearances(state, shortcut_commands(events)) == if state.surface == Visibility::Hidden
            && presses(state.binding, events) > 0 {
            1nat
        } else {
            0nat
        },
    decreases events.len(),
{
    let commands = shortcut_commands(events);
    if events.len() > 0 {
        let earlier = events.drop_last();
        assert(commands.drop_last() =~= shortcut_commands(earlier));
        assert(commands.last() == CommandView::Shortcut(events.last()));
        lemma_surface_appears_once(state, earlier);
        lemma_one_show_per_press(state, earlier);
        lemma_configuration_is_immutable(state, shortcut_commands(earlier));
    }
}

} // verus!
