use vstd::prelude::*;

use crate::structured_dialog::{
    choice_names, choice_named, choice_position, choice_views, dialog_views, dialog_with_id,
    lemma_index_of_from_found, option_view, texts, Actions, ChoiceView, Dialog, DialogMessage,
    DialogView, GameScript,
};

verus! {

/// The screens the game moves between.
#[derive(Clone, Copy, Debug, PartialEq, Eq, Structural)]
pub enum AppState {
    Splash,
    Game,
    Pause,
    Menu,
    GameOver,
}

/// Music volume, in percent, once music is switched on.
pub const MUSIC_ON_VOLUME: u32 = 30;

/// Sound effect volume, in percent, once effects are switched on.
pub const SFX_ON_VOLUME: u32 = 80;

/// What the player chose in the menus: the language shown and the volume, in
/// percent, of music and of sound effects.
#[derive(Clone, Copy, Debug, PartialEq, Eq, Structural)]
pub struct Preferences {
    pub english: bool,
    pub music_volume: u32,
    pub sfx_volume: u32,
}

impl Preferences {
    /// English text, music and sound effects on.
    pub fn new() -> (r: Preferences)
        ensures
            r.english,
            r.music_volume == MUSIC_ON_VOLUME,
            r.sfx_volume == SFX_ON_VOLUME,
    {
        Preferences { english: true, music_volume: MUSIC_ON_VOLUME, sfx_volume: SFX_ON_VOLUME }
    }
}

/// The preferences after leaving a settings choice with the events `events`:
/// "spanish" wins over "english", and a "stop" over a "play".
pub open spec fn adjusted(p: Preferences, events: Seq<Seq<char>>) -> Preferences {
    Preferences {
        english: if events.contains("spanish"@) {
            false
        } else if events.contains("english"@) {
            true
        } else {
            p.english
        },
        music_volume: if events.contains("stop music"@) {
            0
        } else if events.contains("play music"@) {
            MUSIC_ON_VOLUME
        } else {
            p.music_volume
        },
        sfx_volume: if events.contains("stop sfx"@) {
            0
        } else if events.contains("play sfx"@) {
            SFX_ON_VOLUME
        } else {
            p.sfx_volume
        },
    }
}

/// The menu shown after a settings choice: the pause menu while a game is
/// paused, the main menu otherwise.
pub open spec fn menu_id(resume: bool) -> Seq<char> {
    if resume {
        "pause menu"@
    } else {
        "main menu"@
    }
}

/// The choice named `selection` in the dialog on screen, if both exist.
pub open spec fn selected_choice(
    dialog: Option<DialogView>,
    selection: Seq<char>,
) -> Option<ChoiceView> {
    match dialog {
        Some(d) => match d.choices {
            Some(cs) => choice_named(cs, selection),
            None => None,
        },
        None => None,
    }
}

/// Whether `events` holds `name`.
pub fn has_event(events: &Vec<String>, name: &String) -> (r: bool)
    ensures
        r == texts(events@).contains(name@),
{
    let mut i: usize = 0;
    while i < events.len()
        invariant
            i <= events@.len(),
            forall|j: int| 0 <= j < i ==> texts(events@)[j] != name@,
        decreases events@.len() - i,
    {
        if events[i] == *name {
            assert(texts(events@)[i as int] == name@);
            return true;
        }
        i = i + 1;
    }
    false
}

/// The actions of the choice named `selection` in the dialog on screen.
fn selected_actions(message: &DialogMessage, selection: &String) -> (r: Option<Actions>)
    ensures
        match selected_choice(option_view(message.dialog), selection@) {
            Some(c) => r is Some && r->Some_0@ == c.actions,
            None => r is None,
        },
{
    match &message.dialog {
        Some(d) => match &d.choices {
            Some(cs) => {
                proof {
                    lemma_index_of_from_found(choice_names(choice_views(cs@)), selection@, 0);
                }
                match choice_position(cs, selection) {
                    Some(i) => Some(cs[i].dialog.actions.clone()),
                    None => None,
                }
            },
            None => None,
        },
        None => None,
    }
}

/// Carries out the menu choice named `selection`. A choice that names a next
/// dialog shows it; "start_game" and "show_credits" close the menu and name
/// the screen to go to; any other choice updates the preferences and shows
/// the pause or main menu again. Without such a choice on screen nothing
/// changes.
pub fn menu_options(
    selection: &String,
    script: &GameScript,
    message: &mut DialogMessage,
    preferences: &mut Preferences,
    resume: bool,
) -> (r: Option<AppState>)
    ensures
        final(message).selection_index == old(message).selection_index,
        match selected_choice(option_view(old(message).dialog), selection@) {
            None => r is None && option_view(final(message).dialog) == option_view(
                old(message).dialog,
            ) && *final(preferences) == *old(preferences),
            Some(c) => if c.actions.next_id.len() > 0 {
                r is None && option_view(final(message).dialog) == dialog_with_id(
                    dialog_views(script.dialogs@),
                    c.actions.next_id,
                ) && *final(preferences) == *old(preferences)
            } else if c.actions.events_changed_on_exit.contains("start_game"@) {
                r == Some(AppState::Game) && final(message).dialog is None && *final(preferences)
                    == *old(preferences)
            } else if c.actions.events_changed_on_exit.contains("show_credits"@) {
                r == Some(AppState::Splash) && final(message).dialog is None
                    && *final(preferences) == *old(preferences)
            } else {
                r is None && *final(preferences) == adjusted(
                    *old(preferences),
                    c.actions.events_changed_on_exit,
                ) && option_view(final(message).dialog) == dialog_with_id(
                    dialog_views(script.dialogs@),
                    menu_id(resume),
                )
            },
        },
{
    let actions = match selected_actions(message, selection) {
        Some(a) => a,
        None => {
            return None;
        },
    };
    let exit = &actions.events_changed_on_exit;
    if !actions.next_id.as_str().is_empty() {
        message.dialog = script.dialog(&actions.next_id);
        return None;
    }
    if has_event(exit, &"start_game".to_owned()) {
        message.dialog = None;
        return Some(AppState::Game);
    }
    if has_event(exit, &"show_credits".to_owned()) {
        message.dialog = None;
        return Some(AppState::Splash);
    }
    if has_event(exit, &"english".to_owned()) {
        preferences.english = true;
    }
    if has_event(exit, &"spanish".to_owned()) {
        preferences.english = false;
    }
    if has_event(exit, &"play music".to_owned()) {
        preferences.music_volume = MUSIC_ON_VOLUME;
    }
    if has_event(exit, &"stop music".to_owned()) {
        preferences.music_volume = 0;
    }
    if has_event(exit, &"play sfx".to_owned()) {
        preferences.sfx_volume = SFX_ON_VOLUME;
    }
    if has_event(exit, &"stop sfx".to_owned()) {
        preferences.sfx_volume = 0;
    }
    let menu = if resume {
        "pause menu".to_owned()
    } else {
        "main menu".to_owned()
    };
    message.dialog = script.dialog(&menu);
    None
}

/// The dialog that was on screen when the game was paused, to return to.
pub struct LastDialog(pub Option<Dialog>);

/// A copy of an optional dialog.
fn copy_dialog(d: &Option<Dialog>) -> (r: Option<Dialog>)
    ensures
        option_view(r) == option_view(*d),
{
    match d {
        Some(d) => Some(d.clone()),
        None => None,
    }
}

/// Opens the menu: the pause menu when `resume`, keeping the dialog on screen
/// in `last` unless one is kept already; the main menu otherwise.
pub fn open_menu(
    script: &GameScript,
    message: &mut DialogMessage,
    last: &mut LastDialog,
    resume: bool,
)
    ensures
        option_view(final(message).dialog) == dialog_with_id(
            dialog_views(script.dialogs@),
            menu_id(resume),
        ),
        final(message).selection_index == old(message).selection_index,
        option_view(final(last).0) == if resume && old(last).0 is None {
            option_view(old(message).dialog)
        } else {
            option_view(old(last).0)
        },
{
    let menu = if resume {
        if last.0.is_none() {
            last.0 = copy_dialog(&message.dialog);
        }
        "pause menu".to_owned()
    } else {
        "main menu".to_owned()
    };
    message.dialog = script.dialog(&menu);
}

} // verus!
