use vstd::prelude::*;

verus! {

/// Every dialog of the game, as loaded from the script file.
#[derive(Debug, Default)]
pub struct GameScript {
    pub dialogs: Vec<Dialog>,
}

/// One screen of dialog: its text, the events and items it needs, and the
/// choices offered to the player.
#[derive(Debug, Default)]
pub struct Dialog {
    pub id: String,
    pub name: String,
    pub events: Vec<String>,
    pub posessions: Vec<String>,
    pub choices: Option<Vec<Choice>>,
    pub language: Language,
    pub actions: Actions,
}

/// What entering or leaving a dialog changes, and which dialog follows.
#[derive(Debug, Default)]
pub struct Actions {
    pub events_changed_on_enter: Vec<String>,
    pub events_changed_on_exit: Vec<String>,
    pub items_changed_on_enter: Vec<String>,
    pub items_changed_on_exit: Vec<String>,
    pub next_id: String,
}

/// Text of a line of dialog in each language the game can show.
#[derive(Debug, Default)]
pub struct Language {
    pub spanish: String,
    pub english: String,
}

/// One answer the player may pick, named by `choice`.
#[derive(Debug, Default)]
pub struct Choice {
    pub choice: String,
    pub dialog: ChoiceDialog,
}

/// The text of a choice and what picking it does.
#[derive(Debug, Default)]
pub struct ChoiceDialog {
    pub language: Language,
    pub actions: Actions,
}

/// The dialog on screen, if any, and the highlighted line.
#[derive(Default)]
pub struct DialogMessage {
    pub dialog: Option<Dialog>,
    pub selection_index: usize,
}

/// The text of each string of a list.
pub open spec fn texts(v: Seq<String>) -> Seq<Seq<char>> {
    v.map_values(|s: String| s@)
}

/// What a `Language` holds.
pub struct LanguageView {
    pub spanish: Seq<char>,
    pub english: Seq<char>,
}

/// What an `Actions` holds.
pub struct ActionsView {
    pub events_changed_on_enter: Seq<Seq<char>>,
    pub events_changed_on_exit: Seq<Seq<char>>,
    pub items_changed_on_enter: Seq<Seq<char>>,
    pub items_changed_on_exit: Seq<Seq<char>>,
    pub next_id: Seq<char>,
}

/// What a `Choice` holds.
pub struct ChoiceView {
    pub choice: Seq<char>,
    pub language: LanguageView,
    pub actions: ActionsView,
}

/// What a `Dialog` holds.
pub struct DialogView {
    pub id: Seq<char>,
    pub name: Seq<char>,
    pub events: Seq<Seq<char>>,
    pub posessions: Seq<Seq<char>>,
    pub choices: Option<Seq<ChoiceView>>,
    pub language: LanguageView,
    pub actions: ActionsView,
}

impl View for Language {
    type V = LanguageView;

    open spec fn view(&self) -> LanguageView {
        LanguageView { spanish: self.spanish@, english: self.english@ }
    }
}

impl View for Actions {
    type V = ActionsView;

    open spec fn view(&self) -> ActionsView {
        ActionsView {
            events_changed_on_enter: texts(self.events_changed_on_enter@),
            events_changed_on_exit: texts(self.events_changed_on_exit@),
            items_changed_on_enter: texts(self.items_changed_on_enter@),
            items_changed_on_exit: texts(self.items_changed_on_exit@),
            next_id: self.next_id@,
        }
    }
}

impl View for Choice {
    type V = ChoiceView;

    open spec fn view(&self) -> ChoiceView {
        ChoiceView {
            choice: self.choice@,
            language: self.dialog.language@,
            actions: self.dialog.actions@,
        }
    }
}

/// What each choice of a list holds.
pub open spec fn choice_views(v: Seq<Choice>) -> Seq<ChoiceView> {
    v.map_values(|c: Choice| c@)
}

impl View for Dialog {
    type V = DialogView;

    open spec fn view(&self) -> DialogView {
        DialogView {
            id: self.id@,
            name: self.name@,
            events: texts(self.events@),
            posessions: texts(self.posessions@),
            choices: match self.choices {
                Some(c) => Some(choice_views(c@)),
                None => None,
            },
            language: self.language@,
            actions: self.actions@,
        }
    }
}

/// A copy of `v` whose strings equal those of `v`.
fn copy_strings(v: &Vec<String>) -> (r: Vec<String>)
    ensures
        r@ == v@,
{
    let mut r: Vec<String> = Vec::new();
    let mut i: usize = 0;
    while i < v.len()
        invariant
            i <= v@.len(),
            r@ == v@.subrange(0, i as int),
        decreases v@.len() - i,
    {
        r.push(v[i].clone());
        i = i + 1;
    }
    assert(r@ =~= v@);
    r
}

impl Clone for Language {
    fn clone(&self) -> (r: Self)
        ensures
            r@ == self@,
    {
        Language { spanish: self.spanish.clone(), english: self.english.clone() }
    }
}

impl Clone for Actions {
    fn clone(&self) -> (r: Self)
        ensures
            r@ == self@,
    {
        Actions {
            events_changed_on_enter: copy_strings(&self.events_changed_on_enter),
            events_changed_on_exit: copy_strings(&self.events_changed_on_exit),
            items_changed_on_enter: copy_strings(&self.items_changed_on_enter),
            items_changed_on_exit: copy_strings(&self.items_changed_on_exit),
            next_id: self.next_id.clone(),
        }
    }
}

impl Clone for ChoiceDialog {
    fn clone(&self) -> (r: Self)
        ensures
            r.language@ == self.language@,
            r.actions@ == self.actions@,
    {
        ChoiceDialog { language: self.language.clone(), actions: self.actions.clone() }
    }
}

impl Clone for Choice {
    fn clone(&self) -> (r: Self)
        ensures
            r@ == self@,
    {
        Choice { choice: self.choice.clone(), dialog: self.dialog.clone() }
    }
}

/// A copy of `v` whose choices hold what those of `v` hold.
fn copy_choices(v: &Vec<Choice>) -> (r: Vec<Choice>)
    ensures
        choice_views(r@) == choice_views(v@),
{
    let mut r: Vec<Choice> = Vec::new();
    let mut i: usize = 0;
    while i < v.len()
        invariant
            i <= v@.len(),
            r@.len() == i,
            forall|j: int| 0 <= j < i ==> (#[trigger] r@[j])@ == v@[j]@,
        decreases v@.len() - i,
    {
        r.push(v[i].clone());
        i = i + 1;
    }
    assert(choice_views(r@) =~= choice_views(v@));
    r
}

impl Clone for Dialog {
    fn clone(&self) -> (r: Self)
        ensures
            r@ == self@,
    {
        let choices = match &self.choices {
            Some(c) => Some(copy_choices(c)),
            None => None,
        };
        Dialog {
            id: self.id.clone(),
            name: self.name.clone(),
            events: copy_strings(&self.events),
            posessions: copy_strings(&self.posessions),
            choices,
            language: self.language.clone(),
            actions: self.actions.clone(),
        }
    }
}

/// The text of `language` in English when `english` holds, else in Spanish.
pub open spec fn text_in(language: LanguageView, english: bool) -> Seq<char> {
    if english {
        language.english
    } else {
        language.spanish
    }
}

impl Language {
    /// The text to display, English when `english` holds and Spanish otherwise.
    pub fn text(&self, english: bool) -> (r: &String)
        ensures
            r@ == text_in(self@, english),
    {
        if english {
            &self.english
        } else {
            &self.spanish
        }
    }
}

/// The first position at or after `start` where `ids` holds `id`.
pub open spec fn index_of_from(ids: Seq<Seq<char>>, id: Seq<char>, start: int) -> Option<int>
    decreases ids.len() - start,
{
    if start < 0 || start >= ids.len() {
        None
    } else if ids[start] == id {
        Some(start)
    } else {
        index_of_from(ids, id, start + 1)
    }
}

/// A position found at or after `start` is one where `ids` holds `id`.
pub proof fn lemma_index_of_from_found(ids: Seq<Seq<char>>, id: Seq<char>, start: int)
    ensures
        match index_of_from(ids, id, start) {
            Some(i) => start <= i < ids.len() && ids[i] == id,
            None => true,
        },
    decreases ids.len() - start,
{
    if 0 <= start < ids.len() && ids[start] != id {
        lemma_index_of_from_found(ids, id, start + 1);
    }
}

/// The first position where `ids` holds `id`.
pub open spec fn index_of(ids: Seq<Seq<char>>, id: Seq<char>) -> Option<int> {
    index_of_from(ids, id, 0)
}

/// The name of each choice of a list.
pub open spec fn choice_names(v: Seq<ChoiceView>) -> Seq<Seq<char>> {
    v.map_values(|c: ChoiceView| c.choice)
}

/// The id of each dialog of a list.
pub open spec fn dialog_ids(v: Seq<DialogView>) -> Seq<Seq<char>> {
    v.map_values(|d: DialogView| d.id)
}

/// What each dialog of a list holds.
pub open spec fn dialog_views(v: Seq<Dialog>) -> Seq<DialogView> {
    v.map_values(|d: Dialog| d@)
}

/// The first dialog of `dialogs` whose id is `id`.
pub open spec fn dialog_with_id(dialogs: Seq<DialogView>, id: Seq<char>) -> Option<DialogView> {
    match index_of(dialog_ids(dialogs), id) {
        Some(i) => Some(dialogs[i]),
        None => None,
    }
}

/// The first choice of `choices` named `name`.
pub open spec fn choice_named(choices: Seq<ChoiceView>, name: Seq<char>) -> Option<ChoiceView> {
    match index_of(choice_names(choices), name) {
        Some(i) => Some(choices[i]),
        None => None,
    }
}

/// What an optional dialog holds.
pub open spec fn option_view(d: Option<Dialog>) -> Option<DialogView> {
    match d {
        Some(d) => Some(d@),
        None => None,
    }
}

/// Position of the first choice named `name`, if there is one.
pub fn choice_position(choices: &Vec<Choice>, name: &String) -> (r: Option<usize>)
    ensures
        match r {
            Some(i) => index_of(choice_names(choice_views(choices@)), name@) == Some(i as int),
            None => index_of(choice_names(choice_views(choices@)), name@) == None::<int>,
        },
{
    let ghost names = choice_names(choice_views(choices@));
    let mut i: usize = 0;
    while i < choices.len()
        invariant
            i <= choices@.len(),
            names.len() == choices@.len(),
            names == choice_names(choice_views(choices@)),
            index_of(names, name@) == index_of_from(names, name@, i as int),
        decreases choices@.len() - i,
    {
        assert(names[i as int] == choices@[i as int].choice@);
        if choices[i].choice == *name {
            return Some(i);
        }
        i = i + 1;
    }
    None
}

impl GameScript {
    /// Position of the first dialog whose id is `id`, if there is one.
    pub fn position_of(&self, id: &String) -> (r: Option<usize>)
        ensures
            match r {
                Some(i) => index_of(dialog_ids(dialog_views(self.dialogs@)), id@) == Some(
                    i as int,
                ),
                None => index_of(dialog_ids(dialog_views(self.dialogs@)), id@) == None::<int>,
            },
    {
        let ghost ids = dialog_ids(dialog_views(self.dialogs@));
        let mut i: usize = 0;
        while i < self.dialogs.len()
            invariant
                i <= self.dialogs@.len(),
                ids.len() == self.dialogs@.len(),
                ids == dialog_ids(dialog_views(self.dialogs@)),
                index_of(ids, id@) == index_of_from(ids, id@, i as int),
            decreases self.dialogs@.len() - i,
        {
            assert(ids[i as int] == self.dialogs@[i as int].id@);
            if self.dialogs[i].id == *id {
                return Some(i);
            }
            i = i + 1;
        }
        None
    }

    /// A copy of the first dialog whose id is `id`, if there is one.
    pub fn dialog(&self, id: &String) -> (r: Option<Dialog>)
        ensures
            option_view(r) == dialog_with_id(dialog_views(self.dialogs@), id@),
    {
        proof {
            lemma_index_of_from_found(dialog_ids(dialog_views(self.dialogs@)), id@, 0);
        }
        match self.position_of(id) {
            Some(i) => Some(self.dialogs[i].clone()),
            None => None,
        }
    }
}

impl DialogMessage {
    /// Clears the dialog on screen and highlights the first line of choices.
    pub fn reset(&mut self)
        ensures
            final(self).dialog is None,
            final(self).selection_index == 1,
    {
        self.dialog = None;
        self.selection_index = 1;
    }
}

} // verus!
