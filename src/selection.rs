use vstd::prelude::*;

use crate::structured_dialog::{
    choice_names, choice_position, choice_views, index_of, Choice,
};

verus! {

/// The highlighted position after one step: up stops at the first choice,
/// down stops at the last, and up wins over down.
pub open spec fn step_index(index: int, len: int, up: bool, down: bool) -> int {
    if up {
        if index <= 0 {
            0
        } else {
            index - 1
        }
    } else if down {
        if index >= len - 1 {
            len - 1
        } else {
            index + 1
        }
    } else {
        index
    }
}

/// The highlighted position for the selection `name`: the first choice of
/// that name, or the first choice when no choice has it.
pub open spec fn current_index(choices: Seq<Choice>, name: Seq<char>) -> int {
    match index_of(choice_names(choice_views(choices)), name) {
        Some(i) => i,
        None => 0,
    }
}

/// The position highlighted after a step up or down among `len` choices.
pub fn next_index(index: usize, len: usize, up: bool, down: bool) -> (r: usize)
    requires
        len > 0,
    ensures
        r == step_index(index as int, len as int, up, down),
{
    if up {
        if index == 0 {
            0
        } else {
            index - 1
        }
    } else if down {
        if index >= len - 1 {
            len - 1
        } else {
            index + 1
        }
    } else {
        index
    }
}

/// The positions highlighted before and after a step: the first is the
/// choice named by the current selection, the second where a step up or down
/// from it lands.
pub fn navigate(choices: &Vec<Choice>, selection: &String, up: bool, down: bool) -> (r: (
    usize,
    usize,
))
    requires
        choices@.len() > 0,
    ensures
        r.0 == current_index(choices@, selection@),
        r.1 == step_index(r.0 as int, choices@.len() as int, up, down),
        r.0 < choices@.len(),
        r.1 < choices@.len(),
{
    let index = match choice_position(choices, selection) {
        Some(i) => {
            proof {
                crate::structured_dialog::lemma_index_of_from_found(
                    choice_names(choice_views(choices@)),
                    selection@,
                    0,
                );
            }
            i
        },
        None => 0,
    };
    (index, next_index(index, choices.len(), up, down))
}

/// What confirming a choice of an in-game dialog does.
#[derive(Clone, Copy, Debug, PartialEq, Eq, Structural)]
pub enum Confirmation {
    /// Start a new game; the dialog stays until the reset clears it.
    PlayAgain,
    /// Close the dialog and let the rider out.
    DropRider,
    /// Close the dialog and take on the closest person as the rider.
    AcceptRide,
    /// Close the dialog and mark the closest person's ride as declined.
    DeclineRide,
    /// Close the dialog.
    Close,
}

/// The outcome of confirming `selection`: "play again" restarts, a rider
/// aboard is dropped, and otherwise the closest person's ride is accepted by
/// the choice "0" and declined by any other.
pub open spec fn confirmation_of(
    selection: Seq<char>,
    has_rider: bool,
    has_closest_person: bool,
) -> Confirmation {
    if selection == "play again"@ {
        Confirmation::PlayAgain
    } else if has_rider {
        Confirmation::DropRider
    } else if has_closest_person {
        if selection == "0"@ {
            Confirmation::AcceptRide
        } else {
            Confirmation::DeclineRide
        }
    } else {
        Confirmation::Close
    }
}

/// Decides what confirming the choice `selection` does, given whether a
/// rider is aboard and whether a person stands close to the taxi.
pub fn confirm_choice(selection: &String, has_rider: bool, has_closest_person: bool) -> (r:
    Confirmation)
    ensures
        r == confirmation_of(selection@, has_rider, has_closest_person),
{
    let play_again = "play again".to_owned();
    let accept = "0".to_owned();
    if *selection == play_again {
        Confirmation::PlayAgain
    } else if has_rider {
        Confirmation::DropRider
    } else if has_closest_person {
        if *selection == accept {
            Confirmation::AcceptRide
        } else {
            Confirmation::DeclineRide
        }
    } else {
        Confirmation::Close
    }
}

} // verus!
