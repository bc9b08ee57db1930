//! Handling of admin commands in the Genesis chat.

use vstd::prelude::*;

verus! {

use crate::bot::State;
use crate::request_handlers::Action;
use crate::request_handlers::BotError;
use crate::utils::str_eq;

/// The group a `/join` command names, resolved against the bootstrap
/// configuration: `genesis`, `reviewee` (the publishers' group) or
/// `tester`.  Anything else is no command of this chat.
pub open spec fn join_target(state: State, text: Seq<char>) -> Option<u64> {
    if text == "/join genesis"@ {
        Some(state.config.genesis_group)
    } else if text == "/join reviewee"@ {
        Some(state.config.reviewee_group)
    } else if text == "/join tester"@ {
        Some(state.config.tester_group)
    } else {
        None
    }
}

/// What a text message in the Genesis chat leads to: a recognised
/// `/join` command adds its sender to the named group; anything else is
/// ignored.  The pools themselves follow later, from the group's own
/// membership-changed event.
pub open spec fn handle_message_post(
    state: State,
    sender: u64,
    text: Seq<char>,
    r: Result<Seq<Action>, BotError>,
) -> bool {
    match join_target(state, text) {
        Some(group) => r matches Ok(acts) && acts.len() == 1 && (acts[0]
            matches Action::AddContact { chat, contact } && chat == group && contact == sender),
        None => r == Ok::<Seq<Action>, BotError>(Seq::empty()),
    }
}

/// Handles a text message in the Genesis chat.
pub fn handle_message(state: &State, sender: u64, msg_text: &String) -> (r: Result<
    Vec<Action>,
    BotError,
>)
    ensures
        handle_message_post(
            *state,
            sender,
            msg_text@,
            match r {
                Ok(acts) => Ok(acts@),
                Err(e) => Err(e),
            },
        ),
{
    let t = msg_text.as_str();
    let group = if str_eq(t, "/join genesis") {
        Some(state.config.genesis_group)
    } else if str_eq(t, "/join reviewee") {
        Some(state.config.reviewee_group)
    } else if str_eq(t, "/join tester") {
        Some(state.config.tester_group)
    } else {
        None
    };
    match group {
        Some(g) => {
            let mut acts: Vec<Action> = Vec::new();
            acts.push(Action::AddContact { chat: g, contact: sender });
            Ok(acts)
        },
        None => {
            let acts: Vec<Action> = Vec::new();
            proof {
                assert(acts@ =~= Seq::<Action>::empty());
            }
            Ok(acts)
        },
    }
}

} // verus!
