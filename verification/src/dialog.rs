//! The decisions behind the server list window.

use crate::client::{after_select, connectable, step_matches, Client, ClientView, ConnectStep};
use vstd::prelude::*;

verus! {

/// The client after the Connect button was pressed with `selected` picked in
/// the server list: nothing changes when no entry is picked, otherwise the
/// picked entry is selected as [`Client::select_server`] does.
pub open spec fn after_connect_button(c: ClientView, selected: Option<usize>) -> ClientView {
    match selected {
        None => c,
        Some(index) => after_select(c, index),
    }
}

/// Reacts to the Connect button with `selected` picked in the server list:
/// no step when no entry is picked or the picked entry is already the
/// selection, otherwise the step of switching to it.
pub fn connect(client: &mut Client, selected: Option<usize>) -> (step: Option<ConnectStep>)
    requires
        selected matches Some(index) ==> index == old(client)@.config.select || connectable(
            old(client)@.config,
            index,
        ),
    ensures
        final(client)@ == after_connect_button(old(client)@, selected),
        step is Some <==> (selected matches Some(index) && index != old(client)@.config.select),
        step matches Some(s) ==> step_matches(s, old(client)@.config, selected->0 as int),
{
    match selected {
        None => None,
        Some(index) => client.select_server(index),
    }
}

/// Pressing Connect a second time with the same server still picked does
/// nothing: the server is the selection after the first press, so no switch
/// happens and the client stays as the first press left it.
pub proof fn lemma_connect_again_is_noop(c: ClientView, index: usize)
    requires
        index < c.config.servers.len(),
    ensures
        after_connect_button(c, Some(index)).config.select == index,
        after_connect_button(after_connect_button(c, Some(index)), Some(index))
            == after_connect_button(c, Some(index)),
{
}

} // verus!
