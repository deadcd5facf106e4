//! The selection router: the one stateful decision point. It consumes the
//! translated event stream item by item and decides, for each packet, whether
//! it is a client-selection gesture (consumed, never forwarded) or a value to
//! forward to the currently selected client, if any.

use vstd::prelude::*;

use crate::packet::ClientName;
use crate::packet::ServerPacket;
use crate::packet::spec_selector;

verus! {

/// The router's state: which client, if any, is currently selected.
pub struct State {
    pub curmod: Option<ClientName>,
}

/// Where a packet goes: to the selected client, or nowhere. Dropping a
/// packet while no client is selected is deliberate, not an error.
pub open spec fn spec_route(
    cur: Option<ClientName>,
    packet: ServerPacket,
) -> Option<(ClientName, ServerPacket)> {
    match cur {
        Some(client) => Some((client, packet)),
        None => None,
    }
}

/// The selection lock: a trigger press selects its client only from the
/// unselected state; any trigger press or release while a client is selected
/// deselects. Note the rule is deliberately coarse: it does not check that a
/// releasing trigger is the one currently selected.
pub open spec fn spec_next_selection(
    cur: Option<ClientName>,
    selected: ClientName,
    is_press: bool,
) -> Option<ClientName> {
    if cur is None {
        if is_press {
            Some(selected)
        } else {
            None
        }
    } else {
        None
    }
}

/// What one button update does to the router: a trigger button moves the
/// selection and is consumed; any other button update is forwarded to the
/// selected client. The result pairs the next selection with the packet to
/// send, if any.
pub open spec fn spec_handle_button(
    cur: Option<ClientName>,
    button: crate::packet::ButtonId,
    is_press: bool,
) -> (Option<ClientName>, Option<(ClientName, ServerPacket)>) {
    match spec_selector(button) {
        Some(selected) => (spec_next_selection(cur, selected, is_press), None),
        None => (cur, spec_route(cur, ServerPacket::ButtonUpdate(button, is_press))),
    }
}

/// What one packet does to the router: button updates go through the
/// selection rule, axis changes are forwarded unchanged.
pub open spec fn spec_handle(
    cur: Option<ClientName>,
    packet: ServerPacket,
) -> (Option<ClientName>, Option<(ClientName, ServerPacket)>) {
    match packet {
        ServerPacket::ButtonUpdate(button, is_press) => spec_handle_button(cur, button, is_press),
        ServerPacket::AxisChange(_, _) => (cur, spec_route(cur, packet)),
    }
}

impl State {
    /// A fresh router: no client selected.
    pub fn new() -> (r: Self)
        ensures
            r.curmod is None,
    {
        let curmod = None;
        Self { curmod }
    }

    /// Routes one packet: updates the selection and returns the packet to
    /// send and its destination, or `None` when nothing is to be sent. The
    /// caller performs the send; a failed send is its concern alone and
    /// never touches the selection.
    pub fn handle(&mut self, packet: ServerPacket) -> (send: Option<(ClientName, ServerPacket)>)
        ensures
            final(self).curmod == spec_handle(old(self).curmod, packet).0,
            send == spec_handle(old(self).curmod, packet).1,
    {
        match packet {
            ServerPacket::ButtonUpdate(b, i) => self.handle_button(b, i),
            packet @ ServerPacket::AxisChange(..) => self.send_packet(packet),
        }
    }

    /// Applies one button update: a trigger button moves the selection under
    /// the selection lock and is consumed entirely; any other button update
    /// is handed on for forwarding.
    pub fn handle_button(&mut self, button: crate::packet::ButtonId, is_press: bool) -> (send:
        Option<(ClientName, ServerPacket)>)
        ensures
            final(self).curmod == spec_handle_button(old(self).curmod, button, is_press).0,
            send == spec_handle_button(old(self).curmod, button, is_press).1,
    {
        if let Ok(client) = ClientName::try_from(button) {
            let client = if is_press {
                Some(client)
            } else {
                None
            };
            // do not switch clients, while a client is selected
            let client = if self.curmod.is_none() {
                client
            } else {
                None
            };
            self.curmod = client;
            None
        } else {
            let packet = ServerPacket::ButtonUpdate(button, is_press);
            self.send_packet(packet)
        }
    }

    /// Names the destination of a packet: the selected client, or nobody, in
    /// which case the packet is dropped silently.
    pub fn send_packet(&self, packet: ServerPacket) -> (send: Option<(ClientName, ServerPacket)>)
        ensures
            send == spec_route(self.curmod, packet),
    {
        if let Some(client) = self.curmod {
            Some((client, packet))
        } else {
            None
        }
    }
}

impl Default for State {
    /// The default router is the fresh one: no client selected.
    fn default() -> (r: Self)
        ensures
            r.curmod is None,
    {
        Self::new()
    }
}

/// Selection exclusivity. The state holds at most one selected client at any
/// instant by construction; this law states the lock besides: a step ends
/// selected only if it began unselected and the step was the press of the
/// selected client's own trigger. In particular the router never switches
/// directly from one selected client to another.
pub proof fn lemma_selection_exclusivity(cur: Option<ClientName>, packet: ServerPacket)
    ensures
        spec_handle(cur, packet).0 matches Some(c) ==> cur == Some(c) || (
        packet matches ServerPacket::ButtonUpdate(b, is_press) && cur is None && is_press
            && spec_selector(b) == Some(c)),
        packet matches ServerPacket::ButtonUpdate(b, is_press) ==> ((cur is Some && spec_selector(
            b,
        ) is Some) ==> spec_handle(cur, packet).0 is None),
{
}

/// Non-selector passthrough. A button update for a non-trigger button, or
/// any axis change, leaves the selection unchanged and is forwarded verbatim
/// to the currently selected client and to no other; with no client selected
/// it is dropped and nothing is sent.
pub proof fn lemma_non_selector_passthrough(cur: Option<ClientName>, packet: ServerPacket)
    requires
        packet matches ServerPacket::ButtonUpdate(b, is_press) ==> spec_selector(b) is None,
    ensures
        spec_handle(cur, packet).0 == cur,
        cur matches Some(client) ==> spec_handle(cur, packet).1 == Some((client, packet)),
        cur is None ==> spec_handle(cur, packet).1 is None,
{
}

} // verus!
