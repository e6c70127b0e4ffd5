//! The state of the connection to the other peer.
//!
//! A peer starts `Disconnected`. A client that has asked to join is in
//! `PendingConnection` until the host answers. From `Connected` a ping that
//! goes unanswered leads to `Reconnecting`, which counts the pings missed in a
//! row; an answered ping leads back to `Connected`, the tenth missed ping to
//! `Disconnected`.

use vstd::prelude::*;
use crate::net::net_utils::SocketAddress;

verus! {

/// The session id of a client that has not joined a session yet.
pub const CONNECT_SESSION_ID: u16 = 0x15f4;

/// Number of pings in a row that may go unanswered before the connection
/// counts as lost.
pub const RECONNECT_TRIES: u8 = 10;

#[derive(Clone, Copy, Debug, PartialEq, Eq, Structural)]
pub enum ConnectionStatus {
    Disconnected,
    PendingConnection,
    Reconnecting { tries: u8 },
    Connected { ping: u128 },
}

impl ConnectionStatus {
    /// A `ConnectionStatus::Connected` with `ping` set to `0`
    pub fn connected() -> (status: Self)
        ensures
            status == (ConnectionStatus::Connected { ping: 0 }),
    {
        ConnectionStatus::Connected { ping: 0 }
    }

    /// A `ConnectionStatus::Reconnecting` with `tries` set to `0`
    pub fn reconnecting() -> (status: Self)
        ensures
            status == (ConnectionStatus::Reconnecting { tries: 0 }),
    {
        ConnectionStatus::Reconnecting { tries: 0 }
    }

    pub fn is_connected(&self) -> (yes: bool)
        ensures
            yes == (self is Connected),
    {
        matches!(self, ConnectionStatus::Connected { ping: _ })
    }

    pub fn is_reconnecting(&self) -> (yes: bool)
        ensures
            yes == (self is Reconnecting),
    {
        matches!(self, ConnectionStatus::Reconnecting { tries: _ })
    }

    /// Packets may be queued for sending in every state but `Disconnected`.
    pub open spec fn can_send_spec(self) -> bool {
        !(self is Disconnected)
    }

    /// Whether packets may be queued for sending: in every state but
    /// `Disconnected`.
    pub fn can_send(&self) -> (yes: bool)
        ensures
            yes == self.can_send_spec(),
    {
        match self {
            ConnectionStatus::Disconnected => false,
            ConnectionStatus::PendingConnection => true,
            ConnectionStatus::Reconnecting { tries: _ } => true,
            ConnectionStatus::Connected { ping: _ } => true,
        }
    }

    /// The status after a ping has gone unanswered.
    pub open spec fn after_timeout(self) -> ConnectionStatus {
        match self {
            ConnectionStatus::Connected { ping } => ConnectionStatus::Reconnecting { tries: 1 },
            ConnectionStatus::Reconnecting { tries } => if tries + 1 >= RECONNECT_TRIES {
                ConnectionStatus::Disconnected
            } else {
                ConnectionStatus::Reconnecting { tries: (tries + 1) as u8 }
            },
            other => other,
        }
    }

    /// The status after `count` pings in a row have gone unanswered.
    pub open spec fn after_timeouts(self, count: nat) -> ConnectionStatus
        decreases count,
    {
        if count == 0 {
            self
        } else {
            self.after_timeouts((count - 1) as nat).after_timeout()
        }
    }

    /// The status after a ping has been answered within `elapsed` nanoseconds.
    pub open spec fn after_pong(self, elapsed: u128) -> ConnectionStatus {
        ConnectionStatus::Connected { ping: elapsed }
    }

    /// The step that an unanswered ping causes.
    pub fn timed_out(&self) -> (next: Self)
        ensures
            next == self.after_timeout(),
    {
        match self {
            ConnectionStatus::Connected { ping: _ } => ConnectionStatus::Reconnecting { tries: 1 },
            ConnectionStatus::Reconnecting { tries } => {
                if *tries >= RECONNECT_TRIES - 1 {
                    ConnectionStatus::Disconnected
                } else {
                    ConnectionStatus::Reconnecting { tries: *tries + 1 }
                }
            },
            other => *other,
        }
    }
}

/// From `Connected`, fewer unanswered pings in a row than the budget allows
/// lead to `Reconnecting` with their number as `tries`; as many as the budget
/// lead to `Disconnected`.
pub proof fn law_timeouts_count_up_to_disconnect(ping: u128, count: nat)
    requires
        1 <= count <= RECONNECT_TRIES,
    ensures
        count < RECONNECT_TRIES ==> (ConnectionStatus::Connected { ping }).after_timeouts(count) == (
        ConnectionStatus::Reconnecting { tries: count as u8 }),
        count == RECONNECT_TRIES ==> (ConnectionStatus::Connected { ping }).after_timeouts(count)
            == ConnectionStatus::Disconnected,
    decreases count,
{
    let start = ConnectionStatus::Connected { ping };
    if count == 1 {
        assert(start.after_timeouts(0) == start);
    } else {
        law_timeouts_count_up_to_disconnect(ping, (count - 1) as nat);
    }
}

/// Once the connection is lost, missed pings change nothing.
pub proof fn law_disconnected_stays(count: nat)
    ensures
        ConnectionStatus::Disconnected.after_timeouts(count) == ConnectionStatus::Disconnected,
    decreases count,
{
    if count > 0 {
        law_disconnected_stays((count - 1) as nat);
    }
}

/// What a peer knows of its connection.
#[derive(Debug, PartialEq, Eq)]
pub struct ConnectionData {
    pub status: ConnectionStatus,
    /// Where the other peer is, once it is known.
    pub other_addr: Option<SocketAddress>,
    pub other_username: Option<String>,
    /// The join code of the session: the host's own, or the one the client
    /// was given.
    pub join_code: Option<String>,
    pub session_id: u16,
}

/// The mathematical content of a [`ConnectionData`].
pub struct ConnectionView {
    pub status: ConnectionStatus,
    pub other_addr: Option<SocketAddress>,
    pub other_username: Option<Seq<char>>,
    pub join_code: Option<Seq<char>>,
    pub session_id: u16,
}

/// The text of an optional string.
pub open spec fn text_of(text: Option<String>) -> Option<Seq<char>> {
    match text {
        Some(string) => Some(string@),
        None => None,
    }
}

impl View for ConnectionData {
    type V = ConnectionView;

    open spec fn view(&self) -> ConnectionView {
        ConnectionView {
            status: self.status,
            other_addr: self.other_addr,
            other_username: text_of(self.other_username),
            join_code: text_of(self.join_code),
            session_id: self.session_id,
        }
    }
}

impl ConnectionView {
    /// The state of a peer that knows no other peer yet.
    pub open spec fn initial() -> ConnectionView {
        ConnectionView {
            status: ConnectionStatus::Disconnected,
            other_addr: None,
            other_username: None,
            join_code: None,
            session_id: CONNECT_SESSION_ID,
        }
    }
}

impl ConnectionData {
    /// The state of a peer that knows no other peer yet.
    pub fn new() -> (data: Self)
        ensures
            data@ == ConnectionView::initial(),
    {
        ConnectionData {
            status: ConnectionStatus::Disconnected,
            other_addr: None,
            other_username: None,
            join_code: None,
            session_id: CONNECT_SESSION_ID,
        }
    }
}

pub fn get_other_addr(data: &ConnectionData) -> (addr: Option<SocketAddress>)
    ensures
        addr == data@.other_addr,
{
    data.other_addr
}

pub fn set_other_addr(data: &mut ConnectionData, addr: SocketAddress)
    ensures
        final(data)@ == (ConnectionView { other_addr: Some(addr), ..old(data)@ }),
{
    data.other_addr = Some(addr);
}

pub fn remove_other_addr(data: &mut ConnectionData)
    ensures
        final(data)@ == (ConnectionView { other_addr: None, ..old(data)@ }),
{
    data.other_addr = None;
}

pub fn get_other_username(data: &ConnectionData) -> (name: Option<String>)
    ensures
        text_of(name) == data@.other_username,
{
    match &data.other_username {
        Some(name) => Some(name.clone()),
        None => None,
    }
}

pub fn set_other_username(data: &mut ConnectionData, name: &str)
    ensures
        final(data)@ == (ConnectionView { other_username: Some(name@), ..old(data)@ }),
{
    data.other_username = Some(name.to_owned());
}

pub fn remove_other_username(data: &mut ConnectionData)
    ensures
        final(data)@ == (ConnectionView { other_username: None, ..old(data)@ }),
{
    data.other_username = None;
}

pub fn get_connection_status(data: &ConnectionData) -> (status: ConnectionStatus)
    ensures
        status == data@.status,
{
    data.status
}

pub fn set_connection_status(data: &mut ConnectionData, status: ConnectionStatus)
    ensures
        final(data)@ == (ConnectionView { status, ..old(data)@ }),
{
    data.status = status;
}

/// The round-trip time of the last ping, while connected.
pub fn get_connection_ping(data: &ConnectionData) -> (ping: Option<u128>)
    ensures
        ping == match data@.status {
            ConnectionStatus::Connected { ping } => Some(ping),
            _ => None,
        },
{
    match data.status {
        ConnectionStatus::Connected { ping } => Some(ping),
        _ => None,
    }
}

/// Records the round-trip time of a ping. Does nothing unless connected.
pub fn set_connection_ping(data: &mut ConnectionData, new_ping: u128)
    ensures
        final(data)@ == (ConnectionView {
            status: match old(data)@.status {
                ConnectionStatus::Connected { ping } => ConnectionStatus::Connected { ping: new_ping },
                other => other,
            },
            ..old(data)@
        }),
{
    if let ConnectionStatus::Connected { ping: _ } = data.status {
        data.status = ConnectionStatus::Connected { ping: new_ping };
    }
}

/// Sets the count of missed pings. Does nothing unless reconnecting.
pub fn set_reconnect_tries(data: &mut ConnectionData, new_tries: u8)
    ensures
        final(data)@ == (ConnectionView {
            status: match old(data)@.status {
                ConnectionStatus::Reconnecting { tries } => ConnectionStatus::Reconnecting {
                    tries: new_tries,
                },
                other => other,
            },
            ..old(data)@
        }),
{
    if let ConnectionStatus::Reconnecting { tries: _ } = data.status {
        data.status = ConnectionStatus::Reconnecting { tries: new_tries };
    }
}

pub fn get_join_code(data: &ConnectionData) -> (code: Option<String>)
    ensures
        text_of(code) == data@.join_code,
{
    match &data.join_code {
        Some(code) => Some(code.clone()),
        None => None,
    }
}

pub fn set_join_code(data: &mut ConnectionData, code: &str)
    ensures
        final(data)@ == (ConnectionView { join_code: Some(code@), ..old(data)@ }),
{
    data.join_code = Some(code.to_owned());
}

pub fn get_session_id(data: &ConnectionData) -> (session_id: u16)
    ensures
        session_id == data@.session_id,
{
    data.session_id
}

pub fn set_session_id(data: &mut ConnectionData, session_id: u16)
    ensures
        final(data)@ == (ConnectionView { session_id, ..old(data)@ }),
{
    data.session_id = session_id;
}

} // verus!
