//! Commands that each travel over a connection of their own.

use vstd::prelude::*;

use crate::address::SocketAddress;
use crate::platform::PlatformError;
use crate::runtime::PeerId;
use crate::session::validate_transport_command_peer;
use crate::transport::DaemonTransportCommand;
use crate::wire::PeerTransportMessage;

verus! {

/// Reaches one peer with one connection per command.
#[derive(Debug, PartialEq, Eq)]
pub struct TcpPeerTransport {
    pub peer_id: PeerId,
    pub address: SocketAddress,
}

/// What became of a message.
#[allow(inconsistent_fields)]
#[derive(Debug, PartialEq, Eq)]
pub enum CommandDelivery {
    NotEncoded { cause: String },
    NotConnected { cause: String },
    NotSent { cause: String },
    Sent,
}

impl TcpPeerTransport {
    pub fn new(peer_id: PeerId, address: SocketAddress) -> (result: Self)
        ensures
            result == (TcpPeerTransport { peer_id, address }),
    {
        TcpPeerTransport { peer_id, address }
    }

    /// The peer that is reached.
    pub fn peer_id(&self) -> (result: &PeerId)
        ensures
            *result == self.peer_id,
    {
        &self.peer_id
    }

    /// Where the peer is reached.
    pub fn address(&self) -> (result: SocketAddress)
        ensures
            result == self.address,
    {
        self.address
    }

    /// The message for a command. Nothing is connected for another peer.
    pub fn message_for(&self, command: &DaemonTransportCommand) -> (result: Result<
        PeerTransportMessage,
        PlatformError,
    >)
        ensures
            match command {
                DaemonTransportCommand::StartRemoteSession { peer_id, .. } => if peer_id@
                    != self.peer_id@ {
                    result matches Err(error) && error@ == "peer transport configured for "@
                        + self.peer_id@ + ", got start command for "@ + peer_id@
                } else {
                    result is Ok
                },
                _ => result is Ok,
            },
            result matches Ok(message) ==> message.protocol.major
                == crate::protocol::PROTOCOL_MAJOR && message.protocol.minor
                == crate::protocol::PROTOCOL_MINOR && message.command@
                == crate::wire::spell_command(command@),
    {
        match validate_transport_command_peer(&self.peer_id, command) {
            Err(error) => Err(error),
            Ok(_) => Ok(PeerTransportMessage::from_command(command)),
        }
    }

    /// What is told of a message on its way.
    pub fn dispatch_transport_command(&self, delivery: CommandDelivery) -> (result: Result<
        (),
        PlatformError,
    >)
        ensures
            match delivery {
                CommandDelivery::NotEncoded { cause } => result matches Err(error) && error@
                    == "failed to encode peer command: "@ + cause@,
                CommandDelivery::NotConnected { cause } => result matches Err(error) && error@
                    == "failed to connect peer transport "@ + self.peer_id@ + " at "@
                    + crate::address::spell_socket(self.address@) + ": "@ + cause@,
                CommandDelivery::NotSent { cause } => result matches Err(error) && error@
                    == "failed to send peer transport command to "@ + self.peer_id@ + " at "@
                    + crate::address::spell_socket(self.address@) + ": "@ + cause@,
                CommandDelivery::Sent => result is Ok,
            },
    {
        match delivery {
            CommandDelivery::NotEncoded { cause } => Err(
                PlatformError::from_message(
                    "failed to encode peer command: ".to_owned().concat(cause.as_str()),
                ),
            ),
            CommandDelivery::NotConnected { cause } => Err(
                PlatformError::from_message(
                    "failed to connect peer transport ".to_owned().concat(
                        self.peer_id.as_str(),
                    ).concat(" at ").concat(self.address.text().as_str()).concat(": ").concat(
                        cause.as_str(),
                    ),
                ),
            ),
            CommandDelivery::NotSent { cause } => Err(
                PlatformError::from_message(
                    "failed to send peer transport command to ".to_owned().concat(
                        self.peer_id.as_str(),
                    ).concat(" at ").concat(self.address.text().as_str()).concat(": ").concat(
                        cause.as_str(),
                    ),
                ),
            ),
            CommandDelivery::Sent => Ok(()),
        }
    }
}

/// A command for the transport's own peer is sent in the version that is spoken and says what it is; a
/// start for another peer is not sent.
pub proof fn a_transport_carries_its_own_peers_commands(
    peer_id: PeerId,
    address: SocketAddress,
    transport: TcpPeerTransport,
    command: DaemonTransportCommand,
    message: Result<PeerTransportMessage, PlatformError>,
)
    requires
        call_ensures(TcpPeerTransport::new, (peer_id, address), transport),
        call_ensures(TcpPeerTransport::message_for, (&transport, &command), message),
    ensures
        transport.peer_id == peer_id,
        transport.address == address,
        !(command is StartRemoteSession) ==> message is Ok,
        command is StartRemoteSession ==> (message is Ok <==> command->peer_id.value@
            == peer_id.value@),
        message matches Ok(sent) ==> sent.protocol.major == 1 && sent.protocol.minor == 4
            && sent.command@ == crate::wire::spell_command(command@),
{
}

/// A command counts as carried where it was sent, and in no other case; what went wrong names the peer
/// and where it was to be reached.
pub proof fn only_sent_commands_are_carried(
    transport: TcpPeerTransport,
    delivery: CommandDelivery,
    result: Result<(), PlatformError>,
)
    requires
        call_ensures(
            TcpPeerTransport::dispatch_transport_command,
            (&transport, delivery),
            result,
        ),
    ensures
        result is Ok <==> delivery is Sent,
        delivery matches CommandDelivery::NotEncoded { cause } ==> result->Err_0@
            == "failed to encode peer command: "@ + cause@,
        delivery matches CommandDelivery::NotConnected { cause } ==> result->Err_0@
            == "failed to connect peer transport "@ + transport.peer_id.value@ + " at "@
            + crate::address::spell_socket(transport.address@) + ": "@ + cause@,
        delivery matches CommandDelivery::NotSent { cause } ==> result->Err_0@
            == "failed to send peer transport command to "@ + transport.peer_id.value@ + " at "@
            + crate::address::spell_socket(transport.address@) + ": "@ + cause@,
{
}

} // verus!
