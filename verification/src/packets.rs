//! Fixed six-byte command packets.
//!
//! Every command the desk understands is one packet of the form
//! `[0xf1, 0xf1, OPCODE, 0x00, CHECKSUM, 0x7e]`, where the checksum
//! equals the opcode for every opcode in use. Writes are
//! fire-and-forget: the protocol gives no delivery confirmation.

use vstd::prelude::*;

verus! {

/// Opcode of the save-sit command.
pub const SAVE_SIT_OPCODE: u8 = 0x03;

/// Opcode of the save-stand command.
pub const SAVE_STAND_OPCODE: u8 = 0x04;

/// Opcode of the sit command.
pub const SIT_OPCODE: u8 = 0x05;

/// Opcode of the stand command.
pub const STAND_OPCODE: u8 = 0x06;

/// Opcode of the height query command.
pub const QUERY_OPCODE: u8 = 0x07;

/// The commands the desk accepts. Historical up and down opcodes
/// (`0x01`, `0x02`) exist in the protocol but are not part of this
/// command set.
#[derive(Clone, Copy, Debug, PartialEq, Eq, Structural)]
pub enum Command {
    SaveSit,
    SaveStand,
    Sit,
    Stand,
    Query,
}

impl Command {
    /// The opcode byte of the command.
    pub open spec fn spec_opcode(self) -> u8 {
        match self {
            Command::SaveSit => SAVE_SIT_OPCODE,
            Command::SaveStand => SAVE_STAND_OPCODE,
            Command::Sit => SIT_OPCODE,
            Command::Stand => STAND_OPCODE,
            Command::Query => QUERY_OPCODE,
        }
    }

    /// The opcode byte of the command.
    pub fn opcode(self) -> (r: u8)
        ensures
            r == self.spec_opcode(),
    {
        match self {
            Command::SaveSit => SAVE_SIT_OPCODE,
            Command::SaveStand => SAVE_STAND_OPCODE,
            Command::Sit => SIT_OPCODE,
            Command::Stand => STAND_OPCODE,
            Command::Query => QUERY_OPCODE,
        }
    }
}

/// The six packet bytes for an opcode: framing bytes around the opcode,
/// a zero byte, and a checksum equal to the opcode.
pub open spec fn spec_packet(opcode: u8) -> Seq<u8> {
    seq![0xf1u8, 0xf1u8, opcode, 0x00u8, opcode, 0x7eu8]
}

/// Build the packet for a command. The checksum byte always equals the
/// opcode byte.
pub fn command_packet(command: Command) -> (r: Vec<u8>)
    ensures
        r@ == spec_packet(command.spec_opcode()),
        r@.len() == 6,
        r@[4] == r@[2],
{
    let opcode = command.opcode();
    let mut packet: Vec<u8> = Vec::new();
    packet.push(0xf1);
    packet.push(0xf1);
    packet.push(opcode);
    packet.push(0x00);
    packet.push(opcode);
    packet.push(0x7e);
    proof {
        assert(packet@ =~= spec_packet(command.spec_opcode()));
    }
    packet
}

/// Build the height query packet: the query that primes an initial
/// telemetry sample and backs every height read.
pub fn query_packet() -> (r: Vec<u8>)
    ensures
        r@ == spec_packet(QUERY_OPCODE),
{
    command_packet(Command::Query)
}

} // verus!
