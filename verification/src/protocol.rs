//! The QCY `0xFF`-framed command codec.
//!
//! A frame is `[0xFF, BodyLength, Opcode, ParamLength, Params...]`; a frame
//! read back from the device may carry several `[Opcode, ParamLength,
//! Params...]` blocks in one body.

use crate::error::CoreError;
use vstd::prelude::*;

verus! {

/// Start-of-frame byte.
pub const SOF: u8 = 0xFF;

/// Most parameter bytes one command can carry: the body (opcode, length
/// byte and parameters) must fit the frame's one-byte body length.
pub const MAX_PARAMETERS: usize = 253;

/// A single command in the QCY `0xFF`-framed binary protocol.
#[derive(Debug, Clone, PartialEq, Eq)]
pub struct Command {
    pub opcode: u8,
    pub parameters: Vec<u8>,
}

/// The abstract command: its opcode and its parameter bytes.
pub type CommandView = (u8, Seq<u8>);

impl View for Command {
    type V = CommandView;

    open spec fn view(&self) -> CommandView {
        (self.opcode, self.parameters@)
    }
}

/// The wire frame of one command.
pub open spec fn frame_of(opcode: u8, params: Seq<u8>) -> Seq<u8> {
    seq![SOF, (params.len() + 2) as u8, opcode, params.len() as u8] + params
}

/// The command blocks of `packet` from byte `offset` on, or `None` when a
/// block is truncated.
pub open spec fn blocks_from(packet: Seq<u8>, offset: int) -> Option<Seq<CommandView>>
    decreases packet.len() - offset,
{
    if offset < 0 || offset >= packet.len() {
        Some(Seq::empty())
    } else if offset + 2 > packet.len() {
        None
    } else {
        let opcode = packet[offset];
        let len = packet[offset + 1] as int;
        let end = offset + 2 + len;
        if end > packet.len() {
            None
        } else {
            match blocks_from(packet, end) {
                Some(rest) => Some(seq![(opcode, packet.subrange(offset + 2, end))] + rest),
                None => None,
            }
        }
    }
}

/// The frame header is well-formed: long enough, start-of-frame byte, and a
/// body length that matches the packet.
pub open spec fn header_ok(packet: Seq<u8>) -> bool {
    &&& packet.len() >= 4
    &&& packet[0] == SOF
    &&& packet[1] as int + 2 == packet.len()
}

/// What `Command::parse` yields for `packet`: `None` for a rejected packet.
pub open spec fn parse_spec(packet: Seq<u8>) -> Option<Seq<CommandView>> {
    if !header_ok(packet) {
        None
    } else {
        match blocks_from(packet, 2) {
            Some(b) => if b.len() == 0 { None } else { Some(b) },
            None => None,
        }
    }
}

pub open spec fn views_of(commands: Seq<Command>) -> Seq<CommandView> {
    commands.map_values(|c: Command| c@)
}


/// `d` in front of the blocks `o` still to be parsed, if those parse.
pub open spec fn prepend_blocks(d: Seq<CommandView>, o: Option<Seq<CommandView>>) -> Option<Seq<CommandView>> {
    match o {
        Some(r) => Some(d + r),
        None => None,
    }
}

/// Copies `s[start..end]` into a new vector.
pub fn copy_range(s: &[u8], start: usize, end: usize) -> (v: Vec<u8>)
    requires
        start <= end <= s@.len(),
    ensures
        v@ == s@.subrange(start as int, end as int),
{
    let mut v: Vec<u8> = Vec::new();
    let mut i = start;
    while i < end
        invariant
            start <= i <= end <= s@.len(),
            v@ == s@.subrange(start as int, i as int),
        decreases end - i,
    {
        v.push(s[i]);
        i = i + 1;
        assert(s@.subrange(start as int, i as int) == s@.subrange(start as int, i - 1).push(s@[i - 1]));
    }
    v
}

fn invalid_packet(msg: &str) -> (e: CoreError)
    ensures
        e matches CoreError::InvalidPacket(m) && m@ == msg@,
{
    CoreError::InvalidPacket(msg.to_owned())
}

/// Copies `src` onto the end of `dst`.
pub fn append_bytes(dst: &mut Vec<u8>, src: &[u8])
    ensures
        final(dst)@ == old(dst)@ + src@,
{
    let mut i: usize = 0;
    while i < src.len()
        invariant
            i <= src.len(),
            dst@ == old(dst)@ + src@.take(i as int),
        decreases src.len() - i,
    {
        dst.push(src[i]);
        i = i + 1;
        assert(src@.take(i as int) == src@.take(i - 1) + seq![src@[i - 1]]);
    }
    assert(src@.take(src.len() as int) == src@);
}

impl Command {
    pub fn new(opcode: u8, parameters: Vec<u8>) -> (c: Self)
        ensures
            c.opcode == opcode,
            c.parameters@ == parameters@,
    {
        Self { opcode, parameters }
    }

    /// `true` when the parameters fit one frame.
    pub open spec fn fits_frame(&self) -> bool {
        self.parameters@.len() <= MAX_PARAMETERS
    }

    /// Rejects a command whose parameters cannot be expressed by the frame's
    /// one-byte body length.
    pub fn validate(&self) -> (r: Result<(), CoreError>)
        ensures
            r is Ok <==> self.fits_frame(),
            r is Err ==> r == Err::<(), CoreError>(CoreError::FrameTooLarge(self.parameters@.len() as usize)),
    {
        if self.parameters.len() > MAX_PARAMETERS {
            Err(CoreError::FrameTooLarge(self.parameters.len()))
        } else {
            Ok(())
        }
    }


    /// Parses a raw byte slice into one or more commands. Rejected: a packet
    /// shorter than four bytes or without the start-of-frame byte, a body
    /// length that disagrees with the packet, a truncated block, and a
    /// packet that carries no block.
    pub fn parse(packet: &[u8]) -> (r: Result<Vec<Command>, CoreError>)
        ensures
            match r {
                Ok(cmds) => parse_spec(packet@) == Some(views_of(cmds@)),
                Err(e) => parse_spec(packet@) is None && e is InvalidPacket,
            },
    {
        if packet.len() < 4 || packet[0] != SOF {
            return Err(invalid_packet("Too short or missing SOF"));
        }
        let body_len = packet[1] as usize;
        if body_len + 2 != packet.len() {
            return Err(invalid_packet("Body length mismatch"));
        }
        let mut commands: Vec<Command> = Vec::new();
        let mut offset: usize = 2;
        assert(views_of(commands@) == Seq::<CommandView>::empty());
        assert(Seq::<CommandView>::empty() + blocks_from(packet@, 2)->0 == blocks_from(packet@, 2)->0);
        while offset < packet.len()
            invariant
                2 <= offset <= packet@.len(),
                packet@.len() <= 257,
                blocks_from(packet@, 2) == prepend_blocks(views_of(commands@), blocks_from(packet@, offset as int)),
            decreases packet.len() - offset,
        {
            if offset + 2 > packet.len() {
                return Err(invalid_packet("Truncated command block"));
            }
            let opcode = packet[offset];
            let param_len = packet[offset + 1] as usize;
            let start = offset + 2;
            if start + param_len > packet.len() {
                return Err(invalid_packet("Truncated parameters"));
            }
            let parameters = copy_range(packet, start, start + param_len);
            let ghost before = views_of(commands@);
            let cmd = Command::new(opcode, parameters);
            commands.push(cmd);
            proof {
                assert(views_of(commands@) == before.push(cmd@));
                let rest = blocks_from(packet@, (start + param_len) as int);
                if rest is Some {
                    assert(before + (seq![cmd@] + rest->0) == before.push(cmd@) + rest->0);
                }
            }
            offset = start + param_len;
        }
        assert(views_of(commands@) + Seq::<CommandView>::empty() == views_of(commands@));
        if commands.len() == 0 {
            return Err(invalid_packet("No commands found"));
        }
        Ok(commands)
    }

    /// Packs the command into the QCY wire frame:
    /// `[0xFF, BodyLength, Opcode, ParamLength, Params...]`.
    /// Lengths are written modulo 256, as the one-byte fields hold them.
    pub fn pack(&self) -> (packet: Vec<u8>)
        ensures
            packet@ == frame_of(self.opcode, self.parameters@),
    {
        let n = self.parameters.len();
        let body_len = (n % 256) as u8;
        let frame_len = ((n % 256 + 2) % 256) as u8;
        let mut packet: Vec<u8> = vec![SOF, frame_len, self.opcode, body_len];
        append_bytes(&mut packet, self.parameters.as_slice());
        assert((n + 2) as u8 == ((n % 256 + 2) % 256) as u8) by (bit_vector);
        assert(n as u8 == (n % 256) as u8) by (bit_vector);
        packet
    }
}


/// A packed command parses back to exactly that one command, whenever its
/// parameters fit a frame.
pub proof fn lemma_parse_of_pack(opcode: u8, params: Seq<u8>)
    requires
        params.len() <= MAX_PARAMETERS,
    ensures
        parse_spec(frame_of(opcode, params)) == Some(seq![(opcode, params)]),
{
    let p = frame_of(opcode, params);
    let n = params.len();
    assert((n + 2) as u8 as int == n + 2);
    assert(n as u8 as int == n);
    assert(p.len() == n + 4);
    assert(header_ok(p));
    assert(blocks_from(p, (n + 4) as int) == Some(Seq::<CommandView>::empty()));
    assert(p.subrange(4, (n + 4) as int) == params);
    assert(seq![(opcode, params)] + Seq::<CommandView>::empty() == seq![(opcode, params)]);
}

} // verus!
