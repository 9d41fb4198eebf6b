//! BM1397 Commands.
//!
//! Every command is a fixed-size frame: the preamble `0x55 0xAA`, a body that
//! starts with the opcode and a length, and a checksum over the body. Control
//! commands end in a CRC5, jobs in a big-endian CRC16.
use crate::core_register::CoreRegister;
use crate::crc::{crc16, crc5, spec_crc16, spec_crc5};
use crate::endian::{
    be_bytes, be_bytes_u16, le_bytes, spec_be_bytes, spec_be_bytes_u16, spec_le_bytes,
};
use crate::register::{CoreRegisterControl, Register};
use vstd::prelude::*;

verus! {

/// Some command can be send to All chip in the chain or to a specific one
#[derive(Debug, Copy, Clone, Eq, PartialEq, Structural)]
pub enum Destination {
    All,
    Chip(u8),
}

impl Destination {
    /// What the destination adds to the opcode: the broadcast flag for all
    /// chips, nothing for one.
    pub open spec fn spec_flag(self) -> u8 {
        match self {
            Destination::All => Command::CMD_ALL_CHIP,
            Destination::Chip(_) => 0,
        }
    }

    /// What the destination puts in the chip address byte: zero for all
    /// chips, its address for one.
    pub open spec fn spec_chip_addr(self) -> u8 {
        match self {
            Destination::All => 0,
            Destination::Chip(c) => c,
        }
    }
}

pub type Midstate = [u8; 32];

/// `frame` with `bytes` written over it from the index `at` on.
pub open spec fn spec_place(frame: Seq<u8>, at: int, bytes: Seq<u8>) -> Seq<u8> {
    frame.subrange(0, at) + bytes + frame.subrange(at + bytes.len(), frame.len() as int)
}

/// Writes `bytes` over `frame` from the index `at` on.
fn place<const N: usize>(frame: [u8; N], at: usize, bytes: &[u8]) -> (out: [u8; N])
    requires
        at + bytes@.len() <= N,
    ensures
        out@ == spec_place(frame@, at as int, bytes@),
{
    let mut out = frame;
    let mut i: usize = 0;
    while i < bytes.len()
        invariant
            i <= bytes@.len(),
            at + bytes@.len() <= N,
            forall|k: int|
                0 <= k < N ==> out@[k] == (if at <= k < at + i {
                    bytes@[k - at]
                } else {
                    frame@[k]
                }),
        decreases bytes@.len() - i,
    {
        out[at + i] = bytes[i];
        i += 1;
    }
    assert(out@ =~= spec_place(frame@, at as int, bytes@));
    out
}

pub struct Command;

impl Command {
    /// Added to the opcode of a command that goes to every chip.
    pub const CMD_ALL_CHIP: u8 = 0x10;

    /// Opcode of a job.
    pub const CMD_SEND_JOB: u8 = 0x21;

    /// Opcode of the command that sets a chip address.
    pub const CMD_SET_CHIP_ADDR: u8 = 0x40;

    /// Opcode of a register write.
    pub const CMD_WRITE_REGISTER: u8 = 0x41;

    /// Opcode of a register read.
    pub const CMD_READ_REGISTER: u8 = 0x42;

    /// Opcode of the command that stops the relay of the chain.
    pub const CMD_CHAIN_INACTIVE: u8 = 0x43;

    /// The body of a control command without a value: opcode, length, chip
    /// address and register address.
    pub open spec fn spec_control_body(cmd: u8, chip_addr: u8, reg_addr: u8) -> Seq<u8> {
        seq![cmd, 5, chip_addr, reg_addr]
    }

    /// The body of a register write: opcode, length, chip address, register
    /// address and the value, big-endian.
    pub open spec fn spec_write_body(cmd: u8, chip_addr: u8, reg_addr: u8, value: u32) -> Seq<u8> {
        seq![cmd, 9, chip_addr, reg_addr] + spec_be_bytes(value)
    }

    /// The body of a job: opcode, length, job identifier, number of
    /// midstates, four zero bytes, the three scalars little-endian, and the
    /// midstates one after the other.
    pub open spec fn spec_job_body(
        job_id: u8,
        n_bits: u32,
        n_time: u32,
        merkle_root: u32,
        midstates: Seq<u8>,
    ) -> Seq<u8> {
        seq![
            Self::CMD_SEND_JOB,
            (22 + midstates.len()) as u8,
            job_id,
            (midstates.len() / 32) as u8,
            0,
            0,
            0,
            0,
        ] + spec_le_bytes(n_bits) + spec_le_bytes(n_time) + spec_le_bytes(merkle_root) + midstates
    }

    /// A frame that ends in one checksum byte: preamble, body, checksum.
    pub open spec fn spec_frame_crc5(body: Seq<u8>, crc: u8) -> Seq<u8> {
        seq![0x55u8, 0xAAu8] + body + seq![crc]
    }

    /// A frame that ends in a 16-bit checksum: preamble, body, checksum
    /// big-endian.
    pub open spec fn spec_frame_crc16(body: Seq<u8>, crc: u16) -> Seq<u8> {
        seq![0x55u8, 0xAAu8] + body + spec_be_bytes_u16(crc)
    }

    /// The control frame with the body `body`: it ends in the CRC5 of the body.
    pub open spec fn spec_control_frame(body: Seq<u8>) -> Seq<u8> {
        Self::spec_frame_crc5(body, spec_crc5(body))
    }

    /// The job frame with the body `body`: it ends in the CRC16 of the body.
    pub open spec fn spec_job_frame(body: Seq<u8>) -> Seq<u8> {
        Self::spec_frame_crc16(body, spec_crc16(body))
    }

    /// The frame that reads the register at `reg_addr`.
    pub open spec fn spec_read_reg(reg_addr: u8, dest: Destination) -> Seq<u8> {
        Self::spec_control_frame(
            Self::spec_control_body(
                (Self::CMD_READ_REGISTER + dest.spec_flag()) as u8,
                dest.spec_chip_addr(),
                reg_addr,
            ),
        )
    }

    /// The frame that writes `value` to the register at `reg_addr`.
    pub open spec fn spec_write_reg(reg_addr: u8, value: u32, dest: Destination) -> Seq<u8> {
        Self::spec_control_frame(
            Self::spec_write_body(
                (Self::CMD_WRITE_REGISTER + dest.spec_flag()) as u8,
                dest.spec_chip_addr(),
                reg_addr,
                value,
            ),
        )
    }

    /// Control frames have 7 bytes, or 11 with a value; a job frame has 56
    /// bytes with one midstate and 152 with four.
    pub proof fn lemma_frame_lengths(
        cmd: u8,
        chip_addr: u8,
        reg_addr: u8,
        value: u32,
        job_id: u8,
        n_bits: u32,
        n_time: u32,
        merkle_root: u32,
        midstates: Seq<u8>,
    )
        ensures
            Self::spec_control_frame(Self::spec_control_body(cmd, chip_addr, reg_addr)).len() == 7,
            Self::spec_control_frame(Self::spec_write_body(cmd, chip_addr, reg_addr, value)).len()
                == 11,
            midstates.len() == 32 ==> Self::spec_job_frame(
                Self::spec_job_body(job_id, n_bits, n_time, merkle_root, midstates),
            ).len() == 56,
            midstates.len() == 128 ==> Self::spec_job_frame(
                Self::spec_job_body(job_id, n_bits, n_time, merkle_root, midstates),
            ).len() == 152,
    {
    }

    /// Lays out the body of a control command without a value.
    pub fn control_body(cmd: u8, chip_addr: u8, reg_addr: u8) -> (body: [u8; 4])
        ensures
            body@ == Self::spec_control_body(cmd, chip_addr, reg_addr),
    {
        let body: [u8; 4] = [cmd, 5, chip_addr, reg_addr];
        assert(body@ =~= Self::spec_control_body(cmd, chip_addr, reg_addr));
        body
    }

    /// Lays out the body of a register write.
    pub fn write_body(cmd: u8, chip_addr: u8, reg_addr: u8, value: u32) -> (body: [u8; 8])
        ensures
            body@ == Self::spec_write_body(cmd, chip_addr, reg_addr, value),
    {
        let val = be_bytes(value);
        let body: [u8; 8] = [cmd, 9, chip_addr, reg_addr, val[0], val[1], val[2], val[3]];
        assert(body@ =~= Self::spec_write_body(cmd, chip_addr, reg_addr, value));
        body
    }

    /// Lays out the body of a job with one midstate.
    pub fn job_1_body(
        job_id: u8,
        n_bits: u32,
        n_time: u32,
        merkle_root: u32,
        midstates: [&Midstate; 1],
    ) -> (body: [u8; 52])
        ensures
            body@ == Self::spec_job_body(job_id, n_bits, n_time, merkle_root, midstates[0]@),
    {
        let mut body: [u8; 52] = [0;52];
        body[0] = Self::CMD_SEND_JOB;
        body[1] = 54;
        body[2] = job_id;
        body[3] = 1;
        let body = place(body, 8, le_bytes(n_bits).as_slice());
        let body = place(body, 12, le_bytes(n_time).as_slice());
        let body = place(body, 16, le_bytes(merkle_root).as_slice());
        let body = place(body, 20, midstates[0].as_slice());
        assert(body@ =~= Self::spec_job_body(job_id, n_bits, n_time, merkle_root, midstates[0]@));
        body
    }

    /// Lays out the body of a job with four midstates.
    pub fn job_4_body(
        job_id: u8,
        n_bits: u32,
        n_time: u32,
        merkle_root: u32,
        midstates: [&Midstate; 4],
    ) -> (body: [u8; 148])
        ensures
            body@ == Self::spec_job_body(
                job_id,
                n_bits,
                n_time,
                merkle_root,
                midstates[0]@ + midstates[1]@ + midstates[2]@ + midstates[3]@,
            ),
    {
        let mut body: [u8; 148] = [0;148];
        body[0] = Self::CMD_SEND_JOB;
        body[1] = 150;
        body[2] = job_id;
        body[3] = 4;
        let body = place(body, 8, le_bytes(n_bits).as_slice());
        let body = place(body, 12, le_bytes(n_time).as_slice());
        let body = place(body, 16, le_bytes(merkle_root).as_slice());
        let body = place(body, 20, midstates[0].as_slice());
        let body = place(body, 52, midstates[1].as_slice());
        let body = place(body, 84, midstates[2].as_slice());
        let body = place(body, 116, midstates[3].as_slice());
        assert(body@ =~= Self::spec_job_body(
            job_id,
            n_bits,
            n_time,
            merkle_root,
            midstates[0]@ + midstates[1]@ + midstates[2]@ + midstates[3]@,
        ));
        body
    }

    /// Puts the preamble before a 4-byte body and the checksum `crc` behind it.
    pub fn control_frame(body: &[u8; 4], crc: u8) -> (frame: [u8; 7])
        ensures
            frame@ == Self::spec_frame_crc5(body@, crc),
    {
        let frame: [u8; 7] = [0x55, 0xAA, body[0], body[1], body[2], body[3], crc];
        assert(frame@ =~= Self::spec_frame_crc5(body@, crc));
        frame
    }

    /// Puts the preamble before an 8-byte body and the checksum `crc` behind it.
    pub fn write_frame(body: &[u8; 8], crc: u8) -> (frame: [u8; 11])
        ensures
            frame@ == Self::spec_frame_crc5(body@, crc),
    {
        let frame: [u8; 11] = [
            0x55,
            0xAA,
            body[0],
            body[1],
            body[2],
            body[3],
            body[4],
            body[5],
            body[6],
            body[7],
            crc,
        ];
        assert(frame@ =~= Self::spec_frame_crc5(body@, crc));
        frame
    }

    /// Puts the preamble before the body of a job with one midstate and the
    /// checksum `crc` behind it, big-endian.
    pub fn job_1_frame(body: &[u8; 52], crc: u16) -> (frame: [u8; 56])
        ensures
            frame@ == Self::spec_frame_crc16(body@, crc),
    {
        let mut frame: [u8; 56] = [0;56];
        frame[0] = 0x55;
        frame[1] = 0xAA;
        let frame = place(frame, 2, body.as_slice());
        let frame = place(frame, 54, be_bytes_u16(crc).as_slice());
        assert(frame@ =~= Self::spec_frame_crc16(body@, crc));
        frame
    }

    /// Puts the preamble before the body of a job with four midstates and the
    /// checksum `crc` behind it, big-endian.
    pub fn job_4_frame(body: &[u8; 148], crc: u16) -> (frame: [u8; 152])
        ensures
            frame@ == Self::spec_frame_crc16(body@, crc),
    {
        let mut frame: [u8; 152] = [0;152];
        frame[0] = 0x55;
        frame[1] = 0xAA;
        let frame = place(frame, 2, body.as_slice());
        let frame = place(frame, 150, be_bytes_u16(crc).as_slice());
        assert(frame@ =~= Self::spec_frame_crc16(body@, crc));
        frame
    }

    /// # Chain Inactive Command
    ///
    /// This disable the relay ability of every chip on the chain (CI signal is
    /// no more relayed to CO pin). Usually done before setting each chip
    /// address individually using `Command::set_chip_addr`.
    pub fn chain_inactive() -> (frame: [u8; 7])
        ensures
            frame@ == Self::spec_control_frame(
                Self::spec_control_body(
                    (Self::CMD_CHAIN_INACTIVE + Self::CMD_ALL_CHIP) as u8,
                    0,
                    0,
                ),
            ),
            frame@.len() == 7,
    {
        let body = Self::control_body(Self::CMD_CHAIN_INACTIVE + Self::CMD_ALL_CHIP, 0, 0);
        let crc = crc5(body.as_slice());
        Self::control_frame(&body, crc)
    }

    /// # Set Chip Address Command
    ///
    /// Give a logical `ChipAddress` to the chip on the chain that does not
    /// have one yet. Usually done after sending `Command::chain_inactive` so
    /// only the first chip in the chain will receive it's chip address, then
    /// it will start relaying CI signal to CO pin and subsequent
    /// `Command::set_chip_addr` will be received by the next chip only. This
    /// way all chips will be addressed one by one and will received
    /// differents `ChipAddress`.
    ///
    /// This logical `ChipAddress` have 2 utilities :
    /// - sending command to a specific chip on the chain, using
    ///   `Destination::Chip(ChipAddress)`.
    /// - when mining, the nonce space (u32) will be divided evenly according
    ///   to `ChipAddress` : each chip will add it's own `ChipAddress` to the
    ///   MSB of the starting nonce for a job.
    pub fn set_chip_addr(addr: u8) -> (frame: [u8; 7])
        ensures
            frame@ == Self::spec_control_frame(
                Self::spec_control_body(Self::CMD_SET_CHIP_ADDR, addr, 0),
            ),
            frame@.len() == 7,
    {
        let body = Self::control_body(Self::CMD_SET_CHIP_ADDR, addr, 0);
        let crc = crc5(body.as_slice());
        Self::control_frame(&body, crc)
    }

    /// # Read Register Command
    ///
    /// Used to send a Read Register command on the chain.
    ///
    /// All chips on the chain or only a specific one can be addressed by this
    /// command using the `dest` parameter.
    ///
    /// Usually the first command sent by a driver to the chain is the Read
    /// Register command of `ChipAddress` to all chips on the chain, this is
    /// usefull to enumerate all chips on the chain.
    pub fn read_reg(reg: impl Register, dest: Destination) -> (frame: [u8; 7])
        ensures
            frame@ == Self::spec_read_reg(reg.spec_addr(), dest),
            frame@.len() == 7,
    {
        let body = match dest {
            Destination::All => Self::control_body(
                Self::CMD_READ_REGISTER + Self::CMD_ALL_CHIP,
                0,
                reg.addr(),
            ),
            Destination::Chip(c) => Self::control_body(Self::CMD_READ_REGISTER, c, reg.addr()),
        };
        let crc = crc5(body.as_slice());
        Self::control_frame(&body, crc)
    }

    /// # Write Register Command
    ///
    /// Used to send a Write Register command on the chain.
    ///
    /// All chips on the chain or only a specific one can be addressed by this
    /// command using the `dest` parameter.
    pub fn write_reg(reg: impl Register, dest: Destination) -> (frame: [u8; 11])
        ensures
            frame@ == Self::spec_write_reg(reg.spec_addr(), reg.spec_val(), dest),
            frame@.len() == 11,
    {
        let body = match dest {
            Destination::All => Self::write_body(
                Self::CMD_WRITE_REGISTER + Self::CMD_ALL_CHIP,
                0,
                reg.addr(),
                reg.val(),
            ),
            Destination::Chip(c) => Self::write_body(
                Self::CMD_WRITE_REGISTER,
                c,
                reg.addr(),
                reg.val(),
            ),
        };
        let crc = crc5(body.as_slice());
        Self::write_frame(&body, crc)
    }

    /// # Read Core Register Command
    ///
    /// Used to send a Read Core Register command on the chain: a write of the
    /// `CoreRegisterControl` register that asks for the read.
    ///
    /// All chips on the chain or only a specific one can be addressed by this
    /// command using the `dest` parameter.
    pub fn read_core_reg(core_id: u8, reg: impl CoreRegister, dest: Destination) -> (frame: [u8; 11])
        ensures
            frame@ == Self::spec_write_reg(
                CoreRegisterControl::ADDR,
                CoreRegisterControl::spec_read(CoreRegisterControl::RESET, core_id, reg.spec_id()),
                dest,
            ),
            frame@.len() == 11,
    {
        let ctrl = CoreRegisterControl::default().read(core_id, reg);
        Self::write_reg(ctrl, dest)
    }

    /// # Write Core Register Command
    ///
    /// Used to send a Write Core Register command on the chain: a write of
    /// the `CoreRegisterControl` register that carries the value.
    ///
    /// All chips on the chain or only a specific one can be addressed by this
    /// command using the `dest` parameter.
    pub fn write_core_reg(core_id: u8, reg: impl CoreRegister, dest: Destination) -> (frame: [
        u8;
        11
    ])
        ensures
            frame@ == Self::spec_write_reg(
                CoreRegisterControl::ADDR,
                CoreRegisterControl::spec_write(
                    CoreRegisterControl::RESET,
                    core_id,
                    reg.spec_id(),
                    reg.spec_val(),
                ),
                dest,
            ),
            frame@.len() == 11,
    {
        let ctrl = CoreRegisterControl::default().write(core_id, reg);
        Self::write_reg(ctrl, dest)
    }

    /// # Job with 1 Midstate Command
    pub fn job_1_midstate(
        job_id: u8,
        n_bits: u32,
        n_time: u32,
        merkle_root: u32,
        midstates: [&Midstate; 1],
    ) -> (frame: [u8; 56])
        ensures
            frame@ == Self::spec_job_frame(
                Self::spec_job_body(job_id, n_bits, n_time, merkle_root, midstates[0]@),
            ),
            frame@.len() == 56,
    {
        let body = Self::job_1_body(job_id, n_bits, n_time, merkle_root, midstates);
        let crc = crc16(body.as_slice());
        Self::job_1_frame(&body, crc)
    }

    /// # Job with 4 Midstate Command
    pub fn job_4_midstate(
        job_id: u8,
        n_bits: u32,
        n_time: u32,
        merkle_root: u32,
        midstates: [&Midstate; 4],
    ) -> (frame: [u8; 152])
        ensures
            frame@ == Self::spec_job_frame(
                Self::spec_job_body(
                    job_id,
                    n_bits,
                    n_time,
                    merkle_root,
                    midstates[0]@ + midstates[1]@ + midstates[2]@ + midstates[3]@,
                ),
            ),
            frame@.len() == 152,
    {
        let body = Self::job_4_body(job_id, n_bits, n_time, merkle_root, midstates);
        let crc = crc16(body.as_slice());
        Self::job_4_frame(&body, crc)
    }
}

} // verus!
