//! The controller context and the closed enumerations it reports with.

use vstd::prelude::*;
use crate::mempak::{
    check_address, data_checksum, spec_read_outcome, spec_write_outcome, MempakReadReply,
    MempakWriteReply,
};
use crate::pad::{
    lemma_edges_are_transitions, lemma_snapshots_are_consistent, spec_holds, ControllerData,
    ControllerOriginData, ControllerSnapshot, ControllerState, GamecubeOriginData, PadState,
    ScanData, DPAD_NEUTRAL,
};

verus! {

/// How one controller exchange on one port ended.
#[derive(Clone, Copy, Debug, PartialEq, Eq, Structural)]
pub enum ControllerError {
    /// The device answered and the answer is well formed.
    NoError,
    /// The device answered that the command was unknown or malformed.
    BadCommand,
    /// No device answered on the port.
    NotPresent,
}

impl ControllerError {
    /// The error that a driver status code stands for: 1 is a bad command,
    /// 2 an absent device, every other code is no error.
    pub open spec fn spec_from_code(code: u32) -> ControllerError {
        if code == 1 {
            ControllerError::BadCommand
        } else if code == 2 {
            ControllerError::NotPresent
        } else {
            ControllerError::NoError
        }
    }

    /// The text that describes the error.
    pub open spec fn spec_message(self) -> Seq<char> {
        match self {
            ControllerError::NoError => "No error."@,
            ControllerError::BadCommand => "Command not recognized or malformed."@,
            ControllerError::NotPresent => "Controller not present."@,
        }
    }

    /// Whether this value reports a failure.
    pub open spec fn spec_is_error(self) -> bool {
        self != ControllerError::NoError
    }

    /// Whether this value reports a failure.
    pub fn is_error(&self) -> (failed: bool)
        ensures
            failed == self.spec_is_error(),
    {
        match self {
            ControllerError::NoError => false,
            _ => true,
        }
    }

    /// A human-readable description of the error.
    pub fn message(&self) -> (text: String)
        ensures
            text@ == self.spec_message(),
    {
        match self {
            ControllerError::NoError => "No error.".to_string(),
            ControllerError::BadCommand => "Command not recognized or malformed.".to_string(),
            ControllerError::NotPresent => "Controller not present.".to_string(),
        }
    }
}

impl From<u32> for ControllerError {
    fn from(code: u32) -> (err: ControllerError) {
        match code {
            1 => ControllerError::BadCommand,
            2 => ControllerError::NotPresent,
            _ => ControllerError::NoError,
        }
    }
}

impl vstd::std_specs::convert::FromSpecImpl<u32> for ControllerError {
    open spec fn obeys_from_spec() -> bool {
        true
    }

    open spec fn from_spec(code: u32) -> ControllerError {
        ControllerError::spec_from_code(code)
    }
}

/// How one memory card transaction ended. The variants are listed from the
/// least to the most specific failure; `InvalidData` is what remains when the
/// accessory answered but its answer does not validate.
#[derive(Clone, Copy, Debug, PartialEq, Eq, Structural)]
pub enum MempakError {
    /// The transaction succeeded.
    NoError,
    /// The port or the address lies outside what a transaction can name.
    OutOfRange,
    /// No memory card answered on the port.
    NoMempakPresent,
    /// The accessory answered, but the answer fails validation.
    InvalidData,
}

impl MempakError {
    /// The error that a driver status code stands for: 0 is success, 1 is out
    /// of range, 2 is an absent card, every other code is invalid data.
    pub open spec fn spec_from_status(status: i32) -> MempakError {
        if status == 0 {
            MempakError::NoError
        } else if status == 1 {
            MempakError::OutOfRange
        } else if status == 2 {
            MempakError::NoMempakPresent
        } else {
            MempakError::InvalidData
        }
    }

    /// The text that describes the error.
    pub open spec fn spec_message(self) -> Seq<char> {
        match self {
            MempakError::NoError => "No error."@,
            MempakError::OutOfRange => "The controller is out of range."@,
            MempakError::NoMempakPresent => "There is no mempak present in the controller."@,
            MempakError::InvalidData => "The mempak returned invalid data."@,
        }
    }

    /// Classifies the status code that the driver reports for a memory card
    /// transfer.
    pub fn from_status(status: i32) -> (err: MempakError)
        ensures
            err == Self::spec_from_status(status),
    {
        match status {
            0 => MempakError::NoError,
            1 => MempakError::OutOfRange,
            2 => MempakError::NoMempakPresent,
            _ => MempakError::InvalidData,
        }
    }

    /// A human-readable description of the error.
    pub fn message(&self) -> (text: String)
        ensures
            text@ == self.spec_message(),
    {
        match self {
            MempakError::NoError => "No error.".to_string(),
            MempakError::OutOfRange => "The controller is out of range.".to_string(),
            MempakError::NoMempakPresent => {
                "There is no mempak present in the controller.".to_string()
            },
            MempakError::InvalidData => "The mempak returned invalid data.".to_string(),
        }
    }
}

/// The bit cluster that stands for each port in a presence bitmask.
#[derive(Clone, Copy, Debug, PartialEq, Eq, Structural)]
pub enum ControllerStatus {
    Controller1Inserted,
    Controller2Inserted,
    Controller3Inserted,
    Controller4Inserted,
}

impl ControllerStatus {
    /// The bits of a presence bitmask that belong to this port.
    pub open spec fn spec_mask(self) -> i32 {
        match self {
            ControllerStatus::Controller1Inserted => 0xF000,
            ControllerStatus::Controller2Inserted => 0x0F00,
            ControllerStatus::Controller3Inserted => 0x00F0,
            ControllerStatus::Controller4Inserted => 0x000F,
        }
    }

    /// The bits of a presence bitmask that belong to this port.
    pub fn mask(&self) -> (bits: i32)
        ensures
            bits == self.spec_mask(),
    {
        match self {
            ControllerStatus::Controller1Inserted => 0xF000,
            ControllerStatus::Controller2Inserted => 0x0F00,
            ControllerStatus::Controller3Inserted => 0x00F0,
            ControllerStatus::Controller4Inserted => 0x000F,
        }
    }

    /// Whether a presence bitmask has any bit of this port's cluster set.
    pub open spec fn spec_present_in(self, present: i32) -> bool {
        present & self.spec_mask() != 0
    }

    /// Whether a presence bitmask reports this port as occupied.
    pub fn present_in(&self, present: i32) -> (occupied: bool)
        ensures
            occupied == self.spec_present_in(present),
    {
        present & self.mask() != 0
    }
}

/// What is plugged into a controller's accessory slot.
#[derive(Clone, Copy, Debug, PartialEq, Eq, Structural)]
pub enum Accessory {
    NoAccessory,
    MemPak,
    RumblePak,
    VRU,
    TransferPak,
    Unknown,
}

impl Accessory {
    /// The identity code of each kind of accessory.
    pub open spec fn spec_code(self) -> i32 {
        match self {
            Accessory::NoAccessory => 0,
            Accessory::MemPak => 1,
            Accessory::RumblePak => 2,
            Accessory::VRU => 3,
            Accessory::TransferPak => 4,
            Accessory::Unknown => 5,
        }
    }

    /// The accessory that an identity code names: nothing for 0, one of the
    /// four known kinds for 1 to 4, `Unknown` for every other code.
    pub open spec fn spec_from_code(code: i32) -> Option<Accessory> {
        if code == 0 {
            None
        } else if code == 1 {
            Some(Accessory::MemPak)
        } else if code == 2 {
            Some(Accessory::RumblePak)
        } else if code == 3 {
            Some(Accessory::VRU)
        } else if code == 4 {
            Some(Accessory::TransferPak)
        } else {
            Some(Accessory::Unknown)
        }
    }

    /// The identity code of this kind of accessory.
    pub fn code(&self) -> (code: i32)
        ensures
            code == self.spec_code(),
            Self::spec_from_code(code) == if *self == Accessory::NoAccessory {
                None
            } else {
                Some(*self)
            },
    {
        match self {
            Accessory::NoAccessory => 0,
            Accessory::MemPak => 1,
            Accessory::RumblePak => 2,
            Accessory::VRU => 3,
            Accessory::TransferPak => 4,
            Accessory::Unknown => 5,
        }
    }

    /// Classifies an identity code. No raw code survives: the result is
    /// `None` or one of the variants.
    pub fn from_code(code: i32) -> (found: Option<Accessory>)
        ensures
            found == Self::spec_from_code(code),
    {
        match code {
            0 => None,
            1 => Some(Accessory::MemPak),
            2 => Some(Accessory::RumblePak),
            3 => Some(Accessory::VRU),
            4 => Some(Accessory::TransferPak),
            _ => Some(Accessory::Unknown),
        }
    }
}

/// The controller context: the snapshot that the last scan left for each
/// port, and the origins last read from secondary pads.
///
/// The context performs no transfer. What the driver answered is handed to
/// the operation that classifies it.
#[derive(Clone, Copy, Debug, PartialEq, Eq)]
pub struct Controller {
    /// The snapshot of each port, as the last scan left it.
    pub snapshots: [ControllerSnapshot; 4],
    /// The origin of each port, as last read.
    pub origins: ControllerOriginData,
}

impl Controller {
    /// The context before the first scan: no port has a pad, nothing is
    /// held, no origin is known.
    pub open spec fn spec_new() -> Controller {
        Controller {
            snapshots: [
                ControllerSnapshot::spec_blank(),
                ControllerSnapshot::spec_blank(),
                ControllerSnapshot::spec_blank(),
                ControllerSnapshot::spec_blank(),
            ],
            origins: ControllerOriginData {
                gc: [
                    GamecubeOriginData::spec_blank(),
                    GamecubeOriginData::spec_blank(),
                    GamecubeOriginData::spec_blank(),
                    GamecubeOriginData::spec_blank(),
                ],
            },
        }
    }

    /// Whether every port's snapshot is consistent.
    pub open spec fn spec_consistent(self) -> bool {
        forall|port: int| 0 <= port < 4 ==> (#[trigger] self.snapshots[port]).spec_consistent()
    }

    /// The snapshot that a scan leaves for one port.
    pub open spec fn spec_scan_port(self, reply: ScanData, port: int) -> ControllerSnapshot {
        self.snapshots[port].spec_next(
            PadState::spec_decode(reply.c[port], reply.gc[port], self.origins.gc[port]),
            PadState::spec_error(reply.c[port], reply.gc[port]),
        )
    }

    /// The context after a scan that the ports answered with `reply`: every
    /// port's snapshot is superseded, the origins stay.
    pub open spec fn spec_scan(self, reply: ScanData) -> Controller {
        Controller {
            snapshots: [
                self.spec_scan_port(reply, 0),
                self.spec_scan_port(reply, 1),
                self.spec_scan_port(reply, 2),
                self.spec_scan_port(reply, 3),
            ],
            origins: self.origins,
        }
    }

    /// The buttons of every port that went down in the last scan.
    pub open spec fn spec_keys_down(self) -> ControllerState {
        ControllerState {
            ports: [
                self.snapshots[0].spec_with(self.snapshots[0].buttons_down),
                self.snapshots[1].spec_with(self.snapshots[1].buttons_down),
                self.snapshots[2].spec_with(self.snapshots[2].buttons_down),
                self.snapshots[3].spec_with(self.snapshots[3].buttons_down),
            ],
        }
    }

    /// The buttons of every port that went up in the last scan.
    pub open spec fn spec_keys_up(self) -> ControllerState {
        ControllerState {
            ports: [
                self.snapshots[0].spec_with(self.snapshots[0].buttons_up),
                self.snapshots[1].spec_with(self.snapshots[1].buttons_up),
                self.snapshots[2].spec_with(self.snapshots[2].buttons_up),
                self.snapshots[3].spec_with(self.snapshots[3].buttons_up),
            ],
        }
    }

    /// The buttons of every port that the last scan found held.
    pub open spec fn spec_keys_held(self) -> ControllerState {
        ControllerState {
            ports: [
                self.snapshots[0].spec_with(self.snapshots[0].held),
                self.snapshots[1].spec_with(self.snapshots[1].held),
                self.snapshots[2].spec_with(self.snapshots[2].held),
                self.snapshots[3].spec_with(self.snapshots[3].held),
            ],
        }
    }

    /// The buttons of every port whose press the last scan confirmed.
    pub open spec fn spec_keys_pressed(self) -> ControllerState {
        ControllerState {
            ports: [
                self.snapshots[0].spec_with(self.snapshots[0].pressed_edge),
                self.snapshots[1].spec_with(self.snapshots[1].pressed_edge),
                self.snapshots[2].spec_with(self.snapshots[2].pressed_edge),
                self.snapshots[3].spec_with(self.snapshots[3].pressed_edge),
            ],
        }
    }

    /// The direction held on a port's directional pad; neutral for an index
    /// that names no port.
    pub open spec fn spec_dpad_direction(self, controller: int) -> int {
        if 0 <= controller < 4 {
            self.snapshots[controller].spec_dpad_direction()
        } else {
            DPAD_NEUTRAL as int
        }
    }

    /// The error of the first chosen port, in ascending order, whose code
    /// is an error; no error when there is no such port.
    pub open spec fn spec_first_error(
        ports: (bool, bool, bool, bool),
        codes: (u32, u32, u32, u32),
    ) -> ControllerError {
        if ports.0 && ControllerError::spec_from_code(codes.0).spec_is_error() {
            ControllerError::spec_from_code(codes.0)
        } else if ports.1 && ControllerError::spec_from_code(codes.1).spec_is_error() {
            ControllerError::spec_from_code(codes.1)
        } else if ports.2 && ControllerError::spec_from_code(codes.2).spec_is_error() {
            ControllerError::spec_from_code(codes.2)
        } else if ports.3 && ControllerError::spec_from_code(codes.3).spec_is_error() {
            ControllerError::spec_from_code(codes.3)
        } else {
            ControllerError::NoError
        }
    }

    /// How a direct read in the native format ends: with the first error
    /// among the chosen ports, else with the native data of all four ports.
    pub open spec fn spec_read(ports: (bool, bool, bool, bool), reply: ScanData) -> Result<
        [ControllerData; 4],
        ControllerError,
    > {
        let codes = (
            reply.c[0].spec_err(),
            reply.c[1].spec_err(),
            reply.c[2].spec_err(),
            reply.c[3].spec_err(),
        );
        if Self::spec_first_error(ports, codes).spec_is_error() {
            Err(Self::spec_first_error(ports, codes))
        } else {
            Ok(reply.c)
        }
    }

    /// How a direct read in the secondary format ends: with the first error
    /// that the secondary answers of the chosen ports hold, else with the
    /// native data of all four ports.
    pub open spec fn spec_read_gc(ports: (bool, bool, bool, bool), reply: ScanData) -> Result<
        [ControllerData; 4],
        ControllerError,
    > {
        let codes = (
            reply.gc[0].spec_err(),
            reply.gc[1].spec_err(),
            reply.gc[2].spec_err(),
            reply.gc[3].spec_err(),
        );
        if Self::spec_first_error(ports, codes).spec_is_error() {
            Err(Self::spec_first_error(ports, codes))
        } else {
            Ok(reply.c)
        }
    }

    /// The byte that carries one port's rumble flag in a secondary read.
    pub open spec fn spec_rumble_byte(flag: bool) -> u8 {
        if flag {
            1
        } else {
            0
        }
    }

    /// The ports that a presence bitmask reports as occupied.
    pub open spec fn spec_present(present: i32) -> (bool, bool, bool, bool) {
        (
            ControllerStatus::Controller1Inserted.spec_present_in(present),
            ControllerStatus::Controller2Inserted.spec_present_in(present),
            ControllerStatus::Controller3Inserted.spec_present_in(present),
            ControllerStatus::Controller4Inserted.spec_present_in(present),
        )
    }

    /// The accessory that an identity code names on a port; nothing on an
    /// index that names no port.
    pub open spec fn spec_identify_accessory(controller: i32, code: i32) -> Option<Accessory> {
        if 0 <= controller < 4 {
            Accessory::spec_from_code(code)
        } else {
            None
        }
    }

    /// A context for a bus that was not scanned yet.
    pub fn new() -> (context: Controller)
        ensures
            context == Self::spec_new(),
    {
        let origin = GamecubeOriginData::blank();
        Controller {
            snapshots: [
                ControllerSnapshot::blank(),
                ControllerSnapshot::blank(),
                ControllerSnapshot::blank(),
                ControllerSnapshot::blank(),
            ],
            origins: ControllerOriginData { gc: [origin, origin, origin, origin] },
        }
    }

    fn scan_port(&self, reply: &ScanData, port: usize) -> (snapshot: ControllerSnapshot)
        requires
            port < 4,
        ensures
            snapshot == self.spec_scan_port(*reply, port as int),
    {
        let now = PadState::decode(reply.c[port], reply.gc[port], self.origins.gc[port]);
        let error = PadState::error(reply.c[port], reply.gc[port]);
        self.snapshots[port].next(now, error)
    }

    /// Direct read of all four ports in the native format, past the
    /// snapshots. `reply` is what the driver's blocking transfer returned.
    /// The chosen ports are examined in ascending order and the first error
    /// fails the read; ports that are not chosen cannot fail it.
    pub fn read(&self, ports: (bool, bool, bool, bool), reply: &ScanData) -> (data: Result<
        [ControllerData; 4],
        ControllerError,
    >)
        ensures
            data == Self::spec_read(ports, *reply),
    {
        let chosen = [ports.0, ports.1, ports.2, ports.3];
        let mut port: usize = 0;
        while port < 4
            invariant
                port <= 4,
                chosen@ == seq![ports.0, ports.1, ports.2, ports.3],
                forall|i: int|
                    0 <= i < port ==> !(chosen[i] && ControllerError::spec_from_code(
                        (#[trigger] reply.c[i]).spec_err(),
                    ).spec_is_error()),
            decreases 4 - port,
        {
            if chosen[port] {
                let err = ControllerError::from(reply.c[port].err());
                if err.is_error() {
                    return Err(err);
                }
            }
            port += 1;
        }
        Ok(reply.c)
    }

    /// The four bytes that a secondary read transmits with its request, one
    /// per port: 1 where the port's rumble motor is to run, else 0.
    pub fn read_gc_request(&self, rumble: (bool, bool, bool, bool)) -> (bytes: [u8; 4])
        ensures
            bytes@ == seq![
                Self::spec_rumble_byte(rumble.0),
                Self::spec_rumble_byte(rumble.1),
                Self::spec_rumble_byte(rumble.2),
                Self::spec_rumble_byte(rumble.3),
            ],
    {
        let bytes: [u8; 4] = [
            if rumble.0 {
                1
            } else {
                0
            },
            if rumble.1 {
                1
            } else {
                0
            },
            if rumble.2 {
                1
            } else {
                0
            },
            if rumble.3 {
                1
            } else {
                0
            },
        ];
        bytes
    }

    /// Direct read of all four ports in the secondary format, past the
    /// snapshots. `reply` is what the driver's blocking transfer returned.
    /// The secondary answers of the chosen ports are examined in ascending
    /// order and the first error fails the read. On success the result is
    /// the native data of the reply, not the secondary data that was
    /// examined.
    pub fn read_gc(&self, ports: (bool, bool, bool, bool), reply: &ScanData) -> (data: Result<
        [ControllerData; 4],
        ControllerError,
    >)
        ensures
            data == Self::spec_read_gc(ports, *reply),
    {
        let chosen = [ports.0, ports.1, ports.2, ports.3];
        let mut port: usize = 0;
        while port < 4
            invariant
                port <= 4,
                chosen@ == seq![ports.0, ports.1, ports.2, ports.3],
                forall|i: int|
                    0 <= i < port ==> !(chosen[i] && ControllerError::spec_from_code(
                        (#[trigger] reply.gc[i]).spec_err(),
                    ).spec_is_error()),
            decreases 4 - port,
        {
            if chosen[port] {
                let err = ControllerError::from(reply.gc[port].err());
                if err.is_error() {
                    return Err(err);
                }
            }
            port += 1;
        }
        Ok(reply.c)
    }

    /// Takes the origins that the secondary pads reported. The reply has no
    /// status to examine, so it is taken as it is. The snapshots stay as the
    /// last scan left them; the next scan decodes against the new origins.
    pub fn read_gc_origin(&mut self, reply: &ControllerOriginData) -> (origins:
        ControllerOriginData)
        ensures
            origins == *reply,
            final(self).origins == *reply,
            final(self).snapshots == old(self).snapshots,
    {
        self.origins = *reply;
        *reply
    }

    /// Takes what the four ports answered to one scan. Every port's snapshot
    /// is replaced by the one that follows it under the port's answer.
    pub fn scan(&mut self, reply: &ScanData)
        ensures
            *final(self) == old(self).spec_scan(*reply),
    {
        let first = self.scan_port(reply, 0);
        let second = self.scan_port(reply, 1);
        let third = self.scan_port(reply, 2);
        let fourth = self.scan_port(reply, 3);
        self.snapshots = [first, second, third, fourth];
    }

    /// For every port, the buttons that the last scan found held and the
    /// scan before it did not.
    pub fn keys_down(&self) -> (state: ControllerState)
        ensures
            state == self.spec_keys_down(),
    {
        ControllerState {
            ports: [
                self.snapshots[0].with(self.snapshots[0].buttons_down),
                self.snapshots[1].with(self.snapshots[1].buttons_down),
                self.snapshots[2].with(self.snapshots[2].buttons_down),
                self.snapshots[3].with(self.snapshots[3].buttons_down),
            ],
        }
    }

    /// For every port, the buttons that the scan before the last found held
    /// and the last scan did not.
    pub fn keys_up(&self) -> (state: ControllerState)
        ensures
            state == self.spec_keys_up(),
    {
        ControllerState {
            ports: [
                self.snapshots[0].with(self.snapshots[0].buttons_up),
                self.snapshots[1].with(self.snapshots[1].buttons_up),
                self.snapshots[2].with(self.snapshots[2].buttons_up),
                self.snapshots[3].with(self.snapshots[3].buttons_up),
            ],
        }
    }

    /// For every port, the buttons that the last scan found held.
    pub fn keys_held(&self) -> (state: ControllerState)
        ensures
            state == self.spec_keys_held(),
    {
        ControllerState {
            ports: [
                self.snapshots[0].with(self.snapshots[0].held),
                self.snapshots[1].with(self.snapshots[1].held),
                self.snapshots[2].with(self.snapshots[2].held),
                self.snapshots[3].with(self.snapshots[3].held),
            ],
        }
    }

    /// For every port, the buttons whose press the last scan confirmed: they
    /// went down in the scan before it and it found them still held.
    pub fn keys_pressed(&self) -> (state: ControllerState)
        ensures
            state == self.spec_keys_pressed(),
    {
        ControllerState {
            ports: [
                self.snapshots[0].with(self.snapshots[0].pressed_edge),
                self.snapshots[1].with(self.snapshots[1].pressed_edge),
                self.snapshots[2].with(self.snapshots[2].pressed_edge),
                self.snapshots[3].with(self.snapshots[3].pressed_edge),
            ],
        }
    }

    /// The direction held on a port's directional pad in the last scan: 0
    /// for right, then counter-clockwise to 7 for down-right, or
    /// `DPAD_NEUTRAL`. The context is not changed, so the answer is the same
    /// until the next scan.
    pub fn dpad_direction(&self, controller: i32) -> (direction: i32)
        ensures
            direction == self.spec_dpad_direction(controller as int),
            direction == DPAD_NEUTRAL || 0 <= direction < 8,
    {
        if 0 <= controller && controller < 4 {
            self.snapshots[controller as usize].dpad_direction()
        } else {
            DPAD_NEUTRAL
        }
    }

    /// Which ports hold a controller, by the presence bitmask that the
    /// driver reported for this call.
    pub fn controllers_present(&self, present: i32) -> (ports: (bool, bool, bool, bool))
        ensures
            ports == Self::spec_present(present),
    {
        (
            ControllerStatus::Controller1Inserted.present_in(present),
            ControllerStatus::Controller2Inserted.present_in(present),
            ControllerStatus::Controller3Inserted.present_in(present),
            ControllerStatus::Controller4Inserted.present_in(present),
        )
    }

    /// Which ports hold an accessory, by the presence bitmask that the
    /// driver reported for this call.
    pub fn accessories_present(&self, present: i32) -> (ports: (bool, bool, bool, bool))
        ensures
            ports == Self::spec_present(present),
    {
        (
            ControllerStatus::Controller1Inserted.present_in(present),
            ControllerStatus::Controller2Inserted.present_in(present),
            ControllerStatus::Controller3Inserted.present_in(present),
            ControllerStatus::Controller4Inserted.present_in(present),
        )
    }

    /// Classifies what the driver returned for the read of the block at
    /// `address` on a port. A port or an address that no transaction may
    /// name fails before the reply is looked at; then the driver's status
    /// decides; then the block must match the checksum sent with it.
    pub fn read_mempak_address(
        &self,
        controller: i32,
        address: u16,
        reply: &MempakReadReply,
    ) -> (block: Result<[u8; 32], MempakError>)
        ensures
            block == spec_read_outcome(controller, address, *reply),
    {
        match check_address(controller, address) {
            Err(err) => Err(err),
            Ok(_) => {
                match MempakError::from_status(reply.status) {
                    MempakError::NoError => {
                        if reply.checksum != data_checksum(&reply.data) {
                            Err(MempakError::InvalidData)
                        } else {
                            Ok(reply.data)
                        }
                    },
                    err => Err(err),
                }
            },
        }
    }

    /// Classifies what the driver returned for the write of `data` to the
    /// block at `address` on a port. A port or an address that no
    /// transaction may name fails before the reply is looked at; then the
    /// driver's status decides; then the accessory must have echoed the
    /// checksum of `data`. A mismatch is reported, not retried.
    pub fn write_mempak_address(
        &self,
        controller: i32,
        address: u16,
        data: &[u8; 32],
        reply: &MempakWriteReply,
    ) -> (written: Result<(), MempakError>)
        ensures
            written == spec_write_outcome(controller, address, *data, *reply),
    {
        match check_address(controller, address) {
            Err(err) => Err(err),
            Ok(_) => {
                match MempakError::from_status(reply.status) {
                    MempakError::NoError => {
                        if reply.checksum != data_checksum(data) {
                            Err(MempakError::InvalidData)
                        } else {
                            Ok(())
                        }
                    },
                    err => Err(err),
                }
            },
        }
    }

    /// Names the accessory on a port from the identity code that the driver
    /// returned for it.
    pub fn identify_accessory(&self, controller: i32, code: i32) -> (found: Option<Accessory>)
        ensures
            found == Self::spec_identify_accessory(controller, code),
    {
        if 0 <= controller && controller < 4 {
            Accessory::from_code(code)
        } else {
            None
        }
    }
}

/// After a scan, a port's buttons that are down are exactly those that the
/// snapshot before the scan did not hold and the new one holds, and its
/// buttons that are up are exactly those that the snapshot before held and
/// the new one does not.
pub proof fn lemma_scan_reports_transitions(
    before: Controller,
    reply: ScanData,
    port: int,
    index: u16,
)
    requires
        0 <= port < 4,
        index < 16,
    ensures
        spec_holds(before.spec_scan(reply).spec_keys_down().ports[port].buttons, index)
            <==> !spec_holds(before.snapshots[port].held, index) && spec_holds(
            before.spec_scan(reply).snapshots[port].held,
            index,
        ),
        spec_holds(before.spec_scan(reply).spec_keys_up().ports[port].buttons, index)
            <==> spec_holds(before.snapshots[port].held, index) && !spec_holds(
            before.spec_scan(reply).snapshots[port].held,
            index,
        ),
{
    lemma_edges_are_transitions(
        before.snapshots[port],
        PadState::spec_decode(reply.c[port], reply.gc[port], before.origins.gc[port]),
        PadState::spec_error(reply.c[port], reply.gc[port]),
        index,
    );
}

/// The snapshots of a new context are consistent, and a scan keeps them so,
/// whatever the ports answer.
pub proof fn lemma_scan_keeps_snapshots_consistent(before: Controller, reply: ScanData)
    ensures
        Controller::spec_new().spec_consistent(),
        before.spec_consistent() ==> before.spec_scan(reply).spec_consistent(),
{
    let fresh = Controller::spec_new();
    let after = before.spec_scan(reply);
    assert forall|port: int| 0 <= port < 4 implies (#[trigger] fresh.snapshots[
        port
    ]).spec_consistent() by {
        lemma_snapshots_are_consistent(
            before.snapshots[port],
            PadState::spec_decode(reply.c[port], reply.gc[port], before.origins.gc[port]),
            PadState::spec_error(reply.c[port], reply.gc[port]),
        );
    }
    if before.spec_consistent() {
        assert forall|port: int| 0 <= port < 4 implies (#[trigger] after.snapshots[
            port
        ]).spec_consistent() by {
            lemma_snapshots_are_consistent(
                before.snapshots[port],
                PadState::spec_decode(reply.c[port], reply.gc[port], before.origins.gc[port]),
                PadState::spec_error(reply.c[port], reply.gc[port]),
            );
        }
    }
}

/// What the queries report depends on nothing of the context but the
/// snapshots. Only a scan replaces them: between two scans every query
/// reports the same, whatever else was done with the context.
pub proof fn lemma_queries_stay_between_scans(
    before: Controller,
    after: Controller,
    controller: int,
)
    requires
        after.snapshots == before.snapshots,
    ensures
        after.spec_dpad_direction(controller) == before.spec_dpad_direction(controller),
        after.spec_keys_down() == before.spec_keys_down(),
        after.spec_keys_up() == before.spec_keys_up(),
        after.spec_keys_held() == before.spec_keys_held(),
        after.spec_keys_pressed() == before.spec_keys_pressed(),
{
}

} // verus!
