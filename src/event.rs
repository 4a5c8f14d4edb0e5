//! Vendor-specific events of BlueNRG controllers.
//!
//! The BlueNRG firmware defines several events of its own, which the Bluetooth HCI carries as
//! vendor-specific events. This module defines those events and the functions that decode a
//! buffer into them. Each decoder is stated against a spec function over the buffer's bytes
//! (`event_of` for the whole dispatch), which says exactly which event or error comes out.
use crate::le::{le_u16, le_u32, le_u64, read_u16, read_u32, read_u64};
use crate::text::{hex_text, push_char, push_hex, push_str};
use vstd::prelude::*;

verus! {

/// Enumeration of potential errors when deserializing events.
#[derive(Clone, Copy, Debug, PartialEq, Eq, Structural)]
pub enum Error {
    /// The event is not recognized. Includes the unknown opcode.
    UnknownEvent(u16),
    /// For the HalInitialized event: the reset reason was not recognized. Includes the
    /// unrecognized byte.
    UnknownResetReason(u8),
    /// For the EventsLost event: The event included unrecognized event flags. Includes the entire
    /// bitfield.
    BadEventFlags(u64),
    /// For the CrashReport event: The crash reason was not recognized. Includes the unrecognized
    /// byte.
    UnknownCrashReason(u8),
    /// For any L2CAP event: The event data length did not match the expected length. The first
    /// field is the actual length, and the second is the required length.
    BadL2CapDataLength(u8, u8),
    /// For any L2CAP event: The L2CAP length did not match the expected length. The first field is
    /// the actual length, and the second is the required length.
    BadL2CapLength(u16, u16),
    /// For any L2CAP response event: The L2CAP command was rejected, but the rejection reason was
    /// not recognized. Includes the unknown value.
    BadL2CapRejectionReason(u16),
    /// For the L2CapConnectionUpdateResponse event: The code byte did not indicate either Rejected
    /// or Updated. Includes the invalid byte.
    BadL2CapConnectionResponseCode(u8),
    /// For the L2CapConnectionUpdateResponse event: The command was accepted, but the result was
    /// not recognized. It did not indicate the parameters were either updated or rejected.
    /// Includes the unknown value.
    BadL2CapConnectionResponseResult(u16),
}

/// Errors of the generic HCI event layer, with a slot for the errors of one controller family.
#[derive(Clone, Copy, Debug, PartialEq, Eq, Structural)]
pub enum HciError<V> {
    /// The buffer does not have the length the event needs. Field 0 is the provided length,
    /// field 1 is the expected length.
    BadLength(usize, usize),
    /// An error that is specific to the controller's vendor events.
    Vendor(V),
}

/// Vendor-specific events for the BlueNRG-MS controllers.
#[derive(Clone, Copy)]
pub enum BlueNRGEvent {
    /// When the BlueNRG-MS firmware is started normally, it gives a Evt_Blue_Initialized event to
    /// the user to indicate the system has started.
    HalInitialized(ResetReason),
    /// If the host fails to read events from the controller quickly enough, the controller will
    /// generate an EventsLost event. This event is never lost; it is inserted as soon as space is
    /// available in the Tx queue.
    EventsLost(EventFlags),
    /// The fault data event is automatically sent after the HalInitialized event in case of NMI or
    /// Hard fault (ResetReason::Crash).
    CrashReport(FaultData),
    /// This event is generated when the master responds to the L2CAP connection update request
    /// packet. For more info see CONNECTION PARAMETER UPDATE RESPONSE and COMMAND REJECT in
    /// Bluetooth Core v4.0 spec.
    L2CapConnectionUpdateResponse(L2CapConnectionUpdateResponse),
    /// This event is generated when the master does not respond to the connection update request
    /// within 30 seconds.
    L2CapProcedureTimeout(L2CapProcedureTimeout),
    /// An unknown event was sent. Includes the event code but no other information about the
    /// event. The remaining data from the event is lost.
    UnknownEvent(u16),
}

/// Potential reasons the controller sent the HalInitialized event.
#[derive(Clone, Copy, Debug, PartialEq, Eq, Structural)]
pub enum ResetReason {
    /// Firmware started properly
    Normal,
    /// Updater mode entered because of Aci_Updater_Start command
    UpdaterAci,
    /// Updater mode entered because of a bad BLUE flag
    UpdaterBadFlag,
    /// Updater mode entered with IRQ pin
    UpdaterPin,
    /// Reset caused by watchdog
    Watchdog,
    /// Reset due to lockup
    Lockup,
    /// Brownout reset
    Brownout,
    /// Reset caused by a crash (NMI or Hard Fault)
    Crash,
    /// Reset caused by an ECC error
    EccError,
}

/// The reset reason that the byte `value` stands for: codes 1 to 9, in declaration order.
pub open spec fn reset_reason_of(value: u8) -> Result<ResetReason, Error> {
    if value == 1 {
        Ok(ResetReason::Normal)
    } else if value == 2 {
        Ok(ResetReason::UpdaterAci)
    } else if value == 3 {
        Ok(ResetReason::UpdaterBadFlag)
    } else if value == 4 {
        Ok(ResetReason::UpdaterPin)
    } else if value == 5 {
        Ok(ResetReason::Watchdog)
    } else if value == 6 {
        Ok(ResetReason::Lockup)
    } else if value == 7 {
        Ok(ResetReason::Brownout)
    } else if value == 8 {
        Ok(ResetReason::Crash)
    } else if value == 9 {
        Ok(ResetReason::EccError)
    } else {
        Err(Error::UnknownResetReason(value))
    }
}

impl TryFrom<u8> for ResetReason {
    type Error = Error;

    fn try_from(value: u8) -> (r: Result<ResetReason, Error>) {
        match value {
            1 => Ok(ResetReason::Normal),
            2 => Ok(ResetReason::UpdaterAci),
            3 => Ok(ResetReason::UpdaterBadFlag),
            4 => Ok(ResetReason::UpdaterPin),
            5 => Ok(ResetReason::Watchdog),
            6 => Ok(ResetReason::Lockup),
            7 => Ok(ResetReason::Brownout),
            8 => Ok(ResetReason::Crash),
            9 => Ok(ResetReason::EccError),
            _ => Err(Error::UnknownResetReason(value)),
        }
    }
}

impl vstd::std_specs::convert::TryFromSpecImpl<u8> for ResetReason {
    open spec fn obeys_try_from_spec() -> bool {
        true
    }

    open spec fn try_from_spec(value: u8) -> Result<ResetReason, Error> {
        reset_reason_of(value)
    }
}

/// Bitfield for the EventsLost event. Each bit indicates a different type of event that was not
/// handled. The associated constants are the bit masks of the 49 documented flags.
#[derive(Clone, Copy, Debug, PartialEq, Eq, Structural)]
pub struct EventFlags {
    bits: u64,
}

/// The mask of the 49 documented flag bits, positions 0 to 48.
pub const DOCUMENTED_EVENT_FLAGS: u64 = 0x1_FFFF_FFFF_FFFF;

/// Whether `bits` sets no bit outside the documented positions 0 to 48.
pub open spec fn only_documented_flags(bits: u64) -> bool {
    bits & !DOCUMENTED_EVENT_FLAGS == 0
}

impl View for EventFlags {
    type V = u64;

    closed spec fn view(&self) -> u64 {
        self.bits
    }
}

impl EventFlags {
    /// HCI Event: Disconnection complete
    pub const DISCONNECTION_COMPLETE: u64 = 1 << 0;

    /// HCI Event: Encryption change
    pub const ENCRYPTION_CHANGE: u64 = 1 << 1;

    /// HCI Event: Read Remote Version Complete
    pub const READ_REMOTE_VERSION_COMPLETE: u64 = 1 << 2;

    /// HCI Event: Command Complete
    pub const COMMAND_COMPLETE: u64 = 1 << 3;

    /// HCI Event: Command Status
    pub const COMMAND_STATUS: u64 = 1 << 4;

    /// HCI Event: Hardware Error
    pub const HARDWARE_ERROR: u64 = 1 << 5;

    /// HCI Event: Number of completed packets
    pub const NUMBER_OF_COMPLETED_PACKETS: u64 = 1 << 6;

    /// HCI Event: Encryption key refresh complete
    pub const ENCRYPTION_KEY_REFRESH: u64 = 1 << 7;

    /// BlueNRG-MS Event: HAL Initialized
    pub const HAL_INITIALIZED: u64 = 1 << 8;

    /// BlueNRG Event: GAP Set Limited Discoverable complete
    pub const GAP_SET_LIMITED_DISCOVERABLE: u64 = 1 << 9;

    /// BlueNRG Event: GAP Pairing complete
    pub const GAP_PAIRING_COMPLETE: u64 = 1 << 10;

    /// BlueNRG Event: GAP Pass Key Request
    pub const GAP_PASS_KEY_REQUEST: u64 = 1 << 11;

    /// BlueNRG Event: GAP Authorization Request
    pub const GAP_AUTHORIZATION_REQUEST: u64 = 1 << 12;

    /// BlueNRG Event: GAP Slave Security Initiated
    pub const GAP_SLAVE_SECURITY_INITIATED: u64 = 1 << 13;

    /// BlueNRG Event: GAP Bond Lost
    pub const GAP_BOND_LOST: u64 = 1 << 14;

    /// BlueNRG Event: GAP Procedure Complete
    pub const GAP_PROCEDURE_COMPLETE: u64 = 1 << 15;

    /// BlueNRG-MS Event: GAP Address Not Resolved
    pub const GAP_ADDRESS_NOT_RESOLVED: u64 = 1 << 16;

    /// BlueNRG Event: L2Cap Connection Update Response
    pub const L2CAP_CONNECTION_UPDATE_RESPONSE: u64 = 1 << 17;

    /// BlueNRG Event: L2Cap Procedure Timeout
    pub const L2CAP_PROCEDURE_TIMEOUT: u64 = 1 << 18;

    /// BlueNRG Event: L2Cap Connection Update Request
    pub const L2CAP_CONNECTION_UPDATE_REQUEST: u64 = 1 << 19;

    /// BlueNRG Event: GATT Attribute modified
    pub const GATT_ATTRIBUTE_MODIFIED: u64 = 1 << 20;

    /// BlueNRG Event: GATT timeout
    pub const GATT_PROCEDURE_TIMEOUT: u64 = 1 << 21;

    /// BlueNRG Event: Exchange MTU Response
    pub const ATT_EXCHANGE_MTU_RESPONSE: u64 = 1 << 22;

    /// BlueNRG Event: Find information response
    pub const ATT_FIND_INFORMATION_RESPONSE: u64 = 1 << 23;

    /// BlueNRG Event: Find by type value response
    pub const ATT_FIND_BY_TYPE_VALUE_RESPONSE: u64 = 1 << 24;

    /// BlueNRG Event: Find read by type response
    pub const ATT_READ_BY_TYPE_RESPONSE: u64 = 1 << 25;

    /// BlueNRG Event: Read response
    pub const ATT_READ_RESPONSE: u64 = 1 << 26;

    /// BlueNRG Event: Read blob response
    pub const ATT_READ_BLOB_RESPONSE: u64 = 1 << 27;

    /// BlueNRG Event: Read multiple response
    pub const ATT_READ_MULTIPLE_RESPONSE: u64 = 1 << 28;

    /// BlueNRG Event: Read by group type response
    pub const ATT_READ_BY_GROUP_TYPE_RESPONSE: u64 = 1 << 29;

    /// BlueNRG Event: GATT Write Response
    pub const ATT_WRITE_RESPONSE: u64 = 1 << 30;

    /// BlueNRG Event: Prepare Write Response
    pub const ATT_PREPARE_WRITE_RESPONSE: u64 = 1 << 31;

    /// BlueNRG Event: Execute write response
    pub const ATT_EXECUTE_WRITE_RESPONSE: u64 = 1 << 32;

    /// BlueNRG Event: Indication received from server
    pub const GATT_INDICATION: u64 = 1 << 33;

    /// BlueNRG Event: Notification received from server
    pub const GATT_NOTIFICATION: u64 = 1 << 34;

    /// BlueNRG Event: GATT Procedure complete
    pub const GATT_PROCEDURE_COMPLETE: u64 = 1 << 35;

    /// BlueNRG Event: Error response received from server
    pub const GATT_ERROR_RESPONSE: u64 = 1 << 36;

    /// BlueNRG Event: Response to either "Discover Characteristic by UUID" or "Read
    /// Characteristic by UUID" request
    pub const GATT_DISCOVER_OR_READ_CHARACTERISTIC_BY_UUID_RESPONSE: u64 = 1 << 37;

    /// BlueNRG Event: Write request received by server
    pub const GATT_WRITE_PERMIT_REQUEST: u64 = 1 << 38;

    /// BlueNRG Event: Read request received by server
    pub const GATT_READ_PERMIT_REQUEST: u64 = 1 << 39;

    /// BlueNRG Event: Read multiple request received by server
    pub const GATT_READ_MULTIPLE_PERMIT_REQUEST: u64 = 1 << 40;

    /// BlueNRG-MS Event: TX Pool available event missed
    pub const GATT_TX_POOL_AVAILABLE: u64 = 1 << 41;

    /// BlueNRG-MS Event: Server confirmation
    pub const GATT_SERVER_RX_CONFIRMATION: u64 = 1 << 42;

    /// BlueNRG-MS Event: Prepare write permit request
    pub const GATT_PREPARE_WRITE_PERMIT_REQUEST: u64 = 1 << 43;

    /// BlueNRG-MS Event: Link Layer connection complete
    pub const LINK_LAYER_CONNECTION_COMPLETE: u64 = 1 << 44;

    /// BlueNRG-MS Event: Link Layer advertising report
    pub const LINK_LAYER_ADVERTISING_REPORT: u64 = 1 << 45;

    /// BlueNRG-MS Event: Link Layer connection update complete
    pub const LINK_LAYER_CONNECTION_UPDATE_COMPLETE: u64 = 1 << 46;

    /// BlueNRG-MS Event: Link Layer read remote used features
    pub const LINK_LAYER_READ_REMOTE_USED_FEATURES: u64 = 1 << 47;

    /// BlueNRG-MS Event: Link Layer long-term key request
    pub const LINK_LAYER_LTK_REQUEST: u64 = 1 << 48;

    /// Every flag set holds documented flags only.
    #[verifier::type_invariant]
    spec fn inv(self) -> bool {
        only_documented_flags(self.bits)
    }

    /// The flag set whose bits are `bits`.
    pub closed spec fn spec_from_bits(bits: u64) -> EventFlags {
        EventFlags { bits }
    }

    /// The flag set with the raw bits `bits`, or `None` where a bit is set that is not
    /// documented.
    pub fn from_bits(bits: u64) -> (r: Option<EventFlags>)
        ensures
            only_documented_flags(bits) ==> r == Some(EventFlags::spec_from_bits(bits)),
            !only_documented_flags(bits) ==> r is None,
    {
        if bits & !DOCUMENTED_EVENT_FLAGS == 0 {
            Some(EventFlags { bits })
        } else {
            None
        }
    }

    /// The raw bits of the set.
    pub fn bits(&self) -> (r: u64)
        ensures
            r == self@,
            only_documented_flags(r),
    {
        proof {
            use_type_invariant(self);
        }
        self.bits
    }

    /// The set with no flag.
    pub fn empty() -> (r: EventFlags)
        ensures
            r@ == 0,
    {
        assert(0u64 & !0x1_FFFF_FFFF_FFFFu64 == 0) by (bit_vector);
        EventFlags { bits: 0 }
    }

    /// The set with every documented flag.
    pub fn all() -> (r: EventFlags)
        ensures
            r@ == DOCUMENTED_EVENT_FLAGS,
    {
        assert(0x1_FFFF_FFFF_FFFFu64 & !0x1_FFFF_FFFF_FFFFu64 == 0) by (bit_vector);
        EventFlags { bits: DOCUMENTED_EVENT_FLAGS }
    }

    /// Whether every flag of the bit mask `flags` is in the set.
    pub fn contains(&self, flags: u64) -> (r: bool)
        ensures
            r == (self@ & flags == flags),
    {
        self.bits & flags == flags
    }
}

/// The raw bits of a flag set are the bits it was made from.
pub broadcast proof fn lemma_flags_view(bits: u64)
    ensures
        (#[trigger] EventFlags::spec_from_bits(bits))@ == bits,
{
}

/// What a HalInitialized payload `b` decodes to: three bytes, the last a reset reason.
pub open spec fn hal_initialized_of(b: Seq<u8>) -> Result<BlueNRGEvent, HciError<Error>> {
    if b.len() != 3 {
        Err(HciError::BadLength(b.len() as usize, 3))
    } else {
        match reset_reason_of(b[2]) {
            Ok(reason) => Ok(BlueNRGEvent::HalInitialized(reason)),
            Err(e) => Err(HciError::Vendor(e)),
        }
    }
}

/// Convert a buffer to the HalInitialized BlueNRGEvent.
///
/// # Errors
///
/// - Returns a BadLength HCI error if the buffer is not exactly 3 bytes long
///
/// - Returns a UnknownResetReason BlueNRG error if the reset reason is not recognized.
pub fn to_hal_initialized(buffer: &[u8]) -> (r: Result<BlueNRGEvent, HciError<Error>>)
    ensures
        r == hal_initialized_of(buffer@),
{
    if buffer.len() != 3 {
        return Err(HciError::BadLength(buffer.len(), 3));
    }
    match ResetReason::try_from(buffer[2]) {
        Ok(reason) => Ok(BlueNRGEvent::HalInitialized(reason)),
        Err(e) => Err(HciError::Vendor(e)),
    }
}

/// What an EventsLost payload `b` decodes to: ten bytes, of which the last eight are the
/// little-endian flag bits.
pub open spec fn lost_event_of(b: Seq<u8>) -> Result<BlueNRGEvent, HciError<Error>> {
    if b.len() != 10 {
        Err(HciError::BadLength(b.len() as usize, 10))
    } else {
        let bits = le_u64(b, 2) as u64;
        if only_documented_flags(bits) {
            Ok(BlueNRGEvent::EventsLost(EventFlags::spec_from_bits(bits)))
        } else {
            Err(HciError::Vendor(Error::BadEventFlags(bits)))
        }
    }
}

/// Convert a buffer to the EventsLost BlueNRGEvent.
///
/// # Errors
///
/// - Returns a BadLength HCI error if the buffer is not exactly 10 bytes long
///
/// - Returns BadEventFlags if a bit is set that does not represent a lost event.
pub fn to_lost_event(buffer: &[u8]) -> (r: Result<BlueNRGEvent, HciError<Error>>)
    ensures
        r == lost_event_of(buffer@),
{
    if buffer.len() != 10 {
        return Err(HciError::BadLength(buffer.len(), 10));
    }
    let bits = read_u64(buffer, 2);
    match EventFlags::from_bits(bits) {
        Some(flags) => Ok(BlueNRGEvent::EventsLost(flags)),
        None => Err(HciError::Vendor(Error::BadEventFlags(bits))),
    }
}

/// The maximum length of an event that the HCI transport can carry.
pub const MAX_EVENT_LEN: usize = 255;

/// The maximum length of `debug_data` in [`FaultData`]. The maximum length of an event is 255
/// bytes, and the non-variable data of the event takes up 40 bytes.
pub const MAX_DEBUG_DATA_LEN: usize = 215;

/// Specific reason for the fault reported with FaultData.
#[derive(Clone, Copy, Debug, PartialEq, Eq, Structural)]
pub enum CrashReason {
    /// The controller reset because an assertion failed.
    Assertion,
    /// The controller reset because of an NMI fault.
    NmiFault,
    /// The controller reset because of a hard fault.
    HardFault,
}

/// The crash reason that the byte `value` stands for. Two revisions of the vendor's
/// documentation give NMI and hard faults different codes (1 and 2, or 6 and 7): both are taken.
pub open spec fn crash_reason_of(value: u8) -> Result<CrashReason, Error> {
    if value == 0 {
        Ok(CrashReason::Assertion)
    } else if value == 1 || value == 6 {
        Ok(CrashReason::NmiFault)
    } else if value == 2 || value == 7 {
        Ok(CrashReason::HardFault)
    } else {
        Err(Error::UnknownCrashReason(value))
    }
}

impl TryFrom<u8> for CrashReason {
    type Error = Error;

    fn try_from(value: u8) -> (r: Result<CrashReason, Error>) {
        match value {
            0 => Ok(CrashReason::Assertion),
            // The vendor's sample code says 1, its user manual says 6.
            1 | 6 => Ok(CrashReason::NmiFault),
            // The vendor's sample code says 2, its user manual says 7.
            2 | 7 => Ok(CrashReason::HardFault),
            _ => Err(Error::UnknownCrashReason(value)),
        }
    }
}

impl vstd::std_specs::convert::TryFromSpecImpl<u8> for CrashReason {
    open spec fn obeys_try_from_spec() -> bool {
        true
    }

    open spec fn try_from_spec(value: u8) -> Result<CrashReason, Error> {
        crash_reason_of(value)
    }
}

/// Fault data reported after a crash.
#[derive(Clone, Copy)]
pub struct FaultData {
    /// Fault reason.
    pub reason: CrashReason,
    /// MCP SP register
    pub sp: u32,
    /// MCU R0 register
    pub r0: u32,
    /// MCU R1 register
    pub r1: u32,
    /// MCU R2 register
    pub r2: u32,
    /// MCU R3 register
    pub r3: u32,
    /// MCU R12 register
    pub r12: u32,
    /// MCU LR register
    pub lr: u32,
    /// MCU PC register
    pub pc: u32,
    /// MCU xPSR register
    pub xpsr: u32,
    /// Number of valid bytes in debug_data
    pub debug_data_len: usize,
    /// Additional crash dump data
    pub debug_data: [u8; MAX_DEBUG_DATA_LEN],
}

impl CrashReason {
    /// The name of the reason, as written in the text of a fault data value.
    pub fn name(&self) -> (r: &'static str)
        ensures
            r@ == crash_reason_name(*self),
    {
        match self {
            CrashReason::Assertion => "Assertion",
            CrashReason::NmiFault => "NmiFault",
            CrashReason::HardFault => "HardFault",
        }
    }
}

/// The name of a crash reason.
pub open spec fn crash_reason_name(r: CrashReason) -> Seq<char> {
    match r {
        CrashReason::Assertion => "Assertion"@,
        CrashReason::NmiFault => "NmiFault"@,
        CrashReason::HardFault => "HardFault"@,
    }
}

/// The bytes of `s` in lower-case hexadecimal, each after a space.
pub open spec fn bytes_text(s: Seq<u8>) -> Seq<char>
    decreases s.len(),
{
    if s.len() == 0 {
        Seq::empty()
    } else {
        bytes_text(s.drop_last()).push(' ') + hex_text(s.last() as nat)
    }
}

/// The text of the fault data `f`: its reason, its registers in hexadecimal, and the valid part
/// of its debug data (never the unused end of the buffer).
pub open spec fn fault_data_text(f: FaultData) -> Seq<char> {
    "FaultData { reason: "@ + crash_reason_name(f.reason) + ", sp: "@ + hex_text(f.sp as nat)
        + ", r0: "@ + hex_text(f.r0 as nat) + ", r1: "@ + hex_text(f.r1 as nat) + ", r2: "@
        + hex_text(f.r2 as nat) + ", r3: "@ + hex_text(f.r3 as nat) + ", r12: "@ + hex_text(
        f.r12 as nat,
    ) + ", lr: "@ + hex_text(f.lr as nat) + ", pc: "@ + hex_text(f.pc as nat) + ", xpsr: "@
        + hex_text(f.xpsr as nat) + ", debug_data: ["@ + bytes_text(
        f.debug_data@.take(f.debug_data_len as int),
    ) + " ] }"@
}

impl FaultData {
    /// The fault data as text, with the registers and the valid debug data bytes in lower-case
    /// hexadecimal.
    pub fn debug_string(&self) -> (r: String)
        requires
            self.debug_data_len <= MAX_DEBUG_DATA_LEN,
        ensures
            r@ == fault_data_text(*self),
    {
        let mut s = String::new();
        push_str(&mut s, "FaultData { reason: ");
        push_str(&mut s, self.reason.name());
        push_str(&mut s, ", sp: ");
        push_hex(&mut s, self.sp);
        push_str(&mut s, ", r0: ");
        push_hex(&mut s, self.r0);
        push_str(&mut s, ", r1: ");
        push_hex(&mut s, self.r1);
        push_str(&mut s, ", r2: ");
        push_hex(&mut s, self.r2);
        push_str(&mut s, ", r3: ");
        push_hex(&mut s, self.r3);
        push_str(&mut s, ", r12: ");
        push_hex(&mut s, self.r12);
        push_str(&mut s, ", lr: ");
        push_hex(&mut s, self.lr);
        push_str(&mut s, ", pc: ");
        push_hex(&mut s, self.pc);
        push_str(&mut s, ", xpsr: ");
        push_hex(&mut s, self.xpsr);
        push_str(&mut s, ", debug_data: [");
        let ghost head = s@;
        let mut i: usize = 0;
        while i < self.debug_data_len
            invariant
                self.debug_data_len <= MAX_DEBUG_DATA_LEN,
                i <= self.debug_data_len,
                s@ == head + bytes_text(self.debug_data@.take(i as int)),
            decreases self.debug_data_len - i,
        {
            push_char(&mut s, ' ');
            push_hex(&mut s, self.debug_data[i] as u32);
            proof {
                let taken = self.debug_data@.take(i + 1);
                assert(taken.drop_last() =~= self.debug_data@.take(i as int));
                assert(s@ =~= head + bytes_text(taken));
            }
            i = i + 1;
        }
        push_str(&mut s, " ] }");
        assert(s@ =~= fault_data_text(*self));
        s
    }
}

/// The debug data buffer after the first `k` bytes of debug data of the CrashReport payload `b`
/// were copied into a zeroed buffer.
pub open spec fn debug_data_of(b: Seq<u8>, k: nat) -> [u8; MAX_DEBUG_DATA_LEN]
    decreases k,
{
    if k == 0 {
        vstd::array::spec_array_fill_for_copy_type::<u8, MAX_DEBUG_DATA_LEN>(0)
    } else {
        vstd::array::spec_array_update(debug_data_of(b, (k - 1) as nat), k - 1, b[40 + k - 1])
    }
}

/// The fault data of the CrashReport payload `b`, whose reason decodes to `reason`: the nine
/// registers from offset 3 on, the debug data length at offset 39, and the debug data after it.
pub open spec fn fault_data_of(b: Seq<u8>, reason: CrashReason) -> FaultData {
    FaultData {
        reason,
        sp: le_u32(b, 3) as u32,
        r0: le_u32(b, 7) as u32,
        r1: le_u32(b, 11) as u32,
        r2: le_u32(b, 15) as u32,
        r3: le_u32(b, 19) as u32,
        r12: le_u32(b, 23) as u32,
        lr: le_u32(b, 27) as u32,
        pc: le_u32(b, 31) as u32,
        xpsr: le_u32(b, 35) as u32,
        debug_data_len: b[39] as usize,
        debug_data: debug_data_of(b, b[39] as nat),
    }
}

/// After `k` bytes were copied, the debug data buffer holds those bytes and zero after them.
pub proof fn lemma_debug_data_of(b: Seq<u8>, k: nat)
    requires
        k <= MAX_DEBUG_DATA_LEN,
        40 + k <= b.len(),
    ensures
        debug_data_of(b, k)@.len() == MAX_DEBUG_DATA_LEN,
        forall|j: int|
            0 <= j < MAX_DEBUG_DATA_LEN ==> #[trigger] debug_data_of(b, k)@[j] == if j < k {
                b[40 + j]
            } else {
                0u8
            },
    decreases k,
{
    if k > 0 {
        lemma_debug_data_of(b, (k - 1) as nat);
    }
}

/// What a CrashReport payload `b` decodes to: at least 40 bytes, exactly 40 more than the debug
/// data length at offset 39, with a crash reason at offset 2.
pub open spec fn crash_report_of(b: Seq<u8>) -> Result<BlueNRGEvent, HciError<Error>> {
    if b.len() < 40 {
        Err(HciError::BadLength(b.len() as usize, 40))
    } else if b.len() != 40 + b[39] {
        Err(HciError::BadLength(b.len() as usize, (40 + b[39]) as usize))
    } else {
        match crash_reason_of(b[2]) {
            Ok(reason) => Ok(BlueNRGEvent::CrashReport(fault_data_of(b, reason))),
            Err(e) => Err(HciError::Vendor(e)),
        }
    }
}

/// Convert a buffer to the CrashReport BlueNRGEvent.
///
/// # Errors
///
/// - Returns a BadLength HCI error if the buffer is shorter than 40 bytes, or if its length is
///   not 40 plus the debug data length given at offset 39
///
/// - Returns a UnknownCrashReason BlueNRG error if the crash reason is not recognized.
pub fn to_crash_report(buffer: &[u8]) -> (r: Result<BlueNRGEvent, HciError<Error>>)
    requires
        buffer@.len() <= MAX_EVENT_LEN,
    ensures
        r == crash_report_of(buffer@),
{
    if buffer.len() < 40 {
        return Err(HciError::BadLength(buffer.len(), 40));
    }
    let debug_data_len = buffer[39] as usize;
    if buffer.len() != 40 + debug_data_len {
        return Err(HciError::BadLength(buffer.len(), 40 + debug_data_len));
    }
    let reason = match CrashReason::try_from(buffer[2]) {
        Ok(reason) => reason,
        Err(e) => {
            return Err(HciError::Vendor(e));
        },
    };
    let mut debug_data = [0u8; MAX_DEBUG_DATA_LEN];
    let mut i: usize = 0;
    while i < debug_data_len
        invariant
            debug_data_len == buffer@[39],
            buffer@.len() == 40 + debug_data_len,
            debug_data_len <= MAX_DEBUG_DATA_LEN,
            i <= debug_data_len,
            debug_data@ == debug_data_of(buffer@, i as nat)@,
        decreases debug_data_len - i,
    {
        debug_data[i] = buffer[40 + i];
        i = i + 1;
    }
    assert(debug_data =~= debug_data_of(buffer@, debug_data_len as nat));
    let fault_data = FaultData {
        reason,
        sp: read_u32(buffer, 3),
        r0: read_u32(buffer, 7),
        r1: read_u32(buffer, 11),
        r2: read_u32(buffer, 15),
        r3: read_u32(buffer, 19),
        r12: read_u32(buffer, 23),
        lr: read_u32(buffer, 27),
        pc: read_u32(buffer, 31),
        xpsr: read_u32(buffer, 35),
        debug_data_len,
        debug_data,
    };
    Ok(BlueNRGEvent::CrashReport(fault_data))
}

/// This event is generated when the master responds to the L2CAP connection update request
/// packet. For more info see CONNECTION PARAMETER UPDATE RESPONSE and COMMAND REJECT in Bluetooth
/// Core v4.0 spec.
#[derive(Clone, Copy, Debug, PartialEq, Eq, Structural)]
pub struct L2CapConnectionUpdateResponse {
    /// The connection handle related to the event
    pub conn_handle: u16,
    /// The result of the update request, including details about the result.
    pub result: L2CapConnectionUpdateResult,
}

/// Reasons why an L2CAP command was rejected. see the Bluetooth specification, Vol 3, Part A,
/// Section 4.1 (versions 4.1, 4.2, and 5.0).
#[derive(Clone, Copy, Debug, PartialEq, Eq, Structural)]
pub enum L2CapRejectionReason {
    /// The controller sent an unknown command
    CommandNotUnderstood,
    /// When multiple commands are included in an L2CAP packet and the packet exceeds the signaling
    /// MTU (MTUsig) of the receiver, a single Command Reject packet shall be sent in response.
    SignalingMtuExceeded,
    /// Invalid CID in request
    InvalidCid,
}

/// The rejection reason that `value` stands for: codes 0 to 2, in declaration order.
pub open spec fn rejection_reason_of(value: u16) -> Result<L2CapRejectionReason, Error> {
    if value == 0 {
        Ok(L2CapRejectionReason::CommandNotUnderstood)
    } else if value == 1 {
        Ok(L2CapRejectionReason::SignalingMtuExceeded)
    } else if value == 2 {
        Ok(L2CapRejectionReason::InvalidCid)
    } else {
        Err(Error::BadL2CapRejectionReason(value))
    }
}

impl TryFrom<u16> for L2CapRejectionReason {
    type Error = Error;

    fn try_from(value: u16) -> (r: Result<L2CapRejectionReason, Error>) {
        match value {
            0 => Ok(L2CapRejectionReason::CommandNotUnderstood),
            1 => Ok(L2CapRejectionReason::SignalingMtuExceeded),
            2 => Ok(L2CapRejectionReason::InvalidCid),
            _ => Err(Error::BadL2CapRejectionReason(value)),
        }
    }
}

impl vstd::std_specs::convert::TryFromSpecImpl<u16> for L2CapRejectionReason {
    open spec fn obeys_try_from_spec() -> bool {
        true
    }

    open spec fn try_from_spec(value: u16) -> Result<L2CapRejectionReason, Error> {
        rejection_reason_of(value)
    }
}

/// Potential results that can be used in the L2CAP connection update response.
#[derive(Clone, Copy, Debug, PartialEq, Eq, Structural)]
pub enum L2CapConnectionUpdateResult {
    /// The update request was rejected. The code indicates the reason for the rejection.
    CommandRejected(L2CapRejectionReason),
    /// The L2CAP connection update response is valid. The code indicates if the parameters were
    /// rejected.
    ParametersRejected,
    /// The L2CAP connection update response is valid. The code indicates if the parameters were
    /// updated.
    ParametersUpdated,
}

/// The result that `value` stands for in a connection parameter update response: 0 for updated,
/// 1 for rejected.
pub open spec fn accepted_result_of(value: u16) -> Result<L2CapConnectionUpdateResult, Error> {
    if value == 0 {
        Ok(L2CapConnectionUpdateResult::ParametersUpdated)
    } else if value == 1 {
        Ok(L2CapConnectionUpdateResult::ParametersRejected)
    } else {
        Err(Error::BadL2CapConnectionResponseResult(value))
    }
}

/// Decode the result field of a connection parameter update response.
pub fn to_l2cap_connection_update_accepted_result(value: u16) -> (r: Result<
    L2CapConnectionUpdateResult,
    Error,
>)
    ensures
        r == accepted_result_of(value),
{
    match value {
        0x0000 => Ok(L2CapConnectionUpdateResult::ParametersUpdated),
        0x0001 => Ok(L2CapConnectionUpdateResult::ParametersRejected),
        _ => Err(Error::BadL2CapConnectionResponseResult(value)),
    }
}

/// The result carried by a connection update response payload `b`: the code byte at offset 5
/// says how to read the 16-bit value at offset 9 (0x01: a command reject and its reason; 0x13: a
/// connection parameter update response and its result).
pub open spec fn update_result_of(b: Seq<u8>) -> Result<L2CapConnectionUpdateResult, Error> {
    let value = le_u16(b, 9) as u16;
    if b[5] == 0x01 {
        match rejection_reason_of(value) {
            Ok(reason) => Ok(L2CapConnectionUpdateResult::CommandRejected(reason)),
            Err(e) => Err(e),
        }
    } else if b[5] == 0x13 {
        accepted_result_of(value)
    } else {
        Err(Error::BadL2CapConnectionResponseCode(b[5]))
    }
}

/// Decode the result of an L2CapConnectionUpdateResponse event from its payload.
pub fn extract_l2cap_connection_update_response_result(buffer: &[u8]) -> (r: Result<
    L2CapConnectionUpdateResult,
    Error,
>)
    requires
        11 <= buffer@.len(),
    ensures
        r == update_result_of(buffer@),
{
    match buffer[5] {
        0x01 => match L2CapRejectionReason::try_from(read_u16(buffer, 9)) {
            Ok(reason) => Ok(L2CapConnectionUpdateResult::CommandRejected(reason)),
            Err(e) => Err(e),
        },
        0x13 => to_l2cap_connection_update_accepted_result(read_u16(buffer, 9)),
        _ => Err(Error::BadL2CapConnectionResponseCode(buffer[5])),
    }
}

/// What an L2CapConnectionUpdateResponse payload `b` decodes to: eleven bytes, an event data
/// length of 6 at offset 4, an L2CAP length of 2 at offset 7, the connection handle at offset 2
/// and the result at offsets 5 and 9.
pub open spec fn connection_update_response_of(b: Seq<u8>) -> Result<
    BlueNRGEvent,
    HciError<Error>,
> {
    if b.len() != 11 {
        Err(HciError::BadLength(b.len() as usize, 11))
    } else if b[4] != 6 {
        Err(HciError::Vendor(Error::BadL2CapDataLength(b[4], 6)))
    } else if le_u16(b, 7) != 2 {
        Err(HciError::Vendor(Error::BadL2CapLength(le_u16(b, 7) as u16, 2)))
    } else {
        match update_result_of(b) {
            Ok(result) => Ok(
                BlueNRGEvent::L2CapConnectionUpdateResponse(
                    L2CapConnectionUpdateResponse { conn_handle: le_u16(b, 2) as u16, result },
                ),
            ),
            Err(e) => Err(HciError::Vendor(e)),
        }
    }
}

/// Convert a buffer to the L2CapConnectionUpdateResponse BlueNRGEvent.
///
/// # Errors
///
/// - Returns a BadLength HCI error if the buffer is not exactly 11 bytes long
///
/// - Returns BadL2CapDataLength if the event data length is not 6, BadL2CapLength if the L2CAP
///   length is not 2, and the errors of
///   [`extract_l2cap_connection_update_response_result`] for the result.
pub fn to_l2cap_connection_update_response(buffer: &[u8]) -> (r: Result<
    BlueNRGEvent,
    HciError<Error>,
>)
    ensures
        r == connection_update_response_of(buffer@),
{
    if buffer.len() != 11 {
        return Err(HciError::BadLength(buffer.len(), 11));
    }
    let data_len = buffer[4];
    if data_len != 6 {
        return Err(HciError::Vendor(Error::BadL2CapDataLength(data_len, 6)));
    }
    let l2cap_len = read_u16(buffer, 7);
    if l2cap_len != 2 {
        return Err(HciError::Vendor(Error::BadL2CapLength(l2cap_len, 2)));
    }
    let conn_handle = read_u16(buffer, 2);
    match extract_l2cap_connection_update_response_result(buffer) {
        Ok(result) => Ok(
            BlueNRGEvent::L2CapConnectionUpdateResponse(
                L2CapConnectionUpdateResponse { conn_handle, result },
            ),
        ),
        Err(e) => Err(HciError::Vendor(e)),
    }
}

/// This event is generated when the master does not respond to the connection update request
/// within 30 seconds.
#[derive(Clone, Copy, Debug, PartialEq, Eq, Structural)]
pub struct L2CapProcedureTimeout {
    /// The connection handle related to the event.
    pub conn_handle: u16,
}

/// What an L2CapProcedureTimeout payload `b` decodes to: five bytes, an event data length of 0
/// at offset 4 and the connection handle at offset 2.
pub open spec fn procedure_timeout_of(b: Seq<u8>) -> Result<BlueNRGEvent, HciError<Error>> {
    if b.len() != 5 {
        Err(HciError::BadLength(b.len() as usize, 5))
    } else if b[4] != 0 {
        Err(HciError::Vendor(Error::BadL2CapDataLength(b[4], 0)))
    } else {
        Ok(
            BlueNRGEvent::L2CapProcedureTimeout(
                L2CapProcedureTimeout { conn_handle: le_u16(b, 2) as u16 },
            ),
        )
    }
}

/// Convert a buffer to the L2CapProcedureTimeout BlueNRGEvent.
///
/// # Errors
///
/// - Returns a BadLength HCI error if the buffer is not exactly 5 bytes long
///
/// - Returns BadL2CapDataLength if the event data length is not 0.
pub fn to_l2cap_procedure_timeout(buffer: &[u8]) -> (r: Result<BlueNRGEvent, HciError<Error>>)
    ensures
        r == procedure_timeout_of(buffer@),
{
    if buffer.len() != 5 {
        return Err(HciError::BadLength(buffer.len(), 5));
    }
    let data_len = buffer[4];
    if data_len != 0 {
        return Err(HciError::Vendor(Error::BadL2CapDataLength(data_len, 0)));
    }
    Ok(
        BlueNRGEvent::L2CapProcedureTimeout(
            L2CapProcedureTimeout { conn_handle: read_u16(buffer, 2) },
        ),
    )
}

/// The event code of a vendor event: the little-endian 16-bit value at offset 0.
pub open spec fn event_code_of(b: Seq<u8>) -> u16 {
    le_u16(b, 0) as u16
}

/// What a vendor event buffer `b` decodes to: at least two bytes, the event code first, which
/// selects the decoder of the whole buffer.
pub open spec fn event_of(b: Seq<u8>) -> Result<BlueNRGEvent, HciError<Error>> {
    if b.len() < 2 {
        Err(HciError::BadLength(b.len() as usize, 2))
    } else {
        let code = event_code_of(b);
        if code == 0x0001 {
            hal_initialized_of(b)
        } else if code == 0x0002 {
            lost_event_of(b)
        } else if code == 0x0003 {
            crash_report_of(b)
        } else if code == 0x0800 {
            connection_update_response_of(b)
        } else if code == 0x0801 {
            procedure_timeout_of(b)
        } else {
            Err(HciError::Vendor(Error::UnknownEvent(code)))
        }
    }
}

impl BlueNRGEvent {
    /// Decode a vendor-specific event from its buffer, which starts with the 16-bit event code.
    ///
    /// # Errors
    ///
    /// - Returns a BadLength HCI error if the buffer is shorter than 2 bytes
    ///
    /// - Returns UnknownEvent if the event code is not one of the BlueNRG events, and otherwise
    ///   the errors of the event's own decoder.
    pub fn new(buffer: &[u8]) -> (r: Result<BlueNRGEvent, HciError<Error>>)
        requires
            buffer@.len() <= MAX_EVENT_LEN,
        ensures
            r == event_of(buffer@),
    {
        if buffer.len() < 2 {
            return Err(HciError::BadLength(buffer.len(), 2));
        }
        let event_code = read_u16(buffer, 0);
        match event_code {
            0x0001 => to_hal_initialized(buffer),
            0x0002 => to_lost_event(buffer),
            0x0003 => to_crash_report(buffer),
            0x0800 => to_l2cap_connection_update_response(buffer),
            0x0801 => to_l2cap_procedure_timeout(buffer),
            _ => Err(HciError::Vendor(Error::UnknownEvent(event_code))),
        }
    }
}

} // verus!
