//! Properties of the decoding of whole vendor event buffers, stated over `event_of`, the model
//! that `BlueNRGEvent::new` is proved to follow.
use crate::event::{
    crash_report_of, debug_data_of, event_code_of, event_of, fault_data_of, BlueNRGEvent,
    CrashReason, Error, EventFlags, HciError, L2CapConnectionUpdateResponse,
    L2CapConnectionUpdateResult, L2CapRejectionReason, ResetReason,
};
use crate::le::{le_u16, le_u32, le_u64};
use vstd::prelude::*;

verus! {

/// A buffer of at least two bytes whose event code is none of the BlueNRG events decodes to
/// the UnknownEvent error with that code.
pub proof fn lemma_unknown_event_code(b: Seq<u8>, code: u16)
    requires
        2 <= b.len(),
        le_u16(b, 0) == code,
        code != 0x0001 && code != 0x0002 && code != 0x0003 && code != 0x0800 && code != 0x0801,
    ensures
        event_of(b) == Err::<BlueNRGEvent, _>(HciError::Vendor(Error::UnknownEvent(code))),
{
}

/// A HalInitialized buffer of any length but 3 is refused with a length error that gives its
/// length and 3.
pub proof fn lemma_hal_initialized_length(b: Seq<u8>)
    requires
        2 <= b.len() <= usize::MAX,
        b.len() != 3,
        event_code_of(b) == 0x0001,
    ensures
        event_of(b) == Err::<BlueNRGEvent, _>(HciError::<Error>::BadLength(b.len() as usize, 3)),
{
}

/// A HalInitialized buffer of three bytes decodes to the reset reason of its last byte when
/// that byte is one of the codes 1 to 9, and to UnknownResetReason with that byte otherwise.
pub proof fn lemma_hal_initialized_reason(b: Seq<u8>)
    requires
        b.len() == 3,
        event_code_of(b) == 0x0001,
    ensures
        1 <= b[2] <= 9 ==> event_of(b) matches Ok(BlueNRGEvent::HalInitialized(_)),
        b[2] == 1 ==> event_of(b) == Ok::<_, HciError<Error>>(
            BlueNRGEvent::HalInitialized(ResetReason::Normal),
        ),
        b[2] == 9 ==> event_of(b) == Ok::<_, HciError<Error>>(
            BlueNRGEvent::HalInitialized(ResetReason::EccError),
        ),
        !(1 <= b[2] <= 9) ==> event_of(b) == Err::<BlueNRGEvent, _>(
            HciError::Vendor(Error::UnknownResetReason(b[2])),
        ),
{
}

/// An EventsLost buffer of ten bytes is refused with BadEventFlags, carrying the whole bit
/// field, exactly when a flag bit at position 49 or above is set; otherwise it decodes to those
/// flags.
pub proof fn lemma_events_lost_flags(b: Seq<u8>)
    requires
        b.len() == 10,
        event_code_of(b) == 0x0002,
    ensures
        le_u64(b, 2) < 0x2_0000_0000_0000 ==> event_of(b) == Ok::<_, HciError<Error>>(
            BlueNRGEvent::EventsLost(EventFlags::spec_from_bits(le_u64(b, 2) as u64)),
        ),
        le_u64(b, 2) >= 0x2_0000_0000_0000 ==> event_of(b) == Err::<BlueNRGEvent, _>(
            HciError::Vendor(Error::BadEventFlags(le_u64(b, 2) as u64)),
        ),
{
    let bits = le_u64(b, 2) as u64;
    assert(bits as int == le_u64(b, 2));
    assert(bits & !0x1_FFFF_FFFF_FFFFu64 == 0 <==> bits < 0x2_0000_0000_0000u64) by (bit_vector);
}

/// A CrashReport buffer of at least 40 bytes whose length is not 40 plus the debug data length
/// N at offset 39 is refused with a length error that gives its length and 40 + N.
pub proof fn lemma_crash_report_length(b: Seq<u8>)
    requires
        40 <= b.len() <= usize::MAX,
        b.len() != 40 + b[39],
        event_code_of(b) == 0x0003,
    ensures
        event_of(b) == Err::<BlueNRGEvent, _>(
            HciError::<Error>::BadLength(b.len() as usize, (40 + b[39]) as usize),
        ),
{
}

/// The debug data copied out of two payloads that agree from offset 40 on are the same.
proof fn lemma_debug_data_agree(a: Seq<u8>, b: Seq<u8>, k: nat)
    requires
        40 + k <= a.len(),
        a.len() == b.len(),
        forall|i: int| 40 <= i < a.len() ==> a[i] == b[i],
    ensures
        debug_data_of(a, k) == debug_data_of(b, k),
    decreases k,
{
    if k > 0 {
        lemma_debug_data_agree(a, b, (k - 1) as nat);
    }
}

/// Both codes that the vendor's documentation gives for each of the NMI and hard faults are
/// accepted: two well-formed CrashReport buffers that differ only in the crash reason byte, one
/// with the first code (1 or 2) and one with the second (6 or 7), decode to the same fault data,
/// whose reason is NmiFault or HardFault.
pub proof fn lemma_crash_reason_codes(a: Seq<u8>, b: Seq<u8>)
    requires
        40 <= a.len(),
        a.len() == 40 + a[39],
        event_code_of(a) == 0x0003,
        a.len() == b.len(),
        forall|i: int| 0 <= i < a.len() && i != 2 ==> a[i] == b[i],
        (a[2] == 1 && b[2] == 6) || (a[2] == 2 && b[2] == 7),
    ensures
        event_of(a) == event_of(b),
        a[2] == 1 ==> event_of(a) == Ok::<_, HciError<Error>>(
            BlueNRGEvent::CrashReport(fault_data_of(a, CrashReason::NmiFault)),
        ),
        a[2] == 2 ==> event_of(a) == Ok::<_, HciError<Error>>(
            BlueNRGEvent::CrashReport(fault_data_of(a, CrashReason::HardFault)),
        ),
{
    assert(a[0] == b[0] && a[1] == b[1] && a[39] == b[39]);
    lemma_debug_data_agree(a, b, a[39] as nat);
    let r = if a[2] == 1 {
        CrashReason::NmiFault
    } else {
        CrashReason::HardFault
    };
    assert forall|k: int| 3 <= k <= 35 implies le_u32(a, k) == le_u32(b, k) by {
        assert(a[k] == b[k] && a[k + 1] == b[k + 1] && a[k + 2] == b[k + 2] && a[k + 3] == b[k
            + 3]);
    }
    assert(fault_data_of(a, r) == fault_data_of(b, r));
    assert(crash_report_of(a) == crash_report_of(b));
}

/// In a well-formed connection parameter update response (code byte 0x13) the result value 0
/// means the parameters were updated, 1 that they were rejected, and any other value is refused
/// with BadL2CapConnectionResponseResult and that value.
pub proof fn lemma_update_response_result(b: Seq<u8>)
    requires
        b.len() == 11,
        event_code_of(b) == 0x0800,
        b[4] == 6,
        le_u16(b, 7) == 2,
        b[5] == 0x13,
    ensures
        le_u16(b, 9) == 0 ==> event_of(b) == Ok::<_, HciError<Error>>(
            BlueNRGEvent::L2CapConnectionUpdateResponse(
                L2CapConnectionUpdateResponse {
                    conn_handle: le_u16(b, 2) as u16,
                    result: L2CapConnectionUpdateResult::ParametersUpdated,
                },
            ),
        ),
        le_u16(b, 9) == 1 ==> event_of(b) == Ok::<_, HciError<Error>>(
            BlueNRGEvent::L2CapConnectionUpdateResponse(
                L2CapConnectionUpdateResponse {
                    conn_handle: le_u16(b, 2) as u16,
                    result: L2CapConnectionUpdateResult::ParametersRejected,
                },
            ),
        ),
        le_u16(b, 9) > 1 ==> event_of(b) == Err::<BlueNRGEvent, _>(
            HciError::Vendor(Error::BadL2CapConnectionResponseResult(le_u16(b, 9) as u16)),
        ),
{
}

/// In a well-formed command reject (code byte 0x01) the value 0, 1 or 2 is the rejection
/// reason, and any other value is refused with BadL2CapRejectionReason and that value.
pub proof fn lemma_update_response_rejection(b: Seq<u8>)
    requires
        b.len() == 11,
        event_code_of(b) == 0x0800,
        b[4] == 6,
        le_u16(b, 7) == 2,
        b[5] == 0x01,
    ensures
        le_u16(b, 9) == 2 ==> event_of(b) == Ok::<_, HciError<Error>>(
            BlueNRGEvent::L2CapConnectionUpdateResponse(
                L2CapConnectionUpdateResponse {
                    conn_handle: le_u16(b, 2) as u16,
                    result: L2CapConnectionUpdateResult::CommandRejected(
                        L2CapRejectionReason::InvalidCid,
                    ),
                },
            ),
        ),
        le_u16(b, 9) <= 2 ==> event_of(b) matches Ok(
            BlueNRGEvent::L2CapConnectionUpdateResponse(
                L2CapConnectionUpdateResponse {
                    result: L2CapConnectionUpdateResult::CommandRejected(_),
                    ..
                },
            ),
        ),
        le_u16(b, 9) > 2 ==> event_of(b) == Err::<BlueNRGEvent, _>(
            HciError::Vendor(Error::BadL2CapRejectionReason(le_u16(b, 9) as u16)),
        ),
{
}

/// In a connection update response whose lengths are well-formed, a code byte other than 0x01
/// (command reject) and 0x13 (parameter update response) is refused with
/// BadL2CapConnectionResponseCode and that byte.
pub proof fn lemma_update_response_code(b: Seq<u8>)
    requires
        b.len() == 11,
        event_code_of(b) == 0x0800,
        b[4] == 6,
        le_u16(b, 7) == 2,
        b[5] != 0x01 && b[5] != 0x13,
    ensures
        event_of(b) == Err::<BlueNRGEvent, _>(
            HciError::Vendor(Error::BadL2CapConnectionResponseCode(b[5])),
        ),
{
}

/// Decoding depends on the bytes of the buffer alone: two buffers with the same bytes decode to
/// the same result.
pub proof fn lemma_decoding_is_deterministic(a: Seq<u8>, b: Seq<u8>)
    requires
        a =~= b,
    ensures
        event_of(a) == event_of(b),
{
}

} // verus!
