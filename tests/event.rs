use bluenrg::event::{
    BlueNRGEvent, CrashReason, Error, EventFlags, FaultData, HciError, L2CapConnectionUpdateResult,
    L2CapRejectionReason, ResetReason, MAX_DEBUG_DATA_LEN,
};
use bluenrg::event::to_l2cap_connection_update_accepted_result;

fn decode(buffer: &[u8]) -> Result<BlueNRGEvent, HciError<Error>> {
    BlueNRGEvent::new(buffer)
}

fn decode_err(buffer: &[u8]) -> HciError<Error> {
    match decode(buffer) {
        Err(e) => e,
        Ok(_) => panic!("decoded an event where an error was expected"),
    }
}

fn reset_reason(buffer: &[u8]) -> ResetReason {
    match decode(buffer) {
        Ok(BlueNRGEvent::HalInitialized(reason)) => reason,
        Ok(_) => panic!("not a HalInitialized event"),
        Err(e) => panic!("decoding failed: {:?}", e),
    }
}

fn event_flags(buffer: &[u8]) -> EventFlags {
    match decode(buffer) {
        Ok(BlueNRGEvent::EventsLost(flags)) => flags,
        Ok(_) => panic!("not an EventsLost event"),
        Err(e) => panic!("decoding failed: {:?}", e),
    }
}

fn fault_data(buffer: &[u8]) -> FaultData {
    match decode(buffer) {
        Ok(BlueNRGEvent::CrashReport(data)) => data,
        Ok(_) => panic!("not a CrashReport event"),
        Err(e) => panic!("decoding failed: {:?}", e),
    }
}

fn update_response(buffer: &[u8]) -> (u16, L2CapConnectionUpdateResult) {
    match decode(buffer) {
        Ok(BlueNRGEvent::L2CapConnectionUpdateResponse(r)) => (r.conn_handle, r.result),
        Ok(_) => panic!("not an L2CapConnectionUpdateResponse event"),
        Err(e) => panic!("decoding failed: {:?}", e),
    }
}

fn vendor(e: Error) -> HciError<Error> {
    HciError::Vendor(e)
}

fn crash_buffer(reason: u8, debug: &[u8]) -> Vec<u8> {
    let mut buffer = vec![0x03, 0x00, reason];
    for register in 0u32..9 {
        let value = 0x1122_3340u32 + register;
        buffer.extend_from_slice(&value.to_le_bytes());
    }
    buffer.push(debug.len() as u8);
    buffer.extend_from_slice(debug);
    buffer
}

fn update_buffer(code: u8, value: u16) -> Vec<u8> {
    let v = value.to_le_bytes();
    vec![0x00, 0x08, 0x01, 0x02, 6, code, 0x09, 2, 0, v[0], v[1]]
}

#[test]
fn unknown_event_codes() {
    assert_eq!(decode_err(&[0x04, 0x00]), vendor(Error::UnknownEvent(0x0004)));
    assert_eq!(decode_err(&[0x00, 0x00, 1, 2, 3]), vendor(Error::UnknownEvent(0x0000)));
    assert_eq!(decode_err(&[0x02, 0x08, 0xFF]), vendor(Error::UnknownEvent(0x0802)));
    assert_eq!(decode_err(&[0x01, 0x01, 1]), vendor(Error::UnknownEvent(0x0101)));
    assert_eq!(decode_err(&[0xFF, 0xFF]), vendor(Error::UnknownEvent(0xFFFF)));
}

#[test]
fn buffer_too_short_for_event_code() {
    assert_eq!(decode_err(&[]), HciError::BadLength(0, 2));
    assert_eq!(decode_err(&[0x01]), HciError::BadLength(1, 2));
}

#[test]
fn hal_initialized_normal() {
    assert_eq!(reset_reason(&[0x01, 0x00, 0x01]), ResetReason::Normal);
}

#[test]
fn hal_initialized_every_reason() {
    let expected = [
        ResetReason::Normal,
        ResetReason::UpdaterAci,
        ResetReason::UpdaterBadFlag,
        ResetReason::UpdaterPin,
        ResetReason::Watchdog,
        ResetReason::Lockup,
        ResetReason::Brownout,
        ResetReason::Crash,
        ResetReason::EccError,
    ];
    for (i, reason) in expected.iter().enumerate() {
        assert_eq!(reset_reason(&[0x01, 0x00, i as u8 + 1]), *reason);
    }
}

#[test]
fn hal_initialized_unknown_reason() {
    assert_eq!(decode_err(&[0x01, 0x00, 10]), vendor(Error::UnknownResetReason(10)));
    assert_eq!(decode_err(&[0x01, 0x00, 0]), vendor(Error::UnknownResetReason(0)));
}

#[test]
fn hal_initialized_bad_length() {
    assert_eq!(decode_err(&[0x01, 0x00]), HciError::BadLength(2, 3));
    assert_eq!(decode_err(&[0x01, 0x00, 0x01, 0x00]), HciError::BadLength(4, 3));
}

#[test]
fn reset_reason_try_from() {
    assert_eq!(ResetReason::try_from(8u8), Ok(ResetReason::Crash));
    assert_eq!(ResetReason::try_from(0xFFu8), Err(Error::UnknownResetReason(0xFF)));
}

#[test]
fn events_lost_two_flags() {
    let flags = event_flags(&[0x02, 0x00, 0x09, 0, 0, 0, 0, 0, 0, 0]);
    assert!(flags.contains(EventFlags::DISCONNECTION_COMPLETE));
    assert!(flags.contains(EventFlags::COMMAND_COMPLETE));
    assert_eq!(flags.bits(), EventFlags::DISCONNECTION_COMPLETE | EventFlags::COMMAND_COMPLETE);
    for bit in 0..49u64 {
        if bit != 0 && bit != 3 {
            assert!(!flags.contains(1 << bit));
        }
    }
    assert!(!flags.contains(EventFlags::ENCRYPTION_CHANGE));
    assert!(!flags.contains(EventFlags::LINK_LAYER_LTK_REQUEST));
}

#[test]
fn events_lost_high_flags() {
    let flags = event_flags(&[0x02, 0x00, 0, 0, 0, 0, 0, 0x01, 0x01, 0]);
    assert_eq!(
        flags.bits(),
        EventFlags::GATT_READ_MULTIPLE_PERMIT_REQUEST | EventFlags::LINK_LAYER_LTK_REQUEST
    );
    assert!(flags.contains(EventFlags::LINK_LAYER_LTK_REQUEST));
}

#[test]
fn events_lost_undocumented_bit() {
    assert_eq!(
        decode_err(&[0x02, 0x00, 0x09, 0, 0, 0, 0, 0, 0, 0x80]),
        vendor(Error::BadEventFlags(0x8000_0000_0000_0009))
    );
    assert_eq!(
        decode_err(&[0x02, 0x00, 0, 0, 0, 0, 0, 0, 0x02, 0]),
        vendor(Error::BadEventFlags(1 << 49))
    );
}

#[test]
fn events_lost_bad_length() {
    assert_eq!(decode_err(&[0x02, 0x00, 0, 0, 0, 0, 0, 0, 0]), HciError::BadLength(9, 10));
    assert_eq!(
        decode_err(&[0x02, 0x00, 0, 0, 0, 0, 0, 0, 0, 0, 0]),
        HciError::BadLength(11, 10)
    );
}

#[test]
fn event_flags_construction() {
    assert_eq!(EventFlags::empty().bits(), 0);
    assert_eq!(EventFlags::all().bits(), (1u64 << 49) - 1);
    assert_eq!(EventFlags::from_bits(1 << 48).map(|f| f.bits()), Some(1 << 48));
    assert!(EventFlags::from_bits(1 << 49).is_none());
    assert!(EventFlags::all().contains(EventFlags::GATT_NOTIFICATION));
    assert!(!EventFlags::empty().contains(EventFlags::GATT_NOTIFICATION));
}

#[test]
fn crash_report_registers_and_debug_data() {
    let data = fault_data(&crash_buffer(0, &[0xAB, 0x01, 0x00]));
    assert_eq!(data.reason, CrashReason::Assertion);
    assert_eq!(data.sp, 0x1122_3340);
    assert_eq!(data.r0, 0x1122_3341);
    assert_eq!(data.r1, 0x1122_3342);
    assert_eq!(data.r2, 0x1122_3343);
    assert_eq!(data.r3, 0x1122_3344);
    assert_eq!(data.r12, 0x1122_3345);
    assert_eq!(data.lr, 0x1122_3346);
    assert_eq!(data.pc, 0x1122_3347);
    assert_eq!(data.xpsr, 0x1122_3348);
    assert_eq!(data.debug_data_len, 3);
    assert_eq!(&data.debug_data[..3], &[0xAB, 0x01, 0x00]);
    assert!(data.debug_data[3..].iter().all(|b| *b == 0));
}

#[test]
fn crash_report_both_nmi_codes() {
    assert_eq!(fault_data(&crash_buffer(1, &[])).reason, CrashReason::NmiFault);
    assert_eq!(fault_data(&crash_buffer(6, &[])).reason, CrashReason::NmiFault);
}

#[test]
fn crash_report_both_hard_fault_codes() {
    assert_eq!(fault_data(&crash_buffer(2, &[1])).reason, CrashReason::HardFault);
    assert_eq!(fault_data(&crash_buffer(7, &[1])).reason, CrashReason::HardFault);
}

#[test]
fn crash_report_unknown_reason() {
    assert_eq!(decode_err(&crash_buffer(3, &[])), vendor(Error::UnknownCrashReason(3)));
    assert_eq!(decode_err(&crash_buffer(8, &[])), vendor(Error::UnknownCrashReason(8)));
}

#[test]
fn crash_report_length_disagrees_with_debug_length() {
    let mut buffer = crash_buffer(1, &[1, 2, 3]);
    buffer.pop();
    assert_eq!(decode_err(&buffer), HciError::BadLength(42, 43));
    let mut buffer = crash_buffer(1, &[1, 2, 3]);
    buffer.push(4);
    assert_eq!(decode_err(&buffer), HciError::BadLength(44, 43));
}

#[test]
fn crash_report_too_short() {
    let buffer = crash_buffer(1, &[]);
    assert_eq!(decode_err(&buffer[..39]), HciError::BadLength(39, 40));
}

#[test]
fn crash_report_largest_debug_data() {
    let debug: Vec<u8> = (0..MAX_DEBUG_DATA_LEN).map(|i| i as u8).collect();
    let buffer = crash_buffer(2, &debug);
    assert_eq!(buffer.len(), 255);
    let data = fault_data(&buffer);
    assert_eq!(data.debug_data_len, MAX_DEBUG_DATA_LEN);
    assert_eq!(&data.debug_data[..], &debug[..]);
}

#[test]
fn crash_reason_try_from() {
    assert_eq!(CrashReason::try_from(0u8), Ok(CrashReason::Assertion));
    assert_eq!(CrashReason::try_from(6u8), Ok(CrashReason::NmiFault));
    assert_eq!(CrashReason::try_from(5u8), Err(Error::UnknownCrashReason(5)));
}

#[test]
fn fault_data_text() {
    let data = fault_data(&crash_buffer(6, &[0xAB, 0x01, 0x00]));
    assert_eq!(
        data.debug_string(),
        "FaultData { reason: NmiFault, sp: 11223340, r0: 11223341, r1: 11223342, \
         r2: 11223343, r3: 11223344, r12: 11223345, lr: 11223346, pc: 11223347, \
         xpsr: 11223348, debug_data: [ ab 1 0 ] }"
    );
}

#[test]
fn fault_data_text_without_debug_data() {
    let mut data = fault_data(&crash_buffer(0, &[]));
    data.sp = 0;
    data.xpsr = 0xFFFF_FFFF;
    data.debug_data[0] = 0x55;
    assert_eq!(
        data.debug_string(),
        "FaultData { reason: Assertion, sp: 0, r0: 11223341, r1: 11223342, \
         r2: 11223343, r3: 11223344, r12: 11223345, lr: 11223346, pc: 11223347, \
         xpsr: ffffffff, debug_data: [ ] }"
    );
}

#[test]
fn l2cap_parameters_updated() {
    let (handle, result) = update_response(&update_buffer(0x13, 0x0000));
    assert_eq!(handle, 0x0201);
    assert_eq!(result, L2CapConnectionUpdateResult::ParametersUpdated);
}

#[test]
fn l2cap_parameters_rejected() {
    let (_, result) = update_response(&update_buffer(0x13, 0x0001));
    assert_eq!(result, L2CapConnectionUpdateResult::ParametersRejected);
}

#[test]
fn l2cap_bad_update_result() {
    assert_eq!(
        decode_err(&update_buffer(0x13, 0x0002)),
        vendor(Error::BadL2CapConnectionResponseResult(2))
    );
    assert_eq!(
        decode_err(&update_buffer(0x13, 0x0100)),
        vendor(Error::BadL2CapConnectionResponseResult(0x0100))
    );
}

#[test]
fn l2cap_command_rejected() {
    let cases = [
        (0, L2CapRejectionReason::CommandNotUnderstood),
        (1, L2CapRejectionReason::SignalingMtuExceeded),
        (2, L2CapRejectionReason::InvalidCid),
    ];
    for (value, reason) in cases.iter() {
        let (_, result) = update_response(&update_buffer(0x01, *value));
        assert_eq!(result, L2CapConnectionUpdateResult::CommandRejected(*reason));
    }
}

#[test]
fn l2cap_bad_rejection_reason() {
    assert_eq!(
        decode_err(&update_buffer(0x01, 3)),
        vendor(Error::BadL2CapRejectionReason(3))
    );
}

#[test]
fn l2cap_bad_response_code() {
    assert_eq!(
        decode_err(&update_buffer(0x02, 0)),
        vendor(Error::BadL2CapConnectionResponseCode(0x02))
    );
}

#[test]
fn l2cap_update_response_bad_lengths() {
    let mut buffer = update_buffer(0x13, 0);
    buffer.push(0);
    assert_eq!(decode_err(&buffer), HciError::BadLength(12, 11));
    let mut buffer = update_buffer(0x13, 0);
    buffer[4] = 5;
    assert_eq!(decode_err(&buffer), vendor(Error::BadL2CapDataLength(5, 6)));
    let mut buffer = update_buffer(0x13, 0);
    buffer[7] = 3;
    buffer[8] = 1;
    assert_eq!(decode_err(&buffer), vendor(Error::BadL2CapLength(0x0103, 2)));
}

#[test]
fn l2cap_rejection_reason_try_from() {
    assert_eq!(L2CapRejectionReason::try_from(2u16), Ok(L2CapRejectionReason::InvalidCid));
    assert_eq!(
        L2CapRejectionReason::try_from(0x0200u16),
        Err(Error::BadL2CapRejectionReason(0x0200))
    );
}

#[test]
fn l2cap_accepted_result_directly() {
    assert_eq!(
        to_l2cap_connection_update_accepted_result(0),
        Ok(L2CapConnectionUpdateResult::ParametersUpdated)
    );
    assert_eq!(
        to_l2cap_connection_update_accepted_result(7),
        Err(Error::BadL2CapConnectionResponseResult(7))
    );
}

#[test]
fn l2cap_procedure_timeout() {
    match decode(&[0x01, 0x08, 0x34, 0x12, 0x00]) {
        Ok(BlueNRGEvent::L2CapProcedureTimeout(t)) => assert_eq!(t.conn_handle, 0x1234),
        Ok(_) => panic!("not an L2CapProcedureTimeout event"),
        Err(e) => panic!("decoding failed: {:?}", e),
    }
}

#[test]
fn l2cap_procedure_timeout_extra_data() {
    assert_eq!(
        decode_err(&[0x01, 0x08, 0x34, 0x12, 0x01]),
        vendor(Error::BadL2CapDataLength(1, 0))
    );
    assert_eq!(decode_err(&[0x01, 0x08, 0x34, 0x12]), HciError::BadLength(4, 5));
}

#[test]
fn decoding_twice_gives_the_same_result() {
    let buffers: Vec<Vec<u8>> = vec![
        vec![0x01, 0x00, 0x05],
        vec![0x01, 0x00, 0x0A],
        vec![0x02, 0x00, 0x09, 0, 0, 0, 0, 0, 0, 0],
        crash_buffer(7, &[9, 8, 7]),
        update_buffer(0x01, 1),
        vec![0x01, 0x08, 0x34, 0x12, 0x00],
        vec![0x05, 0x00],
    ];
    for buffer in buffers.iter() {
        let first = decode(buffer);
        let second = decode(buffer);
        match (first, second) {
            (Err(a), Err(b)) => assert_eq!(a, b),
            (Ok(BlueNRGEvent::HalInitialized(a)), Ok(BlueNRGEvent::HalInitialized(b))) => {
                assert_eq!(a, b)
            }
            (Ok(BlueNRGEvent::EventsLost(a)), Ok(BlueNRGEvent::EventsLost(b))) => {
                assert_eq!(a, b)
            }
            (Ok(BlueNRGEvent::CrashReport(a)), Ok(BlueNRGEvent::CrashReport(b))) => {
                assert_eq!(a.debug_string(), b.debug_string());
                assert_eq!(a.debug_data, b.debug_data);
            }
            (
                Ok(BlueNRGEvent::L2CapConnectionUpdateResponse(a)),
                Ok(BlueNRGEvent::L2CapConnectionUpdateResponse(b)),
            ) => assert_eq!(a, b),
            (
                Ok(BlueNRGEvent::L2CapProcedureTimeout(a)),
                Ok(BlueNRGEvent::L2CapProcedureTimeout(b)),
            ) => assert_eq!(a, b),
            _ => panic!("the two decodings differ"),
        }
    }
}
