//! The initialisation handshake, as a state machine: it says which
//! transport operation comes next, and is told how that operation went.
//! Running the operations is left to the caller.
use vstd::prelude::*;

use crate::error::LidarError;

verus! {

/// How many times the health check is sent before giving up.
pub const HEALTH_ATTEMPTS: u32 = 10;

/// How many fixed exchanges follow the health check.
pub const EXCHANGE_COUNT: usize = 7;

/// The wait after the stop command, in milliseconds.
pub const STOP_SETTLE_MS: u64 = 800;

/// The wait before and after each health request, in milliseconds.
pub const HEALTH_PAUSE_MS: u64 = 500;

/// Whether a response comes as one packet or as a stream of them.
#[derive(Debug, Clone, Copy, PartialEq, Eq, Structural)]
pub enum SendMode {
    Single,
    Multi,
}

/// The header that announces the responses to a command.
#[derive(Debug, Clone, Copy, PartialEq, Eq, Structural)]
pub struct ResponseDescriptor {
    /// The length of each response, in bytes (14 bits).
    pub packet_length: u32,
    pub send_mode: SendMode,
    /// The tag of the responses' data type.
    pub data_type: u8,
}

/// The descriptor that seven bytes carry: the sync bytes 0xA5 0x5A, a
/// length in the low 14 bits of the little-endian word at 2, a send mode
/// in the low two bits of byte 5, and the data type in byte 6.
pub open spec fn descriptor_of(b: Seq<u8>) -> Result<ResponseDescriptor, LidarError> {
    if b[0] != 0xa5 || b[1] != 0x5a {
        Err(LidarError::ProtocolMismatch)
    } else if b[5] % 4 >= 2 {
        Err(LidarError::InvalidSendMode)
    } else {
        Ok(
            ResponseDescriptor {
                packet_length: ((b[2] as int + b[3] as int * 256) % 0x4000) as u32,
                send_mode: if b[5] % 4 == 0 {
                    SendMode::Single
                } else {
                    SendMode::Multi
                },
                data_type: b[6],
            },
        )
    }
}

/// Parses a response descriptor.
pub fn deserialize_response_descriptor(bytes: &[u8; 7]) -> (r: Result<ResponseDescriptor, LidarError>)
    ensures
        r == descriptor_of(bytes@),
{
    if bytes[0] != 0xa5 || bytes[1] != 0x5a {
        return Err(LidarError::ProtocolMismatch);
    }
    let low: u32 = bytes[2] as u32 + bytes[3] as u32 * 256;
    let packet_length = low & 0x3fff;
    assert(low & 0x3fff == low % 0x4000) by (bit_vector);
    let mode_byte = bytes[5];
    let mode = mode_byte & 0x03;
    assert(mode_byte & 0x03 == mode_byte % 4) by (bit_vector);
    let send_mode = if mode == 0 {
        SendMode::Single
    } else if mode == 1 {
        SendMode::Multi
    } else {
        return Err(LidarError::InvalidSendMode);
    };
    Ok(ResponseDescriptor { packet_length, send_mode, data_type: bytes[6] })
}

/// The stop command.
pub open spec fn stop_request() -> Seq<u8> {
    seq![0xa5u8, 0x25u8]
}

/// The health request.
pub open spec fn health_request() -> Seq<u8> {
    seq![0xa5u8, 0x52u8]
}

/// The answer of a healthy device to the health request.
pub open spec fn health_response() -> Seq<u8> {
    seq![0xa5u8, 0x5au8, 0x03u8, 0x00u8, 0x00u8, 0x00u8, 0x06u8, 0x00u8, 0x00u8, 0x00u8]
}

/// The command of exchange `k` after the health check: device
/// information, four configuration queries, the sample rate, and the
/// start of the extended express scan in scan mode 3.
pub open spec fn exchange_request(k: int) -> Seq<u8> {
    if k == 0 {
        seq![0xa5u8, 0x50u8]
    } else if k == 1 {
        seq![0xa5u8, 0x84u8, 0x06u8, 0x71u8, 0x00u8, 0x00u8, 0x00u8, 0x03u8, 0x00u8, 0x55u8]
    } else if k == 2 {
        seq![0xa5u8, 0x84u8, 0x06u8, 0x74u8, 0x00u8, 0x00u8, 0x00u8, 0x03u8, 0x00u8, 0x50u8]
    } else if k == 3 {
        seq![0xa5u8, 0x84u8, 0x06u8, 0x75u8, 0x00u8, 0x00u8, 0x00u8, 0x03u8, 0x00u8, 0x51u8]
    } else if k == 4 {
        seq![0xa5u8, 0x84u8, 0x06u8, 0x7fu8, 0x00u8, 0x00u8, 0x00u8, 0x03u8, 0x00u8, 0x5bu8]
    } else if k == 5 {
        seq![0xa5u8, 0x79u8]
    } else {
        seq![0xa5u8, 0x82u8, 0x05u8, 0x03u8, 0x00u8, 0x00u8, 0x00u8, 0x00u8, 0x21u8]
    }
}

/// The exact answer that exchange `k` expects.
pub open spec fn exchange_response(k: int) -> Seq<u8> {
    if k == 0 {
        seq![
            0xa5u8, 0x5au8, 0x14u8, 0x00u8, 0x00u8, 0x00u8, 0x04u8, 0x18u8, 0x1du8, 0x01u8,
            0x07u8, 0xd9u8, 0x8au8, 0x99u8, 0xf6u8, 0xc9u8, 0xe5u8, 0x9au8, 0xd2u8, 0xc5u8,
            0xe5u8, 0x9cu8, 0xf7u8, 0x25u8, 0x58u8, 0x34u8, 0x12u8,
        ]
    } else if k == 1 {
        seq![
            0xa5u8, 0x5au8, 0x08u8, 0x00u8, 0x00u8, 0x00u8, 0x20u8, 0x71u8, 0x00u8, 0x00u8,
            0x00u8, 0x00u8, 0x7fu8, 0x00u8, 0x00u8,
        ]
    } else if k == 2 {
        seq![
            0xa5u8, 0x5au8, 0x08u8, 0x00u8, 0x00u8, 0x00u8, 0x20u8, 0x74u8, 0x00u8, 0x00u8,
            0x00u8, 0x00u8, 0x0cu8, 0x00u8, 0x00u8,
        ]
    } else if k == 3 {
        seq![
            0xa5u8, 0x5au8, 0x05u8, 0x00u8, 0x00u8, 0x00u8, 0x20u8, 0x75u8, 0x00u8, 0x00u8,
            0x00u8, 0x84u8,
        ]
    } else if k == 4 {
        seq![
            0xa5u8, 0x5au8, 0x10u8, 0x00u8, 0x00u8, 0x00u8, 0x20u8, 0x7fu8, 0x00u8, 0x00u8,
            0x00u8, 0x53u8, 0x65u8, 0x6eu8, 0x73u8, 0x69u8, 0x74u8, 0x69u8, 0x76u8, 0x69u8,
            0x74u8, 0x79u8, 0x00u8,
        ]
    } else if k == 5 {
        seq![
            0xa5u8, 0x5au8, 0x0fu8, 0x00u8, 0x00u8, 0x00u8, 0x14u8, 0x00u8, 0x00u8, 0x61u8,
            0x00u8, 0x00u8, 0x00u8, 0xa0u8, 0x00u8, 0x00u8, 0x0cu8, 0x00u8, 0x04u8, 0x00u8,
            0x28u8, 0x1du8,
        ]
    } else {
        seq![0xa5u8, 0x5au8, 0x84u8, 0x00u8, 0x00u8, 0x40u8, 0x84u8]
    }
}

/// Builds the command of exchange `k`.
fn exchange_request_bytes(k: usize) -> (r: Vec<u8>)
    requires
        k < EXCHANGE_COUNT,
    ensures
        r@ == exchange_request(k as int),
{
    let r = if k == 0 {
        vec![0xa5u8, 0x50]
    } else if k == 1 {
        vec![0xa5u8, 0x84, 0x06, 0x71, 0x00, 0x00, 0x00, 0x03, 0x00, 0x55]
    } else if k == 2 {
        vec![0xa5u8, 0x84, 0x06, 0x74, 0x00, 0x00, 0x00, 0x03, 0x00, 0x50]
    } else if k == 3 {
        vec![0xa5u8, 0x84, 0x06, 0x75, 0x00, 0x00, 0x00, 0x03, 0x00, 0x51]
    } else if k == 4 {
        vec![0xa5u8, 0x84, 0x06, 0x7f, 0x00, 0x00, 0x00, 0x03, 0x00, 0x5b]
    } else if k == 5 {
        vec![0xa5u8, 0x79]
    } else {
        vec![0xa5u8, 0x82, 0x05, 0x03, 0x00, 0x00, 0x00, 0x00, 0x21]
    };
    assert(r@ =~= exchange_request(k as int));
    r
}

/// Builds the expected answer of exchange `k`.
fn exchange_response_bytes(k: usize) -> (r: Vec<u8>)
    requires
        k < EXCHANGE_COUNT,
    ensures
        r@ == exchange_response(k as int),
{
    let r = if k == 0 {
        vec![
            0xa5u8, 0x5a, 0x14, 0x00, 0x00, 0x00, 0x04, 0x18, 0x1d, 0x01, 0x07, 0xd9, 0x8a, 0x99,
            0xf6, 0xc9, 0xe5, 0x9a, 0xd2, 0xc5, 0xe5, 0x9c, 0xf7, 0x25, 0x58, 0x34, 0x12,
        ]
    } else if k == 1 {
        vec![
            0xa5u8, 0x5a, 0x08, 0x00, 0x00, 0x00, 0x20, 0x71, 0x00, 0x00, 0x00, 0x00, 0x7f, 0x00,
            0x00,
        ]
    } else if k == 2 {
        vec![
            0xa5u8, 0x5a, 0x08, 0x00, 0x00, 0x00, 0x20, 0x74, 0x00, 0x00, 0x00, 0x00, 0x0c, 0x00,
            0x00,
        ]
    } else if k == 3 {
        vec![0xa5u8, 0x5a, 0x05, 0x00, 0x00, 0x00, 0x20, 0x75, 0x00, 0x00, 0x00, 0x84]
    } else if k == 4 {
        vec![
            0xa5u8, 0x5a, 0x10, 0x00, 0x00, 0x00, 0x20, 0x7f, 0x00, 0x00, 0x00, 0x53, 0x65, 0x6e,
            0x73, 0x69, 0x74, 0x69, 0x76, 0x69, 0x74, 0x79, 0x00,
        ]
    } else if k == 5 {
        vec![
            0xa5u8, 0x5a, 0x0f, 0x00, 0x00, 0x00, 0x14, 0x00, 0x00, 0x61, 0x00, 0x00, 0x00, 0xa0,
            0x00, 0x00, 0x0c, 0x00, 0x04, 0x00, 0x28, 0x1d,
        ]
    } else {
        vec![0xa5u8, 0x5a, 0x84, 0x00, 0x00, 0x40, 0x84]
    };
    assert(r@ =~= exchange_response(k as int));
    r
}

/// Whether two byte strings are equal.
fn same_bytes(a: &Vec<u8>, b: &Vec<u8>) -> (r: bool)
    ensures
        r == (a@ == b@),
{
    if a.len() != b.len() {
        return false;
    }
    let mut i: usize = 0;
    while i < a.len()
        invariant
            a@.len() == b@.len(),
            0 <= i <= a@.len(),
            forall|m: int| 0 <= m < i ==> a@[m] == b@[m],
        decreases a@.len() - i,
    {
        if a[i] != b[i] {
            return false;
        }
        i = i + 1;
    }
    assert(a@ =~= b@);
    true
}

/// Where the handshake stands; each phase names the operation that comes
/// next. The health phases carry the attempt (from 0), the exchange
/// phases the exchange (from 0).
#[derive(Debug, Clone, Copy, PartialEq, Eq, Structural)]
pub enum InitPhase {
    /// Send the stop command.
    Stop,
    /// Wait for the device to stop.
    StopSettle,
    /// Drop whatever the device sent before.
    Flush,
    /// Wait before a health request.
    HealthPause(u32),
    /// Send the health request.
    HealthRequest(u32),
    /// Wait for the health answer.
    HealthSettle(u32),
    /// Read the health answer.
    HealthResponse(u32),
    /// Send the command of an exchange.
    Request(usize),
    /// Read the answer of an exchange.
    Response(usize),
    /// The device streams; the descriptor of the scan responses.
    Ready(ResponseDescriptor),
    /// The handshake failed.
    Failed(LidarError),
}

/// The transport operation that the handshake asks for next.
#[derive(Debug)]
pub enum InitAction {
    /// Write these bytes.
    Write(Vec<u8>),
    /// Wait this many milliseconds.
    Sleep(u64),
    /// Clear the transport's input buffer.
    ClearInput,
    /// Read exactly this many bytes.
    Read(usize),
    /// The device streams scans, announced by this descriptor.
    Finished(ResponseDescriptor),
    /// The handshake failed with this error.
    Failed(LidarError),
}

/// How the last operation went.
#[derive(Debug)]
pub enum InitEvent {
    /// A write, wait or clear completed.
    Completed,
    /// A read completed with these bytes.
    Received(Vec<u8>),
    /// The transport failed or timed out.
    TransportFailed,
}

/// The operation that `phase` asks for.
pub open spec fn action_fits(phase: InitPhase, action: InitAction) -> bool {
    match phase {
        InitPhase::Stop => action matches InitAction::Write(b) && b@ == stop_request(),
        InitPhase::StopSettle => action matches InitAction::Sleep(ms) && ms == STOP_SETTLE_MS,
        InitPhase::Flush => action is ClearInput,
        InitPhase::HealthPause(_) => action matches InitAction::Sleep(ms) && ms == HEALTH_PAUSE_MS,
        InitPhase::HealthRequest(_) => action matches InitAction::Write(b) && b@
            == health_request(),
        InitPhase::HealthSettle(_) => action matches InitAction::Sleep(ms) && ms
            == HEALTH_PAUSE_MS,
        InitPhase::HealthResponse(_) => action matches InitAction::Read(n) && n
            == health_response().len(),
        InitPhase::Request(k) => action matches InitAction::Write(b) && b@ == exchange_request(
            k as int,
        ),
        InitPhase::Response(k) => action matches InitAction::Read(n) && n == exchange_response(
            k as int,
        ).len(),
        InitPhase::Ready(d) => action matches InitAction::Finished(e) && e == d,
        InitPhase::Failed(e) => action matches InitAction::Failed(f) && f == e,
    }
}

/// After a failed health attempt: the next attempt, or `error` once all
/// attempts are spent.
pub open spec fn retry_or_fail(attempt: u32, error: LidarError) -> InitPhase {
    if attempt + 1 < HEALTH_ATTEMPTS {
        InitPhase::HealthPause((attempt + 1) as u32)
    } else {
        InitPhase::Failed(error)
    }
}

/// The phase after `phase`, once its operation went as `event` says.
/// Transport failures during the health check are retried; a health
/// answer other than the healthy one is retried too. Any other failure
/// ends the handshake: a transport failure with `Io`, an unexpected
/// answer with `ProtocolMismatch`. The last answer is read as the
/// descriptor of the scan responses.
pub open spec fn next_phase(phase: InitPhase, event: InitEvent) -> InitPhase {
    let failed = event is TransportFailed;
    match phase {
        InitPhase::Stop => if failed {
            InitPhase::Failed(LidarError::Io)
        } else {
            InitPhase::StopSettle
        },
        InitPhase::StopSettle => if failed {
            InitPhase::Failed(LidarError::Io)
        } else {
            InitPhase::Flush
        },
        InitPhase::Flush => if failed {
            InitPhase::Failed(LidarError::Io)
        } else {
            InitPhase::HealthPause(0)
        },
        InitPhase::HealthPause(a) => if failed {
            retry_or_fail(a, LidarError::Io)
        } else {
            InitPhase::HealthRequest(a)
        },
        InitPhase::HealthRequest(a) => if failed {
            retry_or_fail(a, LidarError::Io)
        } else {
            InitPhase::HealthSettle(a)
        },
        InitPhase::HealthSettle(a) => if failed {
            retry_or_fail(a, LidarError::Io)
        } else {
            InitPhase::HealthResponse(a)
        },
        InitPhase::HealthResponse(a) => match event {
            InitEvent::Received(b) => if b@ == health_response() {
                InitPhase::Request(0)
            } else {
                retry_or_fail(a, LidarError::ProtocolMismatch)
            },
            _ => retry_or_fail(a, LidarError::Io),
        },
        InitPhase::Request(k) => if failed {
            InitPhase::Failed(LidarError::Io)
        } else {
            InitPhase::Response(k)
        },
        InitPhase::Response(k) => match event {
            InitEvent::Received(b) => if b@ != exchange_response(k as int) {
                InitPhase::Failed(LidarError::ProtocolMismatch)
            } else if k + 1 < EXCHANGE_COUNT {
                InitPhase::Request((k + 1) as usize)
            } else {
                match descriptor_of(b@) {
                    Ok(d) => InitPhase::Ready(d),
                    Err(e) => InitPhase::Failed(e),
                }
            },
            _ => InitPhase::Failed(LidarError::Io),
        },
        InitPhase::Ready(d) => InitPhase::Ready(d),
        InitPhase::Failed(e) => InitPhase::Failed(e),
    }
}

/// The phases that the handshake can be in: attempts and exchanges in
/// range.
pub open spec fn phase_wf(phase: InitPhase) -> bool {
    match phase {
        InitPhase::HealthPause(a) => a < HEALTH_ATTEMPTS,
        InitPhase::HealthRequest(a) => a < HEALTH_ATTEMPTS,
        InitPhase::HealthSettle(a) => a < HEALTH_ATTEMPTS,
        InitPhase::HealthResponse(a) => a < HEALTH_ATTEMPTS,
        InitPhase::Request(k) => k < EXCHANGE_COUNT,
        InitPhase::Response(k) => k < EXCHANGE_COUNT,
        _ => true,
    }
}

/// Drives the sensor from any state into extended express-scan
/// streaming.
pub struct DeviceInitializer {
    pub phase: InitPhase,
}

impl DeviceInitializer {
    pub open spec fn wf(&self) -> bool {
        phase_wf(self.phase)
    }

    /// A handshake that has not begun.
    pub fn new() -> (r: DeviceInitializer)
        ensures
            r.phase == InitPhase::Stop,
            r.wf(),
    {
        DeviceInitializer { phase: InitPhase::Stop }
    }

    /// The operation to perform next.
    pub fn action(&self) -> (r: InitAction)
        requires
            self.wf(),
        ensures
            action_fits(self.phase, r),
    {
        match self.phase {
            InitPhase::Stop => InitAction::Write(vec![0xa5u8, 0x25]),
            InitPhase::StopSettle => InitAction::Sleep(STOP_SETTLE_MS),
            InitPhase::Flush => InitAction::ClearInput,
            InitPhase::HealthPause(_) => InitAction::Sleep(HEALTH_PAUSE_MS),
            InitPhase::HealthRequest(_) => InitAction::Write(vec![0xa5u8, 0x52]),
            InitPhase::HealthSettle(_) => InitAction::Sleep(HEALTH_PAUSE_MS),
            InitPhase::HealthResponse(_) => InitAction::Read(10),
            InitPhase::Request(k) => InitAction::Write(exchange_request_bytes(k)),
            InitPhase::Response(k) => InitAction::Read(exchange_response_bytes(k).len()),
            InitPhase::Ready(d) => InitAction::Finished(d),
            InitPhase::Failed(e) => InitAction::Failed(e),
        }
    }

    /// Moves on, now that the last operation went as `event` says.
    pub fn advance(&mut self, event: InitEvent)
        requires
            old(self).wf(),
        ensures
            final(self).phase == next_phase(old(self).phase, event),
            final(self).wf(),
    {
        let failed = matches!(event, InitEvent::TransportFailed);
        let next = match self.phase {
            InitPhase::Stop => if failed {
                InitPhase::Failed(LidarError::Io)
            } else {
                InitPhase::StopSettle
            },
            InitPhase::StopSettle => if failed {
                InitPhase::Failed(LidarError::Io)
            } else {
                InitPhase::Flush
            },
            InitPhase::Flush => if failed {
                InitPhase::Failed(LidarError::Io)
            } else {
                InitPhase::HealthPause(0)
            },
            InitPhase::HealthPause(a) => if failed {
                health_retry(a, LidarError::Io)
            } else {
                InitPhase::HealthRequest(a)
            },
            InitPhase::HealthRequest(a) => if failed {
                health_retry(a, LidarError::Io)
            } else {
                InitPhase::HealthSettle(a)
            },
            InitPhase::HealthSettle(a) => if failed {
                health_retry(a, LidarError::Io)
            } else {
                InitPhase::HealthResponse(a)
            },
            InitPhase::HealthResponse(a) => match &event {
                InitEvent::Received(b) => {
                    let healthy = vec![0xa5u8, 0x5a, 0x03, 0x00, 0x00, 0x00, 0x06, 0x00, 0x00, 0x00];
                    assert(healthy@ =~= health_response());
                    if same_bytes(b, &healthy) {
                        InitPhase::Request(0)
                    } else {
                        health_retry(a, LidarError::ProtocolMismatch)
                    }
                },
                _ => health_retry(a, LidarError::Io),
            },
            InitPhase::Request(k) => if failed {
                InitPhase::Failed(LidarError::Io)
            } else {
                InitPhase::Response(k)
            },
            InitPhase::Response(k) => match &event {
                InitEvent::Received(b) => {
                    if !same_bytes(b, &exchange_response_bytes(k)) {
                        InitPhase::Failed(LidarError::ProtocolMismatch)
                    } else if k + 1 < EXCHANGE_COUNT {
                        InitPhase::Request(k + 1)
                    } else {
                        let header: [u8; 7] = [b[0], b[1], b[2], b[3], b[4], b[5], b[6]];
                        assert(header@ =~= b@);
                        match deserialize_response_descriptor(&header) {
                            Ok(d) => InitPhase::Ready(d),
                            Err(e) => InitPhase::Failed(e),
                        }
                    }
                },
                _ => InitPhase::Failed(LidarError::Io),
            },
            InitPhase::Ready(d) => InitPhase::Ready(d),
            InitPhase::Failed(e) => InitPhase::Failed(e),
        };
        self.phase = next;
    }
}

/// The phases in `events` order, starting from `phase`.
pub open spec fn run_events(phase: InitPhase, events: Seq<InitEvent>) -> InitPhase
    decreases events.len(),
{
    if events.len() == 0 {
        phase
    } else {
        run_events(next_phase(phase, events[0]), events.skip(1))
    }
}

/// The answer that a read phase expects.
pub open spec fn expected_answer(phase: InitPhase) -> Seq<u8> {
    match phase {
        InitPhase::HealthResponse(_) => health_response(),
        InitPhase::Response(k) => exchange_response(k as int),
        _ => Seq::empty(),
    }
}

/// What a transport that behaves as documented reports after the
/// operation of `phase`: the expected answer after a read, completion
/// otherwise.
pub open spec fn documented_event(phase: InitPhase, event: InitEvent) -> bool {
    match phase {
        InitPhase::HealthResponse(_) | InitPhase::Response(_) => event matches InitEvent::Received(
            b,
        ) && b@ == expected_answer(phase),
        _ => event is Completed,
    }
}

/// The number of operations of a handshake that succeeds at once.
pub open spec fn documented_len() -> int {
    7 + 2 * EXCHANGE_COUNT
}

/// Step `i` of a handshake that succeeds at the first health attempt.
pub open spec fn documented_phase(i: int) -> InitPhase {
    if i == 0 {
        InitPhase::Stop
    } else if i == 1 {
        InitPhase::StopSettle
    } else if i == 2 {
        InitPhase::Flush
    } else if i == 3 {
        InitPhase::HealthPause(0)
    } else if i == 4 {
        InitPhase::HealthRequest(0)
    } else if i == 5 {
        InitPhase::HealthSettle(0)
    } else if i == 6 {
        InitPhase::HealthResponse(0)
    } else if i < documented_len() {
        if (i - 7) % 2 == 0 {
            InitPhase::Request(((i - 7) / 2) as usize)
        } else {
            InitPhase::Response(((i - 7) / 2) as usize)
        }
    } else {
        InitPhase::Ready(streaming_descriptor())
    }
}

/// The descriptor that announces extended express-scan responses.
pub open spec fn streaming_descriptor() -> ResponseDescriptor {
    ResponseDescriptor { packet_length: 0x84, send_mode: SendMode::Single, data_type: 0x84 }
}

proof fn lemma_documented_step(i: int, event: InitEvent)
    requires
        0 <= i < documented_len(),
        documented_event(documented_phase(i), event),
    ensures
        next_phase(documented_phase(i), event) == documented_phase(i + 1),
{
    if i == documented_len() - 1 {
        let b = exchange_response(6);
        assert(b[0] == 0xa5 && b[1] == 0x5a && b[2] == 0x84 && b[3] == 0 && b[5] == 0x40 && b[6]
            == 0x84);
    }
}

proof fn lemma_documented_suffix(i: int, events: Seq<InitEvent>)
    requires
        0 <= i <= documented_len(),
        events.len() == documented_len(),
        forall|m: int|
            0 <= m < documented_len() ==> documented_event(documented_phase(m), #[trigger] events[m]),
    ensures
        run_events(documented_phase(i), events.subrange(i, documented_len()))
            == documented_phase(documented_len()),
    decreases documented_len() - i,
{
    if i < documented_len() {
        lemma_documented_step(i, events[i]);
        lemma_documented_suffix(i + 1, events);
        assert(events.subrange(i, documented_len()).skip(1) =~= events.subrange(
            i + 1,
            documented_len(),
        ));
    }
}

/// A transport that answers every read with the documented bytes takes
/// the handshake from the start to streaming, announced by the extended
/// express-scan descriptor.
pub proof fn lemma_documented_transport_completes(events: Seq<InitEvent>)
    requires
        events.len() == documented_len(),
        forall|m: int|
            0 <= m < documented_len() ==> documented_event(documented_phase(m), #[trigger] events[m]),
    ensures
        run_events(InitPhase::Stop, events) == InitPhase::Ready(streaming_descriptor()),
{
    lemma_documented_suffix(0, events);
    assert(events.subrange(0, documented_len()) =~= events);
}

/// A failed handshake stays failed, whatever follows.
pub proof fn lemma_failure_is_final(error: LidarError, events: Seq<InitEvent>)
    ensures
        run_events(InitPhase::Failed(error), events) == InitPhase::Failed(error),
    decreases events.len(),
{
    if events.len() > 0 {
        lemma_failure_is_final(error, events.skip(1));
    }
}

/// An answer other than the expected one, to any exchange after the
/// health check or to the health request once its attempts are spent,
/// ends the handshake with `ProtocolMismatch`, whatever follows.
pub proof fn lemma_mismatch_fails(phase: InitPhase, event: InitEvent, rest: Seq<InitEvent>)
    requires
        phase_wf(phase),
        phase is Response || phase == InitPhase::HealthResponse((HEALTH_ATTEMPTS - 1) as u32),
        event matches InitEvent::Received(b) && b@ != expected_answer(phase),
    ensures
        run_events(next_phase(phase, event), rest) == InitPhase::Failed(LidarError::ProtocolMismatch),
{
    lemma_failure_is_final(LidarError::ProtocolMismatch, rest);
}

/// After a failed health attempt: the next attempt, or `error` once all
/// attempts are spent.
fn health_retry(attempt: u32, error: LidarError) -> (r: InitPhase)
    requires
        attempt < HEALTH_ATTEMPTS,
    ensures
        r == retry_or_fail(attempt, error),
        phase_wf(r),
{
    if attempt + 1 < HEALTH_ATTEMPTS {
        InitPhase::HealthPause(attempt + 1)
    } else {
        InitPhase::Failed(error)
    }
}

} // verus!
