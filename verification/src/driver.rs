//! The sensor driver: the calibration gate at initialization and the
//! retry-bounded acquisition machine.
//!
//! The driver decides; the transport acts. Each trigger-write, settling
//! delay and frame-read is a bus transaction the caller performs, handing
//! the outcome back as a plain value. A transport fault at any point aborts
//! the acquisition at once; a busy frame is retried up to a fixed number of
//! cycles, after which the last frame is decoded as it stands, busy or not.

use vstd::prelude::*;

use crate::frame::{is_busy, is_calibrated, spec_busy, spec_calibrated};
use crate::reading::{decode_frame, spec_decoded, Reading};

verus! {

/// Fixed 7-bit bus address of the sensor.
pub const DHT20_I2C_ADDR: u8 = 0x38;

/// Command byte that asks for the one-byte status register.
pub const DHT20_GET_STATUS: u8 = 0x71;

/// Minimum settling delay after power-up, in milliseconds, before the
/// status probe may be issued.
pub const POWER_UP_DELAY_MS: u64 = 100;

/// Minimum settling delay after a measurement trigger, in milliseconds,
/// before the frame may be read.
pub const MEASUREMENT_DELAY_MS: u64 = 80;

/// Total trigger+read cycles an acquisition performs before it accepts the
/// last frame even with the busy flag still set.
pub const MAX_POLL_CYCLES: u8 = 10;

/// The fixed 3-byte measurement trigger command.
pub fn trigger_command() -> (r: [u8; 3])
    ensures
        r@ == seq![0xacu8, 0x33u8, 0x00u8],
{
    [0xacu8, 0x33u8, 0x00u8]
}

/// Uniform signal for any bus-level transport fault (NACK, timeout,
/// arbitration loss); the driver never distinguishes among them.
#[derive(Clone, Copy, Debug, PartialEq, Eq, Structural)]
pub struct TransportError;

/// Why initialization failed.
#[derive(Clone, Copy, Debug, PartialEq, Eq, Structural)]
pub enum InitError {
    /// The status probe itself failed on the bus.
    Transport,
    /// The probe answered, but the calibration bits were not both set.
    NotCalibrated,
}

/// Why an acquisition failed. Retry exhaustion is not an error: the last
/// frame is decoded as it stands.
#[derive(Clone, Copy, Debug, PartialEq, Eq, Structural)]
pub enum ReadError {
    /// A bus transaction faulted during some trigger+read cycle.
    Transport,
}

/// One trigger+read cycle's outcome as the transport reports it: the
/// 6-byte frame, or a fault on either the trigger write or the frame read.
pub type PollResponse = Result<[u8; 6], TransportError>;

/// What the driver decides after one cycle.
#[derive(Clone, Copy, Debug, PartialEq, Eq, Structural)]
pub enum PollOutcome {
    /// Still busy and cycles remain: trigger and read once more.
    Again,
    /// Acquisition finished; the decoded reading.
    Done(Reading),
    /// A transport fault aborted the acquisition.
    Failed(ReadError),
}

/// The decision taken on the response of one cycle, after `done` cycles
/// have already completed: a fault aborts; a clear frame decodes; a busy
/// frame decodes anyway once this cycle is the last allowed, and otherwise
/// asks for another cycle.
pub open spec fn spec_advance(done: nat, resp: PollResponse) -> PollOutcome {
    match resp {
        Result::Err(_) => PollOutcome::Failed(ReadError::Transport),
        Result::Ok(frame) => if !spec_busy(frame@[0]) {
            PollOutcome::Done(spec_decoded(frame@))
        } else if done + 1 >= MAX_POLL_CYCLES {
            PollOutcome::Done(spec_decoded(frame@))
        } else {
            PollOutcome::Again
        },
    }
}

/// Progress of one acquisition: how many trigger+read cycles have
/// completed so far.
pub struct PollState {
    cycles: u8,
}

impl View for PollState {
    type V = nat;

    closed spec fn view(&self) -> nat {
        self.cycles as nat
    }
}

impl PollState {
    /// Feed the outcome of one trigger+read cycle to the driver and take
    /// its decision for that cycle.
    pub fn advance(&mut self, resp: PollResponse) -> (r: PollOutcome)
        requires
            old(self)@ < MAX_POLL_CYCLES,
        ensures
            final(self)@ == old(self)@ + 1,
            r == spec_advance(old(self)@, resp),
    {
        self.cycles = self.cycles + 1;
        match resp {
            Result::Err(_) => PollOutcome::Failed(ReadError::Transport),
            Result::Ok(frame) => {
                if !is_busy(frame[0]) {
                    PollOutcome::Done(decode_frame(&frame))
                } else if self.cycles >= MAX_POLL_CYCLES {
                    PollOutcome::Done(decode_frame(&frame))
                } else {
                    PollOutcome::Again
                }
            },
        }
    }
}

/// A sensor session whose calibration gate has passed; holds the status
/// byte the probe observed.
pub struct I2CTemperatureReader {
    status: u8,
}

impl View for I2CTemperatureReader {
    type V = u8;

    closed spec fn view(&self) -> u8 {
        self.status
    }
}

impl I2CTemperatureReader {
    /// Session invariant: the probed status byte passed the calibration
    /// gate. Every constructed handle satisfies it.
    pub open spec fn wf(&self) -> bool {
        spec_calibrated(self@)
    }

    /// Gate on the outcome of the status probe (issued by the transport
    /// after the power-up delay): a fault is a transport error, a status
    /// byte with a calibration bit clear refuses the handle, and only a
    /// calibrated status byte produces one.
    pub fn initialize(probe: Result<u8, TransportError>) -> (r: Result<
        I2CTemperatureReader,
        InitError,
    >)
        ensures
            probe is Err ==> r is Err && r->Err_0 == InitError::Transport,
            probe is Ok && !spec_calibrated(probe->Ok_0) ==> r is Err && r->Err_0
                == InitError::NotCalibrated,
            probe is Ok && spec_calibrated(probe->Ok_0) ==> r is Ok && r->Ok_0@ == probe->Ok_0
                && r->Ok_0.wf(),
    {
        match probe {
            Result::Err(_) => Err(InitError::Transport),
            Result::Ok(status) => {
                if is_calibrated(status) {
                    Ok(I2CTemperatureReader { status })
                } else {
                    Err(InitError::NotCalibrated)
                }
            },
        }
    }

    /// Start an acquisition: no cycle has run yet.
    pub fn begin_poll(&self) -> (r: PollState)
        ensures
            r@ == 0,
    {
        PollState { cycles: 0 }
    }
}

/// The machine driven over a whole sequence of cycle responses, starting
/// after `done` completed cycles: how many responses it consumes, and the
/// outcome it stops with (`Again` if it would consume more than `rs`
/// holds).
pub open spec fn spec_run(done: nat, rs: Seq<PollResponse>) -> (nat, PollOutcome)
    decreases rs.len(),
{
    if rs.len() == 0 {
        (0nat, PollOutcome::Again)
    } else {
        let first = spec_advance(done, rs[0]);
        if first == PollOutcome::Again {
            let rest = spec_run(done + 1, rs.skip(1));
            ((rest.0 + 1) as nat, rest.1)
        } else {
            (1nat, first)
        }
    }
}

/// A response that keeps the machine polling: a frame, not a fault, with
/// the busy flag still set.
pub open spec fn busy_frame(resp: PollResponse) -> bool {
    resp matches Ok(f) && spec_busy(f@[0])
}

/// While every response seen is a busy frame and cycles remain, the
/// machine just counts: running from `done` consumes `k` more cycles than
/// running from `done + k` over the remaining responses, toward the same
/// outcome.
proof fn lemma_busy_prefix(done: nat, rs: Seq<PollResponse>, k: nat)
    requires
        k <= rs.len(),
        done + k < MAX_POLL_CYCLES,
        forall|i: int| 0 <= i < k ==> busy_frame(#[trigger] rs[i]),
    ensures
        spec_run(done, rs).0 == k + spec_run((done + k) as nat, rs.skip(k as int)).0,
        spec_run(done, rs).1 == spec_run((done + k) as nat, rs.skip(k as int)).1,
    decreases k,
{
    if k == 0 {
        assert(rs.skip(0) =~= rs);
    } else {
        assert(busy_frame(rs[0]));
        assert(spec_advance(done, rs[0]) == PollOutcome::Again);
        let tail = rs.skip(1);
        assert(forall|i: int| 0 <= i < k - 1 ==> busy_frame(#[trigger] tail[i])) by {
            assert(forall|i: int| 0 <= i < k - 1 ==> tail[i] == rs[i + 1]);
        }
        lemma_busy_prefix((done + 1) as nat, tail, (k - 1) as nat);
        assert(tail.skip(k - 1) =~= rs.skip(k as int));
    }
}

/// Retry bound: when every one of the first ten cycle responses is a busy
/// frame, the acquisition performs exactly ten cycles — never an eleventh,
/// however many more responses the transport could offer — and finishes
/// with the reading decoded from the tenth frame, stale or not.
pub proof fn lemma_retry_bound(rs: Seq<PollResponse>)
    requires
        rs.len() >= MAX_POLL_CYCLES,
        forall|i: int| 0 <= i < MAX_POLL_CYCLES ==> busy_frame(#[trigger] rs[i]),
    ensures
        spec_run(0, rs).0 == MAX_POLL_CYCLES,
        spec_run(0, rs).1 == PollOutcome::Done(spec_decoded(rs[MAX_POLL_CYCLES - 1]->Ok_0@)),
{
    lemma_busy_prefix(0, rs, (MAX_POLL_CYCLES - 1) as nat);
    let tail = rs.skip(MAX_POLL_CYCLES - 1);
    assert(tail[0] == rs[MAX_POLL_CYCLES - 1]);
    assert(busy_frame(tail[0]));
    assert(spec_advance((MAX_POLL_CYCLES - 1) as nat, tail[0]) == PollOutcome::Done(
        spec_decoded(tail[0]->Ok_0@),
    ));
}

/// Early exit: when the first clear (not busy) frame arrives at cycle
/// `k + 1`, with `k` busy frames before it, exactly `k + 1` cycles happen
/// and that frame's decode is returned.
pub proof fn lemma_early_exit(rs: Seq<PollResponse>, k: int)
    requires
        0 <= k < MAX_POLL_CYCLES,
        k < rs.len(),
        forall|i: int| 0 <= i < k ==> busy_frame(#[trigger] rs[i]),
        rs[k] matches Ok(f) && !spec_busy(f@[0]),
    ensures
        spec_run(0, rs).0 == k + 1,
        spec_run(0, rs).1 == PollOutcome::Done(spec_decoded(rs[k]->Ok_0@)),
{
    lemma_busy_prefix(0, rs, k as nat);
    let tail = rs.skip(k);
    assert(tail[0] == rs[k]);
}

/// Transport fault propagation: a fault at cycle `k + 1`, with busy frames
/// before it, aborts the acquisition at once — `k + 1` cycles, no retry
/// past the fault, and a transport error as the outcome.
pub proof fn lemma_transport_fault(rs: Seq<PollResponse>, k: int)
    requires
        0 <= k < MAX_POLL_CYCLES,
        k < rs.len(),
        forall|i: int| 0 <= i < k ==> busy_frame(#[trigger] rs[i]),
        rs[k] is Err,
    ensures
        spec_run(0, rs).0 == k + 1,
        spec_run(0, rs).1 == PollOutcome::Failed(ReadError::Transport),
{
    lemma_busy_prefix(0, rs, k as nat);
    let tail = rs.skip(k);
    assert(tail[0] == rs[k]);
}

} // verus!

