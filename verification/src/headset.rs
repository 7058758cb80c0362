//! Reading the configuration that a headset keeps in itself.
//!
//! The headset hands it out in feature reports of its USB interface: one report
//! starts the transfer, each further one carries a piece of it. What arrives is
//! compressed text.
use crate::bytes::push_all;
use crate::steam::{cache_file_name, LighthouseConfig, StereoCamera};
use vstd::prelude::*;
use vstd::utf8::*;

verus! {

use crate::steam::{cache_name, stereo_of};

/// How often a feature report is asked for before giving up.
pub const MAX_RETRIES: u32 = 50;

/// Pause between two attempts, in milliseconds.
pub const RETRY_PAUSE_MS: u64 = 1;

/// Length of a feature report, with its number in front.
pub const REPORT_LENGTH: usize = 65;

/// Number of the report that starts a transfer.
pub const START_REPORT: u8 = 0x10;

/// Number of the reports that carry a transfer.
pub const DATA_REPORT: u8 = 0x11;

/// What became of one attempt to get a feature report.
#[derive(Debug, Clone, Copy)]
pub enum ReportOutcome {
    /// The attempt failed, with this error number.
    Failed { error: i32 },
    /// The headset answered: the number that the system call returned, and the
    /// report.
    Received { n: i32, report: [u8; 65] },
}

/// What the reader waits for.
#[derive(Debug, Eq, PartialEq, Clone, Copy, Structural)]
pub enum ReadStage {
    /// The answer to the start of the transfer.
    Start,
    /// A piece of the transfer.
    Data,
    /// Nothing more.
    Finished,
}

/// Why the headset's configuration could not be read.
#[derive(Debug, Eq, PartialEq, Clone, Copy, Structural)]
pub enum ReadFailure {
    /// The start of the transfer failed, time and again. The number is the last
    /// attempt's error.
    StartFailed { error: i32 },
    /// The start of the transfer was answered with nothing.
    StartEmpty,
    /// A piece of the transfer could not be had, time and again. The number is the
    /// last attempt's error.
    DataFailed { error: i32 },
}

/// What is to be done next.
#[derive(Debug, Eq, PartialEq, Clone, Copy, Structural)]
pub enum ReadAction {
    /// Ask for the report with this number, after a pause if `pause_ms` is not
    /// zero.
    Request { report_id: u8, pause_ms: u64 },
    /// The transfer is complete.
    Complete,
    /// The transfer failed.
    Abort(ReadFailure),
}

/// The bytes of the configuration that a report carries: its second byte says
/// how many there are, and they follow.
pub open spec fn carried_bytes(report: Seq<u8>) -> Seq<u8> {
    report.subrange(2, 2 + report[1])
}

/// Whether a report is the last one: the system call returned nothing, or the
/// report carries nothing.
pub open spec fn is_last(n: i32, report: Seq<u8>) -> bool {
    n == 0 || report[1] == 0
}

/// Whether a report can carry as many bytes as it says.
pub open spec fn is_consistent(report: Seq<u8>) -> bool {
    2 + report[1] <= report.len()
}

/// A transfer that is being read.
#[derive(Debug)]
pub struct HeadsetReader {
    pub stage: ReadStage,
    /// Attempts at the current report so far.
    pub attempts: u32,
    /// What arrived so far.
    pub data: Vec<u8>,
}

/// What a [`HeadsetReader`] says.
pub struct ReaderView {
    pub stage: ReadStage,
    pub attempts: u32,
    pub data: Seq<u8>,
}

impl View for HeadsetReader {
    type V = ReaderView;

    open spec fn view(&self) -> ReaderView {
        ReaderView { stage: self.stage, attempts: self.attempts, data: self.data@ }
    }
}

impl ReaderView {
    /// Whether the reader can come to be in this state: it gives up before it
    /// has used up its attempts.
    pub open spec fn valid(self) -> bool {
        self.attempts < MAX_RETRIES
    }

    /// The report that is asked for.
    pub open spec fn report_id(self) -> u8 {
        if self.stage == ReadStage::Start {
            START_REPORT
        } else {
            DATA_REPORT
        }
    }

    /// Why the transfer ends when the last attempt fails with `error`.
    pub open spec fn given_up(self, error: i32) -> ReadFailure {
        if self.stage == ReadStage::Start {
            ReadFailure::StartFailed { error }
        } else {
            ReadFailure::DataFailed { error }
        }
    }

    /// Whether the reader can go on with an answer: a piece of the transfer
    /// must not claim to carry more than fits in a report.
    pub open spec fn accepts(self, outcome: ReportOutcome) -> bool {
        &&& self.stage != ReadStage::Finished
        &&& self.stage == ReadStage::Data ==> (outcome matches ReportOutcome::Received {
            n,
            report,
        } ==> is_last(n, report@) || is_consistent(report@))
    }

    /// The state after an answer, and what to do next.
    pub open spec fn after(self, outcome: ReportOutcome) -> (ReaderView, ReadAction) {
        let finished = ReaderView { stage: ReadStage::Finished, attempts: 0, data: self.data };
        let next = ReaderView { stage: ReadStage::Data, attempts: 0, data: self.data };
        let ask = ReadAction::Request { report_id: DATA_REPORT, pause_ms: 0 };
        match outcome {
            ReportOutcome::Failed { error } => if self.attempts + 1 == MAX_RETRIES {
                (finished, ReadAction::Abort(self.given_up(error)))
            } else {
                (
                    ReaderView { attempts: (self.attempts + 1) as u32, ..self },
                    ReadAction::Request { report_id: self.report_id(), pause_ms: RETRY_PAUSE_MS },
                )
            },
            ReportOutcome::Received { n, report } => if self.stage == ReadStage::Start {
                if n == 0 {
                    (finished, ReadAction::Abort(ReadFailure::StartEmpty))
                } else {
                    (next, ask)
                }
            } else if is_last(n, report@) {
                (finished, ReadAction::Complete)
            } else {
                (ReaderView { data: self.data + carried_bytes(report@), ..next }, ask)
            },
        }
    }
}

/// The reader before anything arrived.
pub open spec fn initial_reader() -> ReaderView {
    ReaderView { stage: ReadStage::Start, attempts: 0, data: Seq::empty() }
}

impl HeadsetReader {
    /// Starts a transfer.
    pub fn start() -> (started: (HeadsetReader, ReadAction))
        ensures
            started.0@ == initial_reader(),
            started.0@.valid(),
            started.1 == (ReadAction::Request { report_id: START_REPORT, pause_ms: 0 }),
    {
        let data: Vec<u8> = Vec::new();
        let reader = HeadsetReader { stage: ReadStage::Start, attempts: 0, data };
        assert(reader@.data =~= Seq::empty());
        (reader, ReadAction::Request { report_id: START_REPORT, pause_ms: 0 })
    }

    /// Goes on with the outcome of an attempt.
    pub fn step(&mut self, outcome: ReportOutcome) -> (action: ReadAction)
        requires
            old(self)@.valid(),
            old(self)@.accepts(outcome),
        ensures
            final(self)@.valid(),
            (final(self)@, action) == old(self)@.after(outcome),
    {
        match outcome {
            ReportOutcome::Failed { error } => {
                self.attempts = self.attempts + 1;
                if self.attempts == MAX_RETRIES {
                    let failure = if self.stage == ReadStage::Start {
                        ReadFailure::StartFailed { error }
                    } else {
                        ReadFailure::DataFailed { error }
                    };
                    self.stage = ReadStage::Finished;
                    self.attempts = 0;
                    return ReadAction::Abort(failure);
                }
                let report_id: u8 = if self.stage == ReadStage::Start {
                    START_REPORT
                } else {
                    DATA_REPORT
                };
                ReadAction::Request { report_id, pause_ms: RETRY_PAUSE_MS }
            },
            ReportOutcome::Received { n, report } => {
                self.attempts = 0;
                if self.stage == ReadStage::Start {
                    if n == 0 {
                        self.stage = ReadStage::Finished;
                        return ReadAction::Abort(ReadFailure::StartEmpty);
                    }
                } else if n == 0 || report[1] == 0 {
                    self.stage = ReadStage::Finished;
                    return ReadAction::Complete;
                } else {
                    let length: usize = report[1] as usize;
                    let carried = crate::bytes::copy_range(report.as_slice(), 2, 2 + length);
                    push_all(&mut self.data, carried.as_slice());
                }
                self.stage = ReadStage::Data;
                ReadAction::Request { report_id: DATA_REPORT, pause_ms: 0 }
            },
        }
    }
}

/// The reader after a number of answers.
pub open spec fn reader_after(reader: ReaderView, outcomes: Seq<ReportOutcome>) -> ReaderView
    decreases outcomes.len(),
{
    if outcomes.len() == 0 {
        reader
    } else {
        reader_after(reader, outcomes.drop_last()).after(outcomes.last()).0
    }
}

/// What the pieces of a transfer make, one after the other.
pub open spec fn joined(outcomes: Seq<ReportOutcome>) -> Seq<u8>
    decreases outcomes.len(),
{
    if outcomes.len() == 0 {
        Seq::empty()
    } else {
        joined(outcomes.drop_last()) + (match outcomes.last() {
            ReportOutcome::Received { report, .. } => carried_bytes(report@),
            ReportOutcome::Failed { .. } => Seq::empty(),
        })
    }
}

/// Whether every answer is a piece of the transfer that is not the last one.
pub open spec fn all_pieces(outcomes: Seq<ReportOutcome>) -> bool {
    forall|i: int|
        0 <= i < outcomes.len() ==> (#[trigger] outcomes[i] matches ReportOutcome::Received {
            n,
            report,
        } && !is_last(n, report@))
}

/// The transfer is the pieces in their order: after the start was answered and
/// any number of pieces arrived, what was read is what they carried, joined.
pub proof fn transfer_is_the_pieces_in_order(
    n: i32,
    report: [u8; 65],
    pieces: Seq<ReportOutcome>,
)
    requires
        n != 0,
        all_pieces(pieces),
    ensures
        ({
            let started = initial_reader().after(ReportOutcome::Received { n, report }).0;
            let reader = reader_after(started, pieces);
            &&& reader.stage == ReadStage::Data
            &&& reader.attempts == 0
            &&& reader.data == joined(pieces)
        }),
    decreases pieces.len(),
{
    let started = initial_reader().after(ReportOutcome::Received { n, report }).0;
    if pieces.len() > 0 {
        assert forall|i: int| 0 <= i < pieces.drop_last().len() implies (
        #[trigger] pieces.drop_last()[i] matches ReportOutcome::Received { n, report } && !is_last(
            n,
            report@,
        )) by {
            assert(pieces.drop_last()[i] == pieces[i]);
        }
        transfer_is_the_pieces_in_order(n, report, pieces.drop_last());
        assert(pieces.last() == pieces[pieces.len() - 1]);
    }
}

/// Attempts that fail, with these error numbers.
pub open spec fn failures(errors: Seq<i32>) -> Seq<ReportOutcome> {
    errors.map_values(|error: i32| ReportOutcome::Failed { error })
}

/// As long as a report failed fewer than fifty times, nothing but the count of
/// attempts has changed.
proof fn lemma_failures(reader: ReaderView, errors: Seq<i32>)
    requires
        reader.attempts == 0,
        reader.stage != ReadStage::Finished,
        errors.len() < 50,
    ensures
        reader_after(reader, failures(errors)) == (ReaderView {
            attempts: errors.len() as u32,
            ..reader
        }),
    decreases errors.len(),
{
    if errors.len() > 0 {
        lemma_failures(reader, errors.drop_last());
        assert(failures(errors).drop_last() =~= failures(errors.drop_last()));
    }
}

/// A report that cannot be had is asked for fifty times and no more: after
/// every failure but the fiftieth it is asked for again, after a pause, and
/// nothing that was read is lost; the fiftieth failure ends the transfer, with the
/// error of the fiftieth attempt.
pub proof fn fiftieth_failure_ends_the_transfer(
    reader: ReaderView,
    errors: Seq<i32>,
    error: i32,
)
    requires
        reader.attempts == 0,
        reader.stage != ReadStage::Finished,
        errors.len() < 50,
    ensures
        ({
            let before = reader_after(reader, failures(errors));
            let (after, action) = before.after(ReportOutcome::Failed { error });
            &&& after.data == reader.data
            &&& errors.len() < 49 ==> after.stage == reader.stage && action == (
            ReadAction::Request { report_id: reader.report_id(), pause_ms: RETRY_PAUSE_MS })
            &&& errors.len() == 49 ==> after.stage == ReadStage::Finished && action
                == ReadAction::Abort(reader.given_up(error))
        }),
{
    lemma_failures(reader, errors);
}

/// An answer counts the same whether it comes at once or after fewer than fifty
/// failures.
pub proof fn failures_before_an_answer_leave_no_trace(
    reader: ReaderView,
    errors: Seq<i32>,
    n: i32,
    report: [u8; 65],
)
    requires
        reader.attempts == 0,
        reader.stage != ReadStage::Finished,
        errors.len() < 50,
    ensures
        reader_after(reader, failures(errors)).after(ReportOutcome::Received { n, report })
            == reader.after(ReportOutcome::Received { n, report }),
{
    lemma_failures(reader, errors);
}

/// The text that compressed bytes stand for, if they are well-formed and stand
/// for text.
pub uninterp spec fn inflated_text(data: Seq<u8>) -> Option<Seq<char>>;

/// Decompresses `data`.
///
/// Reads a `flate2::read::ZlibDecoder` over the bytes to its end as a string:
/// the text, or nothing if the bytes do not start with a complete zlib stream
/// or the stream does not hold UTF-8. It depends on the bytes alone.
#[verifier::external_body]
fn inflate(data: &[u8]) -> (text: Option<String>)
    ensures
        match inflated_text(data@) {
            Some(chars) => text is Some && text->Some_0@ == chars,
            None => text is None,
        },
{
    let mut text = String::new();
    let mut decoder = flate2::read::ZlibDecoder::new(data);
    std::io::Read::read_to_string(&mut decoder, &mut text).ok().map(|_| text)
}

impl HeadsetReader {
    /// The text of the configuration, once the transfer is complete.
    pub fn config_text(&self) -> (text: Option<String>)
        ensures
            match inflated_text(self@.data) {
                Some(chars) => text is Some && text->Some_0@ == chars,
                None => text is None,
            },
    {
        inflate(self.data.as_slice())
    }
}

/// What a headset's configuration gives.
#[derive(Debug)]
pub struct HeadsetConfig {
    pub calibration: StereoCamera,
    /// Name of the file in the cache that the configuration is kept in.
    pub cache_file: Vec<u8>,
}

/// What to make of the configuration that was read from a headset: if it has a
/// calibration, that is used, and the configuration is kept in the cache under
/// the serial number that it gives.
pub fn load_config_file_from_headset(config: &Option<LighthouseConfig>) -> (loaded: Option<
    HeadsetConfig,
>)
    ensures
        match *config {
            None => loaded is None,
            Some(config) => match stereo_of(config.tracked_cameras@) {
                Err(_) => loaded is None,
                Ok(calibration) => {
                    &&& loaded is Some
                    &&& loaded->Some_0.calibration == calibration
                    &&& loaded->Some_0.cache_file@ == cache_name(
                        encode_utf8(config.device_serial_number@),
                    )
                },
            },
        },
{
    let config = match config {
        Some(config) => config,
        None => return None,
    };
    match StereoCamera::new(config) {
        Ok(calibration) => Some(
            HeadsetConfig {
                calibration,
                cache_file: cache_file_name(config.device_serial_number.as_str().as_bytes()),
            },
        ),
        Err(_) => None,
    }
}

/// Each piece of a transfer adds the bytes that it carries to what was read before,
/// and nothing else: the second byte of the report counts them, and they begin at
/// the third. The next piece is asked for at once. An answer of nothing, or a piece
/// without bytes, ends the transfer.
pub proof fn pieces_add_what_they_carry(reader: ReaderView, n: i32, report: [u8; 65])
    requires
        reader.stage == ReadStage::Data,
        report@[1] <= 63,
    ensures
        ({
            let (after, action) = reader.after(ReportOutcome::Received { n, report });
            if n == 0 || report@[1] == 0 {
                &&& action == ReadAction::Complete
                &&& after.stage == ReadStage::Finished && after.data == reader.data
            } else {
                &&& action == (ReadAction::Request { report_id: 0x11, pause_ms: 0 })
                &&& after.stage == ReadStage::Data && after.attempts == 0
                &&& after.data.len() == reader.data.len() + report@[1]
                &&& after.data.take(reader.data.len() as int) == reader.data
                &&& forall|i: int|
                    0 <= i < report@[1] ==> #[trigger] after.data[reader.data.len() + i]
                        == report@[2 + i]
            }
        }),
{
    let (after, _) = reader.after(ReportOutcome::Received { n, report });
    assert(after.data.take(reader.data.len() as int) =~= reader.data);
}

/// The transfer is started with a report of its own. An answer of nothing is a
/// failure; any other one is followed by the first piece, and nothing is read from
/// it.
pub proof fn start_carries_nothing(attempts: u32, data: Seq<u8>, n: i32, report: [u8; 65])
    ensures
        ({
            let reader = ReaderView { stage: ReadStage::Start, attempts, data };
            let (after, action) = reader.after(ReportOutcome::Received { n, report });
            &&& reader.report_id() == 0x10
            &&& after.data == data
            &&& n == 0 ==> after.stage == ReadStage::Finished && action == ReadAction::Abort(
                ReadFailure::StartEmpty,
            )
            &&& n != 0 ==> after.stage == ReadStage::Data && after.attempts == 0 && action == (
            ReadAction::Request { report_id: 0x11, pause_ms: 0 })
        }),
        initial_reader().stage == ReadStage::Start,
        initial_reader().attempts == 0,
        initial_reader().data.len() == 0,
{
}

/// An attempt that fails is followed by another one at the same report, a
/// millisecond later, unless it was the fiftieth: then the transfer is given up,
/// and it is said in which part of it.
pub proof fn failures_are_tried_again(reader: ReaderView, error: i32)
    requires
        reader.stage != ReadStage::Finished,
        reader.attempts < 50,
    ensures
        ({
            let (after, action) = reader.after(ReportOutcome::Failed { error });
            let report_id: u8 = if reader.stage == ReadStage::Start {
                0x10
            } else {
                0x11
            };
            &&& after.data == reader.data
            &&& reader.attempts < 49 ==> action == (ReadAction::Request { report_id, pause_ms: 1 })
                && after.attempts == reader.attempts + 1 && after.stage == reader.stage
            &&& reader.attempts == 49 ==> after.stage == ReadStage::Finished
            &&& reader.attempts == 49 && reader.stage == ReadStage::Start ==> action
                == ReadAction::Abort(ReadFailure::StartFailed { error })
            &&& reader.attempts == 49 && reader.stage == ReadStage::Data ==> action
                == ReadAction::Abort(ReadFailure::DataFailed { error })
        }),
{
}

} // verus!
