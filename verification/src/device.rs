//! The start-up conversation with a meter, as a state machine.
//!
//! Start-up runs: ask for the meter's identity, set its sampling rate, then
//! read its calibration table one frequency row at a time. The machine
//! decides what to send and which kind of frame to wait for; whoever owns
//! the serial port does the sending and the waiting, and hands back what
//! came of the wait. A row that fails to arrive is asked for again, up to
//! three attempts in all.
use crate::model::{
    describes_model, freq_table, is_known_model, model_name, power_table, zero_row,
    DeviceCalibration, ModelSpec,
};
use crate::protocol::{
    build_query_id, build_read_calibration, build_set_config, frame_bytes, rate_index, Frame,
    FrameKind, FrameModel, SamplingRate, CMD_QUERY_ID, CMD_READ_CALIBRATION, CMD_SET_CONFIG,
};
use crate::text::{decimal, push_decimal, push_two_digits, two_digits};
use vstd::prelude::*;

verus! {

/// USB vendor ID of the serial bridge chip in the meter.
pub const DEVICE_VID: u16 = 0x1a86;

/// USB product ID of the serial bridge chip in the meter.
pub const DEVICE_PID: u16 = 0x7523;

/// How many times a calibration row is waited for before giving up.
pub const MAX_ROW_RETRIES: u8 = 3;

/// Whether a USB serial port with these IDs is a meter.
pub fn is_meter_port(vid: u16, pid: u16) -> (r: bool)
    ensures
        r == (vid == DEVICE_VID && pid == DEVICE_PID),
{
    vid == DEVICE_VID && pid == DEVICE_PID
}

// ---------------------------------------------------------------------------
// Texts
// ---------------------------------------------------------------------------

/// A firmware version, stored as `major * 100 + minor`, as `major.minor`
/// with a two-digit minor part.
pub open spec fn firmware_text(fw: u16) -> Seq<char> {
    decimal((fw / 100) as nat) + "."@ + two_digits((fw % 100) as nat)
}

/// The name shown for model `id`.
pub open spec fn display_name(id: u16) -> Seq<char> {
    if is_known_model(id) {
        model_name(id)
    } else {
        "Unknown ("@ + decimal(id as nat) + ")"@
    }
}

pub open spec fn no_id_text() -> Seq<char> {
    "No response to device ID query, retrying..."@
}

pub open spec fn no_ack_text() -> Seq<char> {
    "No config acknowledgment, retrying..."@
}

pub open spec fn unknown_model_text(id: u16) -> Seq<char> {
    "Unknown model ID: "@ + decimal(id as nat)
}

pub open spec fn row_failed_text(row: nat) -> Seq<char> {
    "Failed to load calibration row "@ + decimal(row) + " after "@ + decimal(
        MAX_ROW_RETRIES as nat,
    ) + " retries"@
}

/// Formats a firmware version such as 123 as `"1.23"`.
pub fn format_firmware_version(fw: u16) -> (r: String)
    ensures
        r@ == firmware_text(fw),
{
    let mut s = String::new();
    push_decimal(&mut s, (fw / 100) as u64);
    s.append(".");
    push_two_digits(&mut s, (fw % 100) as u64);
    s
}

/// The name shown for model `id`: the model's name, or `"Unknown (id)"`.
pub fn model_display_name(id: u16) -> (r: String)
    ensures
        r@ == display_name(id),
{
    let mut s = String::new();
    match ModelSpec::from_id(id) {
        Some(spec) => {
            s.append(spec.name);
        },
        None => {
            s.append("Unknown (");
            push_decimal(&mut s, id as u64);
            s.append(")");
        },
    }
    s
}

fn unknown_model_message(id: u16) -> (r: String)
    ensures
        r@ == unknown_model_text(id),
{
    let mut s = String::new();
    s.append("Unknown model ID: ");
    push_decimal(&mut s, id as u64);
    s
}

fn row_failed_message(row: usize) -> (r: String)
    ensures
        r@ == row_failed_text(row as nat),
{
    let mut s = String::new();
    s.append("Failed to load calibration row ");
    push_decimal(&mut s, row as u64);
    s.append(" after ");
    push_decimal(&mut s, MAX_ROW_RETRIES as u64);
    s.append(" retries");
    s
}

// ---------------------------------------------------------------------------
// Messages in and out of the machine
// ---------------------------------------------------------------------------

/// What came of waiting for a frame.
pub enum WaitOutcome {
    /// A frame of the awaited kind arrived.
    Received(Frame),
    /// Nothing of the awaited kind arrived in time.
    TimedOut,
    /// Reading from the port failed; the text says how.
    Failed(String),
}

pub enum OutcomeModel {
    Received(FrameModel),
    TimedOut,
    Failed(Seq<char>),
}

impl View for WaitOutcome {
    type V = OutcomeModel;

    open spec fn view(&self) -> OutcomeModel {
        match self {
            WaitOutcome::Received(f) => OutcomeModel::Received(f@),
            WaitOutcome::TimedOut => OutcomeModel::TimedOut,
            WaitOutcome::Failed(s) => OutcomeModel::Failed(s@),
        }
    }
}

/// News for the user interface.
#[derive(Debug)]
pub enum InitEvent {
    Connected { model_id: u16, model_name: String, firmware_version: String, serial_number: u32 },
    CalibrationProgress { loaded: usize, total: usize },
    Ready,
    Error(String),
}

pub enum EventModel {
    Connected {
        model_id: u16,
        model_name: Seq<char>,
        firmware_version: Seq<char>,
        serial_number: u32,
    },
    CalibrationProgress { loaded: usize, total: usize },
    Ready,
    Error(Seq<char>),
}

impl View for InitEvent {
    type V = EventModel;

    open spec fn view(&self) -> EventModel {
        match self {
            InitEvent::Connected { model_id, model_name, firmware_version, serial_number } =>
                EventModel::Connected {
                model_id: *model_id,
                model_name: model_name@,
                firmware_version: firmware_version@,
                serial_number: *serial_number,
            },
            InitEvent::CalibrationProgress { loaded, total } => EventModel::CalibrationProgress {
                loaded: *loaded,
                total: *total,
            },
            InitEvent::Ready => EventModel::Ready,
            InitEvent::Error(s) => EventModel::Error(s@),
        }
    }
}

/// What to do once the step's events are out and its frame is sent.
pub enum Next {
    /// Wait for a frame of this kind.
    Await(FrameKind),
    /// Start-up is complete: stream readings.
    Stream,
    /// Start-up failed: report the error, then report the disconnection.
    Abort(String),
    /// The machine has stopped; nothing more to do.
    Halted,
}

pub enum NextModel {
    Await(FrameKind),
    Stream,
    Abort(Seq<char>),
    Halted,
}

impl View for Next {
    type V = NextModel;

    open spec fn view(&self) -> NextModel {
        match self {
            Next::Await(k) => NextModel::Await(*k),
            Next::Stream => NextModel::Stream,
            Next::Abort(s) => NextModel::Abort(s@),
            Next::Halted => NextModel::Halted,
        }
    }
}

/// One step of the machine: events to report first, then a frame to
/// send, then what to do next.
pub struct Step {
    pub events: Vec<InitEvent>,
    pub send: Option<Vec<u8>>,
    pub next: Next,
}

pub struct StepModel {
    pub events: Seq<EventModel>,
    pub send: Option<Seq<u8>>,
    pub next: NextModel,
}

impl View for Step {
    type V = StepModel;

    open spec fn view(&self) -> StepModel {
        StepModel {
            events: self.events@.map_values(|e: InitEvent| e@),
            send: match self.send {
                Some(v) => Some(v@),
                None => None,
            },
            next: self.next@,
        }
    }
}

/// The request for calibration row `row`.
pub open spec fn read_calibration_frame(row: nat) -> Seq<u8> {
    frame_bytes(
        CMD_READ_CALIBRATION,
        seq![((row as u16) / 256) as u8, ((row as u16) % 256) as u8],
    )
}

// ---------------------------------------------------------------------------
// The machine
// ---------------------------------------------------------------------------

/// Where start-up stands.
#[derive(Debug, Clone, Copy, PartialEq, Eq, Structural)]
pub enum InitPhase {
    /// Waiting for the meter's identity.
    Querying,
    /// Waiting for the meter to acknowledge the sampling rate.
    Configuring { model_id: u16 },
    /// Waiting for calibration row `freq_index`, after `retries` failed waits.
    Loading { freq_index: usize, retries: u8 },
    /// Start-up is complete.
    Streaming,
    /// Start-up failed.
    Stopped,
}

/// The mathematical content of a [`DeviceCalibration`].
pub struct CalModel {
    pub spec: ModelSpec,
    pub freq_table: Seq<i64>,
    pub power_table: Seq<i32>,
    pub rows: Seq<Seq<u32>>,
}

impl View for DeviceCalibration {
    type V = CalModel;

    open spec fn view(&self) -> CalModel {
        CalModel {
            spec: self.spec,
            freq_table: self.freq_table@,
            power_table: self.power_table@,
            rows: self.voltage_table@.map_values(|row: Vec<u32>| row@),
        }
    }
}

/// Whether `c` is the calibration container of model `id`, as created.
pub open spec fn is_fresh_calibration(c: CalModel, id: u16) -> bool {
    &&& describes_model(c.spec, id)
    &&& c.freq_table == freq_table(id)
    &&& c.power_table == power_table(c.spec.power_min, c.spec.power_count)
    &&& c.rows == Seq::new(c.spec.freq_count as nat, |i: int| zero_row(c.spec.power_count as nat))
}

/// `c` with calibration row `row` replaced by `voltages`.
pub open spec fn with_row(c: CalModel, row: int, voltages: Seq<u32>) -> CalModel {
    CalModel {
        spec: c.spec,
        freq_table: c.freq_table,
        power_table: c.power_table,
        rows: c.rows.update(row, voltages),
    }
}

pub struct InitModel {
    pub rate: SamplingRate,
    pub phase: InitPhase,
    pub cal: Option<CalModel>,
}

/// A step that reports nothing and sends nothing.
pub open spec fn quiet(step: StepModel, next: NextModel) -> bool {
    step.events.len() == 0 && step.send is None && step.next == next
}

/// Whether `post` is `pre` with phase `phase` and the calibration untouched.
pub open spec fn moved_to(pre: InitModel, post: InitModel, phase: InitPhase) -> bool {
    post.rate == pre.rate && post.phase == phase && post.cal == pre.cal
}

/// One transition of the start-up machine: from `pre`, given outcome `o`,
/// the machine moves to `post` and takes `step`.
pub open spec fn init_transition(
    pre: InitModel,
    o: OutcomeModel,
    post: InitModel,
    step: StepModel,
) -> bool {
    match pre.phase {
        InitPhase::Querying => match o {
            OutcomeModel::Received(FrameModel::DeviceId { model_id, firmware_version, serial_number }) => {
                &&& step.events == seq![
                    EventModel::Connected {
                        model_id,
                        model_name: display_name(model_id),
                        firmware_version: firmware_text(firmware_version),
                        serial_number,
                    },
                ]
                &&& if is_known_model(model_id) {
                    &&& post.rate == pre.rate
                    &&& post.phase == InitPhase::Configuring { model_id }
                    &&& post.cal matches Some(c) && is_fresh_calibration(c, model_id)
                    &&& step.send == Some(frame_bytes(CMD_SET_CONFIG, seq![rate_index(pre.rate)]))
                    &&& step.next == NextModel::Await(FrameKind::ConfigAck)
                } else {
                    &&& moved_to(pre, post, InitPhase::Stopped)
                    &&& step.send is None
                    &&& step.next == NextModel::Abort(unknown_model_text(model_id))
                }
            },
            OutcomeModel::Received(_) => {
                &&& moved_to(pre, post, pre.phase)
                &&& quiet(step, NextModel::Await(FrameKind::DeviceId))
            },
            OutcomeModel::TimedOut => {
                &&& moved_to(pre, post, pre.phase)
                &&& step.events == seq![EventModel::Error(no_id_text())]
                &&& step.send == Some(frame_bytes(CMD_QUERY_ID, Seq::<u8>::empty()))
                &&& step.next == NextModel::Await(FrameKind::DeviceId)
            },
            OutcomeModel::Failed(msg) => {
                &&& moved_to(pre, post, InitPhase::Stopped)
                &&& quiet(step, NextModel::Abort(msg))
            },
        },
        InitPhase::Configuring { model_id } => match o {
            OutcomeModel::Received(FrameModel::ConfigAck { .. }) => {
                if pre.cal.unwrap().spec.freq_count > 0 {
                    &&& moved_to(pre, post, InitPhase::Loading { freq_index: 0, retries: 0 })
                    &&& step.events.len() == 0
                    &&& step.send == Some(read_calibration_frame(0))
                    &&& step.next == NextModel::Await(FrameKind::CalibrationData)
                } else {
                    &&& moved_to(pre, post, InitPhase::Streaming)
                    &&& step.events == seq![EventModel::Ready]
                    &&& step.send is None
                    &&& step.next == NextModel::Stream
                }
            },
            OutcomeModel::Received(_) => {
                &&& moved_to(pre, post, pre.phase)
                &&& quiet(step, NextModel::Await(FrameKind::ConfigAck))
            },
            OutcomeModel::TimedOut => {
                &&& moved_to(pre, post, pre.phase)
                &&& step.events == seq![EventModel::Error(no_ack_text())]
                &&& step.send == Some(frame_bytes(CMD_SET_CONFIG, seq![rate_index(pre.rate)]))
                &&& step.next == NextModel::Await(FrameKind::ConfigAck)
            },
            OutcomeModel::Failed(msg) => {
                &&& moved_to(pre, post, InitPhase::Stopped)
                &&& quiet(step, NextModel::Abort(msg))
            },
        },
        InitPhase::Loading { freq_index, retries } => match o {
            OutcomeModel::Received(FrameModel::CalibrationData { freq_index: row, voltages }) => {
                if row == freq_index {
                    let c = pre.cal.unwrap();
                    let loaded = (freq_index + 1) as usize;
                    let total = c.spec.freq_count;
                    &&& post.rate == pre.rate
                    &&& post.cal == Some(with_row(c, freq_index as int, voltages))
                    &&& if loaded < total {
                        &&& post.phase == InitPhase::Loading { freq_index: loaded, retries: 0 }
                        &&& step.events == seq![EventModel::CalibrationProgress { loaded, total }]
                        &&& step.send == Some(read_calibration_frame(loaded as nat))
                        &&& step.next == NextModel::Await(FrameKind::CalibrationData)
                    } else {
                        &&& post.phase == InitPhase::Streaming
                        &&& step.events == seq![
                            EventModel::CalibrationProgress { loaded, total },
                            EventModel::Ready,
                        ]
                        &&& step.send is None
                        &&& step.next == NextModel::Stream
                    }
                } else if retries + 1 < MAX_ROW_RETRIES {
                    &&& moved_to(
                        pre,
                        post,
                        InitPhase::Loading { freq_index, retries: (retries + 1) as u8 },
                    )
                    &&& quiet(step, NextModel::Await(FrameKind::CalibrationData))
                } else {
                    &&& moved_to(pre, post, InitPhase::Stopped)
                    &&& quiet(step, NextModel::Abort(row_failed_text(freq_index as nat)))
                }
            },
            OutcomeModel::Received(_) => {
                &&& moved_to(pre, post, pre.phase)
                &&& quiet(step, NextModel::Await(FrameKind::CalibrationData))
            },
            OutcomeModel::TimedOut => {
                &&& step.events.len() == 0
                &&& step.send == Some(read_calibration_frame(freq_index as nat))
                &&& if retries + 1 < MAX_ROW_RETRIES {
                    &&& moved_to(
                        pre,
                        post,
                        InitPhase::Loading { freq_index, retries: (retries + 1) as u8 },
                    )
                    &&& step.next == NextModel::Await(FrameKind::CalibrationData)
                } else {
                    &&& moved_to(pre, post, InitPhase::Stopped)
                    &&& step.next == NextModel::Abort(row_failed_text(freq_index as nat))
                }
            },
            OutcomeModel::Failed(msg) => {
                &&& moved_to(pre, post, InitPhase::Stopped)
                &&& quiet(step, NextModel::Abort(msg))
            },
        },
        InitPhase::Streaming => {
            &&& moved_to(pre, post, pre.phase)
            &&& quiet(step, NextModel::Stream)
        },
        InitPhase::Stopped => {
            &&& moved_to(pre, post, pre.phase)
            &&& quiet(step, NextModel::Halted)
        },
    }
}

/// What the machine holds at every stage.
pub open spec fn init_invariant(m: InitModel) -> bool {
    match m.phase {
        InitPhase::Querying => m.cal is None,
        InitPhase::Configuring { model_id } => {
            &&& is_known_model(model_id)
            &&& m.cal matches Some(c) && is_fresh_calibration(c, model_id)
        },
        InitPhase::Loading { freq_index, retries } => {
            &&& retries < MAX_ROW_RETRIES
            &&& m.cal matches Some(c) && {
                &&& is_known_model(c.spec.id)
                &&& describes_model(c.spec, c.spec.id)
                &&& c.rows.len() == c.spec.freq_count
                &&& freq_index < c.spec.freq_count
            }
        },
        InitPhase::Streaming => m.cal matches Some(c) && {
            &&& is_known_model(c.spec.id)
            &&& describes_model(c.spec, c.spec.id)
            &&& c.rows.len() == c.spec.freq_count
        },
        InitPhase::Stopped => true,
    }
}

/// The start-up machine for one connection.
pub struct DeviceInit {
    rate: SamplingRate,
    phase: InitPhase,
    calibration: Option<DeviceCalibration>,
}

impl View for DeviceInit {
    type V = InitModel;

    closed spec fn view(&self) -> InitModel {
        InitModel {
            rate: self.rate,
            phase: self.phase,
            cal: match self.calibration {
                Some(c) => Some(c@),
                None => None,
            },
        }
    }
}

impl DeviceInit {
    pub closed spec fn wf(&self) -> bool {
        &&& init_invariant(self@)
        &&& self.calibration matches Some(c) ==> c.voltage_table@.len() == c@.rows.len()
    }

    /// A machine about to ask for the meter's identity; `rate` is the
    /// sampling rate it will configure.
    pub fn new(rate: SamplingRate) -> (r: Self)
        ensures
            r.wf(),
            r@ == (InitModel { rate, phase: InitPhase::Querying, cal: None }),
    {
        Self { rate, phase: InitPhase::Querying, calibration: None }
    }

    /// The opening step: ask for the meter's identity.
    pub fn start(&self) -> (r: Step)
        ensures
            r@.events.len() == 0,
            r@.send == Some(frame_bytes(CMD_QUERY_ID, Seq::<u8>::empty())),
            r@.next == NextModel::Await(FrameKind::DeviceId),
    {
        let step = Step {
            events: Vec::new(),
            send: Some(build_query_id()),
            next: Next::Await(FrameKind::DeviceId),
        };
        assert(step@.events =~= Seq::<EventModel>::empty());
        step
    }

    /// Where start-up stands.
    pub fn phase(&self) -> (r: InitPhase)
        ensures
            r == self@.phase,
    {
        self.phase
    }

    /// The calibration loaded so far, handed over for streaming.
    pub fn into_calibration(self) -> (r: Option<DeviceCalibration>)
        ensures
            match r {
                Some(c) => self@.cal == Some(c@),
                None => self@.cal is None,
            },
    {
        self.calibration
    }
    /// Advances start-up by what came of the last wait.
    pub fn on_outcome(&mut self, outcome: WaitOutcome) -> (r: Step)
        requires
            old(self).wf(),
        ensures
            final(self).wf(),
            init_transition(old(self)@, outcome@, final(self)@, r@),
    {
        match self.phase {
            InitPhase::Querying => self.on_querying(outcome),
            InitPhase::Configuring { model_id } => self.on_configuring(model_id, outcome),
            InitPhase::Loading { freq_index, retries } => self.on_loading(
                freq_index,
                retries,
                outcome,
            ),
            InitPhase::Streaming => quiet_step(Next::Stream),
            InitPhase::Stopped => quiet_step(Next::Halted),
        }
    }

    fn on_querying(&mut self, outcome: WaitOutcome) -> (r: Step)
        requires
            old(self).wf(),
            old(self).phase == InitPhase::Querying,
        ensures
            final(self).wf(),
            init_transition(old(self)@, outcome@, final(self)@, r@),
    {
        match outcome {
            WaitOutcome::Received(frame) => match frame {
                Frame::DeviceId { model_id, firmware_version, serial_number } => {
                    let model_name = model_display_name(model_id);
                    let firmware_version = format_firmware_version(firmware_version);
                    let mut events: Vec<InitEvent> = Vec::new();
                    events.push(
                        InitEvent::Connected {
                            model_id,
                            model_name,
                            firmware_version,
                            serial_number,
                        },
                    );
                    match DeviceCalibration::new(model_id) {
                        Some(cal) => {
                            assert(cal@.rows =~= Seq::new(
                                cal.spec.freq_count as nat,
                                |i: int| zero_row(cal.spec.power_count as nat),
                            ));
                            self.phase = InitPhase::Configuring { model_id };
                            self.calibration = Some(cal);
                            let step = Step {
                                events,
                                send: Some(build_set_config(self.rate)),
                                next: Next::Await(FrameKind::ConfigAck),
                            };
                            assert(step@.events =~= seq![events@[0]@]);
                            step
                        },
                        None => {
                            self.phase = InitPhase::Stopped;
                            let step = Step {
                                events,
                                send: None,
                                next: Next::Abort(unknown_model_message(model_id)),
                            };
                            assert(step@.events =~= seq![events@[0]@]);
                            step
                        },
                    }
                },
                _ => quiet_step(Next::Await(FrameKind::DeviceId)),
            },
            WaitOutcome::TimedOut => {
                let mut text = String::new();
                text.append("No response to device ID query, retrying...");
                let mut events: Vec<InitEvent> = Vec::new();
                events.push(InitEvent::Error(text));
                let step = Step {
                    events,
                    send: Some(build_query_id()),
                    next: Next::Await(FrameKind::DeviceId),
                };
                assert(step@.events =~= seq![events@[0]@]);
                step
            },
            WaitOutcome::Failed(msg) => {
                self.phase = InitPhase::Stopped;
                quiet_step(Next::Abort(msg))
            },
        }
    }

    fn on_configuring(&mut self, model_id: u16, outcome: WaitOutcome) -> (r: Step)
        requires
            old(self).wf(),
            old(self).phase == (InitPhase::Configuring { model_id }),
        ensures
            final(self).wf(),
            init_transition(old(self)@, outcome@, final(self)@, r@),
    {
        match outcome {
            WaitOutcome::Received(frame) => match frame {
                Frame::ConfigAck { .. } => {
                    let count = match &self.calibration {
                        Some(cal) => cal.spec.freq_count,
                        None => 0,
                    };
                    if count > 0 {
                        self.phase = InitPhase::Loading { freq_index: 0, retries: 0 };
                        let step = Step {
                            events: Vec::new(),
                            send: Some(build_read_calibration(0)),
                            next: Next::Await(FrameKind::CalibrationData),
                        };
                        assert(step@.events =~= Seq::<EventModel>::empty());
                        step
                    } else {
                        self.phase = InitPhase::Streaming;
                        let mut events: Vec<InitEvent> = Vec::new();
                        events.push(InitEvent::Ready);
                        let step = Step { events, send: None, next: Next::Stream };
                        assert(step@.events =~= seq![EventModel::Ready]);
                        step
                    }
                },
                _ => quiet_step(Next::Await(FrameKind::ConfigAck)),
            },
            WaitOutcome::TimedOut => {
                let mut text = String::new();
                text.append("No config acknowledgment, retrying...");
                let mut events: Vec<InitEvent> = Vec::new();
                events.push(InitEvent::Error(text));
                let step = Step {
                    events,
                    send: Some(build_set_config(self.rate)),
                    next: Next::Await(FrameKind::ConfigAck),
                };
                assert(step@.events =~= seq![events@[0]@]);
                step
            },
            WaitOutcome::Failed(msg) => {
                self.phase = InitPhase::Stopped;
                quiet_step(Next::Abort(msg))
            },
        }
    }

    fn on_loading(&mut self, freq_index: usize, retries: u8, outcome: WaitOutcome) -> (r: Step)
        requires
            old(self).wf(),
            old(self).phase == (InitPhase::Loading { freq_index, retries }),
        ensures
            final(self).wf(),
            init_transition(old(self)@, outcome@, final(self)@, r@),
    {
        match outcome {
            WaitOutcome::Received(frame) => match frame {
                Frame::CalibrationData { freq_index: row, voltages } => {
                    if row as usize == freq_index {
                        let mut cal = self.calibration.take().unwrap();
                        let ghost before = cal@;
                        cal.set_calibration_row(freq_index, voltages);
                        assert(cal@.rows =~= before.rows.update(freq_index as int, voltages@));
                        let loaded = freq_index + 1;
                        let total = cal.spec.freq_count;
                        self.calibration = Some(cal);
                        let mut events: Vec<InitEvent> = Vec::new();
                        events.push(InitEvent::CalibrationProgress { loaded, total });
                        if loaded < total {
                            self.phase = InitPhase::Loading { freq_index: loaded, retries: 0 };
                            let step = Step {
                                events,
                                send: Some(build_read_calibration(loaded as u16)),
                                next: Next::Await(FrameKind::CalibrationData),
                            };
                            assert(step@.events =~= seq![
                                EventModel::CalibrationProgress { loaded, total },
                            ]);
                            step
                        } else {
                            self.phase = InitPhase::Streaming;
                            events.push(InitEvent::Ready);
                            let step = Step { events, send: None, next: Next::Stream };
                            assert(step@.events =~= seq![
                                EventModel::CalibrationProgress { loaded, total },
                                EventModel::Ready,
                            ]);
                            step
                        }
                    } else if retries + 1 < MAX_ROW_RETRIES {
                        self.phase = InitPhase::Loading { freq_index, retries: retries + 1 };
                        quiet_step(Next::Await(FrameKind::CalibrationData))
                    } else {
                        self.phase = InitPhase::Stopped;
                        quiet_step(Next::Abort(row_failed_message(freq_index)))
                    }
                },
                _ => quiet_step(Next::Await(FrameKind::CalibrationData)),
            },
            WaitOutcome::TimedOut => {
                let send = Some(build_read_calibration(freq_index as u16));
                if retries + 1 < MAX_ROW_RETRIES {
                    self.phase = InitPhase::Loading { freq_index, retries: retries + 1 };
                    let step = Step {
                        events: Vec::new(),
                        send,
                        next: Next::Await(FrameKind::CalibrationData),
                    };
                    assert(step@.events =~= Seq::<EventModel>::empty());
                    step
                } else {
                    self.phase = InitPhase::Stopped;
                    let step = Step {
                        events: Vec::new(),
                        send,
                        next: Next::Abort(row_failed_message(freq_index)),
                    };
                    assert(step@.events =~= Seq::<EventModel>::empty());
                    step
                }
            },
            WaitOutcome::Failed(msg) => {
                self.phase = InitPhase::Stopped;
                quiet_step(Next::Abort(msg))
            },
        }
    }
}

/// A step that reports nothing, sends nothing, and goes on with `next`.
fn quiet_step(next: Next) -> (r: Step)
    ensures
        r@.events.len() == 0,
        r@.send is None,
        r@.next == next@,
{
    Step { events: Vec::new(), send: None, next }
}

// ---------------------------------------------------------------------------
// Laws
// ---------------------------------------------------------------------------

/// Every transition keeps the machine's invariant: a row being loaded lies
/// within the calibration table, a row is never waited for more than three
/// times, and streaming only starts with a complete table.
pub proof fn law_transition_keeps_invariant(
    pre: InitModel,
    o: OutcomeModel,
    post: InitModel,
    step: StepModel,
)
    requires
        init_invariant(pre),
        init_transition(pre, o, post, step),
    ensures
        init_invariant(post),
{
}

/// The sampling rate a machine configures is the one it was created with:
/// no transition changes it, and every rate request it sends carries it.
pub proof fn law_rate_is_fixed(pre: InitModel, o: OutcomeModel, post: InitModel, step: StepModel)
    requires
        init_transition(pre, o, post, step),
    ensures
        post.rate == pre.rate,
        forall|r: u8|
            step.send == Some(frame_bytes(CMD_SET_CONFIG, seq![r])) ==> r == rate_index(pre.rate),
{
    assert forall|r: u8|
        step.send == Some(frame_bytes(CMD_SET_CONFIG, seq![r])) implies r == rate_index(
            pre.rate,
        ) by {
        let sent = frame_bytes(CMD_SET_CONFIG, seq![r]);
        assert(sent[5] == r);
        match step.send {
            Some(bytes) => {
                if bytes == frame_bytes(CMD_QUERY_ID, Seq::<u8>::empty()) {
                    assert(bytes[2] == CMD_QUERY_ID);
                } else if exists|row: nat| bytes == #[trigger] read_calibration_frame(row) {
                    let row = choose|row: nat| bytes == #[trigger] read_calibration_frame(row);
                    assert(bytes[2] == CMD_READ_CALIBRATION);
                } else {
                    assert(bytes == frame_bytes(CMD_SET_CONFIG, seq![rate_index(pre.rate)]));
                    assert(bytes[5] == rate_index(pre.rate));
                }
            },
            None => {},
        }
    }
}

/// While loading, the machine always waits for a row of the model's table
/// that fits the 16-bit row index of a request, and every calibration
/// request it sends asks for exactly the row it then waits for.
pub proof fn law_calibration_requests_match_awaited_row(
    pre: InitModel,
    o: OutcomeModel,
    post: InitModel,
    step: StepModel,
)
    requires
        init_invariant(pre),
        init_transition(pre, o, post, step),
        post.phase matches InitPhase::Loading { .. },
    ensures
        post.phase matches InitPhase::Loading { freq_index, .. } && {
            &&& freq_index < post.cal.unwrap().spec.freq_count <= u16::MAX
            &&& step.send is Some ==> step.send == Some(read_calibration_frame(freq_index as nat))
        },
{
    law_transition_keeps_invariant(pre, o, post, step);
}

/// Each calibration row gets attempts of its own: once the awaited row
/// arrives, the machine waits for the next row with no failures counted,
/// however many attempts the row before it took; and a row is given up only
/// after its third failed wait.
pub proof fn law_each_row_starts_with_fresh_retries(
    pre: InitModel,
    o: OutcomeModel,
    post: InitModel,
    step: StepModel,
    freq_index: usize,
    retries: u8,
    voltages: Seq<u32>,
)
    requires
        init_invariant(pre),
        pre.phase == (InitPhase::Loading { freq_index, retries }),
        init_transition(pre, o, post, step),
    ensures
        o == OutcomeModel::Received(
            FrameModel::CalibrationData { freq_index: freq_index as u16, voltages },
        ) ==> post.phase == (InitPhase::Loading { freq_index: (freq_index + 1) as usize, retries: 0 })
            || post.phase == InitPhase::Streaming,
        post.phase == InitPhase::Stopped && !(o is Failed) ==> retries == 2,
        retries < 2 && o is TimedOut ==> post.phase == (InitPhase::Loading {
            freq_index,
            retries: (retries + 1) as u8,
        }),
{
}

/// A stopped machine stays stopped: it sends nothing and reports nothing.
pub proof fn law_stopped_is_final(pre: InitModel, o: OutcomeModel, post: InitModel, step: StepModel)
    requires
        pre.phase == InitPhase::Stopped,
        init_transition(pre, o, post, step),
    ensures
        post == pre,
        step.events.len() == 0,
        step.send is None,
        step.next == NextModel::Halted,
{
}

/// Whether `ms`, `os` and `steps` form a run of the machine: `ms[i + 1]`
/// and `steps[i]` follow from `ms[i]` and outcome `os[i]`.
pub open spec fn is_run(ms: Seq<InitModel>, os: Seq<OutcomeModel>, steps: Seq<StepModel>) -> bool {
    &&& ms.len() == os.len() + 1
    &&& steps.len() == os.len()
    &&& forall|i: int|
        0 <= i < os.len() ==> #[trigger] init_transition(ms[i], os[i], ms[i + 1], steps[i])
}

/// Whether, among the first `upto` outcomes, rows `0..n` of `c` each arrived
/// in a calibration frame that carried that row's index.
pub open spec fn rows_delivered(c: CalModel, os: Seq<OutcomeModel>, upto: int, n: int) -> bool {
    forall|j: int| 0 <= j < n ==> #[trigger] row_delivered(c, os, upto, j)
}

/// Whether, among the first `upto` outcomes, row `j` of `c` arrived in a
/// calibration frame that carried index `j`.
pub open spec fn row_delivered(c: CalModel, os: Seq<OutcomeModel>, upto: int, j: int) -> bool {
    exists|i: int|
        0 <= i < upto && #[trigger] os[i] == OutcomeModel::Received(
            FrameModel::CalibrationData { freq_index: j as u16, voltages: c.rows[j] },
        )
}

/// The rows a machine state claims to have loaded were all delivered.
pub open spec fn loaded_rows_delivered(m: InitModel, os: Seq<OutcomeModel>, upto: int) -> bool {
    match m.phase {
        InitPhase::Loading { freq_index, .. } => rows_delivered(
            m.cal.unwrap(),
            os,
            upto,
            freq_index as int,
        ),
        InitPhase::Streaming => rows_delivered(
            m.cal.unwrap(),
            os,
            upto,
            m.cal.unwrap().spec.freq_count as int,
        ),
        _ => true,
    }
}

proof fn lemma_rows_delivered_later(c: CalModel, os: Seq<OutcomeModel>, upto: int, n: int)
    requires
        rows_delivered(c, os, upto, n),
    ensures
        rows_delivered(c, os, upto + 1, n),
{
    assert forall|j: int| 0 <= j < n implies #[trigger] row_delivered(c, os, upto + 1, j) by {
        assert(row_delivered(c, os, upto, j));
        let i = choose|i: int|
            0 <= i < upto && #[trigger] os[i] == OutcomeModel::Received(
                FrameModel::CalibrationData { freq_index: j as u16, voltages: c.rows[j] },
            );
        assert(0 <= i < upto + 1);
    }
}

proof fn lemma_run_prefix(ms: Seq<InitModel>, os: Seq<OutcomeModel>, steps: Seq<StepModel>, k: int)
    requires
        is_run(ms, os, steps),
        ms[0].phase == InitPhase::Querying,
        ms[0].cal is None,
        0 <= k <= os.len(),
    ensures
        init_invariant(ms[k]),
        loaded_rows_delivered(ms[k], os, k),
    decreases k,
{
    if k > 0 {
        lemma_run_prefix(ms, os, steps, k - 1);
        let pre = ms[k - 1];
        let post = ms[k];
        let t = k - 1;
        assert(init_transition(ms[t], os[t], ms[t + 1], steps[t]));
        assert(ms[t + 1] == post);
        law_transition_keeps_invariant(pre, os[k - 1], post, steps[k - 1]);
        match pre.phase {
            InitPhase::Loading { freq_index, retries } => {
                let c = pre.cal.unwrap();
                let c2 = post.cal.unwrap();
                match os[k - 1] {
                    OutcomeModel::Received(FrameModel::CalibrationData { freq_index: row, voltages }) => {
                        if row == freq_index {
                            let n = freq_index + 1;
                            assert forall|j: int| 0 <= j < n implies #[trigger] row_delivered(
                                c2,
                                os,
                                k,
                                j,
                            ) by {
                                if j < freq_index {
                                    assert(row_delivered(c, os, k - 1, j));
                                    let i = choose|i: int|
                                        0 <= i < k - 1 && #[trigger] os[i]
                                            == OutcomeModel::Received(
                                            FrameModel::CalibrationData {
                                                freq_index: j as u16,
                                                voltages: c.rows[j],
                                            },
                                        );
                                    assert(c2.rows[j] == c.rows[j]);
                                    assert(os[i] == OutcomeModel::Received(
                                        FrameModel::CalibrationData {
                                            freq_index: j as u16,
                                            voltages: c2.rows[j],
                                        },
                                    ));
                                } else {
                                    assert(j == freq_index);
                                    assert(c2.rows[j] == voltages);
                                    assert(os[k - 1] == OutcomeModel::Received(
                                        FrameModel::CalibrationData {
                                            freq_index: j as u16,
                                            voltages: c2.rows[j],
                                        },
                                    ));
                                }
                            }
                        } else if post.phase != InitPhase::Stopped {
                            lemma_rows_delivered_later(c, os, k - 1, freq_index as int);
                        }
                    },
                    _ => {
                        if post.phase != InitPhase::Stopped {
                            lemma_rows_delivered_later(c, os, k - 1, freq_index as int);
                        }
                    },
                }
            },
            InitPhase::Streaming => {
                let c = pre.cal.unwrap();
                lemma_rows_delivered_later(c, os, k - 1, c.spec.freq_count as int);
            },
            _ => {
            },
        }
    }
}

/// Streaming starts only with a complete calibration table, every row of
/// which arrived from the meter in a frame carrying that row's index: a
/// run from a fresh machine that ends streaming holds, for each row `j` of
/// the table, an outcome that delivered exactly that row as row `j`.
pub proof fn law_streaming_rows_come_from_their_frames(
    ms: Seq<InitModel>,
    os: Seq<OutcomeModel>,
    steps: Seq<StepModel>,
)
    requires
        is_run(ms, os, steps),
        ms[0].phase == InitPhase::Querying,
        ms[0].cal is None,
        ms.last().phase == InitPhase::Streaming,
    ensures
        ms.last().cal matches Some(c) && {
            &&& c.rows.len() == c.spec.freq_count
            &&& rows_delivered(c, os, os.len() as int, c.spec.freq_count as int)
        },
{
    lemma_run_prefix(ms, os, steps, os.len() as int);
}

} // verus!
