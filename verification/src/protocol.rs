//! The binary framing used by RPM-series power meters on the serial line.
//!
//! Every frame is `55 AA CMD LEN ~LEN DATA.. CHK`, where `CHK` is the sum of
//! the bytes from `CMD` through the end of `DATA`, truncated to eight bits.
//! Multi-byte integers are big-endian; calibration voltages are IEEE 754
//! single-precision values sent least-significant byte first, and are carried
//! here as their raw 32-bit patterns.
use crate::text::decimal;
use vstd::prelude::*;

verus! {

pub const SYNC1: u8 = 0x55;

pub const SYNC2: u8 = 0xAA;

pub const CMD_QUERY_ID: u8 = 0x80;

pub const CMD_SET_CONFIG: u8 = 0x83;

pub const CMD_WRITE_CALIBRATION: u8 = 0x85;

pub const CMD_READ_CALIBRATION: u8 = 0x86;

pub const CMD_RESP_ID: u8 = 0x00;

pub const CMD_RESP_CONFIG: u8 = 0x03;

pub const CMD_RESP_CALIBRATION: u8 = 0x05;

pub const CMD_POWER_DATA: u8 = 0x06;

/// Sampling rates the meter supports, in the order of their wire index.
#[derive(Debug, Clone, Copy, PartialEq, Eq, Structural)]
pub enum SamplingRate {
    Hz10,
    Hz40,
    Hz640,
    Hz1280,
}

/// The wire index of a sampling rate (0 for 10 Hz through 3 for 1280 Hz).
pub open spec fn rate_index(rate: SamplingRate) -> u8 {
    match rate {
        SamplingRate::Hz10 => 0,
        SamplingRate::Hz40 => 1,
        SamplingRate::Hz640 => 2,
        SamplingRate::Hz1280 => 3,
    }
}

/// The sampling rate with wire index `idx`, if there is one.
pub open spec fn rate_from_index(idx: u8) -> Option<SamplingRate> {
    if idx == 0 {
        Some(SamplingRate::Hz10)
    } else if idx == 1 {
        Some(SamplingRate::Hz40)
    } else if idx == 2 {
        Some(SamplingRate::Hz640)
    } else if idx == 3 {
        Some(SamplingRate::Hz1280)
    } else {
        None
    }
}

/// The human-readable label of a sampling rate.
pub open spec fn rate_label(rate: SamplingRate) -> Seq<char> {
    match rate {
        SamplingRate::Hz10 => "10 Hz"@,
        SamplingRate::Hz40 => "40 Hz"@,
        SamplingRate::Hz640 => "640 Hz"@,
        SamplingRate::Hz1280 => "1280 Hz"@,
    }
}

/// The rate that follows `rate` when cycling: 10 -> 40 -> 640 -> 1280 -> 10 Hz.
pub open spec fn rate_successor(rate: SamplingRate) -> SamplingRate {
    match rate {
        SamplingRate::Hz10 => SamplingRate::Hz40,
        SamplingRate::Hz40 => SamplingRate::Hz640,
        SamplingRate::Hz640 => SamplingRate::Hz1280,
        SamplingRate::Hz1280 => SamplingRate::Hz10,
    }
}

impl SamplingRate {
    /// Looks up a sampling rate by its wire index; `None` above 3.
    pub fn from_index(idx: u8) -> (r: Option<Self>)
        ensures
            r == rate_from_index(idx),
            r is Some <==> idx <= 3,
    {
        match idx {
            0 => Some(Self::Hz10),
            1 => Some(Self::Hz40),
            2 => Some(Self::Hz640),
            3 => Some(Self::Hz1280),
            _ => None,
        }
    }

    /// The wire index of this rate.
    pub fn index(&self) -> (r: u8)
        ensures
            r == rate_index(*self),
    {
        match self {
            Self::Hz10 => 0,
            Self::Hz40 => 1,
            Self::Hz640 => 2,
            Self::Hz1280 => 3,
        }
    }

    /// A label for display, such as `"640 Hz"`.
    pub fn label(&self) -> (r: &'static str)
        ensures
            r@ == rate_label(*self),
    {
        match self {
            Self::Hz10 => "10 Hz",
            Self::Hz40 => "40 Hz",
            Self::Hz640 => "640 Hz",
            Self::Hz1280 => "1280 Hz",
        }
    }

    /// The next rate in the cycle 10 -> 40 -> 640 -> 1280 -> 10 Hz.
    pub fn next(&self) -> (r: Self)
        ensures
            r == rate_successor(*self),
    {
        match self {
            Self::Hz10 => Self::Hz40,
            Self::Hz40 => Self::Hz640,
            Self::Hz640 => Self::Hz1280,
            Self::Hz1280 => Self::Hz10,
        }
    }
}

/// The sum of a sequence of bytes, as an unbounded integer.
pub open spec fn byte_sum(data: Seq<u8>) -> int
    decreases data.len(),
{
    if data.len() == 0 {
        0
    } else {
        byte_sum(data.drop_last()) + data.last()
    }
}

/// The checksum of a frame: `CMD + LEN + ~LEN + DATA..`, truncated to eight bits.
pub open spec fn frame_checksum(cmd: u8, len: u8, data: Seq<u8>) -> u8 {
    ((cmd + len + (255 - len) + byte_sum(data)) % 256) as u8
}

/// The bytes of a frame carrying `cmd` and `data` (of at most 255 bytes).
pub open spec fn frame_bytes(cmd: u8, data: Seq<u8>) -> Seq<u8>
    recommends
        data.len() <= 255,
{
    let len = data.len() as u8;
    seq![SYNC1, SYNC2, cmd, len, (255 - len) as u8] + data + seq![
        frame_checksum(cmd, len, data),
    ]
}

/// Computes the frame checksum over `cmd`, `len`, `~len` and `data`.
pub fn checksum(cmd: u8, len: u8, data: &[u8]) -> (r: u8)
    ensures
        r == frame_checksum(cmd, len, data@),
{
    let inv_len = !len;
    assert(inv_len == 255 - len) by (bit_vector)
        requires
            inv_len == !len,
    ;
    let mut sum = cmd.wrapping_add(len).wrapping_add(inv_len);
    let mut i: usize = 0;
    while i < data.len()
        invariant
            0 <= i <= data@.len(),
            sum as int == (cmd + len + inv_len + byte_sum(data@.take(i as int))) % 256,
        decreases data@.len() - i,
    {
        let b = data[i];
        assert(data@.take(i + 1).drop_last() == data@.take(i as int));
        sum = sum.wrapping_add(b);
        i = i + 1;
    }
    assert(data@.take(i as int) == data@);
    sum
}

/// Frames `data` (at most 255 bytes) under command `cmd`.
fn build_frame(cmd: u8, data: &[u8]) -> (r: Vec<u8>)
    requires
        data@.len() <= 255,
    ensures
        r@ == frame_bytes(cmd, data@),
{
    let len = data.len() as u8;
    let chk = checksum(cmd, len, data);
    let inv_len = !len;
    assert(inv_len == 255 - len) by (bit_vector)
        requires
            inv_len == !len,
    ;
    let mut frame: Vec<u8> = Vec::new();
    frame.push(SYNC1);
    frame.push(SYNC2);
    frame.push(cmd);
    frame.push(len);
    frame.push(inv_len);
    let mut i: usize = 0;
    while i < data.len()
        invariant
            0 <= i <= data@.len(),
            frame@ == seq![SYNC1, SYNC2, cmd, len, inv_len] + data@.take(i as int),
        decreases data@.len() - i,
    {
        frame.push(data[i]);
        i = i + 1;
        assert(frame@ == seq![SYNC1, SYNC2, cmd, len, inv_len] + data@.take(i as int));
    }
    assert(data@.take(i as int) == data@);
    frame.push(chk);
    frame
}

/// The request for the meter's identification.
pub fn build_query_id() -> (r: Vec<u8>)
    ensures
        r@ == frame_bytes(CMD_QUERY_ID, Seq::<u8>::empty()),
{
    let data: [u8; 0] = [];
    build_frame(CMD_QUERY_ID, &data)
}

/// The request that sets the sampling rate.
pub fn build_set_config(rate: SamplingRate) -> (r: Vec<u8>)
    ensures
        r@ == frame_bytes(CMD_SET_CONFIG, seq![rate_index(rate)]),
{
    let data: [u8; 1] = [rate.index()];
    assert(data@ == seq![rate_index(rate)]);
    build_frame(CMD_SET_CONFIG, &data)
}

/// The request for the calibration row at `freq_index` (sent big-endian).
pub fn build_read_calibration(freq_index: u16) -> (r: Vec<u8>)
    ensures
        r@ == frame_bytes(
            CMD_READ_CALIBRATION,
            seq![(freq_index / 256) as u8, (freq_index % 256) as u8],
        ),
{
    let data: [u8; 2] = [(freq_index / 256) as u8, (freq_index % 256) as u8];
    assert(data@ == seq![(freq_index / 256) as u8, (freq_index % 256) as u8]);
    build_frame(CMD_READ_CALIBRATION, &data)
}


/// A big-endian 16-bit value at `off`.
pub open spec fn be_u16_at(data: Seq<u8>, off: int) -> u16 {
    (data[off] * 256 + data[off + 1]) as u16
}

/// A big-endian 32-bit value at `off`.
pub open spec fn be_u32_at(data: Seq<u8>, off: int) -> u32 {
    (data[off] * 16777216 + data[off + 1] * 65536 + data[off + 2] * 256 + data[off + 3]) as u32
}

/// A little-endian 32-bit value at `off`.
pub open spec fn le_u32_at(data: Seq<u8>, off: int) -> u32 {
    (data[off] + data[off + 1] * 256 + data[off + 2] * 65536 + data[off + 3] * 16777216) as u32
}

/// A frame from the meter, decoded.
#[derive(Debug, Clone, PartialEq)]
pub enum Frame {
    DeviceId { model_id: u16, firmware_version: u16, serial_number: u32 },
    ConfigAck { rate: SamplingRate },
    /// One row of the calibration table; each voltage is the bit pattern of
    /// an IEEE 754 single-precision value.
    CalibrationData { freq_index: u16, voltages: Vec<u32> },
    PowerData { adc_value: u32 },
}

/// The mathematical content of a [`Frame`].
pub enum FrameModel {
    DeviceId { model_id: u16, firmware_version: u16, serial_number: u32 },
    ConfigAck { rate: SamplingRate },
    CalibrationData { freq_index: u16, voltages: Seq<u32> },
    PowerData { adc_value: u32 },
}

impl View for Frame {
    type V = FrameModel;

    open spec fn view(&self) -> FrameModel {
        match self {
            Frame::DeviceId { model_id, firmware_version, serial_number } => FrameModel::DeviceId {
                model_id: *model_id,
                firmware_version: *firmware_version,
                serial_number: *serial_number,
            },
            Frame::ConfigAck { rate } => FrameModel::ConfigAck { rate: *rate },
            Frame::CalibrationData { freq_index, voltages } => FrameModel::CalibrationData {
                freq_index: *freq_index,
                voltages: voltages@,
            },
            Frame::PowerData { adc_value } => FrameModel::PowerData { adc_value: *adc_value },
        }
    }
}

/// The four kinds of frame the meter sends.
#[derive(Debug, Clone, Copy, PartialEq, Eq, Structural)]
pub enum FrameKind {
    DeviceId,
    ConfigAck,
    CalibrationData,
    PowerData,
}

/// The kind of a decoded frame.
pub open spec fn kind_of(f: FrameModel) -> FrameKind {
    match f {
        FrameModel::DeviceId { .. } => FrameKind::DeviceId,
        FrameModel::ConfigAck { .. } => FrameKind::ConfigAck,
        FrameModel::CalibrationData { .. } => FrameKind::CalibrationData,
        FrameModel::PowerData { .. } => FrameKind::PowerData,
    }
}

impl Frame {
    /// Which kind of frame this is.
    pub fn kind(&self) -> (r: FrameKind)
        ensures
            r == kind_of(self@),
    {
        match self {
            Frame::DeviceId { .. } => FrameKind::DeviceId,
            Frame::ConfigAck { .. } => FrameKind::ConfigAck,
            Frame::CalibrationData { .. } => FrameKind::CalibrationData,
            Frame::PowerData { .. } => FrameKind::PowerData,
        }
    }
}

/// The content of an optional frame.
pub open spec fn frame_opt_view(f: Option<Frame>) -> Option<FrameModel> {
    match f {
        Some(frame) => Some(frame@),
        None => None,
    }
}

/// What the payload `data` of a checksum-valid frame under `cmd` decodes to.
/// Payloads of unknown commands, or of the wrong length, decode to nothing.
pub open spec fn decode_payload(cmd: u8, data: Seq<u8>) -> Option<FrameModel> {
    if cmd == CMD_RESP_ID && data.len() == 8 {
        Some(
            FrameModel::DeviceId {
                model_id: be_u16_at(data, 0),
                firmware_version: be_u16_at(data, 2),
                serial_number: be_u32_at(data, 4),
            },
        )
    } else if cmd == CMD_RESP_CONFIG && data.len() == 1 {
        match rate_from_index(data[0]) {
            Some(rate) => Some(FrameModel::ConfigAck { rate }),
            None => None,
        }
    } else if cmd == CMD_RESP_CALIBRATION && data.len() >= 6 {
        Some(
            FrameModel::CalibrationData {
                freq_index: be_u16_at(data, 0),
                voltages: Seq::new(
                    ((data.len() - 2) / 4) as nat,
                    |i: int| le_u32_at(data, 2 + 4 * i),
                ),
            },
        )
    } else if cmd == CMD_POWER_DATA && data.len() == 4 {
        Some(FrameModel::PowerData { adc_value: be_u32_at(data, 0) })
    } else {
        None
    }
}

/// Whether the sync pair `55 AA` starts at position `i` of `buf`.
pub open spec fn is_sync_at(buf: Seq<u8>, i: int) -> bool {
    0 <= i && i + 1 < buf.len() && buf[i] == SYNC1 && buf[i + 1] == SYNC2
}

/// The first position at or after `from` where a sync pair starts.
pub open spec fn sync_from(buf: Seq<u8>, from: nat) -> Option<nat>
    decreases buf.len() - from,
{
    if from + 1 >= buf.len() {
        None
    } else if buf[from as int] == SYNC1 && buf[from + 1int] == SYNC2 {
        Some(from)
    } else {
        sync_from(buf, from + 1)
    }
}

proof fn lemma_sync_from(buf: Seq<u8>, from: nat)
    ensures
        match sync_from(buf, from) {
            Some(p) => from <= p && is_sync_at(buf, p as int) && forall|j: int|
                from <= j < p ==> !is_sync_at(buf, j),
            None => forall|j: int| from <= j ==> !is_sync_at(buf, j),
        },
    decreases buf.len() - from,
{
    if from + 1 >= buf.len() {
    } else if buf[from as int] == SYNC1 && buf[from + 1int] == SYNC2 {
    } else {
        lemma_sync_from(buf, from + 1);
    }
}

/// How far a frame starting at the front of `b` extends: `LEN + 6`.
pub open spec fn frame_extent(b: Seq<u8>) -> int {
    b[3] + 6
}

/// One pass of the frame scanner over `buf`: the frame it yields, if any,
/// and what stays buffered afterwards.
///
/// Bytes before the first sync pair are dropped. A candidate whose `~LEN`
/// or checksum does not match loses its sync pair and the scan goes on; a
/// valid frame whose payload does not decode is dropped whole and the scan
/// goes on. An incomplete candidate is kept, and so is a buffer without any
/// sync pair.
pub open spec fn scan(buf: Seq<u8>) -> (Option<FrameModel>, Seq<u8>)
    decreases buf.len(),
{
    match sync_from(buf, 0) {
        Some(p) if p + 1 < buf.len() => {
            let b = buf.skip(p as int);
            if b.len() < 5 {
                (None, b)
            } else if b[4] != 255 - b[3] {
                scan(b.skip(2))
            } else if b.len() < frame_extent(b) {
                (None, b)
            } else if b[frame_extent(b) - 1] != frame_checksum(
                b[2],
                b[3],
                b.subrange(5, frame_extent(b) - 1),
            ) {
                scan(b.skip(2))
            } else {
                match decode_payload(b[2], b.subrange(5, frame_extent(b) - 1)) {
                    Some(f) => (Some(f), b.skip(frame_extent(b))),
                    None => scan(b.skip(frame_extent(b))),
                }
            }
        },
        _ => (None, buf),
    }
}

/// Accumulates bytes from the serial line and cuts them into frames.
pub struct FrameParser {
    buf: Vec<u8>,
}

impl View for FrameParser {
    type V = Seq<u8>;

    /// The bytes received and not yet consumed.
    closed spec fn view(&self) -> Seq<u8> {
        self.buf@
    }
}

impl FrameParser {
    /// A parser with nothing buffered.
    pub fn new() -> (r: Self)
        ensures
            r@ == Seq::<u8>::empty(),
    {
        Self { buf: Vec::with_capacity(512) }
    }

    /// Appends received bytes to the buffer.
    pub fn feed(&mut self, data: &[u8])
        ensures
            final(self)@ == old(self)@ + data@,
    {
        let mut i: usize = 0;
        while i < data.len()
            invariant
                0 <= i <= data@.len(),
                self.buf@ == old(self)@ + data@.take(i as int),
            decreases data@.len() - i,
        {
            self.buf.push(data[i]);
            i = i + 1;
            assert(self.buf@ == old(self)@ + data@.take(i as int));
        }
        assert(data@.take(i as int) == data@);
    }

    /// Position of the first sync pair in the buffer.
    fn find_sync(&self) -> (r: Option<usize>)
        ensures
            match r {
                Some(p) => sync_from(self.buf@, 0) == Some(p as nat),
                None => sync_from(self.buf@, 0) is None,
            },
    {
        let n = self.buf.len();
        if n < 2 {
            return None;
        }
        let mut i: usize = 0;
        while i < n - 1
            invariant
                n == self.buf@.len(),
                n >= 2,
                0 <= i <= n - 1,
                sync_from(self.buf@, 0) == sync_from(self.buf@, i as nat),
            decreases n - i,
        {
            if self.buf[i] == SYNC1 && self.buf[i + 1] == SYNC2 {
                return Some(i);
            }
            i = i + 1;
        }
        None
    }

    /// Drops the first `n` buffered bytes.
    fn discard(&mut self, n: usize)
        requires
            n <= old(self).buf@.len(),
        ensures
            final(self).buf@ == old(self).buf@.skip(n as int),
    {
        let rest = self.buf.split_off(n);
        self.buf = rest;
    }

    /// Takes the next decodable frame out of the buffer, dropping garbage,
    /// corrupt candidates and undecodable frames on the way.
    pub fn next_frame(&mut self) -> (r: Option<Frame>)
        ensures
            frame_opt_view(r) == scan(old(self)@).0,
            final(self)@ == scan(old(self)@).1,
    {
        loop
            invariant
                scan(self.buf@) == scan(old(self)@),
            decreases self.buf@.len(),
        {
            let ghost cur = self.buf@;
            let sync_pos = match self.find_sync() {
                Some(p) => p,
                None => {
                    return None;
                },
            };
            proof {
                lemma_sync_from(cur, 0);
            }
            if sync_pos > 0 {
                self.discard(sync_pos);
            }
            assert(self.buf@ == cur.skip(sync_pos as int));
            if self.buf.len() < 5 {
                assert(scan(cur).1 == cur.skip(sync_pos as int));
                return None;
            }
            let cmd = self.buf[2];
            let len = self.buf[3] as usize;
            let inv_len = self.buf[4];
            let len8 = self.buf[3];
            let not_len = !len8;
            assert(not_len == 255 - len8) by (bit_vector)
                requires
                    not_len == !len8,
            ;
            if inv_len != not_len {
                assert(scan(cur) == scan(cur.skip(sync_pos as int).skip(2)));
                self.discard(2);
                continue ;
            }
            let frame_len = 5 + len + 1;
            if self.buf.len() < frame_len {
                return None;
            }
            let data = &self.buf.as_slice()[5..5 + len];
            let expected_chk = checksum(cmd, len8, data);
            let actual_chk = self.buf[5 + len];
            if expected_chk != actual_chk {
                self.discard(2);
                continue ;
            }
            let frame = self.parse_payload(cmd, data);
            self.discard(frame_len);
            if let Some(f) = frame {
                return Some(f);
            }
        }
    }

    /// Decodes the payload of a checksum-valid frame.
    fn parse_payload(&self, cmd: u8, data: &[u8]) -> (r: Option<Frame>)
        ensures
            frame_opt_view(r) == decode_payload(cmd, data@),
    {
        if cmd == CMD_RESP_ID && data.len() == 8 {
            let model_id = be_u16(data, 0);
            let firmware_version = be_u16(data, 2);
            let serial_number = be_u32(data, 4);
            Some(Frame::DeviceId { model_id, firmware_version, serial_number })
        } else if cmd == CMD_RESP_CONFIG && data.len() == 1 {
            match SamplingRate::from_index(data[0]) {
                Some(rate) => Some(Frame::ConfigAck { rate }),
                None => None,
            }
        } else if cmd == CMD_RESP_CALIBRATION && data.len() >= 6 {
            let freq_index = be_u16(data, 0);
            let dlen = data.len();
            let num_voltages = (dlen - 2) / 4;
            assert(4 * num_voltages + 2 <= dlen);
            let mut voltages: Vec<u32> = Vec::with_capacity(num_voltages);
            let mut i: usize = 0;
            while i < num_voltages
                invariant
                    num_voltages == (data@.len() - 2) / 4,
                    data@.len() >= 6,
                    4 * num_voltages + 2 <= dlen,
                    dlen == data@.len(),
                    0 <= i <= num_voltages,
                    voltages@ == Seq::new(i as nat, |k: int| le_u32_at(data@, 2 + 4 * k)),
                decreases num_voltages - i,
            {
                assert(2 + i * 4 + 4 <= dlen) by (nonlinear_arith)
                    requires
                        i < num_voltages,
                        4 * num_voltages + 2 <= dlen,
                ;
                let offset = 2 + i * 4;
                voltages.push(le_u32(data, offset));
                i = i + 1;
                assert(voltages@ == Seq::new(i as nat, |k: int| le_u32_at(data@, 2 + 4 * k)));
            }
            proof {
                let want = decode_payload(cmd, data@);
                assert(want == Some(
                    FrameModel::CalibrationData { freq_index, voltages: voltages@ },
                ));
            }
            Some(Frame::CalibrationData { freq_index, voltages })
        } else if cmd == CMD_POWER_DATA && data.len() == 4 {
            let adc_value = be_u32(data, 0);
            Some(Frame::PowerData { adc_value })
        } else {
            None
        }
    }
}

/// Reads a big-endian 16-bit value.
fn be_u16(data: &[u8], off: usize) -> (r: u16)
    requires
        off + 2 <= data@.len(),
    ensures
        r == be_u16_at(data@, off as int),
{
    (data[off] as u16) * 256 + (data[off + 1] as u16)
}

/// Reads a big-endian 32-bit value.
fn be_u32(data: &[u8], off: usize) -> (r: u32)
    requires
        off + 4 <= data@.len(),
    ensures
        r == be_u32_at(data@, off as int),
{
    (data[off] as u32) * 16777216 + (data[off + 1] as u32) * 65536 + (data[off + 2] as u32) * 256
        + (data[off + 3] as u32)
}

/// Reads a little-endian 32-bit value.
fn le_u32(data: &[u8], off: usize) -> (r: u32)
    requires
        off + 4 <= data@.len(),
    ensures
        r == le_u32_at(data@, off as int),
{
    (data[off] as u32) + (data[off + 1] as u32) * 256 + (data[off + 2] as u32) * 65536 + (data[off
        + 3] as u32) * 16777216
}

/// Where the first sync pair at or after `from` starts, when one is known to
/// start at `q` and none starts in between.
proof fn lemma_sync_from_first(buf: Seq<u8>, from: nat, q: nat)
    requires
        from <= q,
        is_sync_at(buf, q as int),
        forall|j: int| from <= j < q ==> !is_sync_at(buf, j),
    ensures
        sync_from(buf, from) == Some(q),
    decreases q - from,
{
    if from < q {
        assert(!is_sync_at(buf, from as int));
        lemma_sync_from_first(buf, from + 1, q);
    }
}

proof fn lemma_byte_sum_concat(a: Seq<u8>, b: Seq<u8>)
    ensures
        byte_sum(a + b) == byte_sum(a) + byte_sum(b),
    decreases b.len(),
{
    if b.len() == 0 {
        assert(a + b =~= a);
    } else {
        lemma_byte_sum_concat(a, b.drop_last());
        assert((a + b).drop_last() =~= a + b.drop_last());
    }
}

/// The last byte of every frame the host builds is the sum of the bytes from
/// `CMD` through the end of `DATA`, truncated to eight bits.
pub proof fn law_frame_checksum_covers_header_and_data(cmd: u8, data: Seq<u8>)
    requires
        data.len() <= 255,
    ensures
        ({
            let f = frame_bytes(cmd, data);
            f.last() as int == byte_sum(f.subrange(2, f.len() - 1)) % 256
        }),
{
    let f = frame_bytes(cmd, data);
    let len = data.len() as u8;
    let head = seq![cmd, len, (255 - len) as u8];
    assert(f.len() == data.len() + 6);
    assert(f.subrange(2, f.len() - 1) =~= head + data);
    lemma_byte_sum_concat(head, data);
    assert(byte_sum(head) == cmd + len + (255 - len)) by {
        reveal_with_fuel(byte_sum, 4);
        assert(head.drop_last().drop_last().drop_last() =~= Seq::<u8>::empty());
        assert(head.drop_last().drop_last() =~= seq![cmd]);
        assert(head.drop_last() =~= seq![cmd, len]);
    }
}

/// A complete frame at the front of the buffer is taken whole: when its
/// payload decodes, the scan yields exactly that frame and keeps what
/// follows it; when it does not, the frame is dropped and the scan carries
/// on with what follows.
pub proof fn law_scan_takes_leading_frame(cmd: u8, data: Seq<u8>, rest: Seq<u8>)
    requires
        data.len() <= 255,
    ensures
        decode_payload(cmd, data) is Some ==> scan(frame_bytes(cmd, data) + rest) == (
            decode_payload(cmd, data),
            rest,
        ),
        decode_payload(cmd, data) is None ==> scan(frame_bytes(cmd, data) + rest) == scan(rest),
{
    let buf = frame_bytes(cmd, data) + rest;
    let n = data.len() as int;
    assert(is_sync_at(buf, 0));
    lemma_sync_from_first(buf, 0, 0);
    assert(buf.skip(0) =~= buf);
    assert(buf[3] == data.len());
    assert(frame_extent(buf) == n + 6);
    assert(buf.subrange(5, n + 5) =~= data);
    assert(buf.skip(n + 6) =~= rest);
}

/// Bytes that hold no sync pair, in front of a buffer that starts with one,
/// change nothing about what the scan yields or keeps.
pub proof fn law_scan_skips_leading_noise(noise: Seq<u8>, buf: Seq<u8>)
    requires
        is_sync_at(buf, 0),
        forall|i: int| 0 <= i < noise.len() ==> !is_sync_at(noise + buf, i),
    ensures
        scan(noise + buf) == scan(buf),
{
    let all = noise + buf;
    assert(is_sync_at(all, noise.len() as int));
    lemma_sync_from_first(all, 0, noise.len());
    lemma_sync_from_first(buf, 0, 0);
    assert(all.skip(noise.len() as int) =~= buf);
    assert(buf.skip(0) =~= buf);
}

/// What a scan keeps is always a suffix of what it was given: received
/// bytes are only ever dropped from the front, never reordered or altered.
pub proof fn law_scan_keeps_a_suffix(buf: Seq<u8>)
    ensures
        exists|k: int| 0 <= k <= buf.len() && #[trigger] buf.skip(k) == scan(buf).1,
    decreases buf.len(),
{
    match sync_from(buf, 0) {
        Some(p) if p + 1 < buf.len() => {
            let b = buf.skip(p as int);
            if b.len() < 5 {
                assert(buf.skip(p as int) == scan(buf).1);
            } else if b[4] != 255 - b[3] {
                law_scan_keeps_a_suffix(b.skip(2));
                let k = choose|k: int| 0 <= k <= b.skip(2).len() && #[trigger] b.skip(2).skip(k) == scan(b.skip(2)).1;
                assert(buf.skip(p + 2 + k) =~= b.skip(2).skip(k));
            } else if b.len() < frame_extent(b) {
                assert(buf.skip(p as int) == scan(buf).1);
            } else if b[frame_extent(b) - 1] != frame_checksum(
                b[2],
                b[3],
                b.subrange(5, frame_extent(b) - 1),
            ) {
                law_scan_keeps_a_suffix(b.skip(2));
                let k = choose|k: int| 0 <= k <= b.skip(2).len() && #[trigger] b.skip(2).skip(k) == scan(b.skip(2)).1;
                assert(buf.skip(p + 2 + k) =~= b.skip(2).skip(k));
            } else {
                let e = frame_extent(b);
                match decode_payload(b[2], b.subrange(5, e - 1)) {
                    Some(f) => {
                        assert(buf.skip(p + e) =~= b.skip(e));
                    },
                    None => {
                        law_scan_keeps_a_suffix(b.skip(e));
                        let k = choose|k: int| 0 <= k <= b.skip(e).len() && #[trigger] b.skip(e).skip(k) == scan(b.skip(e)).1;
                        assert(buf.skip(p + e + k) =~= b.skip(e).skip(k));
                    },
                }
            }
        },
        _ => {
            assert(buf.skip(0) =~= buf);
        },
    }
}

/// A frame that has only partly arrived yields nothing, and every byte of
/// it stays buffered until the rest comes in.
pub proof fn law_partial_frame_is_kept(cmd: u8, data: Seq<u8>, k: int)
    requires
        data.len() <= 255,
        0 <= k < frame_bytes(cmd, data).len(),
    ensures
        scan(frame_bytes(cmd, data).take(k)) == (None::<FrameModel>, frame_bytes(cmd, data).take(k)),
{
    let pre = frame_bytes(cmd, data).take(k);
    if k >= 2 {
        assert(is_sync_at(pre, 0));
        lemma_sync_from_first(pre, 0, 0);
        assert(pre.skip(0) =~= pre);
    } else {
        lemma_sync_from(pre, 0);
    }
}

/// Every sampling rate survives the trip through its wire index.
pub proof fn law_rate_index_roundtrip(rate: SamplingRate)
    ensures
        rate_from_index(rate_index(rate)) == Some(rate),
        rate_index(rate) <= 3,
{
}

/// Cycling the sampling rate visits all four rates and returns to the start
/// after four steps.
pub proof fn law_rate_cycle(rate: SamplingRate)
    ensures
        rate_successor(rate_successor(rate_successor(rate_successor(rate)))) == rate,
        rate_successor(rate) != rate,
        rate_successor(rate_successor(rate)) != rate,
        rate_successor(rate_successor(rate_successor(rate))) != rate,
{
}

/// The two big-endian bytes of `v`.
pub open spec fn be16_bytes(v: u16) -> Seq<u8> {
    seq![(v / 256) as u8, (v % 256) as u8]
}

/// The four big-endian bytes of `v`.
pub open spec fn be32_bytes(v: u32) -> Seq<u8> {
    seq![(v / 16777216) as u8, ((v / 65536) % 256) as u8, ((v / 256) % 256) as u8, (v % 256) as u8]
}

/// The four little-endian bytes of `v`.
pub open spec fn le32_bytes(v: u32) -> Seq<u8> {
    seq![(v % 256) as u8, ((v / 256) % 256) as u8, ((v / 65536) % 256) as u8, (v / 16777216) as u8]
}

/// The little-endian bytes of each of `words`, in order.
pub open spec fn le_words(words: Seq<u32>) -> Seq<u8>
    decreases words.len(),
{
    if words.len() == 0 {
        Seq::empty()
    } else {
        le_words(words.drop_last()) + le32_bytes(words.last())
    }
}

proof fn lemma_le_words(words: Seq<u32>)
    ensures
        le_words(words).len() == 4 * words.len(),
        forall|k: int| 0 <= k < words.len() ==> #[trigger] le_u32_at(le_words(words), 4 * k) == words[k],
    decreases words.len(),
{
    if words.len() > 0 {
        let init = words.drop_last();
        lemma_le_words(init);
        let bytes = le_words(words);
        let v = words.last();
        assert forall|k: int| 0 <= k < words.len() implies #[trigger] le_u32_at(bytes, 4 * k) == words[k] by {
            if k < init.len() {
                assert(le_u32_at(le_words(init), 4 * k) == init[k]);
                assert(bytes.subrange(4 * k, 4 * k + 4) == le_words(init).subrange(4 * k, 4 * k + 4));
            } else {
                assert(bytes[4 * k] == (v % 256) as u8);
                assert(bytes[4 * k + 1] == ((v / 256) % 256) as u8);
                assert(bytes[4 * k + 2] == ((v / 65536) % 256) as u8);
                assert(bytes[4 * k + 3] == (v / 16777216) as u8);
            }
        }
    }
}

/// An identity response laid out as the protocol documents it (model,
/// firmware version and serial number, each big-endian) decodes to exactly
/// those three values.
pub proof fn law_device_id_roundtrip(model_id: u16, firmware_version: u16, serial_number: u32)
    ensures
        decode_payload(
            CMD_RESP_ID,
            be16_bytes(model_id) + be16_bytes(firmware_version) + be32_bytes(serial_number),
        ) == Some(FrameModel::DeviceId { model_id, firmware_version, serial_number }),
{
    let data = be16_bytes(model_id) + be16_bytes(firmware_version) + be32_bytes(serial_number);
    assert(data.len() == 8);
    assert(data[0] == (model_id / 256) as u8 && data[1] == (model_id % 256) as u8);
    assert(data[2] == (firmware_version / 256) as u8 && data[3] == (firmware_version % 256) as u8);
    assert(data[4] == (serial_number / 16777216) as u8);
    assert(data[5] == ((serial_number / 65536) % 256) as u8);
    assert(data[6] == ((serial_number / 256) % 256) as u8);
    assert(data[7] == (serial_number % 256) as u8);
}

/// A power reading sent big-endian decodes to the same ADC value.
pub proof fn law_power_data_roundtrip(adc_value: u32)
    ensures
        decode_payload(CMD_POWER_DATA, be32_bytes(adc_value)) == Some(
            FrameModel::PowerData { adc_value },
        ),
{
}

/// The meter's acknowledgment, which echoes the rate index it was sent,
/// decodes to the rate that was requested.
pub proof fn law_config_echo_roundtrip(rate: SamplingRate)
    ensures
        decode_payload(CMD_RESP_CONFIG, seq![rate_index(rate)]) == Some(
            FrameModel::ConfigAck { rate },
        ),
{
}

/// A calibration row (a big-endian row index, then each voltage's bits
/// little-endian) decodes to the same index and the same voltages.
pub proof fn law_calibration_row_roundtrip(freq_index: u16, voltages: Seq<u32>)
    requires
        voltages.len() >= 1,
    ensures
        decode_payload(CMD_RESP_CALIBRATION, be16_bytes(freq_index) + le_words(voltages)) == Some(
            FrameModel::CalibrationData { freq_index, voltages },
        ),
{
    lemma_le_words(voltages);
    let words = le_words(voltages);
    let data = be16_bytes(freq_index) + words;
    assert(data.len() == 2 + 4 * voltages.len());
    assert((data.len() - 2) / 4 == voltages.len());
    assert forall|k: int| 0 <= k < voltages.len() implies le_u32_at(data, 2 + 4 * k) == voltages[k] by {
        assert(le_u32_at(words, 4 * k) == voltages[k]);
        assert(data[2 + 4 * k] == words[4 * k]);
        assert(data[2 + 4 * k + 1] == words[4 * k + 1]);
        assert(data[2 + 4 * k + 2] == words[4 * k + 2]);
        assert(data[2 + 4 * k + 3] == words[4 * k + 3]);
    }
    assert(Seq::new(((data.len() - 2) / 4) as nat, |i: int| le_u32_at(data, 2 + 4 * i)) =~= voltages);
}

/// The sampling frequency of a rate, in Hz.
pub open spec fn rate_hz(rate: SamplingRate) -> nat {
    match rate {
        SamplingRate::Hz10 => 10,
        SamplingRate::Hz40 => 40,
        SamplingRate::Hz640 => 640,
        SamplingRate::Hz1280 => 1280,
    }
}

/// Wire indices run 0 to 3 in order of increasing sampling frequency, so
/// index 0 is the slowest rate (10 Hz) and index 3 the fastest (1280 Hz);
/// each rate's label is its frequency in Hz.
pub proof fn law_rate_index_follows_frequency(a: SamplingRate, b: SamplingRate)
    ensures
        rate_hz(a) < rate_hz(b) <==> rate_index(a) < rate_index(b),
        rate_index(a) <= 3,
        rate_hz(a) == 10 <==> rate_index(a) == 0,
        rate_hz(a) == 1280 <==> rate_index(a) == 3,
        rate_label(a) == decimal(rate_hz(a)) + " Hz"@,
{
    reveal_strlit("10 Hz");
    reveal_strlit("40 Hz");
    reveal_strlit("640 Hz");
    reveal_strlit("1280 Hz");
    reveal_strlit(" Hz");
    reveal_with_fuel(decimal, 5);
    assert(rate_label(a) =~= decimal(rate_hz(a)) + " Hz"@);
}

/// A frame whose sync pair and `~LEN` are right but whose checksum is not
/// loses only its two sync bytes: the scan goes on from the byte after
/// them, so a valid frame that starts inside the damaged one's claimed
/// length is still found.
pub proof fn law_checksum_failure_drops_only_sync(damaged: Seq<u8>, rest: Seq<u8>)
    requires
        damaged.len() >= 6,
        damaged[0] == SYNC1,
        damaged[1] == SYNC2,
        damaged[4] == 255 - damaged[3],
        damaged.len() == damaged[3] + 6,
        damaged.last() != frame_checksum(
            damaged[2],
            damaged[3],
            damaged.subrange(5, damaged.len() - 1),
        ),
    ensures
        scan(damaged + rest) == scan(damaged.skip(2) + rest),
{
    let buf = damaged + rest;
    assert(is_sync_at(buf, 0));
    lemma_sync_from_first(buf, 0, 0);
    assert(buf.skip(0) =~= buf);
    assert(buf.subrange(5, frame_extent(buf) - 1) =~= damaged.subrange(5, damaged.len() - 1));
    assert(buf[frame_extent(buf) - 1] == damaged.last());
    assert(buf.skip(2) =~= damaged.skip(2) + rest);
}

/// A candidate whose `~LEN` byte does not invert its `LEN` byte likewise
/// loses only its two sync bytes.
pub proof fn law_length_mismatch_drops_only_sync(head: Seq<u8>, rest: Seq<u8>)
    requires
        head.len() == 5,
        head[0] == SYNC1,
        head[1] == SYNC2,
        head[4] != 255 - head[3],
    ensures
        scan(head + rest) == scan(head.skip(2) + rest),
{
    let buf = head + rest;
    assert(is_sync_at(buf, 0));
    lemma_sync_from_first(buf, 0, 0);
    assert(buf.skip(0) =~= buf);
    assert(buf.skip(2) =~= head.skip(2) + rest);
}

/// A decoded frame's kind names the reply it is: identity responses are
/// `DeviceId`, configuration acknowledgments `ConfigAck`, calibration rows
/// `CalibrationData` and readings `PowerData`; so the kind tells which
/// response command the frame came in.
pub proof fn law_kind_names_the_reply(cmd: u8, data: Seq<u8>, f: FrameModel)
    requires
        decode_payload(cmd, data) == Some(f),
    ensures
        cmd == CMD_RESP_ID <==> kind_of(f) == FrameKind::DeviceId,
        cmd == CMD_RESP_CONFIG <==> kind_of(f) == FrameKind::ConfigAck,
        cmd == CMD_RESP_CALIBRATION <==> kind_of(f) == FrameKind::CalibrationData,
        cmd == CMD_POWER_DATA <==> kind_of(f) == FrameKind::PowerData,
        f matches FrameModel::DeviceId { .. } ==> kind_of(f) == FrameKind::DeviceId,
        f matches FrameModel::ConfigAck { .. } ==> kind_of(f) == FrameKind::ConfigAck,
        f matches FrameModel::CalibrationData { .. } ==> kind_of(f)
            == FrameKind::CalibrationData,
        f matches FrameModel::PowerData { .. } ==> kind_of(f) == FrameKind::PowerData,
{
}

} // verus!
