//! RF power meter models, their frequency and power tables, and the
//! calibration data a connected meter hands over.
//!
//! Each of the eight supported models has a fixed set of parameters and an
//! algorithmically generated frequency table that matches the meter's own
//! firmware. Power levels are carried in tenths of a dBm, which holds the
//! 2.5 dB calibration grid exactly; calibration voltages are carried as the
//! bit patterns of the IEEE 754 single-precision values the meter sends.
use vstd::prelude::*;

verus! {

/// Specification of a single RF power meter model.
#[derive(Debug, Clone)]
pub struct ModelSpec {
    pub id: u16,
    pub name: &'static str,
    pub sensor: &'static str,
    /// Number of calibration frequencies.
    pub freq_count: usize,
    /// Number of calibration power levels, 2.5 dB apart.
    pub power_count: usize,
    /// Lowest calibrated power, in dBm.
    pub power_min: i32,
    /// Highest calibrated power, in dBm.
    pub power_max: i32,
}

/// Whether `id` names one of the supported models.
pub open spec fn is_known_model(id: u16) -> bool {
    101 <= id <= 108
}

pub open spec fn model_name(id: u16) -> Seq<char> {
    if id == 101 {
        "RPM-20GS"@
    } else if id == 102 {
        "RPM-3GS"@
    } else if id == 103 {
        "RPM-9G"@
    } else if id == 104 {
        "RPM-20GS v2"@
    } else if id == 105 {
        "RPM-3GS v2"@
    } else if id == 106 {
        "RPM-9G v2"@
    } else if id == 107 {
        "RPM-6GH"@
    } else {
        "RPM-20GS OPT260"@
    }
}

pub open spec fn model_sensor(id: u16) -> Seq<char> {
    if id == 102 || id == 105 {
        "AD8362"@
    } else if id == 103 || id == 106 {
        "ARW22347"@
    } else if id == 107 {
        "ARW22283"@
    } else {
        "ARW28340"@
    }
}

pub open spec fn model_freq_count(id: u16) -> nat {
    if id == 101 {
        202
    } else if id == 102 {
        33
    } else if id == 103 {
        92
    } else if id == 104 {
        218
    } else if id == 105 {
        58
    } else if id == 106 {
        99
    } else if id == 107 {
        69
    } else if id == 108 {
        283
    } else {
        0
    }
}

pub open spec fn model_power_count(id: u16) -> nat {
    if id == 102 || id == 105 {
        25
    } else if id == 107 {
        41
    } else {
        21
    }
}

pub open spec fn model_power_min(id: u16) -> int {
    if id == 102 || id == 105 {
        -50
    } else if id == 107 {
        -80
    } else {
        -40
    }
}

pub open spec fn model_power_max(id: u16) -> int {
    if id == 107 {
        20
    } else {
        10
    }
}

/// Whether `spec` holds the parameters of model `id`.
pub open spec fn describes_model(spec: ModelSpec, id: u16) -> bool {
    &&& spec.id == id
    &&& spec.name@ == model_name(id)
    &&& spec.sensor@ == model_sensor(id)
    &&& spec.freq_count == model_freq_count(id)
    &&& spec.power_count == model_power_count(id)
    &&& spec.power_min == model_power_min(id)
    &&& spec.power_max == model_power_max(id)
}

/// Entry `k` of the frequency table of model `id`, in Hz.
pub open spec fn freq_value(id: u16, k: int) -> int {
    if id == 101 || id == 103 {
        if k == 0 {
            10_000_000
        } else if k == 1 {
            50_000_000
        } else {
            100_000_000 * (k - 1)
        }
    } else if id == 102 {
        if k == 0 {
            50
        } else if k == 1 {
            10_000_000
        } else if k == 2 {
            50_000_000
        } else {
            100_000_000 * (k - 2)
        }
    } else if id == 104 || id == 108 {
        if k < 18 {
            10_000_000 + 5_000_000 * k
        } else {
            100_000_000 * (k - 17)
        }
    } else if id == 105 {
        if k == 0 {
            50
        } else if k < 10 {
            100_000 * k
        } else if k < 19 {
            1_000_000 * (k - 9)
        } else if k < 28 {
            10_000_000 * (k - 18)
        } else {
            100_000_000 * (k - 27)
        }
    } else {
        if k < 9 {
            10_000_000 + 10_000_000 * k
        } else {
            100_000_000 * (k - 8)
        }
    }
}

/// The frequency table of model `id` (empty for unknown models).
pub open spec fn freq_table(id: u16) -> Seq<i64> {
    Seq::new(model_freq_count(id), |k: int| freq_value(id, k) as i64)
}

/// The power table that starts at `power_min` dBm and has `count` levels
/// 2.5 dB apart, in tenths of a dBm.
pub open spec fn power_table(power_min: i32, count: usize) -> Seq<i32> {
    Seq::new(count as nat, |i: int| (power_min * 10 + 25 * i) as i32)
}

/// Whether the power table of `spec` fits in `i32` tenths of a dBm.
pub open spec fn power_table_fits(spec: ModelSpec) -> bool {
    &&& i32::MIN <= spec.power_min * 10
    &&& spec.power_min * 10 + 25 * spec.power_count <= i32::MAX
}

impl ModelSpec {
    /// Looks up a model specification by its numeric ID (101..=108).
    /// Returns `None` for unknown IDs.
    pub fn from_id(id: u16) -> (r: Option<Self>)
        ensures
            r is Some <==> is_known_model(id),
            r matches Some(spec) ==> describes_model(spec, id),
    {
        let spec = match id {
            101 => ModelSpec {
                id: 101,
                name: "RPM-20GS",
                sensor: "ARW28340",
                freq_count: 202,
                power_count: 21,
                power_min: -40,
                power_max: 10,
            },
            102 => ModelSpec {
                id: 102,
                name: "RPM-3GS",
                sensor: "AD8362",
                freq_count: 33,
                power_count: 25,
                power_min: -50,
                power_max: 10,
            },
            103 => ModelSpec {
                id: 103,
                name: "RPM-9G",
                sensor: "ARW22347",
                freq_count: 92,
                power_count: 21,
                power_min: -40,
                power_max: 10,
            },
            104 => ModelSpec {
                id: 104,
                name: "RPM-20GS v2",
                sensor: "ARW28340",
                freq_count: 218,
                power_count: 21,
                power_min: -40,
                power_max: 10,
            },
            105 => ModelSpec {
                id: 105,
                name: "RPM-3GS v2",
                sensor: "AD8362",
                freq_count: 58,
                power_count: 25,
                power_min: -50,
                power_max: 10,
            },
            106 => ModelSpec {
                id: 106,
                name: "RPM-9G v2",
                sensor: "ARW22347",
                freq_count: 99,
                power_count: 21,
                power_min: -40,
                power_max: 10,
            },
            107 => ModelSpec {
                id: 107,
                name: "RPM-6GH",
                sensor: "ARW22283",
                freq_count: 69,
                power_count: 41,
                power_min: -80,
                power_max: 20,
            },
            108 => ModelSpec {
                id: 108,
                name: "RPM-20GS OPT260",
                sensor: "ARW28340",
                freq_count: 283,
                power_count: 21,
                power_min: -40,
                power_max: 10,
            },
            _ => return None,
        };
        Some(spec)
    }

    /// Builds the frequency table of this model, in Hz.
    pub fn build_freq_table(&self) -> (r: Vec<i64>)
        ensures
            r@ == freq_table(self.id),
    {
        match self.id {
            101 => build_freq_table_101(),
            102 => build_freq_table_102(),
            103 => build_freq_table_103(),
            104 => build_freq_table_104(),
            105 => build_freq_table_105(),
            106 => build_freq_table_106(),
            107 => build_freq_table_107(),
            108 => build_freq_table_108(),
            _ => {
                assert(freq_table(self.id) =~= Seq::<i64>::empty());
                Vec::new()
            },
        }
    }

    /// Builds the power table of this model: `power_min + index * 2.5` dBm,
    /// in tenths of a dBm.
    pub fn build_power_table(&self) -> (r: Vec<i32>)
        requires
            power_table_fits(*self),
        ensures
            r@ == power_table(self.power_min, self.power_count),
    {
        let mut t: Vec<i32> = Vec::new();
        let base = self.power_min * 10;
        let mut i: usize = 0;
        while i < self.power_count
            invariant
                power_table_fits(*self),
                base == self.power_min * 10,
                0 <= i <= self.power_count,
                t@ == power_table(self.power_min, i),
            decreases self.power_count - i,
        {
            let level = base as i64 + 25 * (i as i64);
            t.push(level as i32);
            i = i + 1;
            assert(t@ =~= power_table(self.power_min, i));
        }
        t
    }
}

} // verus!

verus! {

/// Frequency table of model 101: 10 MHz, 50 MHz, then 100 MHz steps up to 20 GHz.
pub fn build_freq_table_101() -> (t: Vec<i64>)
    ensures
        t@ == freq_table(101),
{
    let mut t: Vec<i64> = Vec::with_capacity(202);
    let mut k: usize = 0;
    while k < 1
        invariant
            0 <= k <= 1,
            t@.len() == k,
            forall|j: int| 0 <= j < k ==> t@[j] == freq_value(101, j) as i64,
        decreases 1 - k,
    {
        t.push(10_000_000);
        k = k + 1;
    }
    let mut k: usize = 1;
    while k < 2
        invariant
            1 <= k <= 2,
            t@.len() == k,
            forall|j: int| 0 <= j < k ==> t@[j] == freq_value(101, j) as i64,
        decreases 2 - k,
    {
        t.push(50_000_000);
        k = k + 1;
    }
    let mut k: usize = 2;
    while k < 202
        invariant
            2 <= k <= 202,
            t@.len() == k,
            forall|j: int| 0 <= j < k ==> t@[j] == freq_value(101, j) as i64,
        decreases 202 - k,
    {
        t.push(100_000_000 * (k as i64 - 1));
        k = k + 1;
    }
    assert(t@ =~= freq_table(101));
    t
}

/// Frequency table of model 102: 50 Hz, 10 MHz, 50 MHz, then 100 MHz steps up to 3 GHz.
pub fn build_freq_table_102() -> (t: Vec<i64>)
    ensures
        t@ == freq_table(102),
{
    let mut t: Vec<i64> = Vec::with_capacity(33);
    let mut k: usize = 0;
    while k < 1
        invariant
            0 <= k <= 1,
            t@.len() == k,
            forall|j: int| 0 <= j < k ==> t@[j] == freq_value(102, j) as i64,
        decreases 1 - k,
    {
        t.push(50);
        k = k + 1;
    }
    let mut k: usize = 1;
    while k < 2
        invariant
            1 <= k <= 2,
            t@.len() == k,
            forall|j: int| 0 <= j < k ==> t@[j] == freq_value(102, j) as i64,
        decreases 2 - k,
    {
        t.push(10_000_000);
        k = k + 1;
    }
    let mut k: usize = 2;
    while k < 3
        invariant
            2 <= k <= 3,
            t@.len() == k,
            forall|j: int| 0 <= j < k ==> t@[j] == freq_value(102, j) as i64,
        decreases 3 - k,
    {
        t.push(50_000_000);
        k = k + 1;
    }
    let mut k: usize = 3;
    while k < 33
        invariant
            3 <= k <= 33,
            t@.len() == k,
            forall|j: int| 0 <= j < k ==> t@[j] == freq_value(102, j) as i64,
        decreases 33 - k,
    {
        t.push(100_000_000 * (k as i64 - 2));
        k = k + 1;
    }
    assert(t@ =~= freq_table(102));
    t
}

/// Frequency table of model 103: 10 MHz, 50 MHz, then 100 MHz steps up to 9 GHz.
pub fn build_freq_table_103() -> (t: Vec<i64>)
    ensures
        t@ == freq_table(103),
{
    let mut t: Vec<i64> = Vec::with_capacity(92);
    let mut k: usize = 0;
    while k < 1
        invariant
            0 <= k <= 1,
            t@.len() == k,
            forall|j: int| 0 <= j < k ==> t@[j] == freq_value(103, j) as i64,
        decreases 1 - k,
    {
        t.push(10_000_000);
        k = k + 1;
    }
    let mut k: usize = 1;
    while k < 2
        invariant
            1 <= k <= 2,
            t@.len() == k,
            forall|j: int| 0 <= j < k ==> t@[j] == freq_value(103, j) as i64,
        decreases 2 - k,
    {
        t.push(50_000_000);
        k = k + 1;
    }
    let mut k: usize = 2;
    while k < 92
        invariant
            2 <= k <= 92,
            t@.len() == k,
            forall|j: int| 0 <= j < k ==> t@[j] == freq_value(103, j) as i64,
        decreases 92 - k,
    {
        t.push(100_000_000 * (k as i64 - 1));
        k = k + 1;
    }
    assert(t@ =~= freq_table(103));
    t
}

/// Frequency table of model 104: 5 MHz steps from 10 MHz to 95 MHz, then 100 MHz steps up to 20 GHz.
pub fn build_freq_table_104() -> (t: Vec<i64>)
    ensures
        t@ == freq_table(104),
{
    let mut t: Vec<i64> = Vec::with_capacity(218);
    let mut k: usize = 0;
    while k < 18
        invariant
            0 <= k <= 18,
            t@.len() == k,
            forall|j: int| 0 <= j < k ==> t@[j] == freq_value(104, j) as i64,
        decreases 18 - k,
    {
        t.push(10_000_000 + 5_000_000 * k as i64);
        k = k + 1;
    }
    let mut k: usize = 18;
    while k < 218
        invariant
            18 <= k <= 218,
            t@.len() == k,
            forall|j: int| 0 <= j < k ==> t@[j] == freq_value(104, j) as i64,
        decreases 218 - k,
    {
        t.push(100_000_000 * (k as i64 - 17));
        k = k + 1;
    }
    assert(t@ =~= freq_table(104));
    t
}

/// Frequency table of model 105: 50 Hz, then decades of steps: 100 kHz .. 900 kHz, 1 MHz .. 9 MHz, 10 MHz .. 90 MHz, and 100 MHz .. 3 GHz.
pub fn build_freq_table_105() -> (t: Vec<i64>)
    ensures
        t@ == freq_table(105),
{
    let mut t: Vec<i64> = Vec::with_capacity(58);
    let mut k: usize = 0;
    while k < 1
        invariant
            0 <= k <= 1,
            t@.len() == k,
            forall|j: int| 0 <= j < k ==> t@[j] == freq_value(105, j) as i64,
        decreases 1 - k,
    {
        t.push(50);
        k = k + 1;
    }
    let mut k: usize = 1;
    while k < 10
        invariant
            1 <= k <= 10,
            t@.len() == k,
            forall|j: int| 0 <= j < k ==> t@[j] == freq_value(105, j) as i64,
        decreases 10 - k,
    {
        t.push(100_000 * k as i64);
        k = k + 1;
    }
    let mut k: usize = 10;
    while k < 19
        invariant
            10 <= k <= 19,
            t@.len() == k,
            forall|j: int| 0 <= j < k ==> t@[j] == freq_value(105, j) as i64,
        decreases 19 - k,
    {
        t.push(1_000_000 * (k as i64 - 9));
        k = k + 1;
    }
    let mut k: usize = 19;
    while k < 28
        invariant
            19 <= k <= 28,
            t@.len() == k,
            forall|j: int| 0 <= j < k ==> t@[j] == freq_value(105, j) as i64,
        decreases 28 - k,
    {
        t.push(10_000_000 * (k as i64 - 18));
        k = k + 1;
    }
    let mut k: usize = 28;
    while k < 58
        invariant
            28 <= k <= 58,
            t@.len() == k,
            forall|j: int| 0 <= j < k ==> t@[j] == freq_value(105, j) as i64,
        decreases 58 - k,
    {
        t.push(100_000_000 * (k as i64 - 27));
        k = k + 1;
    }
    assert(t@ =~= freq_table(105));
    t
}

/// Frequency table of model 106: 10 MHz steps from 10 MHz to 90 MHz, then 100 MHz steps up to 9 GHz.
pub fn build_freq_table_106() -> (t: Vec<i64>)
    ensures
        t@ == freq_table(106),
{
    let mut t: Vec<i64> = Vec::with_capacity(99);
    let mut k: usize = 0;
    while k < 9
        invariant
            0 <= k <= 9,
            t@.len() == k,
            forall|j: int| 0 <= j < k ==> t@[j] == freq_value(106, j) as i64,
        decreases 9 - k,
    {
        t.push(10_000_000 + 10_000_000 * k as i64);
        k = k + 1;
    }
    let mut k: usize = 9;
    while k < 99
        invariant
            9 <= k <= 99,
            t@.len() == k,
            forall|j: int| 0 <= j < k ==> t@[j] == freq_value(106, j) as i64,
        decreases 99 - k,
    {
        t.push(100_000_000 * (k as i64 - 8));
        k = k + 1;
    }
    assert(t@ =~= freq_table(106));
    t
}

/// Frequency table of model 107: 10 MHz steps from 10 MHz to 90 MHz, then 100 MHz steps up to 6 GHz.
pub fn build_freq_table_107() -> (t: Vec<i64>)
    ensures
        t@ == freq_table(107),
{
    let mut t: Vec<i64> = Vec::with_capacity(69);
    let mut k: usize = 0;
    while k < 9
        invariant
            0 <= k <= 9,
            t@.len() == k,
            forall|j: int| 0 <= j < k ==> t@[j] == freq_value(107, j) as i64,
        decreases 9 - k,
    {
        t.push(10_000_000 + 10_000_000 * k as i64);
        k = k + 1;
    }
    let mut k: usize = 9;
    while k < 69
        invariant
            9 <= k <= 69,
            t@.len() == k,
            forall|j: int| 0 <= j < k ==> t@[j] == freq_value(107, j) as i64,
        decreases 69 - k,
    {
        t.push(100_000_000 * (k as i64 - 8));
        k = k + 1;
    }
    assert(t@ =~= freq_table(107));
    t
}

/// Frequency table of model 108: 5 MHz steps from 10 MHz to 95 MHz, then 100 MHz steps up to 26.5 GHz.
pub fn build_freq_table_108() -> (t: Vec<i64>)
    ensures
        t@ == freq_table(108),
{
    let mut t: Vec<i64> = Vec::with_capacity(283);
    let mut k: usize = 0;
    while k < 18
        invariant
            0 <= k <= 18,
            t@.len() == k,
            forall|j: int| 0 <= j < k ==> t@[j] == freq_value(108, j) as i64,
        decreases 18 - k,
    {
        t.push(10_000_000 + 5_000_000 * k as i64);
        k = k + 1;
    }
    let mut k: usize = 18;
    while k < 283
        invariant
            18 <= k <= 283,
            t@.len() == k,
            forall|j: int| 0 <= j < k ==> t@[j] == freq_value(108, j) as i64,
        decreases 283 - k,
    {
        t.push(100_000_000 * (k as i64 - 17));
        k = k + 1;
    }
    assert(t@ =~= freq_table(108));
    t
}

} // verus!

verus! {

/// A calibration row with `n` zero entries.
pub open spec fn zero_row(n: nat) -> Seq<u32> {
    Seq::new(n, |i: int| 0u32)
}

/// A zeroed calibration row of `n` entries.
fn zeroed_row(n: usize) -> (r: Vec<u32>)
    ensures
        r@ == zero_row(n as nat),
{
    let mut row: Vec<u32> = Vec::with_capacity(n);
    let mut i: usize = 0;
    while i < n
        invariant
            0 <= i <= n,
            row@ == zero_row(i as nat),
        decreases n - i,
    {
        row.push(0);
        i = i + 1;
        assert(row@ =~= zero_row(i as nat));
    }
    row
}

/// The complete calibration state of a connected meter: its model
/// specification, its frequency and power tables, and the voltage matrix
/// (one row per frequency, one column per power level) read from the meter.
pub struct DeviceCalibration {
    pub spec: ModelSpec,
    /// Calibration frequencies, in Hz.
    pub freq_table: Vec<i64>,
    /// Calibration power levels, in tenths of a dBm.
    pub power_table: Vec<i32>,
    /// Calibration voltages, as IEEE 754 single-precision bit patterns.
    pub voltage_table: Vec<Vec<u32>>,
}

impl DeviceCalibration {
    /// A calibration container for model `model_id`, with every voltage
    /// zero; `None` for unknown models. Rows read from the meter are stored
    /// with `set_calibration_row`.
    pub fn new(model_id: u16) -> (r: Option<Self>)
        ensures
            r is Some <==> is_known_model(model_id),
            r matches Some(cal) ==> {
                &&& describes_model(cal.spec, model_id)
                &&& cal.freq_table@ == freq_table(model_id)
                &&& cal.power_table@ == power_table(cal.spec.power_min, cal.spec.power_count)
                &&& cal.voltage_table@.len() == cal.spec.freq_count
                &&& forall|i: int|
                    0 <= i < cal.spec.freq_count ==> #[trigger] cal.voltage_table@[i]@ == zero_row(
                        cal.spec.power_count as nat,
                    )
            },
    {
        let spec = match ModelSpec::from_id(model_id) {
            Some(s) => s,
            None => return None,
        };
        let freq_table = spec.build_freq_table();
        let power_table = spec.build_power_table();
        let mut voltage_table: Vec<Vec<u32>> = Vec::with_capacity(spec.freq_count);
        let mut i: usize = 0;
        while i < spec.freq_count
            invariant
                0 <= i <= spec.freq_count,
                voltage_table@.len() == i,
                forall|k: int|
                    0 <= k < i ==> #[trigger] voltage_table@[k]@ == zero_row(spec.power_count as nat),
            decreases spec.freq_count - i,
        {
            let row = zeroed_row(spec.power_count);
            voltage_table.push(row);
            i = i + 1;
        }
        Some(Self { spec, freq_table, power_table, voltage_table })
    }

    /// Stores a row of calibration voltages for frequency `freq_index`;
    /// an index past the end of the table is ignored.
    pub fn set_calibration_row(&mut self, freq_index: usize, voltages: Vec<u32>)
        ensures
            final(self).spec == old(self).spec,
            final(self).freq_table@ == old(self).freq_table@,
            final(self).power_table@ == old(self).power_table@,
            final(self).voltage_table@.len() == old(self).voltage_table@.len(),
            forall|i: int|
                0 <= i < old(self).voltage_table@.len() && i != freq_index
                    ==> #[trigger] final(self).voltage_table@[i] == old(self).voltage_table@[i],
            freq_index < old(self).voltage_table@.len()
                ==> final(self).voltage_table@[freq_index as int]@ == voltages@,
    {
        if freq_index < self.voltage_table.len() {
            self.voltage_table[freq_index] = voltages;
        }
    }
}

/// Whether entries `i` and `i + 1` of `table` enclose `freq`.
pub open spec fn encloses(table: Seq<i64>, freq: i64, i: int) -> bool {
    0 <= i && i + 1 < table.len() && table[i] <= freq <= table[i + 1]
}

/// Whether `(lo, hi)` is the bracket chosen for `freq`: the first pair of
/// neighbouring entries that encloses it, or `(0, 0)` when none does.
pub open spec fn is_chosen_bracket(table: Seq<i64>, freq: i64, lo: int, hi: int) -> bool {
    ||| {
        &&& hi == lo + 1
        &&& encloses(table, freq, lo)
        &&& forall|j: int| 0 <= j < lo ==> !encloses(table, freq, j)
    }
    ||| {
        &&& lo == 0
        &&& hi == 0
        &&& forall|j: int| !encloses(table, freq, j)
    }
}

/// Finds the calibration frequencies that bracket `freq`: `None` when
/// `freq` lies outside the table, otherwise the indices of the first pair
/// of neighbouring entries that encloses it (or `(0, 0)` if no pair does).
pub fn freq_bracket(freq: i64, freq_table: &[i64]) -> (r: Option<(usize, usize)>)
    requires
        freq_table@.len() >= 1,
    ensures
        r is None <==> (freq < freq_table@[0] || freq > freq_table@.last()),
        r matches Some((lo, hi)) ==> is_chosen_bracket(freq_table@, freq, lo as int, hi as int),
{
    let freq_count = freq_table.len();
    if freq < freq_table[0] || freq > freq_table[freq_count - 1] {
        return None;
    }
    let mut i: usize = 0;
    while i < freq_count - 1
        invariant
            freq_count == freq_table@.len(),
            freq_count >= 1,
            freq_table@[0] <= freq <= freq_table@.last(),
            0 <= i <= freq_count - 1,
            forall|j: int| 0 <= j < i ==> !encloses(freq_table@, freq, j),
        decreases freq_count - 1 - i,
    {
        if freq >= freq_table[i] && freq <= freq_table[i + 1] {
            return Some((i, i + 1));
        }
        i = i + 1;
    }
    Some((0, 0))
}

/// Every frequency within the span of a table of at least two entries is
/// enclosed by some pair of neighbouring entries, so the bracket search
/// never falls back to `(0, 0)` on such a frequency.
pub proof fn law_in_range_frequency_is_enclosed(table: Seq<i64>, freq: i64)
    requires
        table.len() >= 2,
        table[0] <= freq <= table.last(),
    ensures
        exists|i: int| encloses(table, freq, i),
    decreases table.len(),
{
    let n = table.len() as int;
    if freq >= table[n - 2] {
        assert(encloses(table, freq, n - 2));
    } else {
        let shorter = table.drop_last();
        if shorter.len() >= 2 {
            law_in_range_frequency_is_enclosed(shorter, freq);
            let i = choose|i: int| encloses(shorter, freq, i);
            assert(encloses(table, freq, i));
        }
    }
}

/// The frequency table of every supported model is strictly increasing.
pub proof fn law_freq_table_strictly_increasing(id: u16, i: int, j: int)
    requires
        is_known_model(id),
        0 <= i < j < model_freq_count(id),
    ensures
        freq_table(id)[i] < freq_table(id)[j],
{
}

/// The power table of every supported model fits its representation and
/// runs from the model's lowest calibrated power to its highest, 2.5 dB
/// at a time.
pub proof fn law_power_table_spans_model_range(id: u16)
    requires
        is_known_model(id),
    ensures
        ({
            let t = power_table(model_power_min(id) as i32, model_power_count(id) as usize);
            &&& t[0] == model_power_min(id) * 10
            &&& t.last() == model_power_max(id) * 10
            &&& forall|i: int| 0 < i < t.len() ==> #[trigger] t[i] == t[i - 1] + 25
        }),
{
}

} // verus!
