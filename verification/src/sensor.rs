//! From thermal-zone records to one temperature sample.
//!
//! A zone reports its temperature in tenths of a kelvin. Temperatures are kept
//! in tenths of a degree Celsius, as integers, so that a mean is an exact
//! fraction: a total over a number of zones.

use vstd::prelude::*;

verus! {

/// 273 K in tenths of a kelvin: the origin of the Celsius scale used here.
pub const FREEZING_TENTHS_KELVIN: u32 = 2730;

/// Why no temperature sample could be had.
#[derive(Clone, Copy, Debug, PartialEq, Eq, Structural)]
pub enum SensorError {
    /// The instrumentation of the operating system could not be reached or queried.
    InstrumentationInit,
    /// A record lacks the temperature field, or holds it in an unexpected shape.
    MalformedReading,
    /// No record holds a plausible reading, so there is nothing to take a mean of.
    NoValidReadings,
}

/// The message that goes with an error.
pub open spec fn message_of(error: SensorError) -> Seq<char> {
    match error {
        SensorError::InstrumentationInit => "could not query the thermal zones"@,
        SensorError::MalformedReading => "could not retrieve temperature"@,
        SensorError::NoValidReadings => "no thermal zone reports a valid temperature"@,
    }
}

impl SensorError {
    /// A short description of the error, for the operator.
    pub fn message(&self) -> (text: &'static str)
        ensures
            text@ == message_of(*self),
    {
        match self {
            SensorError::InstrumentationInit => "could not query the thermal zones",
            SensorError::MalformedReading => "could not retrieve temperature",
            SensorError::NoValidReadings => "no thermal zone reports a valid temperature",
        }
    }
}

/// What a query for the thermal zones came back with.
#[derive(Debug)]
pub enum SensorReport {
    /// The instrumentation could not be reached, or the query failed.
    Unavailable,
    /// One record for each thermal zone.
    Records(Vec<ZoneRecord>),
}

/// What one thermal zone returned for its high-precision temperature.
#[derive(Clone, Copy, Debug, PartialEq, Eq)]
pub enum ZoneRecord {
    /// The temperature, in tenths of a kelvin.
    TenthsKelvin(u32),
    /// The field is there, but it is no unsigned 32-bit number.
    UnexpectedShape,
    /// The record has no such field.
    FieldMissing,
}

impl ZoneRecord {
    /// The raw reading of a record that has one.
    pub open spec fn raw(self) -> Option<u32> {
        match self {
            ZoneRecord::TenthsKelvin(tenths) => Some(tenths),
            _ => None,
        }
    }

    /// The raw reading of the record, or `None` where it is malformed.
    pub fn reading(&self) -> (raw: Option<u32>)
        ensures
            raw == self.raw(),
    {
        match self {
            ZoneRecord::TenthsKelvin(tenths) => Some(*tenths),
            _ => None,
        }
    }
}

/// The Celsius value of a raw reading, in tenths of a degree: `raw / 10 - 273`,
/// for a reading of at least 273 K. A colder reading is implausible and has none.
pub open spec fn celsius_tenths(raw: u32) -> Option<u32> {
    if raw >= FREEZING_TENTHS_KELVIN {
        Some((raw - FREEZING_TENTHS_KELVIN) as u32)
    } else {
        None
    }
}

/// The Celsius value that a record contributes to the mean, if it contributes.
pub open spec fn contribution(record: ZoneRecord) -> Option<u32> {
    match record.raw() {
        Some(raw) => celsius_tenths(raw),
        None => None,
    }
}

/// The Celsius values, in tenths of a degree, of the records that count:
/// those with a plausible reading, in their order.
pub open spec fn included(records: Seq<ZoneRecord>) -> Seq<u32> {
    records.filter_map(contributing())
}

/// `contribution`, as a function value.
pub open spec fn contributing() -> spec_fn(ZoneRecord) -> Option<u32> {
    |record: ZoneRecord| contribution(record)
}

/// Whether every record holds a raw reading.
pub open spec fn all_well_formed(records: Seq<ZoneRecord>) -> bool {
    forall|i: int| 0 <= i < records.len() ==> (#[trigger] records[i]).raw().is_some()
}

/// The sum of a list of values.
pub open spec fn total(list: Seq<u32>) -> nat
    decreases list.len(),
{
    if list.len() == 0 {
        0
    } else {
        total(list.drop_last()) + list.last() as nat
    }
}

/// Converts a raw reading to tenths of a degree Celsius, or discards it.
pub fn to_celsius_tenths(raw: u32) -> (celsius: Option<u32>)
    ensures
        celsius == celsius_tenths(raw),
{
    if raw >= FREEZING_TENTHS_KELVIN {
        Some(raw - FREEZING_TENTHS_KELVIN)
    } else {
        None
    }
}

/// The mean temperature of one polling instant, as an exact fraction:
/// `total_tenths / zones` tenths of a degree Celsius.
#[derive(Clone, Copy, Debug)]
pub struct TemperatureSample {
    total_tenths: u128,
    zones: usize,
}

impl TemperatureSample {
    #[verifier::type_invariant]
    spec fn bounded(self) -> bool {
        &&& self.zones > 0
        &&& self.total_tenths <= self.zones * u32::MAX
    }

    /// The sum of the Celsius values that went into the mean, in tenths of a degree.
    pub closed spec fn total(self) -> nat {
        self.total_tenths as nat
    }

    /// The number of values that went into the mean.
    pub closed spec fn count(self) -> nat {
        self.zones as nat
    }

    /// The sum of the Celsius values that went into the mean, in tenths of a degree.
    pub fn total_tenths(&self) -> (sum: u128)
        ensures
            sum == self.total(),
    {
        self.total_tenths
    }

    /// The number of values that went into the mean; never zero.
    pub fn zones(&self) -> (n: usize)
        ensures
            n == self.count(),
            n > 0,
    {
        proof {
            use_type_invariant(self);
        }
        self.zones
    }

    /// Whether the mean lies below `min_temp` degrees Celsius:
    /// `total / (10 * count) < min_temp`, without the division.
    pub open spec fn below(self, min_temp: usize) -> bool {
        self.total() < min_temp * 10 * self.count()
    }

    /// Whether the mean lies below `min_temp` degrees Celsius.
    pub fn is_below(&self, min_temp: usize) -> (colder: bool)
        ensures
            colder == self.below(min_temp),
    {
        let per_zone: u128 = min_temp as u128 * 10;
        match per_zone.checked_mul(self.zones as u128) {
            Some(threshold) => {
                assert(threshold == min_temp * 10 * self.count());
                self.total_tenths < threshold
            },
            None => {
                assert(min_temp * 10 * self.count() > u128::MAX);
                true
            },
        }
    }

    /// Whether `tenths` is the mean rounded to the nearest tenth of a degree,
    /// a mean halfway between two tenths going to the upper one.
    pub open spec fn rounds_to(self, tenths: int) -> bool {
        2 * self.count() * tenths <= 2 * self.total() + self.count() < 2 * self.count() * (tenths
            + 1)
    }

    /// The mean in tenths of a degree Celsius, rounded to the nearest tenth.
    pub fn rounded_tenths(&self) -> (tenths: u32)
        ensures
            self.rounds_to(tenths as int),
    {
        proof {
            use_type_invariant(self);
        }
        let zones: u128 = self.zones as u128;
        let total: u128 = self.total_tenths;
        assert(2 * total + zones <= 2 * (zones * u32::MAX) + zones);
        assert(zones * u32::MAX <= usize::MAX * u32::MAX) by (nonlinear_arith)
            requires
                zones <= usize::MAX,
        ;
        let doubled: u128 = 2 * zones;
        let quotient: u128 = (2 * total + zones) / doubled;
        proof {
            let n: int = 2 * total + zones;
            let d: int = doubled as int;
            assert(d * (n / d) <= n < d * (n / d + 1)) by (nonlinear_arith)
                requires
                    d > 0,
                    n >= 0,
            ;
            assert(quotient <= u32::MAX) by (nonlinear_arith)
                requires
                    d * quotient <= n,
                    n <= d * u32::MAX + zones,
                    d == 2 * zones,
                    zones > 0,
            ;
        }
        quotient as u32
    }
}

/// The sum grows by the value that is appended.
pub proof fn lemma_total_push(list: Seq<u32>, value: u32)
    ensures
        total(list.push(value)) == total(list) + value,
{
    assert(list.push(value).drop_last() =~= list);
}

/// A sum is at most the largest possible value times the number of values.
pub proof fn lemma_total_bound(list: Seq<u32>)
    ensures
        total(list) <= list.len() * u32::MAX,
    decreases list.len(),
{
    if list.len() > 0 {
        lemma_total_bound(list.drop_last());
        assert((list.len() - 1) * u32::MAX + u32::MAX == list.len() * u32::MAX)
            by (nonlinear_arith);
    }
}

/// The arithmetic mean of a list of Celsius values, in tenths of a degree.
/// An empty list has no mean.
pub fn mean(list: &Vec<u32>) -> (sample: Option<TemperatureSample>)
    ensures
        sample.is_none() <==> list@.len() == 0,
        sample matches Some(s) ==> s.total() == total(list@) && s.count() == list@.len(),
{
    if list.len() == 0 {
        return None;
    }
    let mut sum: u128 = 0;
    let mut i: usize = 0;
    while i < list.len()
        invariant
            i <= list.len(),
            sum == total(list@.take(i as int)),
        decreases list.len() - i,
    {
        proof {
            lemma_total_bound(list@.take(i as int));
            lemma_total_push(list@.take(i as int), list@[i as int]);
            assert(list@.take(i as int).push(list@[i as int]) =~= list@.take(i + 1));
            assert(i * u32::MAX + u32::MAX <= usize::MAX * u32::MAX + u32::MAX)
                by (nonlinear_arith)
                requires
                    i <= usize::MAX,
            ;
        }
        sum = sum + list[i] as u128;
        i = i + 1;
    }
    proof {
        assert(list@.take(i as int) =~= list@);
        lemma_total_bound(list@);
    }
    Some(TemperatureSample { total_tenths: sum, zones: list.len() })
}

/// The sample that a list of records yields: the mean of the Celsius values of
/// the plausible readings, where every record is well formed and at least one
/// reading is plausible.
pub open spec fn sample_of(records: Seq<ZoneRecord>, outcome: Result<TemperatureSample, SensorError>) -> bool {
    match outcome {
        Ok(sample) => {
            &&& all_well_formed(records)
            &&& included(records).len() > 0
            &&& sample.total() == total(included(records))
            &&& sample.count() == included(records).len()
        },
        Err(SensorError::MalformedReading) => !all_well_formed(records),
        Err(SensorError::NoValidReadings) => {
            &&& all_well_formed(records)
            &&& included(records).len() == 0
        },
        Err(SensorError::InstrumentationInit) => false,
    }
}

/// The system temperature that a list of zone records stands for.
///
/// A malformed record is fatal, wherever it stands. Readings below 273 K are
/// left out of the mean entirely. Where nothing is left, there is no mean, and
/// the answer is `NoValidReadings`.
pub fn get_system_temp_c(records: &Vec<ZoneRecord>) -> (outcome: Result<
    TemperatureSample,
    SensorError,
>)
    ensures
        sample_of(records@, outcome),
{
    let mut temps_c: Vec<u32> = Vec::new();
    let mut i: usize = 0;
    while i < records.len()
        invariant
            i <= records.len(),
            all_well_formed(records@.take(i as int)),
            temps_c@ == included(records@.take(i as int)),
        decreases records.len() - i,
    {
        let raw = match records[i].reading() {
            Some(raw) => raw,
            None => {
                return Err(SensorError::MalformedReading);
            },
        };
        if let Some(celsius) = to_celsius_tenths(raw) {
            temps_c.push(celsius);
        }
        proof {
            records@.lemma_filter_map_take_succ(contributing(), i as int);
            assert forall|k: int| 0 <= k < i + 1 implies (#[trigger] records@.take(i + 1)[k]).raw().is_some() by {
                if k < i {
                    assert(records@.take(i as int)[k] == records@[k]);
                }
            }
        }
        i = i + 1;
    }
    proof {
        assert(records@.take(i as int) =~= records@);
    }
    match mean(&temps_c) {
        Some(sample) => Ok(sample),
        None => Err(SensorError::NoValidReadings),
    }
}

/// Whether `outcome` is what reading the temperature from `report` gives.
pub open spec fn read_outcome(
    report: SensorReport,
    outcome: Result<TemperatureSample, SensorError>,
) -> bool {
    match report {
        SensorReport::Unavailable => outcome == Err::<TemperatureSample, SensorError>(
            SensorError::InstrumentationInit,
        ),
        SensorReport::Records(records) => sample_of(records@, outcome),
    }
}

/// The system temperature that a query for the thermal zones stands for.
///
/// A query that failed gives `InstrumentationInit`; one that returned records
/// gives what `get_system_temp_c` makes of them.
pub fn read_temperature(report: &SensorReport) -> (outcome: Result<TemperatureSample, SensorError>)
    ensures
        read_outcome(*report, outcome),
{
    match report {
        SensorReport::Unavailable => Err(SensorError::InstrumentationInit),
        SensorReport::Records(records) => get_system_temp_c(records),
    }
}

/// A record without a plausible reading adds nothing to the mean: neither to
/// the sum nor to the number of values.
pub proof fn lemma_implausible_left_out(records: Seq<ZoneRecord>, record: ZoneRecord)
    requires
        contribution(record).is_none(),
    ensures
        included(records.push(record)) == included(records),
{
    assert(records.push(record).drop_last() =~= records);
}

/// A record with a plausible reading adds its Celsius value to the sum and
/// one to the number of values.
pub proof fn lemma_plausible_counted(records: Seq<ZoneRecord>, record: ZoneRecord)
    requires
        contribution(record).is_some(),
    ensures
        included(records.push(record)) == included(records).push(contribution(record).unwrap()),
        total(included(records.push(record))) == total(included(records)) + contribution(
            record,
        ).unwrap(),
        included(records.push(record)).len() == included(records).len() + 1,
{
    assert(records.push(record).drop_last() =~= records);
    let value = contribution(record).unwrap();
    assert(included(records) + seq![value] =~= included(records).push(value));
    lemma_total_push(included(records), value);
}

/// No records, no values.
pub proof fn lemma_included_empty()
    ensures
        included(Seq::<ZoneRecord>::empty()) == Seq::<u32>::empty(),
{
}

} // verus!
