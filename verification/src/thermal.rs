//! Thermal sensors: only those that report a reading above zero are shown.

use crate::float_bits::F32Bits;
use vstd::prelude::*;

verus! {

/// What the operating system reports of one sensor.
#[derive(Clone, Debug, PartialEq, Eq)]
pub struct SensorReading {
    pub label: String,
    /// Degrees Celsius, where the sensor could be read.
    pub temperature: Option<F32Bits>,
}

/// One sensor as it is shown.
#[derive(Clone, Debug, PartialEq, Eq)]
pub struct TempInfo {
    label: String,
    temperature: F32Bits,
}

/// What a [`TempInfo`] holds.
pub struct TempInfoView {
    pub label: Seq<char>,
    pub temperature: F32Bits,
}

impl TempInfoView {
    /// The temperature is above zero.
    pub open spec fn wf(self) -> bool {
        self.temperature.spec_is_positive()
    }
}

impl SensorReading {
    /// Whether the sensor says anything: it was read, and the reading is a
    /// number above zero. A reading of zero stands for "nothing measured",
    /// not for a cold sensor.
    pub open spec fn is_informative(self) -> bool {
        match self.temperature {
            Some(temperature) => temperature.spec_is_positive(),
            None => false,
        }
    }

    /// The sensor that an informative reading shows as.
    pub open spec fn projected(self) -> TempInfoView {
        TempInfoView { label: self.label@, temperature: self.temperature->0 }
    }
}

impl View for TempInfo {
    type V = TempInfoView;

    closed spec fn view(&self) -> TempInfoView {
        TempInfoView { label: self.label@, temperature: self.temperature }
    }
}

impl TempInfo {
    /// Projects one reading, if it is informative.
    pub fn from_reading(reading: &SensorReading) -> (temp: Option<TempInfo>)
        ensures
            temp is Some <==> reading.is_informative(),
            temp is Some ==> temp->0@ == reading.projected() && temp->0@.wf(),
    {
        match reading.temperature {
            Some(temperature) => {
                if temperature.is_positive() {
                    Some(TempInfo { label: reading.label.clone(), temperature })
                } else {
                    None
                }
            },
            None => None,
        }
    }

    pub fn label(&self) -> (label: &String)
        ensures
            label@ == self@.label,
    {
        &self.label
    }

    pub fn temperature(&self) -> (temperature: F32Bits)
        ensures
            temperature == self@.temperature,
    {
        self.temperature
    }
}

/// What each of `temps` holds, in order.
pub open spec fn temp_views(temps: Seq<TempInfo>) -> Seq<TempInfoView> {
    temps.map_values(|temp: TempInfo| temp@)
}

/// The informative ones among `readings`, in order.
pub open spec fn informative(readings: Seq<SensorReading>) -> Seq<SensorReading> {
    readings.filter(|reading: SensorReading| reading.is_informative())
}

/// The sensors that `readings` show as: the informative ones, in order.
pub open spec fn projected_temperatures(readings: Seq<SensorReading>) -> Seq<TempInfoView> {
    informative(readings).map_values(|reading: SensorReading| reading.projected())
}

/// One more reading adds its sensor to those shown if it is informative,
/// and nothing otherwise.
proof fn lemma_projected_step(readings: Seq<SensorReading>, i: int)
    requires
        0 <= i < readings.len(),
    ensures
        projected_temperatures(readings.take(i + 1)) == if readings[i].is_informative() {
            projected_temperatures(readings.take(i)).push(readings[i].projected())
        } else {
            projected_temperatures(readings.take(i))
        },
{
    let before = readings.take(i);
    assert(readings.take(i + 1) =~= before.push(readings[i]));
    before.lemma_filter_push(readings[i], |reading: SensorReading| reading.is_informative());
    if readings[i].is_informative() {
        assert(projected_temperatures(before.push(readings[i])) =~= projected_temperatures(
            before,
        ).push(readings[i].projected()));
    }
}

/// Projects the informative readings, keeping the order in which they were
/// reported, and leaves the others out.
pub fn temperature_list(readings: &Vec<SensorReading>) -> (temps: Vec<TempInfo>)
    ensures
        temp_views(temps@) == projected_temperatures(readings@),
        forall|i: int| 0 <= i < temps.len() ==> (#[trigger] temps[i])@.wf(),
{
    let mut temps: Vec<TempInfo> = Vec::new();
    let mut i: usize = 0;
    assert(readings@.take(0) =~= Seq::<SensorReading>::empty());
    assert(temp_views(temps@) =~= projected_temperatures(readings@.take(0)));
    while i < readings.len()
        invariant
            i <= readings.len(),
            temp_views(temps@) == projected_temperatures(readings@.take(i as int)),
            forall|k: int| 0 <= k < temps.len() ==> (#[trigger] temps[k])@.wf(),
        decreases readings.len() - i,
    {
        let ghost before = temps@;
        proof {
            lemma_projected_step(readings@, i as int);
        }
        match TempInfo::from_reading(&readings[i]) {
            Some(temp) => {
                temps.push(temp);
                assert(temp_views(temps@) =~= temp_views(before).push(temp@));
            },
            None => {},
        }
        i += 1;
    }
    assert(readings@.take(readings.len() as int) =~= readings@);
    temps
}

/// Every sensor that is shown has a temperature above zero.
pub proof fn lemma_shown_temperatures_are_positive(readings: Seq<SensorReading>, i: int)
    requires
        0 <= i < projected_temperatures(readings).len(),
    ensures
        projected_temperatures(readings)[i].wf(),
{
    readings.lemma_filter_pred(|reading: SensorReading| reading.is_informative(), i);
}

} // verus!
