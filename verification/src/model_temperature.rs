//! Extracted temperature readings.

use vstd::prelude::*;

verus! {

/// One temperature reading projected out of the raw mapping: the device tag
/// derived from the key, and the measured value as validated numeric text.
#[derive(Debug, Clone, PartialEq, Eq)]
pub struct TemperatureData {
    pub device: String,
    pub value: String,
}

/// The mathematical shape of a `TemperatureData`.
pub struct TemperatureDataView {
    pub device: Seq<char>,
    pub value: Seq<char>,
}

impl View for TemperatureData {
    type V = TemperatureDataView;

    open spec fn view(&self) -> TemperatureDataView {
        TemperatureDataView { device: self.device@, value: self.value@ }
    }
}

} // verus!
