//! The Lambda heat-pump domain model.
//!
//! Nine enumerated states, each decoded positionally: the raw reading is a
//! zero-based index into the declared, ordered table of symbolic names, so
//! the declaration order of every enum is part of the wire contract and must
//! never be reordered. `LambdaData` is the fully mapped record; its numeric
//! fields carry validated numeric text, its integer field an exact `i32`.

use vstd::prelude::*;

use crate::mapper::{
    lemma_map_record_ok_inversion, map_record, spec_decode, spec_map_record, specs_view,
    values_view, ConversionError, ConversionErrorView, FieldKind, FieldKindView, FieldSpec,
    FieldSpecView, FieldValue, FieldValueView,
};
use crate::model_iobroker::RawMapping;

verus! {

/// An enumerated state decoded from a zero-based wire index into a declared,
/// ordered table of symbolic names.
pub trait OrdinalEnum: Sized {
    /// The declared table; entry `i` names the variant with ordinal `i`.
    spec fn table() -> Seq<Seq<char>>;

    /// The variant's position in the declared order.
    spec fn ordinal(self) -> int;

    /// The variant's symbolic name.
    spec fn spec_name(self) -> Seq<char>;

    /// Decodes a wire index: `Some` exactly for indices below the table
    /// size, and then the variant at that position.
    fn from_index(n: usize) -> (r: Option<Self>)
        ensures
            r is Some <==> n < Self::table().len(),
            r matches Some(v) ==> v.ordinal() == n && v.spec_name() == Self::table()[n as int];

    /// The symbolic name as a string.
    fn name(&self) -> (s: String)
        ensures
            s@ == self.spec_name();

    /// Every variant sits in the table at its own ordinal.
    proof fn lemma_in_table(self)
        ensures
            0 <= self.ordinal() < Self::table().len(),
            self.spec_name() == Self::table()[self.ordinal()];

    /// The declared table always fits a machine index.
    proof fn lemma_table_small()
        ensures
            Self::table().len() <= usize::MAX;
}

/// The ambient operation mode; decoded by position, 4 declared entries.
#[derive(Debug, Clone, Copy, PartialEq, Eq, Structural)]
pub enum AmbientStateEnum {
    Off,
    Automatic,
    Manual,
    Error,
}

impl OrdinalEnum for AmbientStateEnum {
    open spec fn table() -> Seq<Seq<char>> {
        seq!["Off"@, "Automatic"@, "Manual"@, "Error"@]
    }

    open spec fn ordinal(self) -> int {
        match self {
            AmbientStateEnum::Off => 0,
            AmbientStateEnum::Automatic => 1,
            AmbientStateEnum::Manual => 2,
            AmbientStateEnum::Error => 3,
        }
    }

    open spec fn spec_name(self) -> Seq<char> {
        match self {
            AmbientStateEnum::Off => "Off"@,
            AmbientStateEnum::Automatic => "Automatic"@,
            AmbientStateEnum::Manual => "Manual"@,
            AmbientStateEnum::Error => "Error"@,
        }
    }

    fn from_index(n: usize) -> (r: Option<Self>) {
        if n == 0 {
            Some(AmbientStateEnum::Off)
        } else if n == 1 {
            Some(AmbientStateEnum::Automatic)
        } else if n == 2 {
            Some(AmbientStateEnum::Manual)
        } else if n == 3 {
            Some(AmbientStateEnum::Error)
        } else {
            None
        }
    }

    fn name(&self) -> (s: String) {
        match self {
            AmbientStateEnum::Off => "Off".to_owned(),
            AmbientStateEnum::Automatic => "Automatic".to_owned(),
            AmbientStateEnum::Manual => "Manual".to_owned(),
            AmbientStateEnum::Error => "Error".to_owned(),
        }
    }

    proof fn lemma_table_small() {
    }

    proof fn lemma_in_table(self) {
        match self {
            AmbientStateEnum::Off => {},
            AmbientStateEnum::Automatic => {},
            AmbientStateEnum::Manual => {},
            AmbientStateEnum::Error => {},
        }
    }
}

/// The declared name table of `AmbientStateEnum`, as a vector.
pub fn ambient_state_enum_table() -> (t: Vec<String>)
    ensures
        t.deep_view() == AmbientStateEnum::table(),
{
    let mut t: Vec<String> = Vec::new();
    t.push("Off".to_owned());
    t.push("Automatic".to_owned());
    t.push("Manual".to_owned());
    t.push("Error".to_owned());
    proof {
        assert(t.deep_view() =~= AmbientStateEnum::table());
    }
    t
}

/// The energy-manager operating state; decoded by position, 5 declared entries.
#[derive(Debug, Clone, Copy, PartialEq, Eq, Structural)]
pub enum EManagerStateEnum {
    Off,
    Automatic,
    Manual,
    Error,
    Offline,
}

impl OrdinalEnum for EManagerStateEnum {
    open spec fn table() -> Seq<Seq<char>> {
        seq!["Off"@, "Automatic"@, "Manual"@, "Error"@, "Offline"@]
    }

    open spec fn ordinal(self) -> int {
        match self {
            EManagerStateEnum::Off => 0,
            EManagerStateEnum::Automatic => 1,
            EManagerStateEnum::Manual => 2,
            EManagerStateEnum::Error => 3,
            EManagerStateEnum::Offline => 4,
        }
    }

    open spec fn spec_name(self) -> Seq<char> {
        match self {
            EManagerStateEnum::Off => "Off"@,
            EManagerStateEnum::Automatic => "Automatic"@,
            EManagerStateEnum::Manual => "Manual"@,
            EManagerStateEnum::Error => "Error"@,
            EManagerStateEnum::Offline => "Offline"@,
        }
    }

    fn from_index(n: usize) -> (r: Option<Self>) {
        if n == 0 {
            Some(EManagerStateEnum::Off)
        } else if n == 1 {
            Some(EManagerStateEnum::Automatic)
        } else if n == 2 {
            Some(EManagerStateEnum::Manual)
        } else if n == 3 {
            Some(EManagerStateEnum::Error)
        } else if n == 4 {
            Some(EManagerStateEnum::Offline)
        } else {
            None
        }
    }

    fn name(&self) -> (s: String) {
        match self {
            EManagerStateEnum::Off => "Off".to_owned(),
            EManagerStateEnum::Automatic => "Automatic".to_owned(),
            EManagerStateEnum::Manual => "Manual".to_owned(),
            EManagerStateEnum::Error => "Error".to_owned(),
            EManagerStateEnum::Offline => "Offline".to_owned(),
        }
    }

    proof fn lemma_table_small() {
    }

    proof fn lemma_in_table(self) {
        match self {
            EManagerStateEnum::Off => {},
            EManagerStateEnum::Automatic => {},
            EManagerStateEnum::Manual => {},
            EManagerStateEnum::Error => {},
            EManagerStateEnum::Offline => {},
        }
    }
}

/// The declared name table of `EManagerStateEnum`, as a vector.
pub fn e_manager_state_enum_table() -> (t: Vec<String>)
    ensures
        t.deep_view() == EManagerStateEnum::table(),
{
    let mut t: Vec<String> = Vec::new();
    t.push("Off".to_owned());
    t.push("Automatic".to_owned());
    t.push("Manual".to_owned());
    t.push("Error".to_owned());
    t.push("Offline".to_owned());
    proof {
        assert(t.deep_view() =~= EManagerStateEnum::table());
    }
    t
}

/// The heat-pump error severity; decoded by position, 5 declared entries.
#[derive(Debug, Clone, Copy, PartialEq, Eq, Structural)]
pub enum EManagerErrorStateEnum {
    NoError,
    Message,
    Warning,
    Alarm,
    Fault,
}

impl OrdinalEnum for EManagerErrorStateEnum {
    open spec fn table() -> Seq<Seq<char>> {
        seq!["None"@, "Message"@, "Warning"@, "Alarm"@, "Fault"@]
    }

    open spec fn ordinal(self) -> int {
        match self {
            EManagerErrorStateEnum::NoError => 0,
            EManagerErrorStateEnum::Message => 1,
            EManagerErrorStateEnum::Warning => 2,
            EManagerErrorStateEnum::Alarm => 3,
            EManagerErrorStateEnum::Fault => 4,
        }
    }

    open spec fn spec_name(self) -> Seq<char> {
        match self {
            EManagerErrorStateEnum::NoError => "None"@,
            EManagerErrorStateEnum::Message => "Message"@,
            EManagerErrorStateEnum::Warning => "Warning"@,
            EManagerErrorStateEnum::Alarm => "Alarm"@,
            EManagerErrorStateEnum::Fault => "Fault"@,
        }
    }

    fn from_index(n: usize) -> (r: Option<Self>) {
        if n == 0 {
            Some(EManagerErrorStateEnum::NoError)
        } else if n == 1 {
            Some(EManagerErrorStateEnum::Message)
        } else if n == 2 {
            Some(EManagerErrorStateEnum::Warning)
        } else if n == 3 {
            Some(EManagerErrorStateEnum::Alarm)
        } else if n == 4 {
            Some(EManagerErrorStateEnum::Fault)
        } else {
            None
        }
    }

    fn name(&self) -> (s: String) {
        match self {
            EManagerErrorStateEnum::NoError => "None".to_owned(),
            EManagerErrorStateEnum::Message => "Message".to_owned(),
            EManagerErrorStateEnum::Warning => "Warning".to_owned(),
            EManagerErrorStateEnum::Alarm => "Alarm".to_owned(),
            EManagerErrorStateEnum::Fault => "Fault".to_owned(),
        }
    }

    proof fn lemma_table_small() {
    }

    proof fn lemma_in_table(self) {
        match self {
            EManagerErrorStateEnum::NoError => {},
            EManagerErrorStateEnum::Message => {},
            EManagerErrorStateEnum::Warning => {},
            EManagerErrorStateEnum::Alarm => {},
            EManagerErrorStateEnum::Fault => {},
        }
    }
}

/// The declared name table of `EManagerErrorStateEnum`, as a vector.
pub fn e_manager_error_state_enum_table() -> (t: Vec<String>)
    ensures
        t.deep_view() == EManagerErrorStateEnum::table(),
{
    let mut t: Vec<String> = Vec::new();
    t.push("None".to_owned());
    t.push("Message".to_owned());
    t.push("Warning".to_owned());
    t.push("Alarm".to_owned());
    t.push("Fault".to_owned());
    proof {
        assert(t.deep_view() =~= EManagerErrorStateEnum::table());
    }
    t
}

/// The heat-pump machine state; decoded by position, 15 declared entries.
#[derive(Debug, Clone, Copy, PartialEq, Eq, Structural)]
pub enum HeatPumpStateEnum {
    Init,
    Reference,
    RestartBlock,
    Ready,
    StartPumps,
    StartCompressor,
    PreRegulation,
    Regulation,
    NotUsed,
    Cooling,
    Defrosting,
    Stopping,
    FaultLock,
    AlarmBlock,
    ErrorReset,
}

impl OrdinalEnum for HeatPumpStateEnum {
    open spec fn table() -> Seq<Seq<char>> {
        seq!["Init"@, "Reference"@, "RestartBlock"@, "Ready"@, "StartPumps"@, "StartCompressor"@, "PreRegulation"@, "Regulation"@, "NotUsed"@, "Cooling"@, "Defrosting"@, "Stopping"@, "FaultLock"@, "AlarmBlock"@, "ErrorReset"@]
    }

    open spec fn ordinal(self) -> int {
        match self {
            HeatPumpStateEnum::Init => 0,
            HeatPumpStateEnum::Reference => 1,
            HeatPumpStateEnum::RestartBlock => 2,
            HeatPumpStateEnum::Ready => 3,
            HeatPumpStateEnum::StartPumps => 4,
            HeatPumpStateEnum::StartCompressor => 5,
            HeatPumpStateEnum::PreRegulation => 6,
            HeatPumpStateEnum::Regulation => 7,
            HeatPumpStateEnum::NotUsed => 8,
            HeatPumpStateEnum::Cooling => 9,
            HeatPumpStateEnum::Defrosting => 10,
            HeatPumpStateEnum::Stopping => 11,
            HeatPumpStateEnum::FaultLock => 12,
            HeatPumpStateEnum::AlarmBlock => 13,
            HeatPumpStateEnum::ErrorReset => 14,
        }
    }

    open spec fn spec_name(self) -> Seq<char> {
        match self {
            HeatPumpStateEnum::Init => "Init"@,
            HeatPumpStateEnum::Reference => "Reference"@,
            HeatPumpStateEnum::RestartBlock => "RestartBlock"@,
            HeatPumpStateEnum::Ready => "Ready"@,
            HeatPumpStateEnum::StartPumps => "StartPumps"@,
            HeatPumpStateEnum::StartCompressor => "StartCompressor"@,
            HeatPumpStateEnum::PreRegulation => "PreRegulation"@,
            HeatPumpStateEnum::Regulation => "Regulation"@,
            HeatPumpStateEnum::NotUsed => "NotUsed"@,
            HeatPumpStateEnum::Cooling => "Cooling"@,
            HeatPumpStateEnum::Defrosting => "Defrosting"@,
            HeatPumpStateEnum::Stopping => "Stopping"@,
            HeatPumpStateEnum::FaultLock => "FaultLock"@,
            HeatPumpStateEnum::AlarmBlock => "AlarmBlock"@,
            HeatPumpStateEnum::ErrorReset => "ErrorReset"@,
        }
    }

    fn from_index(n: usize) -> (r: Option<Self>) {
        if n == 0 {
            Some(HeatPumpStateEnum::Init)
        } else if n == 1 {
            Some(HeatPumpStateEnum::Reference)
        } else if n == 2 {
            Some(HeatPumpStateEnum::RestartBlock)
        } else if n == 3 {
            Some(HeatPumpStateEnum::Ready)
        } else if n == 4 {
            Some(HeatPumpStateEnum::StartPumps)
        } else if n == 5 {
            Some(HeatPumpStateEnum::StartCompressor)
        } else if n == 6 {
            Some(HeatPumpStateEnum::PreRegulation)
        } else if n == 7 {
            Some(HeatPumpStateEnum::Regulation)
        } else if n == 8 {
            Some(HeatPumpStateEnum::NotUsed)
        } else if n == 9 {
            Some(HeatPumpStateEnum::Cooling)
        } else if n == 10 {
            Some(HeatPumpStateEnum::Defrosting)
        } else if n == 11 {
            Some(HeatPumpStateEnum::Stopping)
        } else if n == 12 {
            Some(HeatPumpStateEnum::FaultLock)
        } else if n == 13 {
            Some(HeatPumpStateEnum::AlarmBlock)
        } else if n == 14 {
            Some(HeatPumpStateEnum::ErrorReset)
        } else {
            None
        }
    }

    fn name(&self) -> (s: String) {
        match self {
            HeatPumpStateEnum::Init => "Init".to_owned(),
            HeatPumpStateEnum::Reference => "Reference".to_owned(),
            HeatPumpStateEnum::RestartBlock => "RestartBlock".to_owned(),
            HeatPumpStateEnum::Ready => "Ready".to_owned(),
            HeatPumpStateEnum::StartPumps => "StartPumps".to_owned(),
            HeatPumpStateEnum::StartCompressor => "StartCompressor".to_owned(),
            HeatPumpStateEnum::PreRegulation => "PreRegulation".to_owned(),
            HeatPumpStateEnum::Regulation => "Regulation".to_owned(),
            HeatPumpStateEnum::NotUsed => "NotUsed".to_owned(),
            HeatPumpStateEnum::Cooling => "Cooling".to_owned(),
            HeatPumpStateEnum::Defrosting => "Defrosting".to_owned(),
            HeatPumpStateEnum::Stopping => "Stopping".to_owned(),
            HeatPumpStateEnum::FaultLock => "FaultLock".to_owned(),
            HeatPumpStateEnum::AlarmBlock => "AlarmBlock".to_owned(),
            HeatPumpStateEnum::ErrorReset => "ErrorReset".to_owned(),
        }
    }

    proof fn lemma_table_small() {
    }

    proof fn lemma_in_table(self) {
        match self {
            HeatPumpStateEnum::Init => {},
            HeatPumpStateEnum::Reference => {},
            HeatPumpStateEnum::RestartBlock => {},
            HeatPumpStateEnum::Ready => {},
            HeatPumpStateEnum::StartPumps => {},
            HeatPumpStateEnum::StartCompressor => {},
            HeatPumpStateEnum::PreRegulation => {},
            HeatPumpStateEnum::Regulation => {},
            HeatPumpStateEnum::NotUsed => {},
            HeatPumpStateEnum::Cooling => {},
            HeatPumpStateEnum::Defrosting => {},
            HeatPumpStateEnum::Stopping => {},
            HeatPumpStateEnum::FaultLock => {},
            HeatPumpStateEnum::AlarmBlock => {},
            HeatPumpStateEnum::ErrorReset => {},
        }
    }
}

/// The declared name table of `HeatPumpStateEnum`, as a vector.
pub fn heat_pump_state_enum_table() -> (t: Vec<String>)
    ensures
        t.deep_view() == HeatPumpStateEnum::table(),
{
    let mut t: Vec<String> = Vec::new();
    t.push("Init".to_owned());
    t.push("Reference".to_owned());
    t.push("RestartBlock".to_owned());
    t.push("Ready".to_owned());
    t.push("StartPumps".to_owned());
    t.push("StartCompressor".to_owned());
    t.push("PreRegulation".to_owned());
    t.push("Regulation".to_owned());
    t.push("NotUsed".to_owned());
    t.push("Cooling".to_owned());
    t.push("Defrosting".to_owned());
    t.push("Stopping".to_owned());
    t.push("FaultLock".to_owned());
    t.push("AlarmBlock".to_owned());
    t.push("ErrorReset".to_owned());
    proof {
        assert(t.deep_view() =~= HeatPumpStateEnum::table());
    }
    t
}

/// The heat-pump operating mode; decoded by position, 19 declared entries.
#[derive(Debug, Clone, Copy, PartialEq, Eq, Structural)]
pub enum HeatPumpOperatingStateEnum {
    Stby,
    Ch,
    Dhw,
    Cc,
    Circulate,
    Defrost,
    Off,
    Frost,
    StbyFrost,
    NotUsed,
    Summer,
    Holiday,
    Error,
    Warning,
    InfoMessage,
    TimeBlock,
    ReleaseBlock,
    MintempBlock,
    FirmwareDownload,
}

impl OrdinalEnum for HeatPumpOperatingStateEnum {
    open spec fn table() -> Seq<Seq<char>> {
        seq!["Stby"@, "Ch"@, "Dhw"@, "Cc"@, "Circulate"@, "Defrost"@, "Off"@, "Frost"@, "StbyFrost"@, "NotUsed"@, "Summer"@, "Holiday"@, "Error"@, "Warning"@, "InfoMessage"@, "TimeBlock"@, "ReleaseBlock"@, "MintempBlock"@, "FirmwareDownload"@]
    }

    open spec fn ordinal(self) -> int {
        match self {
            HeatPumpOperatingStateEnum::Stby => 0,
            HeatPumpOperatingStateEnum::Ch => 1,
            HeatPumpOperatingStateEnum::Dhw => 2,
            HeatPumpOperatingStateEnum::Cc => 3,
            HeatPumpOperatingStateEnum::Circulate => 4,
            HeatPumpOperatingStateEnum::Defrost => 5,
            HeatPumpOperatingStateEnum::Off => 6,
            HeatPumpOperatingStateEnum::Frost => 7,
            HeatPumpOperatingStateEnum::StbyFrost => 8,
            HeatPumpOperatingStateEnum::NotUsed => 9,
            HeatPumpOperatingStateEnum::Summer => 10,
            HeatPumpOperatingStateEnum::Holiday => 11,
            HeatPumpOperatingStateEnum::Error => 12,
            HeatPumpOperatingStateEnum::Warning => 13,
            HeatPumpOperatingStateEnum::InfoMessage => 14,
            HeatPumpOperatingStateEnum::TimeBlock => 15,
            HeatPumpOperatingStateEnum::ReleaseBlock => 16,
            HeatPumpOperatingStateEnum::MintempBlock => 17,
            HeatPumpOperatingStateEnum::FirmwareDownload => 18,
        }
    }

    open spec fn spec_name(self) -> Seq<char> {
        match self {
            HeatPumpOperatingStateEnum::Stby => "Stby"@,
            HeatPumpOperatingStateEnum::Ch => "Ch"@,
            HeatPumpOperatingStateEnum::Dhw => "Dhw"@,
            HeatPumpOperatingStateEnum::Cc => "Cc"@,
            HeatPumpOperatingStateEnum::Circulate => "Circulate"@,
            HeatPumpOperatingStateEnum::Defrost => "Defrost"@,
            HeatPumpOperatingStateEnum::Off => "Off"@,
            HeatPumpOperatingStateEnum::Frost => "Frost"@,
            HeatPumpOperatingStateEnum::StbyFrost => "StbyFrost"@,
            HeatPumpOperatingStateEnum::NotUsed => "NotUsed"@,
            HeatPumpOperatingStateEnum::Summer => "Summer"@,
            HeatPumpOperatingStateEnum::Holiday => "Holiday"@,
            HeatPumpOperatingStateEnum::Error => "Error"@,
            HeatPumpOperatingStateEnum::Warning => "Warning"@,
            HeatPumpOperatingStateEnum::InfoMessage => "InfoMessage"@,
            HeatPumpOperatingStateEnum::TimeBlock => "TimeBlock"@,
            HeatPumpOperatingStateEnum::ReleaseBlock => "ReleaseBlock"@,
            HeatPumpOperatingStateEnum::MintempBlock => "MintempBlock"@,
            HeatPumpOperatingStateEnum::FirmwareDownload => "FirmwareDownload"@,
        }
    }

    fn from_index(n: usize) -> (r: Option<Self>) {
        if n == 0 {
            Some(HeatPumpOperatingStateEnum::Stby)
        } else if n == 1 {
            Some(HeatPumpOperatingStateEnum::Ch)
        } else if n == 2 {
            Some(HeatPumpOperatingStateEnum::Dhw)
        } else if n == 3 {
            Some(HeatPumpOperatingStateEnum::Cc)
        } else if n == 4 {
            Some(HeatPumpOperatingStateEnum::Circulate)
        } else if n == 5 {
            Some(HeatPumpOperatingStateEnum::Defrost)
        } else if n == 6 {
            Some(HeatPumpOperatingStateEnum::Off)
        } else if n == 7 {
            Some(HeatPumpOperatingStateEnum::Frost)
        } else if n == 8 {
            Some(HeatPumpOperatingStateEnum::StbyFrost)
        } else if n == 9 {
            Some(HeatPumpOperatingStateEnum::NotUsed)
        } else if n == 10 {
            Some(HeatPumpOperatingStateEnum::Summer)
        } else if n == 11 {
            Some(HeatPumpOperatingStateEnum::Holiday)
        } else if n == 12 {
            Some(HeatPumpOperatingStateEnum::Error)
        } else if n == 13 {
            Some(HeatPumpOperatingStateEnum::Warning)
        } else if n == 14 {
            Some(HeatPumpOperatingStateEnum::InfoMessage)
        } else if n == 15 {
            Some(HeatPumpOperatingStateEnum::TimeBlock)
        } else if n == 16 {
            Some(HeatPumpOperatingStateEnum::ReleaseBlock)
        } else if n == 17 {
            Some(HeatPumpOperatingStateEnum::MintempBlock)
        } else if n == 18 {
            Some(HeatPumpOperatingStateEnum::FirmwareDownload)
        } else {
            None
        }
    }

    fn name(&self) -> (s: String) {
        match self {
            HeatPumpOperatingStateEnum::Stby => "Stby".to_owned(),
            HeatPumpOperatingStateEnum::Ch => "Ch".to_owned(),
            HeatPumpOperatingStateEnum::Dhw => "Dhw".to_owned(),
            HeatPumpOperatingStateEnum::Cc => "Cc".to_owned(),
            HeatPumpOperatingStateEnum::Circulate => "Circulate".to_owned(),
            HeatPumpOperatingStateEnum::Defrost => "Defrost".to_owned(),
            HeatPumpOperatingStateEnum::Off => "Off".to_owned(),
            HeatPumpOperatingStateEnum::Frost => "Frost".to_owned(),
            HeatPumpOperatingStateEnum::StbyFrost => "StbyFrost".to_owned(),
            HeatPumpOperatingStateEnum::NotUsed => "NotUsed".to_owned(),
            HeatPumpOperatingStateEnum::Summer => "Summer".to_owned(),
            HeatPumpOperatingStateEnum::Holiday => "Holiday".to_owned(),
            HeatPumpOperatingStateEnum::Error => "Error".to_owned(),
            HeatPumpOperatingStateEnum::Warning => "Warning".to_owned(),
            HeatPumpOperatingStateEnum::InfoMessage => "InfoMessage".to_owned(),
            HeatPumpOperatingStateEnum::TimeBlock => "TimeBlock".to_owned(),
            HeatPumpOperatingStateEnum::ReleaseBlock => "ReleaseBlock".to_owned(),
            HeatPumpOperatingStateEnum::MintempBlock => "MintempBlock".to_owned(),
            HeatPumpOperatingStateEnum::FirmwareDownload => "FirmwareDownload".to_owned(),
        }
    }

    proof fn lemma_table_small() {
    }

    proof fn lemma_in_table(self) {
        match self {
            HeatPumpOperatingStateEnum::Stby => {},
            HeatPumpOperatingStateEnum::Ch => {},
            HeatPumpOperatingStateEnum::Dhw => {},
            HeatPumpOperatingStateEnum::Cc => {},
            HeatPumpOperatingStateEnum::Circulate => {},
            HeatPumpOperatingStateEnum::Defrost => {},
            HeatPumpOperatingStateEnum::Off => {},
            HeatPumpOperatingStateEnum::Frost => {},
            HeatPumpOperatingStateEnum::StbyFrost => {},
            HeatPumpOperatingStateEnum::NotUsed => {},
            HeatPumpOperatingStateEnum::Summer => {},
            HeatPumpOperatingStateEnum::Holiday => {},
            HeatPumpOperatingStateEnum::Error => {},
            HeatPumpOperatingStateEnum::Warning => {},
            HeatPumpOperatingStateEnum::InfoMessage => {},
            HeatPumpOperatingStateEnum::TimeBlock => {},
            HeatPumpOperatingStateEnum::ReleaseBlock => {},
            HeatPumpOperatingStateEnum::MintempBlock => {},
            HeatPumpOperatingStateEnum::FirmwareDownload => {},
        }
    }
}

/// The declared name table of `HeatPumpOperatingStateEnum`, as a vector.
pub fn heat_pump_operating_state_enum_table() -> (t: Vec<String>)
    ensures
        t.deep_view() == HeatPumpOperatingStateEnum::table(),
{
    let mut t: Vec<String> = Vec::new();
    t.push("Stby".to_owned());
    t.push("Ch".to_owned());
    t.push("Dhw".to_owned());
    t.push("Cc".to_owned());
    t.push("Circulate".to_owned());
    t.push("Defrost".to_owned());
    t.push("Off".to_owned());
    t.push("Frost".to_owned());
    t.push("StbyFrost".to_owned());
    t.push("NotUsed".to_owned());
    t.push("Summer".to_owned());
    t.push("Holiday".to_owned());
    t.push("Error".to_owned());
    t.push("Warning".to_owned());
    t.push("InfoMessage".to_owned());
    t.push("TimeBlock".to_owned());
    t.push("ReleaseBlock".to_owned());
    t.push("MintempBlock".to_owned());
    t.push("FirmwareDownload".to_owned());
    proof {
        assert(t.deep_view() =~= HeatPumpOperatingStateEnum::table());
    }
    t
}

/// The kind of request the heat pump serves; decoded by position, 5 declared entries.
#[derive(Debug, Clone, Copy, PartialEq, Eq, Structural)]
pub enum HeatPumpRequestType {
    NoRequest,
    FlowPumpCirculation,
    CentralHeating,
    CentralCooling,
    DomesticHotWater,
}

impl OrdinalEnum for HeatPumpRequestType {
    open spec fn table() -> Seq<Seq<char>> {
        seq!["NoRequest"@, "FlowPumpCirculation"@, "CentralHeating"@, "CentralCooling"@, "DomesticHotWater"@]
    }

    open spec fn ordinal(self) -> int {
        match self {
            HeatPumpRequestType::NoRequest => 0,
            HeatPumpRequestType::FlowPumpCirculation => 1,
            HeatPumpRequestType::CentralHeating => 2,
            HeatPumpRequestType::CentralCooling => 3,
            HeatPumpRequestType::DomesticHotWater => 4,
        }
    }

    open spec fn spec_name(self) -> Seq<char> {
        match self {
            HeatPumpRequestType::NoRequest => "NoRequest"@,
            HeatPumpRequestType::FlowPumpCirculation => "FlowPumpCirculation"@,
            HeatPumpRequestType::CentralHeating => "CentralHeating"@,
            HeatPumpRequestType::CentralCooling => "CentralCooling"@,
            HeatPumpRequestType::DomesticHotWater => "DomesticHotWater"@,
        }
    }

    fn from_index(n: usize) -> (r: Option<Self>) {
        if n == 0 {
            Some(HeatPumpRequestType::NoRequest)
        } else if n == 1 {
            Some(HeatPumpRequestType::FlowPumpCirculation)
        } else if n == 2 {
            Some(HeatPumpRequestType::CentralHeating)
        } else if n == 3 {
            Some(HeatPumpRequestType::CentralCooling)
        } else if n == 4 {
            Some(HeatPumpRequestType::DomesticHotWater)
        } else {
            None
        }
    }

    fn name(&self) -> (s: String) {
        match self {
            HeatPumpRequestType::NoRequest => "NoRequest".to_owned(),
            HeatPumpRequestType::FlowPumpCirculation => "FlowPumpCirculation".to_owned(),
            HeatPumpRequestType::CentralHeating => "CentralHeating".to_owned(),
            HeatPumpRequestType::CentralCooling => "CentralCooling".to_owned(),
            HeatPumpRequestType::DomesticHotWater => "DomesticHotWater".to_owned(),
        }
    }

    proof fn lemma_table_small() {
    }

    proof fn lemma_in_table(self) {
        match self {
            HeatPumpRequestType::NoRequest => {},
            HeatPumpRequestType::FlowPumpCirculation => {},
            HeatPumpRequestType::CentralHeating => {},
            HeatPumpRequestType::CentralCooling => {},
            HeatPumpRequestType::DomesticHotWater => {},
        }
    }
}

/// The declared name table of `HeatPumpRequestType`, as a vector.
pub fn heat_pump_request_type_table() -> (t: Vec<String>)
    ensures
        t.deep_view() == HeatPumpRequestType::table(),
{
    let mut t: Vec<String> = Vec::new();
    t.push("NoRequest".to_owned());
    t.push("FlowPumpCirculation".to_owned());
    t.push("CentralHeating".to_owned());
    t.push("CentralCooling".to_owned());
    t.push("DomesticHotWater".to_owned());
    proof {
        assert(t.deep_view() =~= HeatPumpRequestType::table());
    }
    t
}

/// The boiler operating state; decoded by position, 13 declared entries.
#[derive(Debug, Clone, Copy, PartialEq, Eq, Structural)]
pub enum BoilerStateEnum {
    Stby,
    Dhw,
    Legio,
    Summer,
    Frost,
    Holiday,
    PrioStop,
    Error,
    Off,
    PromptDhw,
    TrailingStop,
    TempLock,
    StbyFrost,
}

impl OrdinalEnum for BoilerStateEnum {
    open spec fn table() -> Seq<Seq<char>> {
        seq!["Stby"@, "Dhw"@, "Legio"@, "Summer"@, "Frost"@, "Holiday"@, "PrioStop"@, "Error"@, "Off"@, "PromptDhw"@, "TrailingStop"@, "TempLock"@, "StbyFrost"@]
    }

    open spec fn ordinal(self) -> int {
        match self {
            BoilerStateEnum::Stby => 0,
            BoilerStateEnum::Dhw => 1,
            BoilerStateEnum::Legio => 2,
            BoilerStateEnum::Summer => 3,
            BoilerStateEnum::Frost => 4,
            BoilerStateEnum::Holiday => 5,
            BoilerStateEnum::PrioStop => 6,
            BoilerStateEnum::Error => 7,
            BoilerStateEnum::Off => 8,
            BoilerStateEnum::PromptDhw => 9,
            BoilerStateEnum::TrailingStop => 10,
            BoilerStateEnum::TempLock => 11,
            BoilerStateEnum::StbyFrost => 12,
        }
    }

    open spec fn spec_name(self) -> Seq<char> {
        match self {
            BoilerStateEnum::Stby => "Stby"@,
            BoilerStateEnum::Dhw => "Dhw"@,
            BoilerStateEnum::Legio => "Legio"@,
            BoilerStateEnum::Summer => "Summer"@,
            BoilerStateEnum::Frost => "Frost"@,
            BoilerStateEnum::Holiday => "Holiday"@,
            BoilerStateEnum::PrioStop => "PrioStop"@,
            BoilerStateEnum::Error => "Error"@,
            BoilerStateEnum::Off => "Off"@,
            BoilerStateEnum::PromptDhw => "PromptDhw"@,
            BoilerStateEnum::TrailingStop => "TrailingStop"@,
            BoilerStateEnum::TempLock => "TempLock"@,
            BoilerStateEnum::StbyFrost => "StbyFrost"@,
        }
    }

    fn from_index(n: usize) -> (r: Option<Self>) {
        if n == 0 {
            Some(BoilerStateEnum::Stby)
        } else if n == 1 {
            Some(BoilerStateEnum::Dhw)
        } else if n == 2 {
            Some(BoilerStateEnum::Legio)
        } else if n == 3 {
            Some(BoilerStateEnum::Summer)
        } else if n == 4 {
            Some(BoilerStateEnum::Frost)
        } else if n == 5 {
            Some(BoilerStateEnum::Holiday)
        } else if n == 6 {
            Some(BoilerStateEnum::PrioStop)
        } else if n == 7 {
            Some(BoilerStateEnum::Error)
        } else if n == 8 {
            Some(BoilerStateEnum::Off)
        } else if n == 9 {
            Some(BoilerStateEnum::PromptDhw)
        } else if n == 10 {
            Some(BoilerStateEnum::TrailingStop)
        } else if n == 11 {
            Some(BoilerStateEnum::TempLock)
        } else if n == 12 {
            Some(BoilerStateEnum::StbyFrost)
        } else {
            None
        }
    }

    fn name(&self) -> (s: String) {
        match self {
            BoilerStateEnum::Stby => "Stby".to_owned(),
            BoilerStateEnum::Dhw => "Dhw".to_owned(),
            BoilerStateEnum::Legio => "Legio".to_owned(),
            BoilerStateEnum::Summer => "Summer".to_owned(),
            BoilerStateEnum::Frost => "Frost".to_owned(),
            BoilerStateEnum::Holiday => "Holiday".to_owned(),
            BoilerStateEnum::PrioStop => "PrioStop".to_owned(),
            BoilerStateEnum::Error => "Error".to_owned(),
            BoilerStateEnum::Off => "Off".to_owned(),
            BoilerStateEnum::PromptDhw => "PromptDhw".to_owned(),
            BoilerStateEnum::TrailingStop => "TrailingStop".to_owned(),
            BoilerStateEnum::TempLock => "TempLock".to_owned(),
            BoilerStateEnum::StbyFrost => "StbyFrost".to_owned(),
        }
    }

    proof fn lemma_table_small() {
    }

    proof fn lemma_in_table(self) {
        match self {
            BoilerStateEnum::Stby => {},
            BoilerStateEnum::Dhw => {},
            BoilerStateEnum::Legio => {},
            BoilerStateEnum::Summer => {},
            BoilerStateEnum::Frost => {},
            BoilerStateEnum::Holiday => {},
            BoilerStateEnum::PrioStop => {},
            BoilerStateEnum::Error => {},
            BoilerStateEnum::Off => {},
            BoilerStateEnum::PromptDhw => {},
            BoilerStateEnum::TrailingStop => {},
            BoilerStateEnum::TempLock => {},
            BoilerStateEnum::StbyFrost => {},
        }
    }
}

/// The declared name table of `BoilerStateEnum`, as a vector.
pub fn boiler_state_enum_table() -> (t: Vec<String>)
    ensures
        t.deep_view() == BoilerStateEnum::table(),
{
    let mut t: Vec<String> = Vec::new();
    t.push("Stby".to_owned());
    t.push("Dhw".to_owned());
    t.push("Legio".to_owned());
    t.push("Summer".to_owned());
    t.push("Frost".to_owned());
    t.push("Holiday".to_owned());
    t.push("PrioStop".to_owned());
    t.push("Error".to_owned());
    t.push("Off".to_owned());
    t.push("PromptDhw".to_owned());
    t.push("TrailingStop".to_owned());
    t.push("TempLock".to_owned());
    t.push("StbyFrost".to_owned());
    proof {
        assert(t.deep_view() =~= BoilerStateEnum::table());
    }
    t
}

/// The buffer tank operating state; decoded by position, 10 declared entries.
#[derive(Debug, Clone, Copy, PartialEq, Eq, Structural)]
pub enum BufferState {
    Stby,
    Heating,
    Cooling,
    Summer,
    Frost,
    Holiday,
    PrioStop,
    Error,
    Off,
    StbyFrost,
}

impl OrdinalEnum for BufferState {
    open spec fn table() -> Seq<Seq<char>> {
        seq!["Stby"@, "Heating"@, "Cooling"@, "Summer"@, "Frost"@, "Holiday"@, "PrioStop"@, "Error"@, "Off"@, "StbyFrost"@]
    }

    open spec fn ordinal(self) -> int {
        match self {
            BufferState::Stby => 0,
            BufferState::Heating => 1,
            BufferState::Cooling => 2,
            BufferState::Summer => 3,
            BufferState::Frost => 4,
            BufferState::Holiday => 5,
            BufferState::PrioStop => 6,
            BufferState::Error => 7,
            BufferState::Off => 8,
            BufferState::StbyFrost => 9,
        }
    }

    open spec fn spec_name(self) -> Seq<char> {
        match self {
            BufferState::Stby => "Stby"@,
            BufferState::Heating => "Heating"@,
            BufferState::Cooling => "Cooling"@,
            BufferState::Summer => "Summer"@,
            BufferState::Frost => "Frost"@,
            BufferState::Holiday => "Holiday"@,
            BufferState::PrioStop => "PrioStop"@,
            BufferState::Error => "Error"@,
            BufferState::Off => "Off"@,
            BufferState::StbyFrost => "StbyFrost"@,
        }
    }

    fn from_index(n: usize) -> (r: Option<Self>) {
        if n == 0 {
            Some(BufferState::Stby)
        } else if n == 1 {
            Some(BufferState::Heating)
        } else if n == 2 {
            Some(BufferState::Cooling)
        } else if n == 3 {
            Some(BufferState::Summer)
        } else if n == 4 {
            Some(BufferState::Frost)
        } else if n == 5 {
            Some(BufferState::Holiday)
        } else if n == 6 {
            Some(BufferState::PrioStop)
        } else if n == 7 {
            Some(BufferState::Error)
        } else if n == 8 {
            Some(BufferState::Off)
        } else if n == 9 {
            Some(BufferState::StbyFrost)
        } else {
            None
        }
    }

    fn name(&self) -> (s: String) {
        match self {
            BufferState::Stby => "Stby".to_owned(),
            BufferState::Heating => "Heating".to_owned(),
            BufferState::Cooling => "Cooling".to_owned(),
            BufferState::Summer => "Summer".to_owned(),
            BufferState::Frost => "Frost".to_owned(),
            BufferState::Holiday => "Holiday".to_owned(),
            BufferState::PrioStop => "PrioStop".to_owned(),
            BufferState::Error => "Error".to_owned(),
            BufferState::Off => "Off".to_owned(),
            BufferState::StbyFrost => "StbyFrost".to_owned(),
        }
    }

    proof fn lemma_table_small() {
    }

    proof fn lemma_in_table(self) {
        match self {
            BufferState::Stby => {},
            BufferState::Heating => {},
            BufferState::Cooling => {},
            BufferState::Summer => {},
            BufferState::Frost => {},
            BufferState::Holiday => {},
            BufferState::PrioStop => {},
            BufferState::Error => {},
            BufferState::Off => {},
            BufferState::StbyFrost => {},
        }
    }
}

/// The declared name table of `BufferState`, as a vector.
pub fn buffer_state_table() -> (t: Vec<String>)
    ensures
        t.deep_view() == BufferState::table(),
{
    let mut t: Vec<String> = Vec::new();
    t.push("Stby".to_owned());
    t.push("Heating".to_owned());
    t.push("Cooling".to_owned());
    t.push("Summer".to_owned());
    t.push("Frost".to_owned());
    t.push("Holiday".to_owned());
    t.push("PrioStop".to_owned());
    t.push("Error".to_owned());
    t.push("Off".to_owned());
    t.push("StbyFrost".to_owned());
    proof {
        assert(t.deep_view() =~= BufferState::table());
    }
    t
}

/// The heating-circuit operating state; decoded by position, 21 declared entries.
#[derive(Debug, Clone, Copy, PartialEq, Eq, Structural)]
pub enum HeatingCircuitState {
    Heating,
    Eco,
    Cooling,
    Floordry,
    Frost,
    MaxTemp,
    Error,
    Service,
    Holiday,
    ChSummer,
    CcWinter,
    PrioStop,
    Off,
    ReleaseOff,
    TimeOff,
    Stby,
    StbyHeating,
    StbyEco,
    StbyCooling,
    StbyFrost,
    StbyFloordry,
}

impl OrdinalEnum for HeatingCircuitState {
    open spec fn table() -> Seq<Seq<char>> {
        seq!["Heating"@, "Eco"@, "Cooling"@, "Floordry"@, "Frost"@, "MaxTemp"@, "Error"@, "Service"@, "Holiday"@, "ChSummer"@, "CcWinter"@, "PrioStop"@, "Off"@, "ReleaseOff"@, "TimeOff"@, "Stby"@, "StbyHeating"@, "StbyEco"@, "StbyCooling"@, "StbyFrost"@, "StbyFloordry"@]
    }

    open spec fn ordinal(self) -> int {
        match self {
            HeatingCircuitState::Heating => 0,
            HeatingCircuitState::Eco => 1,
            HeatingCircuitState::Cooling => 2,
            HeatingCircuitState::Floordry => 3,
            HeatingCircuitState::Frost => 4,
            HeatingCircuitState::MaxTemp => 5,
            HeatingCircuitState::Error => 6,
            HeatingCircuitState::Service => 7,
            HeatingCircuitState::Holiday => 8,
            HeatingCircuitState::ChSummer => 9,
            HeatingCircuitState::CcWinter => 10,
            HeatingCircuitState::PrioStop => 11,
            HeatingCircuitState::Off => 12,
            HeatingCircuitState::ReleaseOff => 13,
            HeatingCircuitState::TimeOff => 14,
            HeatingCircuitState::Stby => 15,
            HeatingCircuitState::StbyHeating => 16,
            HeatingCircuitState::StbyEco => 17,
            HeatingCircuitState::StbyCooling => 18,
            HeatingCircuitState::StbyFrost => 19,
            HeatingCircuitState::StbyFloordry => 20,
        }
    }

    open spec fn spec_name(self) -> Seq<char> {
        match self {
            HeatingCircuitState::Heating => "Heating"@,
            HeatingCircuitState::Eco => "Eco"@,
            HeatingCircuitState::Cooling => "Cooling"@,
            HeatingCircuitState::Floordry => "Floordry"@,
            HeatingCircuitState::Frost => "Frost"@,
            HeatingCircuitState::MaxTemp => "MaxTemp"@,
            HeatingCircuitState::Error => "Error"@,
            HeatingCircuitState::Service => "Service"@,
            HeatingCircuitState::Holiday => "Holiday"@,
            HeatingCircuitState::ChSummer => "ChSummer"@,
            HeatingCircuitState::CcWinter => "CcWinter"@,
            HeatingCircuitState::PrioStop => "PrioStop"@,
            HeatingCircuitState::Off => "Off"@,
            HeatingCircuitState::ReleaseOff => "ReleaseOff"@,
            HeatingCircuitState::TimeOff => "TimeOff"@,
            HeatingCircuitState::Stby => "Stby"@,
            HeatingCircuitState::StbyHeating => "StbyHeating"@,
            HeatingCircuitState::StbyEco => "StbyEco"@,
            HeatingCircuitState::StbyCooling => "StbyCooling"@,
            HeatingCircuitState::StbyFrost => "StbyFrost"@,
            HeatingCircuitState::StbyFloordry => "StbyFloordry"@,
        }
    }

    fn from_index(n: usize) -> (r: Option<Self>) {
        if n == 0 {
            Some(HeatingCircuitState::Heating)
        } else if n == 1 {
            Some(HeatingCircuitState::Eco)
        } else if n == 2 {
            Some(HeatingCircuitState::Cooling)
        } else if n == 3 {
            Some(HeatingCircuitState::Floordry)
        } else if n == 4 {
            Some(HeatingCircuitState::Frost)
        } else if n == 5 {
            Some(HeatingCircuitState::MaxTemp)
        } else if n == 6 {
            Some(HeatingCircuitState::Error)
        } else if n == 7 {
            Some(HeatingCircuitState::Service)
        } else if n == 8 {
            Some(HeatingCircuitState::Holiday)
        } else if n == 9 {
            Some(HeatingCircuitState::ChSummer)
        } else if n == 10 {
            Some(HeatingCircuitState::CcWinter)
        } else if n == 11 {
            Some(HeatingCircuitState::PrioStop)
        } else if n == 12 {
            Some(HeatingCircuitState::Off)
        } else if n == 13 {
            Some(HeatingCircuitState::ReleaseOff)
        } else if n == 14 {
            Some(HeatingCircuitState::TimeOff)
        } else if n == 15 {
            Some(HeatingCircuitState::Stby)
        } else if n == 16 {
            Some(HeatingCircuitState::StbyHeating)
        } else if n == 17 {
            Some(HeatingCircuitState::StbyEco)
        } else if n == 18 {
            Some(HeatingCircuitState::StbyCooling)
        } else if n == 19 {
            Some(HeatingCircuitState::StbyFrost)
        } else if n == 20 {
            Some(HeatingCircuitState::StbyFloordry)
        } else {
            None
        }
    }

    fn name(&self) -> (s: String) {
        match self {
            HeatingCircuitState::Heating => "Heating".to_owned(),
            HeatingCircuitState::Eco => "Eco".to_owned(),
            HeatingCircuitState::Cooling => "Cooling".to_owned(),
            HeatingCircuitState::Floordry => "Floordry".to_owned(),
            HeatingCircuitState::Frost => "Frost".to_owned(),
            HeatingCircuitState::MaxTemp => "MaxTemp".to_owned(),
            HeatingCircuitState::Error => "Error".to_owned(),
            HeatingCircuitState::Service => "Service".to_owned(),
            HeatingCircuitState::Holiday => "Holiday".to_owned(),
            HeatingCircuitState::ChSummer => "ChSummer".to_owned(),
            HeatingCircuitState::CcWinter => "CcWinter".to_owned(),
            HeatingCircuitState::PrioStop => "PrioStop".to_owned(),
            HeatingCircuitState::Off => "Off".to_owned(),
            HeatingCircuitState::ReleaseOff => "ReleaseOff".to_owned(),
            HeatingCircuitState::TimeOff => "TimeOff".to_owned(),
            HeatingCircuitState::Stby => "Stby".to_owned(),
            HeatingCircuitState::StbyHeating => "StbyHeating".to_owned(),
            HeatingCircuitState::StbyEco => "StbyEco".to_owned(),
            HeatingCircuitState::StbyCooling => "StbyCooling".to_owned(),
            HeatingCircuitState::StbyFrost => "StbyFrost".to_owned(),
            HeatingCircuitState::StbyFloordry => "StbyFloordry".to_owned(),
        }
    }

    proof fn lemma_table_small() {
    }

    proof fn lemma_in_table(self) {
        match self {
            HeatingCircuitState::Heating => {},
            HeatingCircuitState::Eco => {},
            HeatingCircuitState::Cooling => {},
            HeatingCircuitState::Floordry => {},
            HeatingCircuitState::Frost => {},
            HeatingCircuitState::MaxTemp => {},
            HeatingCircuitState::Error => {},
            HeatingCircuitState::Service => {},
            HeatingCircuitState::Holiday => {},
            HeatingCircuitState::ChSummer => {},
            HeatingCircuitState::CcWinter => {},
            HeatingCircuitState::PrioStop => {},
            HeatingCircuitState::Off => {},
            HeatingCircuitState::ReleaseOff => {},
            HeatingCircuitState::TimeOff => {},
            HeatingCircuitState::Stby => {},
            HeatingCircuitState::StbyHeating => {},
            HeatingCircuitState::StbyEco => {},
            HeatingCircuitState::StbyCooling => {},
            HeatingCircuitState::StbyFrost => {},
            HeatingCircuitState::StbyFloordry => {},
        }
    }
}

/// The declared name table of `HeatingCircuitState`, as a vector.
pub fn heating_circuit_state_table() -> (t: Vec<String>)
    ensures
        t.deep_view() == HeatingCircuitState::table(),
{
    let mut t: Vec<String> = Vec::new();
    t.push("Heating".to_owned());
    t.push("Eco".to_owned());
    t.push("Cooling".to_owned());
    t.push("Floordry".to_owned());
    t.push("Frost".to_owned());
    t.push("MaxTemp".to_owned());
    t.push("Error".to_owned());
    t.push("Service".to_owned());
    t.push("Holiday".to_owned());
    t.push("ChSummer".to_owned());
    t.push("CcWinter".to_owned());
    t.push("PrioStop".to_owned());
    t.push("Off".to_owned());
    t.push("ReleaseOff".to_owned());
    t.push("TimeOff".to_owned());
    t.push("Stby".to_owned());
    t.push("StbyHeating".to_owned());
    t.push("StbyEco".to_owned());
    t.push("StbyCooling".to_owned());
    t.push("StbyFrost".to_owned());
    t.push("StbyFloordry".to_owned());
    proof {
        assert(t.deep_view() =~= HeatingCircuitState::table());
    }
    t
}

/// The fully mapped heat-pump record: every field resolves or no record
/// is produced. Temperatures, powers and energies are validated decimal
/// text; the error number is an exact integer; states are enum variants.
#[derive(Debug, Clone, PartialEq, Eq)]
pub struct LambdaData {
    pub ambient_state: AmbientStateEnum,
    pub ambient_temperature_calculated: String,
    pub emanager_operating_state: EManagerStateEnum,
    pub emanager_actual_power: String,
    pub emanager_pv_power: String,
    pub emanager_power_setpoint: String,
    pub heatpump_error_state: EManagerErrorStateEnum,
    pub heatpump_error_number: i32,
    pub heatpump_state: HeatPumpStateEnum,
    pub heatpump_operating_state: HeatPumpOperatingStateEnum,
    pub heatpump_flowline_temp: String,
    pub heatpump_return_line_temp: String,
    pub heatpump_volume_sink: String,
    pub heatpump_energy_source_inlet_temp: String,
    pub heatpump_volume_source_flow: String,
    pub heatpump_compressor_rating: String,
    pub heatpump_actual_heating_capacity: String,
    pub heatpump_inverter_actual_power: String,
    pub heatpump_current_cop: String,
    pub heatpump_request_type: HeatPumpRequestType,
    pub heatpump_request_flow_temp: String,
    pub heatpump_request_return_temp: String,
    pub heatpump_request_temp_diff: String,
    pub heatpump_electric_energy: String,
    pub heatpump_heat_energy: String,
    pub boiler_state: BoilerStateEnum,
    pub boiler_high_temp: String,
    pub boiler_low_temp: String,
    pub boiler_max_temp: String,
    pub buffer_state: BufferState,
    pub buffer_high_temp: String,
    pub buffer_low_temp: String,
    pub buffer_max_temp: String,
    pub heating_circuit_1_state: HeatingCircuitState,
    pub heating_circuit_2_state: HeatingCircuitState,
    pub heating_circuit_1_flow_temp: String,
    pub heating_circuit_2_flow_temp: String,
}

/// The declared schema of `LambdaData`: one field spec per record field,
/// in declaration order. This order fixes which field fails first.
pub open spec fn lambda_specs() -> Seq<FieldSpecView> {
    seq![
        FieldSpecView { key: "modbus.0.holdingRegisters.40002_Ambient_State"@, kind: FieldKindView::Ordinal(AmbientStateEnum::table()) },
        FieldSpecView { key: "modbus.0.holdingRegisters.40005_Ambient_Calculated_Temp"@, kind: FieldKindView::Numeric },
        FieldSpecView { key: "modbus.0.holdingRegisters.40102_E_Manager_State"@, kind: FieldKindView::Ordinal(EManagerStateEnum::table()) },
        FieldSpecView { key: "modbus.0.holdingRegisters.40104_E_Manager_Actual"@, kind: FieldKindView::Numeric },
        FieldSpecView { key: "modbus.0.holdingRegisters.40103_E-Manager_ExcessPower"@, kind: FieldKindView::Numeric },
        FieldSpecView { key: "modbus.0.holdingRegisters.40105_E_Manager_Setpoint"@, kind: FieldKindView::Numeric },
        FieldSpecView { key: "modbus.0.holdingRegisters.41001_HP1_Error_State"@, kind: FieldKindView::Ordinal(EManagerErrorStateEnum::table()) },
        FieldSpecView { key: "modbus.0.holdingRegisters.41002_HP1_Error"@, kind: FieldKindView::Integer },
        FieldSpecView { key: "modbus.0.holdingRegisters.41003_HP1_State"@, kind: FieldKindView::Ordinal(HeatPumpStateEnum::table()) },
        FieldSpecView { key: "modbus.0.holdingRegisters.41004_HP1_OperatingState"@, kind: FieldKindView::Ordinal(HeatPumpOperatingStateEnum::table()) },
        FieldSpecView { key: "modbus.0.holdingRegisters.41005_HP1_T_Flow"@, kind: FieldKindView::Numeric },
        FieldSpecView { key: "modbus.0.holdingRegisters.41006_HP1_T_Return"@, kind: FieldKindView::Numeric },
        FieldSpecView { key: "modbus.0.holdingRegisters.41007_HP1_Vol_Sink"@, kind: FieldKindView::Numeric },
        FieldSpecView { key: "modbus.0.holdingRegisters.41008_HP1_T_EQin"@, kind: FieldKindView::Numeric },
        FieldSpecView { key: "modbus.0.holdingRegisters.41010_HP1_Vol_Source"@, kind: FieldKindView::Numeric },
        FieldSpecView { key: "modbus.0.holdingRegisters.41011_HP1_CompressorRating"@, kind: FieldKindView::Numeric },
        FieldSpecView { key: "modbus.0.holdingRegisters.41012_HP1_QpHeating"@, kind: FieldKindView::Numeric },
        FieldSpecView { key: "modbus.0.holdingRegisters.41013_HP1_FI_PowerConsumption"@, kind: FieldKindView::Numeric },
        FieldSpecView { key: "modbus.0.holdingRegisters.41014_HP1_COP"@, kind: FieldKindView::Numeric },
        FieldSpecView { key: "modbus.0.holdingRegisters.41016_HP1_RequestType"@, kind: FieldKindView::Ordinal(HeatPumpRequestType::table()) },
        FieldSpecView { key: "modbus.0.holdingRegisters.41017_HP1_RequestT_Flow"@, kind: FieldKindView::Numeric },
        FieldSpecView { key: "modbus.0.holdingRegisters.41018_HP1_RequestT_Return"@, kind: FieldKindView::Numeric },
        FieldSpecView { key: "modbus.0.holdingRegisters.41019_HP1_RequestT_Diff"@, kind: FieldKindView::Numeric },
        FieldSpecView { key: "modbus.0.holdingRegisters.41021_HP1_VdA_E"@, kind: FieldKindView::Numeric },
        FieldSpecView { key: "modbus.0.holdingRegisters.41023_HP1_VdA_Q"@, kind: FieldKindView::Numeric },
        FieldSpecView { key: "modbus.0.holdingRegisters.42002_Boiler1_OperatingState"@, kind: FieldKindView::Ordinal(BoilerStateEnum::table()) },
        FieldSpecView { key: "modbus.0.holdingRegisters.42003_Boiler1_ActualHighTemp"@, kind: FieldKindView::Numeric },
        FieldSpecView { key: "modbus.0.holdingRegisters.42004_Boiler1_ActualLowTemp"@, kind: FieldKindView::Numeric },
        FieldSpecView { key: "modbus.0.holdingRegisters.42051_Boiler1_MaximumTemp"@, kind: FieldKindView::Numeric },
        FieldSpecView { key: "modbus.0.holdingRegisters.43002_Buffer1_OperatingState"@, kind: FieldKindView::Ordinal(BufferState::table()) },
        FieldSpecView { key: "modbus.0.holdingRegisters.43003_Buffer1_ActualHighTemp"@, kind: FieldKindView::Numeric },
        FieldSpecView { key: "modbus.0.holdingRegisters.43004_Buffer1_ActualLowTemp"@, kind: FieldKindView::Numeric },
        FieldSpecView { key: "modbus.0.holdingRegisters.43051_Buffer1_MaximumTemp"@, kind: FieldKindView::Numeric },
        FieldSpecView { key: "modbus.0.holdingRegisters.45002_Heating1_OperatingState"@, kind: FieldKindView::Ordinal(HeatingCircuitState::table()) },
        FieldSpecView { key: "modbus.0.holdingRegisters.45102_Heating2_OperatingState"@, kind: FieldKindView::Ordinal(HeatingCircuitState::table()) },
        FieldSpecView { key: "modbus.0.holdingRegisters.45003_Heating1_T_Flow"@, kind: FieldKindView::Numeric },
        FieldSpecView { key: "modbus.0.holdingRegisters.45103_Heating2_T_Flow"@, kind: FieldKindView::Numeric },
    ]
}

/// The declared schema of `LambdaData`, as the vector `map_record` takes.
pub fn lambda_field_specs() -> (v: Vec<FieldSpec>)
    ensures
        specs_view(v@) == lambda_specs(),
{
    let mut v: Vec<FieldSpec> = Vec::new();
    v.push(FieldSpec { key: "modbus.0.holdingRegisters.40002_Ambient_State".to_owned(), kind: FieldKind::Ordinal(ambient_state_enum_table()) });
    v.push(FieldSpec { key: "modbus.0.holdingRegisters.40005_Ambient_Calculated_Temp".to_owned(), kind: FieldKind::Numeric });
    v.push(FieldSpec { key: "modbus.0.holdingRegisters.40102_E_Manager_State".to_owned(), kind: FieldKind::Ordinal(e_manager_state_enum_table()) });
    v.push(FieldSpec { key: "modbus.0.holdingRegisters.40104_E_Manager_Actual".to_owned(), kind: FieldKind::Numeric });
    v.push(FieldSpec { key: "modbus.0.holdingRegisters.40103_E-Manager_ExcessPower".to_owned(), kind: FieldKind::Numeric });
    v.push(FieldSpec { key: "modbus.0.holdingRegisters.40105_E_Manager_Setpoint".to_owned(), kind: FieldKind::Numeric });
    v.push(FieldSpec { key: "modbus.0.holdingRegisters.41001_HP1_Error_State".to_owned(), kind: FieldKind::Ordinal(e_manager_error_state_enum_table()) });
    v.push(FieldSpec { key: "modbus.0.holdingRegisters.41002_HP1_Error".to_owned(), kind: FieldKind::Integer });
    v.push(FieldSpec { key: "modbus.0.holdingRegisters.41003_HP1_State".to_owned(), kind: FieldKind::Ordinal(heat_pump_state_enum_table()) });
    v.push(FieldSpec { key: "modbus.0.holdingRegisters.41004_HP1_OperatingState".to_owned(), kind: FieldKind::Ordinal(heat_pump_operating_state_enum_table()) });
    v.push(FieldSpec { key: "modbus.0.holdingRegisters.41005_HP1_T_Flow".to_owned(), kind: FieldKind::Numeric });
    v.push(FieldSpec { key: "modbus.0.holdingRegisters.41006_HP1_T_Return".to_owned(), kind: FieldKind::Numeric });
    v.push(FieldSpec { key: "modbus.0.holdingRegisters.41007_HP1_Vol_Sink".to_owned(), kind: FieldKind::Numeric });
    v.push(FieldSpec { key: "modbus.0.holdingRegisters.41008_HP1_T_EQin".to_owned(), kind: FieldKind::Numeric });
    v.push(FieldSpec { key: "modbus.0.holdingRegisters.41010_HP1_Vol_Source".to_owned(), kind: FieldKind::Numeric });
    v.push(FieldSpec { key: "modbus.0.holdingRegisters.41011_HP1_CompressorRating".to_owned(), kind: FieldKind::Numeric });
    v.push(FieldSpec { key: "modbus.0.holdingRegisters.41012_HP1_QpHeating".to_owned(), kind: FieldKind::Numeric });
    v.push(FieldSpec { key: "modbus.0.holdingRegisters.41013_HP1_FI_PowerConsumption".to_owned(), kind: FieldKind::Numeric });
    v.push(FieldSpec { key: "modbus.0.holdingRegisters.41014_HP1_COP".to_owned(), kind: FieldKind::Numeric });
    v.push(FieldSpec { key: "modbus.0.holdingRegisters.41016_HP1_RequestType".to_owned(), kind: FieldKind::Ordinal(heat_pump_request_type_table()) });
    v.push(FieldSpec { key: "modbus.0.holdingRegisters.41017_HP1_RequestT_Flow".to_owned(), kind: FieldKind::Numeric });
    v.push(FieldSpec { key: "modbus.0.holdingRegisters.41018_HP1_RequestT_Return".to_owned(), kind: FieldKind::Numeric });
    v.push(FieldSpec { key: "modbus.0.holdingRegisters.41019_HP1_RequestT_Diff".to_owned(), kind: FieldKind::Numeric });
    v.push(FieldSpec { key: "modbus.0.holdingRegisters.41021_HP1_VdA_E".to_owned(), kind: FieldKind::Numeric });
    v.push(FieldSpec { key: "modbus.0.holdingRegisters.41023_HP1_VdA_Q".to_owned(), kind: FieldKind::Numeric });
    v.push(FieldSpec { key: "modbus.0.holdingRegisters.42002_Boiler1_OperatingState".to_owned(), kind: FieldKind::Ordinal(boiler_state_enum_table()) });
    v.push(FieldSpec { key: "modbus.0.holdingRegisters.42003_Boiler1_ActualHighTemp".to_owned(), kind: FieldKind::Numeric });
    v.push(FieldSpec { key: "modbus.0.holdingRegisters.42004_Boiler1_ActualLowTemp".to_owned(), kind: FieldKind::Numeric });
    v.push(FieldSpec { key: "modbus.0.holdingRegisters.42051_Boiler1_MaximumTemp".to_owned(), kind: FieldKind::Numeric });
    v.push(FieldSpec { key: "modbus.0.holdingRegisters.43002_Buffer1_OperatingState".to_owned(), kind: FieldKind::Ordinal(buffer_state_table()) });
    v.push(FieldSpec { key: "modbus.0.holdingRegisters.43003_Buffer1_ActualHighTemp".to_owned(), kind: FieldKind::Numeric });
    v.push(FieldSpec { key: "modbus.0.holdingRegisters.43004_Buffer1_ActualLowTemp".to_owned(), kind: FieldKind::Numeric });
    v.push(FieldSpec { key: "modbus.0.holdingRegisters.43051_Buffer1_MaximumTemp".to_owned(), kind: FieldKind::Numeric });
    v.push(FieldSpec { key: "modbus.0.holdingRegisters.45002_Heating1_OperatingState".to_owned(), kind: FieldKind::Ordinal(heating_circuit_state_table()) });
    v.push(FieldSpec { key: "modbus.0.holdingRegisters.45102_Heating2_OperatingState".to_owned(), kind: FieldKind::Ordinal(heating_circuit_state_table()) });
    v.push(FieldSpec { key: "modbus.0.holdingRegisters.45003_Heating1_T_Flow".to_owned(), kind: FieldKind::Numeric });
    v.push(FieldSpec { key: "modbus.0.holdingRegisters.45103_Heating2_T_Flow".to_owned(), kind: FieldKind::Numeric });
    proof {
        assert(specs_view(v@)[0] == lambda_specs()[0]);
        assert(specs_view(v@)[1] == lambda_specs()[1]);
        assert(specs_view(v@)[2] == lambda_specs()[2]);
        assert(specs_view(v@)[3] == lambda_specs()[3]);
        assert(specs_view(v@)[4] == lambda_specs()[4]);
        assert(specs_view(v@)[5] == lambda_specs()[5]);
        assert(specs_view(v@)[6] == lambda_specs()[6]);
        assert(specs_view(v@)[7] == lambda_specs()[7]);
        assert(specs_view(v@)[8] == lambda_specs()[8]);
        assert(specs_view(v@)[9] == lambda_specs()[9]);
        assert(specs_view(v@)[10] == lambda_specs()[10]);
        assert(specs_view(v@)[11] == lambda_specs()[11]);
        assert(specs_view(v@)[12] == lambda_specs()[12]);
        assert(specs_view(v@)[13] == lambda_specs()[13]);
        assert(specs_view(v@)[14] == lambda_specs()[14]);
        assert(specs_view(v@)[15] == lambda_specs()[15]);
        assert(specs_view(v@)[16] == lambda_specs()[16]);
        assert(specs_view(v@)[17] == lambda_specs()[17]);
        assert(specs_view(v@)[18] == lambda_specs()[18]);
        assert(specs_view(v@)[19] == lambda_specs()[19]);
        assert(specs_view(v@)[20] == lambda_specs()[20]);
        assert(specs_view(v@)[21] == lambda_specs()[21]);
        assert(specs_view(v@)[22] == lambda_specs()[22]);
        assert(specs_view(v@)[23] == lambda_specs()[23]);
        assert(specs_view(v@)[24] == lambda_specs()[24]);
        assert(specs_view(v@)[25] == lambda_specs()[25]);
        assert(specs_view(v@)[26] == lambda_specs()[26]);
        assert(specs_view(v@)[27] == lambda_specs()[27]);
        assert(specs_view(v@)[28] == lambda_specs()[28]);
        assert(specs_view(v@)[29] == lambda_specs()[29]);
        assert(specs_view(v@)[30] == lambda_specs()[30]);
        assert(specs_view(v@)[31] == lambda_specs()[31]);
        assert(specs_view(v@)[32] == lambda_specs()[32]);
        assert(specs_view(v@)[33] == lambda_specs()[33]);
        assert(specs_view(v@)[34] == lambda_specs()[34]);
        assert(specs_view(v@)[35] == lambda_specs()[35]);
        assert(specs_view(v@)[36] == lambda_specs()[36]);
        assert(specs_view(v@) =~= lambda_specs());
    }
    v
}

/// How a `LambdaData` record relates to the decoded field values of its
/// schema: field by field, in declaration order.
pub open spec fn lambda_data_matches(d: LambdaData, vals: Seq<FieldValueView>) -> bool {
    &&& d.ambient_state.ordinal() == vals[0]->Ordinal_0
    &&& d.ambient_temperature_calculated@ == vals[1]->Numeric_0
    &&& d.emanager_operating_state.ordinal() == vals[2]->Ordinal_0
    &&& d.emanager_actual_power@ == vals[3]->Numeric_0
    &&& d.emanager_pv_power@ == vals[4]->Numeric_0
    &&& d.emanager_power_setpoint@ == vals[5]->Numeric_0
    &&& d.heatpump_error_state.ordinal() == vals[6]->Ordinal_0
    &&& d.heatpump_error_number as int == vals[7]->Integer_0
    &&& d.heatpump_state.ordinal() == vals[8]->Ordinal_0
    &&& d.heatpump_operating_state.ordinal() == vals[9]->Ordinal_0
    &&& d.heatpump_flowline_temp@ == vals[10]->Numeric_0
    &&& d.heatpump_return_line_temp@ == vals[11]->Numeric_0
    &&& d.heatpump_volume_sink@ == vals[12]->Numeric_0
    &&& d.heatpump_energy_source_inlet_temp@ == vals[13]->Numeric_0
    &&& d.heatpump_volume_source_flow@ == vals[14]->Numeric_0
    &&& d.heatpump_compressor_rating@ == vals[15]->Numeric_0
    &&& d.heatpump_actual_heating_capacity@ == vals[16]->Numeric_0
    &&& d.heatpump_inverter_actual_power@ == vals[17]->Numeric_0
    &&& d.heatpump_current_cop@ == vals[18]->Numeric_0
    &&& d.heatpump_request_type.ordinal() == vals[19]->Ordinal_0
    &&& d.heatpump_request_flow_temp@ == vals[20]->Numeric_0
    &&& d.heatpump_request_return_temp@ == vals[21]->Numeric_0
    &&& d.heatpump_request_temp_diff@ == vals[22]->Numeric_0
    &&& d.heatpump_electric_energy@ == vals[23]->Numeric_0
    &&& d.heatpump_heat_energy@ == vals[24]->Numeric_0
    &&& d.boiler_state.ordinal() == vals[25]->Ordinal_0
    &&& d.boiler_high_temp@ == vals[26]->Numeric_0
    &&& d.boiler_low_temp@ == vals[27]->Numeric_0
    &&& d.boiler_max_temp@ == vals[28]->Numeric_0
    &&& d.buffer_state.ordinal() == vals[29]->Ordinal_0
    &&& d.buffer_high_temp@ == vals[30]->Numeric_0
    &&& d.buffer_low_temp@ == vals[31]->Numeric_0
    &&& d.buffer_max_temp@ == vals[32]->Numeric_0
    &&& d.heating_circuit_1_state.ordinal() == vals[33]->Ordinal_0
    &&& d.heating_circuit_2_state.ordinal() == vals[34]->Ordinal_0
    &&& d.heating_circuit_1_flow_temp@ == vals[35]->Numeric_0
    &&& d.heating_circuit_2_flow_temp@ == vals[36]->Numeric_0
}

/// Maps one raw snapshot into a full heat-pump record, failing fast: the
/// result is `Ok` exactly when every field of the schema resolves, and an
/// `Err` carries the first failing field's error.
pub fn map_lamda_data(broker_value: &RawMapping) -> (r: Result<LambdaData, ConversionError>)
    ensures
        r is Ok <==> spec_map_record(broker_value@, lambda_specs()) is Ok,
        r matches Err(e) ==> spec_map_record(broker_value@, lambda_specs()) == Result::<
            Seq<FieldValueView>,
            ConversionErrorView,
        >::Err(e@),
        r matches Ok(d) ==> lambda_data_matches(
            d,
            spec_map_record(broker_value@, lambda_specs())->Ok_0,
        ),
{
    let specs = lambda_field_specs();
    let values = match map_record(broker_value, &specs) {
        Ok(vs) => vs,
        Err(e) => {
            return Err(e);
        },
    };
    let ghost m = broker_value@;
    let ghost vals = spec_map_record(m, lambda_specs())->Ok_0;
    proof {
        lemma_map_record_ok_inversion(m, lambda_specs());
        assert(lambda_specs().len() == 37);
        assert(values_view(values@) == vals);
        assert(values@.len() == 37);
    }
    proof {
        assert(spec_decode(m, lambda_specs()[0]) is Ok);
        assert(vals[0] == spec_decode(m, lambda_specs()[0])->Ok_0);
        assert(values@[0]@ == vals[0]);
    }
    let ambient_state = match &values[0] {
        FieldValue::Ordinal(ix) => match AmbientStateEnum::from_index(*ix) {
            Some(v) => v,
            None => unreached(),
        },
        _ => unreached(),
    };
    proof {
        assert(spec_decode(m, lambda_specs()[1]) is Ok);
        assert(vals[1] == spec_decode(m, lambda_specs()[1])->Ok_0);
        assert(values@[1]@ == vals[1]);
    }
    let ambient_temperature_calculated = match &values[1] {
        FieldValue::Numeric(s) => s.clone(),
        _ => unreached(),
    };
    proof {
        assert(spec_decode(m, lambda_specs()[2]) is Ok);
        assert(vals[2] == spec_decode(m, lambda_specs()[2])->Ok_0);
        assert(values@[2]@ == vals[2]);
    }
    let emanager_operating_state = match &values[2] {
        FieldValue::Ordinal(ix) => match EManagerStateEnum::from_index(*ix) {
            Some(v) => v,
            None => unreached(),
        },
        _ => unreached(),
    };
    proof {
        assert(spec_decode(m, lambda_specs()[3]) is Ok);
        assert(vals[3] == spec_decode(m, lambda_specs()[3])->Ok_0);
        assert(values@[3]@ == vals[3]);
    }
    let emanager_actual_power = match &values[3] {
        FieldValue::Numeric(s) => s.clone(),
        _ => unreached(),
    };
    proof {
        assert(spec_decode(m, lambda_specs()[4]) is Ok);
        assert(vals[4] == spec_decode(m, lambda_specs()[4])->Ok_0);
        assert(values@[4]@ == vals[4]);
    }
    let emanager_pv_power = match &values[4] {
        FieldValue::Numeric(s) => s.clone(),
        _ => unreached(),
    };
    proof {
        assert(spec_decode(m, lambda_specs()[5]) is Ok);
        assert(vals[5] == spec_decode(m, lambda_specs()[5])->Ok_0);
        assert(values@[5]@ == vals[5]);
    }
    let emanager_power_setpoint = match &values[5] {
        FieldValue::Numeric(s) => s.clone(),
        _ => unreached(),
    };
    proof {
        assert(spec_decode(m, lambda_specs()[6]) is Ok);
        assert(vals[6] == spec_decode(m, lambda_specs()[6])->Ok_0);
        assert(values@[6]@ == vals[6]);
    }
    let heatpump_error_state = match &values[6] {
        FieldValue::Ordinal(ix) => match EManagerErrorStateEnum::from_index(*ix) {
            Some(v) => v,
            None => unreached(),
        },
        _ => unreached(),
    };
    proof {
        assert(spec_decode(m, lambda_specs()[7]) is Ok);
        assert(vals[7] == spec_decode(m, lambda_specs()[7])->Ok_0);
        assert(values@[7]@ == vals[7]);
    }
    let heatpump_error_number = match &values[7] {
        FieldValue::Integer(n) => *n,
        _ => unreached(),
    };
    proof {
        assert(spec_decode(m, lambda_specs()[8]) is Ok);
        assert(vals[8] == spec_decode(m, lambda_specs()[8])->Ok_0);
        assert(values@[8]@ == vals[8]);
    }
    let heatpump_state = match &values[8] {
        FieldValue::Ordinal(ix) => match HeatPumpStateEnum::from_index(*ix) {
            Some(v) => v,
            None => unreached(),
        },
        _ => unreached(),
    };
    proof {
        assert(spec_decode(m, lambda_specs()[9]) is Ok);
        assert(vals[9] == spec_decode(m, lambda_specs()[9])->Ok_0);
        assert(values@[9]@ == vals[9]);
    }
    let heatpump_operating_state = match &values[9] {
        FieldValue::Ordinal(ix) => match HeatPumpOperatingStateEnum::from_index(*ix) {
            Some(v) => v,
            None => unreached(),
        },
        _ => unreached(),
    };
    proof {
        assert(spec_decode(m, lambda_specs()[10]) is Ok);
        assert(vals[10] == spec_decode(m, lambda_specs()[10])->Ok_0);
        assert(values@[10]@ == vals[10]);
    }
    let heatpump_flowline_temp = match &values[10] {
        FieldValue::Numeric(s) => s.clone(),
        _ => unreached(),
    };
    proof {
        assert(spec_decode(m, lambda_specs()[11]) is Ok);
        assert(vals[11] == spec_decode(m, lambda_specs()[11])->Ok_0);
        assert(values@[11]@ == vals[11]);
    }
    let heatpump_return_line_temp = match &values[11] {
        FieldValue::Numeric(s) => s.clone(),
        _ => unreached(),
    };
    proof {
        assert(spec_decode(m, lambda_specs()[12]) is Ok);
        assert(vals[12] == spec_decode(m, lambda_specs()[12])->Ok_0);
        assert(values@[12]@ == vals[12]);
    }
    let heatpump_volume_sink = match &values[12] {
        FieldValue::Numeric(s) => s.clone(),
        _ => unreached(),
    };
    proof {
        assert(spec_decode(m, lambda_specs()[13]) is Ok);
        assert(vals[13] == spec_decode(m, lambda_specs()[13])->Ok_0);
        assert(values@[13]@ == vals[13]);
    }
    let heatpump_energy_source_inlet_temp = match &values[13] {
        FieldValue::Numeric(s) => s.clone(),
        _ => unreached(),
    };
    proof {
        assert(spec_decode(m, lambda_specs()[14]) is Ok);
        assert(vals[14] == spec_decode(m, lambda_specs()[14])->Ok_0);
        assert(values@[14]@ == vals[14]);
    }
    let heatpump_volume_source_flow = match &values[14] {
        FieldValue::Numeric(s) => s.clone(),
        _ => unreached(),
    };
    proof {
        assert(spec_decode(m, lambda_specs()[15]) is Ok);
        assert(vals[15] == spec_decode(m, lambda_specs()[15])->Ok_0);
        assert(values@[15]@ == vals[15]);
    }
    let heatpump_compressor_rating = match &values[15] {
        FieldValue::Numeric(s) => s.clone(),
        _ => unreached(),
    };
    proof {
        assert(spec_decode(m, lambda_specs()[16]) is Ok);
        assert(vals[16] == spec_decode(m, lambda_specs()[16])->Ok_0);
        assert(values@[16]@ == vals[16]);
    }
    let heatpump_actual_heating_capacity = match &values[16] {
        FieldValue::Numeric(s) => s.clone(),
        _ => unreached(),
    };
    proof {
        assert(spec_decode(m, lambda_specs()[17]) is Ok);
        assert(vals[17] == spec_decode(m, lambda_specs()[17])->Ok_0);
        assert(values@[17]@ == vals[17]);
    }
    let heatpump_inverter_actual_power = match &values[17] {
        FieldValue::Numeric(s) => s.clone(),
        _ => unreached(),
    };
    proof {
        assert(spec_decode(m, lambda_specs()[18]) is Ok);
        assert(vals[18] == spec_decode(m, lambda_specs()[18])->Ok_0);
        assert(values@[18]@ == vals[18]);
    }
    let heatpump_current_cop = match &values[18] {
        FieldValue::Numeric(s) => s.clone(),
        _ => unreached(),
    };
    proof {
        assert(spec_decode(m, lambda_specs()[19]) is Ok);
        assert(vals[19] == spec_decode(m, lambda_specs()[19])->Ok_0);
        assert(values@[19]@ == vals[19]);
    }
    let heatpump_request_type = match &values[19] {
        FieldValue::Ordinal(ix) => match HeatPumpRequestType::from_index(*ix) {
            Some(v) => v,
            None => unreached(),
        },
        _ => unreached(),
    };
    proof {
        assert(spec_decode(m, lambda_specs()[20]) is Ok);
        assert(vals[20] == spec_decode(m, lambda_specs()[20])->Ok_0);
        assert(values@[20]@ == vals[20]);
    }
    let heatpump_request_flow_temp = match &values[20] {
        FieldValue::Numeric(s) => s.clone(),
        _ => unreached(),
    };
    proof {
        assert(spec_decode(m, lambda_specs()[21]) is Ok);
        assert(vals[21] == spec_decode(m, lambda_specs()[21])->Ok_0);
        assert(values@[21]@ == vals[21]);
    }
    let heatpump_request_return_temp = match &values[21] {
        FieldValue::Numeric(s) => s.clone(),
        _ => unreached(),
    };
    proof {
        assert(spec_decode(m, lambda_specs()[22]) is Ok);
        assert(vals[22] == spec_decode(m, lambda_specs()[22])->Ok_0);
        assert(values@[22]@ == vals[22]);
    }
    let heatpump_request_temp_diff = match &values[22] {
        FieldValue::Numeric(s) => s.clone(),
        _ => unreached(),
    };
    proof {
        assert(spec_decode(m, lambda_specs()[23]) is Ok);
        assert(vals[23] == spec_decode(m, lambda_specs()[23])->Ok_0);
        assert(values@[23]@ == vals[23]);
    }
    let heatpump_electric_energy = match &values[23] {
        FieldValue::Numeric(s) => s.clone(),
        _ => unreached(),
    };
    proof {
        assert(spec_decode(m, lambda_specs()[24]) is Ok);
        assert(vals[24] == spec_decode(m, lambda_specs()[24])->Ok_0);
        assert(values@[24]@ == vals[24]);
    }
    let heatpump_heat_energy = match &values[24] {
        FieldValue::Numeric(s) => s.clone(),
        _ => unreached(),
    };
    proof {
        assert(spec_decode(m, lambda_specs()[25]) is Ok);
        assert(vals[25] == spec_decode(m, lambda_specs()[25])->Ok_0);
        assert(values@[25]@ == vals[25]);
    }
    let boiler_state = match &values[25] {
        FieldValue::Ordinal(ix) => match BoilerStateEnum::from_index(*ix) {
            Some(v) => v,
            None => unreached(),
        },
        _ => unreached(),
    };
    proof {
        assert(spec_decode(m, lambda_specs()[26]) is Ok);
        assert(vals[26] == spec_decode(m, lambda_specs()[26])->Ok_0);
        assert(values@[26]@ == vals[26]);
    }
    let boiler_high_temp = match &values[26] {
        FieldValue::Numeric(s) => s.clone(),
        _ => unreached(),
    };
    proof {
        assert(spec_decode(m, lambda_specs()[27]) is Ok);
        assert(vals[27] == spec_decode(m, lambda_specs()[27])->Ok_0);
        assert(values@[27]@ == vals[27]);
    }
    let boiler_low_temp = match &values[27] {
        FieldValue::Numeric(s) => s.clone(),
        _ => unreached(),
    };
    proof {
        assert(spec_decode(m, lambda_specs()[28]) is Ok);
        assert(vals[28] == spec_decode(m, lambda_specs()[28])->Ok_0);
        assert(values@[28]@ == vals[28]);
    }
    let boiler_max_temp = match &values[28] {
        FieldValue::Numeric(s) => s.clone(),
        _ => unreached(),
    };
    proof {
        assert(spec_decode(m, lambda_specs()[29]) is Ok);
        assert(vals[29] == spec_decode(m, lambda_specs()[29])->Ok_0);
        assert(values@[29]@ == vals[29]);
    }
    let buffer_state = match &values[29] {
        FieldValue::Ordinal(ix) => match BufferState::from_index(*ix) {
            Some(v) => v,
            None => unreached(),
        },
        _ => unreached(),
    };
    proof {
        assert(spec_decode(m, lambda_specs()[30]) is Ok);
        assert(vals[30] == spec_decode(m, lambda_specs()[30])->Ok_0);
        assert(values@[30]@ == vals[30]);
    }
    let buffer_high_temp = match &values[30] {
        FieldValue::Numeric(s) => s.clone(),
        _ => unreached(),
    };
    proof {
        assert(spec_decode(m, lambda_specs()[31]) is Ok);
        assert(vals[31] == spec_decode(m, lambda_specs()[31])->Ok_0);
        assert(values@[31]@ == vals[31]);
    }
    let buffer_low_temp = match &values[31] {
        FieldValue::Numeric(s) => s.clone(),
        _ => unreached(),
    };
    proof {
        assert(spec_decode(m, lambda_specs()[32]) is Ok);
        assert(vals[32] == spec_decode(m, lambda_specs()[32])->Ok_0);
        assert(values@[32]@ == vals[32]);
    }
    let buffer_max_temp = match &values[32] {
        FieldValue::Numeric(s) => s.clone(),
        _ => unreached(),
    };
    proof {
        assert(spec_decode(m, lambda_specs()[33]) is Ok);
        assert(vals[33] == spec_decode(m, lambda_specs()[33])->Ok_0);
        assert(values@[33]@ == vals[33]);
    }
    let heating_circuit_1_state = match &values[33] {
        FieldValue::Ordinal(ix) => match HeatingCircuitState::from_index(*ix) {
            Some(v) => v,
            None => unreached(),
        },
        _ => unreached(),
    };
    proof {
        assert(spec_decode(m, lambda_specs()[34]) is Ok);
        assert(vals[34] == spec_decode(m, lambda_specs()[34])->Ok_0);
        assert(values@[34]@ == vals[34]);
    }
    let heating_circuit_2_state = match &values[34] {
        FieldValue::Ordinal(ix) => match HeatingCircuitState::from_index(*ix) {
            Some(v) => v,
            None => unreached(),
        },
        _ => unreached(),
    };
    proof {
        assert(spec_decode(m, lambda_specs()[35]) is Ok);
        assert(vals[35] == spec_decode(m, lambda_specs()[35])->Ok_0);
        assert(values@[35]@ == vals[35]);
    }
    let heating_circuit_1_flow_temp = match &values[35] {
        FieldValue::Numeric(s) => s.clone(),
        _ => unreached(),
    };
    proof {
        assert(spec_decode(m, lambda_specs()[36]) is Ok);
        assert(vals[36] == spec_decode(m, lambda_specs()[36])->Ok_0);
        assert(values@[36]@ == vals[36]);
    }
    let heating_circuit_2_flow_temp = match &values[36] {
        FieldValue::Numeric(s) => s.clone(),
        _ => unreached(),
    };
    let d = LambdaData {
        ambient_state,
        ambient_temperature_calculated,
        emanager_operating_state,
        emanager_actual_power,
        emanager_pv_power,
        emanager_power_setpoint,
        heatpump_error_state,
        heatpump_error_number,
        heatpump_state,
        heatpump_operating_state,
        heatpump_flowline_temp,
        heatpump_return_line_temp,
        heatpump_volume_sink,
        heatpump_energy_source_inlet_temp,
        heatpump_volume_source_flow,
        heatpump_compressor_rating,
        heatpump_actual_heating_capacity,
        heatpump_inverter_actual_power,
        heatpump_current_cop,
        heatpump_request_type,
        heatpump_request_flow_temp,
        heatpump_request_return_temp,
        heatpump_request_temp_diff,
        heatpump_electric_energy,
        heatpump_heat_energy,
        boiler_state,
        boiler_high_temp,
        boiler_low_temp,
        boiler_max_temp,
        buffer_state,
        buffer_high_temp,
        buffer_low_temp,
        buffer_max_temp,
        heating_circuit_1_state,
        heating_circuit_2_state,
        heating_circuit_1_flow_temp,
        heating_circuit_2_flow_temp,
    };
    Ok(d)
}

} // verus!
