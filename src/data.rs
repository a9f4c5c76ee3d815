//! The plain records and categories of the portal's package data.
use vstd::prelude::*;

verus! {

#[derive(Clone, Debug)]
pub struct ReturnEligibility {
    pub can_return_at_retail: bool,
    pub pending_return_at_retail: bool,
}

#[derive(Clone, Debug)]
pub struct StatusPhase {
    pub index: u8,
    pub message: String,
}

#[derive(Clone, Debug)]
pub struct ReRoute {
    pub available: bool,
    pub current_selection: Option<String>,
    pub availability: ReRouteAvailability,
    pub unavailability: Option<ReRouteUnavailability>,
}

#[derive(Clone, Debug)]
pub struct ReRouteUnavailability {
    pub text: String,
    pub link: Option<String>,
}

#[derive(Clone, Debug)]
pub struct ExtraStatusInformation {
    pub data: ExtraStatusInformationData,
    pub information_type: ExtraStatusInformationType,
}

#[derive(Clone, Debug)]
pub struct ExtraStatusInformationData {
    pub text: String,
}

#[derive(Clone, Debug)]
pub struct Settings {
    pub title: String,
    pub box_type: BoxType,
    pub push_notification: PushStatus,
}

#[derive(Clone, Debug)]
pub struct InboxProduct {
    pub product_code: String,
    pub product_option: String,
    pub product_characteristic: String,
}

#[derive(Clone, Debug)]
pub struct InboxDelivery {
    pub barcode: String,
    pub status: DeliveryStatus,
    pub first_delivery_attempt_expired: bool,
}

/// Note that these seem to be reversed for received packages.
#[derive(Clone, Debug)]
pub struct InboxGeneratedTiles {
    pub receiver: String,
    pub sender: String,
}

#[derive(Clone, Debug)]
pub struct InboxTrackedShipment {
    pub id: u32,
    pub barcode: String,
    pub postal_code: String,
    pub country: String,
    pub title: Option<String>,
    pub list_name_key: String,
    pub box_type: BoxType,
    pub status: DeliveryStatus,
    pub source: String,
    pub order: Option<String>,
    pub key: String,
}

#[derive(Clone, Copy, Debug, PartialEq, Eq, Structural)]
pub enum Day {
    Monday,
    Tuesday,
    Wednesday,
    Thursday,
    Friday,
    Saturday,
    Sunday,
}

#[derive(Clone, Copy, Debug, PartialEq, Eq, Structural)]
pub enum ExtraStatusInformationType {
    Unknown,
}

impl ExtraStatusInformationType {
    /// The variant's name, as it is shown.
    pub fn to_string(&self) -> (r: String)
        ensures
            match self {
                ExtraStatusInformationType::Unknown => r@ == "Unknown"@,
            },
    {
        match self {
            ExtraStatusInformationType::Unknown => String::from_str("Unknown"),
        }
    }
}

#[derive(Clone, Copy, Debug, PartialEq, Eq, Structural)]
pub enum ReRouteAvailability {
    AvailableAfterFirstAttempt,
    CustomerRelated,
    IncorrectStatus,
}

impl ReRouteAvailability {
    /// The variant's name, as it is shown.
    pub fn to_string(&self) -> (r: String)
        ensures
            match self {
                ReRouteAvailability::AvailableAfterFirstAttempt => r@ == "AvailableAfterFirstAttempt"@,
                ReRouteAvailability::CustomerRelated => r@ == "CustomerRelated"@,
                ReRouteAvailability::IncorrectStatus => r@ == "IncorrectStatus"@,
            },
    {
        match self {
            ReRouteAvailability::AvailableAfterFirstAttempt => String::from_str("AvailableAfterFirstAttempt"),
            ReRouteAvailability::CustomerRelated => String::from_str("CustomerRelated"),
            ReRouteAvailability::IncorrectStatus => String::from_str("IncorrectStatus"),
        }
    }
}

#[derive(Clone, Copy, Debug, PartialEq, Eq, Structural)]
pub enum PushStatus {
    Unavailable,
    On,
    Off,
}

impl PushStatus {
    /// The variant's name, as it is shown.
    pub fn to_string(&self) -> (r: String)
        ensures
            match self {
                PushStatus::Unavailable => r@ == "Unavailable"@,
                PushStatus::On => r@ == "On"@,
                PushStatus::Off => r@ == "Off"@,
            },
    {
        match self {
            PushStatus::Unavailable => String::from_str("Unavailable"),
            PushStatus::On => String::from_str("On"),
            PushStatus::Off => String::from_str("Off"),
        }
    }
}

#[derive(Clone, Copy, Debug, PartialEq, Eq, Structural)]
pub enum DeliveryStatus {
    Delivered,
    InTransit,
    Enroute,
    EnrouteSpecific,
    DeliveredAtPickup,
    EnrouteWholeDayOrUnspecified,
}

impl DeliveryStatus {
    /// The variant's name, as it is shown.
    pub fn to_string(&self) -> (r: String)
        ensures
            match self {
                DeliveryStatus::Delivered => r@ == "Delivered"@,
                DeliveryStatus::InTransit => r@ == "InTransit"@,
                DeliveryStatus::Enroute => r@ == "Enroute"@,
                DeliveryStatus::EnrouteSpecific => r@ == "EnrouteSpecific"@,
                DeliveryStatus::DeliveredAtPickup => r@ == "DeliveredAtPickup"@,
                DeliveryStatus::EnrouteWholeDayOrUnspecified => r@ == "EnrouteWholeDayOrUnspecified"@,
            },
    {
        match self {
            DeliveryStatus::Delivered => String::from_str("Delivered"),
            DeliveryStatus::InTransit => String::from_str("InTransit"),
            DeliveryStatus::Enroute => String::from_str("Enroute"),
            DeliveryStatus::EnrouteSpecific => String::from_str("EnrouteSpecific"),
            DeliveryStatus::DeliveredAtPickup => String::from_str("DeliveredAtPickup"),
            DeliveryStatus::EnrouteWholeDayOrUnspecified => String::from_str("EnrouteWholeDayOrUnspecified"),
        }
    }
}

#[derive(Clone, Copy, Debug, PartialEq, Eq, Structural)]
pub enum TimeFrameType {
    Specific,
    Unspecified,
    OnlyFromTime,
    WholeDay,
}

impl TimeFrameType {
    /// The variant's name, as it is shown.
    pub fn to_string(&self) -> (r: String)
        ensures
            match self {
                TimeFrameType::Specific => r@ == "Specific"@,
                TimeFrameType::Unspecified => r@ == "Unspecified"@,
                TimeFrameType::OnlyFromTime => r@ == "OnlyFromTime"@,
                TimeFrameType::WholeDay => r@ == "WholeDay"@,
            },
    {
        match self {
            TimeFrameType::Specific => String::from_str("Specific"),
            TimeFrameType::Unspecified => String::from_str("Unspecified"),
            TimeFrameType::OnlyFromTime => String::from_str("OnlyFromTime"),
            TimeFrameType::WholeDay => String::from_str("WholeDay"),
        }
    }
}

#[derive(Clone, Copy, Debug, PartialEq, Eq, Structural)]
pub enum EnrouteType {
    Standard,
    Tentative,
}

impl EnrouteType {
    /// The variant's name, as it is shown.
    pub fn to_string(&self) -> (r: String)
        ensures
            match self {
                EnrouteType::Standard => r@ == "Standard"@,
                EnrouteType::Tentative => r@ == "Tentative"@,
            },
    {
        match self {
            EnrouteType::Standard => String::from_str("Standard"),
            EnrouteType::Tentative => String::from_str("Tentative"),
        }
    }
}

#[derive(Clone, Copy, Debug, PartialEq, Eq, Structural)]
pub enum ShipmentType {
    LetterboxParcel,
    Parcel,
}

impl ShipmentType {
    /// The variant's name, as it is shown.
    pub fn to_string(&self) -> (r: String)
        ensures
            match self {
                ShipmentType::LetterboxParcel => r@ == "LetterboxParcel"@,
                ShipmentType::Parcel => r@ == "Parcel"@,
            },
    {
        match self {
            ShipmentType::LetterboxParcel => String::from_str("LetterboxParcel"),
            ShipmentType::Parcel => String::from_str("Parcel"),
        }
    }
}

#[derive(Clone, Copy, Debug, PartialEq, Eq, Structural)]
pub enum BoxType {
    Receiver,
    Sender,
}

impl BoxType {
    /// The variant's name, as it is shown.
    pub fn to_string(&self) -> (r: String)
        ensures
            match self {
                BoxType::Receiver => r@ == "Receiver"@,
                BoxType::Sender => r@ == "Sender"@,
            },
    {
        match self {
            BoxType::Receiver => String::from_str("Receiver"),
            BoxType::Sender => String::from_str("Sender"),
        }
    }
}

#[derive(Clone, Copy, Debug, PartialEq, Eq, Structural)]
pub enum PartyType {
    Recipient,
    Return,
    Sender,
    Rerouted,
}

impl PartyType {
    /// The variant's name, as it is shown.
    pub fn to_string(&self) -> (r: String)
        ensures
            match self {
                PartyType::Recipient => r@ == "Recipient"@,
                PartyType::Return => r@ == "Return"@,
                PartyType::Sender => r@ == "Sender"@,
                PartyType::Rerouted => r@ == "Rerouted"@,
            },
    {
        match self {
            PartyType::Recipient => String::from_str("Recipient"),
            PartyType::Return => String::from_str("Return"),
            PartyType::Sender => String::from_str("Sender"),
            PartyType::Rerouted => String::from_str("Rerouted"),
        }
    }
}

#[derive(Clone, Copy, Debug, PartialEq, Eq, Structural)]
pub enum LocationType {
    Recipient,
    ServicePoint,
    Rerouted,
    PostOffice,
}

impl LocationType {
    /// The variant's name, as it is shown.
    pub fn to_string(&self) -> (r: String)
        ensures
            match self {
                LocationType::Recipient => r@ == "Recipient"@,
                LocationType::ServicePoint => r@ == "ServicePoint"@,
                LocationType::Rerouted => r@ == "Rerouted"@,
                LocationType::PostOffice => r@ == "PostOffice"@,
            },
    {
        match self {
            LocationType::Recipient => String::from_str("Recipient"),
            LocationType::ServicePoint => String::from_str("ServicePoint"),
            LocationType::Rerouted => String::from_str("Rerouted"),
            LocationType::PostOffice => String::from_str("PostOffice"),
        }
    }
}

/// A time of day to the minute.
#[derive(Clone, Copy, Debug, PartialEq, Eq, Structural)]
pub struct ClockTime {
    pub hour: u32,
    pub minute: u32,
}

impl ClockTime {
    pub open spec fn wf(self) -> bool {
        self.hour < 24 && self.minute < 60
    }
}

/// The format of a time of day in opening hours.
pub const HOURS_FORMAT: &'static str = "%H:%M";

/// Declares chrono's parse error, which a failed time parse returns.
#[verifier::external_type_specification]
#[verifier::external_body]
pub struct ExParseError(chrono::ParseError);

/// The hour and minute that `text` gives a time of day, read by the chrono format `format`.
pub uninterp spec fn parsed_time(text: Seq<char>, format: Seq<char>) -> Option<(u32, u32)>;

/// Relies on chrono::NaiveTime::parse_from_str, Timelike::hour and
/// Timelike::minute: the time of day that `text` gives by `format`, whose hour
/// is below 24 and minute below 60.
#[verifier::external_body]
fn parse_time(text: &str, format: &str) -> (r: Result<(u32, u32), chrono::ParseError>)
    ensures
        match r {
            Ok(hm) => parsed_time(text@, format@) == Some(hm) && hm.0 < 24 && hm.1 < 60,
            Err(_) => parsed_time(text@, format@) is None,
        },
{
    let t = chrono::NaiveTime::parse_from_str(text, format)?;
    Ok((chrono::Timelike::hour(&t), chrono::Timelike::minute(&t)))
}

/// Opening hours as the portal sends them.
#[derive(Clone, Debug)]
pub struct RawHours {
    pub from: String,
    pub to: String,
}

/// One span of opening hours.
#[derive(Clone, Copy, Debug, PartialEq, Eq, Structural)]
pub struct Hours {
    pub from: ClockTime,
    pub to: ClockTime,
}

impl Hours {
    /// Reads both ends of a span of opening hours as `HH:MM`.
    pub fn try_from(value: &RawHours) -> (r: Result<Hours, chrono::ParseError>)
        ensures
            match (parsed_time(value.from@, HOURS_FORMAT@), parsed_time(value.to@, HOURS_FORMAT@)) {
                (Some(f), Some(t)) => r matches Ok(h) && h.from == ClockTime { hour: f.0, minute: f.1 }
                    && h.to == (ClockTime { hour: t.0, minute: t.1 }),
                _ => r is Err,
            },
            r matches Ok(h) ==> h.from.wf() && h.to.wf(),
    {
        let (fh, fm) = parse_time(value.from.as_str(), HOURS_FORMAT)?;
        let (th, tm) = parse_time(value.to.as_str(), HOURS_FORMAT)?;
        Ok(Hours { from: ClockTime { hour: fh, minute: fm }, to: ClockTime { hour: th, minute: tm } })
    }
}

#[derive(Clone, Debug)]
pub struct OpeningHours {
    pub day: Day,
    pub hours: Vec<Hours>,
}

} // verus!
