//! Codecs of the single fields of the status document.
use vstd::prelude::*;
use vstd::string::*;

use crate::text::{concat3, is_single_char, parse_u8, parsed_unsigned};

verus! {

/// Why a field of the status document could not be decoded.
#[derive(Debug, PartialEq, Eq)]
pub enum GoEStatusError {
    /// The field is no well-formed number of the expected width.
    ParseIntError(core::num::ParseIntError),
    /// The field is well-formed but outside its domain, or missing; the text says which
    /// field and which value.
    InvalidValue(String),
}

/// What a [`GoEStatusError`] says, without std's opaque parse error.
pub enum DecodeFailure {
    Malformed,
    Invalid(Seq<char>),
}

impl View for GoEStatusError {
    type V = DecodeFailure;

    open spec fn view(&self) -> DecodeFailure {
        match self {
            GoEStatusError::ParseIntError(_) => DecodeFailure::Malformed,
            GoEStatusError::InvalidValue(m) => DecodeFailure::Invalid(m@),
        }
    }
}

/// A decoding result, with the error seen through its view.
pub open spec fn outcome<T>(r: Result<T, GoEStatusError>) -> Result<T, DecodeFailure> {
    match r {
        Ok(v) => Ok(v),
        Err(e) => Err(e@),
    }
}

/// The text of the error for the value `raw` of the field described as `what`.
pub open spec fn invalid_message(what: Seq<char>, raw: Seq<char>) -> Seq<char> {
    "Invalid "@ + what + " '"@ + raw + "'"@
}

/// The error for the value `raw` of the field described as `what`.
pub(crate) fn invalid_value(what: &str, raw: &str) -> (e: GoEStatusError)
    ensures
        e@ == DecodeFailure::Invalid(invalid_message(what@, raw@)),
{
    let mut m = concat3("Invalid ", what, " '");
    m.append(raw);
    m.append("'");
    GoEStatusError::InvalidValue(m)
}

/// Whether a vehicle is there and what it does.
#[derive(Debug, PartialEq, Eq, Structural, Clone, Copy)]
pub enum CarStatus {
    ReadyNoVehicle,
    Charging,
    WaitingForVehicle,
    ChargingFinished,
}

/// The car status that the code `s` stands for.
pub open spec fn car_status_of(s: Seq<char>) -> Result<CarStatus, DecodeFailure> {
    if s == seq!['1'] {
        Ok(CarStatus::ReadyNoVehicle)
    } else if s == seq!['2'] {
        Ok(CarStatus::Charging)
    } else if s == seq!['3'] {
        Ok(CarStatus::WaitingForVehicle)
    } else if s == seq!['4'] {
        Ok(CarStatus::ChargingFinished)
    } else {
        Err(DecodeFailure::Invalid(invalid_message("car status"@, s)))
    }
}

impl CarStatus {
    /// Decodes the wire code `"1"` to `"4"`.
    pub fn from_str(s: &str) -> (r: Result<CarStatus, GoEStatusError>)
        ensures
            outcome(r) == car_status_of(s@),
    {
        if is_single_char(s, '1') {
            Ok(CarStatus::ReadyNoVehicle)
        } else if is_single_char(s, '2') {
            Ok(CarStatus::Charging)
        } else if is_single_char(s, '3') {
            Ok(CarStatus::WaitingForVehicle)
        } else if is_single_char(s, '4') {
            Ok(CarStatus::ChargingFinished)
        } else {
            Err(invalid_value("car status", s))
        }
    }
}

/// Who may start a charge.
#[derive(Debug, PartialEq, Eq, Structural, Clone, Copy)]
pub enum AccessState {
    Open,
    RFID,
    ElectricityPrices,
}

/// The access state that the code `s` stands for.
pub open spec fn access_state_of(s: Seq<char>) -> Result<AccessState, DecodeFailure> {
    if s == seq!['0'] {
        Ok(AccessState::Open)
    } else if s == seq!['1'] {
        Ok(AccessState::RFID)
    } else if s == seq!['2'] {
        Ok(AccessState::ElectricityPrices)
    } else {
        Err(DecodeFailure::Invalid(invalid_message("access state"@, s)))
    }
}

/// The wire code of an access state.
pub open spec fn access_state_code(a: AccessState) -> char {
    match a {
        AccessState::Open => '0',
        AccessState::RFID => '1',
        AccessState::ElectricityPrices => '2',
    }
}

impl AccessState {
    /// Decodes the wire code `"0"`, `"1"` or `"2"`.
    pub fn from_str(s: &str) -> (r: Result<AccessState, GoEStatusError>)
        ensures
            outcome(r) == access_state_of(s@),
    {
        if is_single_char(s, '0') {
            Ok(AccessState::Open)
        } else if is_single_char(s, '1') {
            Ok(AccessState::RFID)
        } else if is_single_char(s, '2') {
            Ok(AccessState::ElectricityPrices)
        } else {
            Err(invalid_value("access state", s))
        }
    }
}

/// Whether the charge stops by itself after an amount of energy.
#[derive(Debug, PartialEq, Eq, Structural, Clone, Copy)]
pub enum StopState {
    Deactivated,
    SwitchOffAfterKwh,
}

/// The stop state that the code `s` stands for; the device's code `"1"` has no meaning here.
pub open spec fn stop_state_of(s: Seq<char>) -> Result<StopState, DecodeFailure> {
    if s == seq!['0'] {
        Ok(StopState::Deactivated)
    } else if s == seq!['2'] {
        Ok(StopState::SwitchOffAfterKwh)
    } else {
        Err(DecodeFailure::Invalid(invalid_message("value for stop state"@, s)))
    }
}

impl StopState {
    /// Decodes the wire code `"0"` or `"2"`.
    pub fn from_str(s: &str) -> (r: Result<StopState, GoEStatusError>)
        ensures
            outcome(r) == stop_state_of(s@),
    {
        if is_single_char(s, '0') {
            Ok(StopState::Deactivated)
        } else if is_single_char(s, '2') {
            Ok(StopState::SwitchOffAfterKwh)
        } else {
            Err(invalid_value("value for stop state", s))
        }
    }
}

/// The rated current of the plugged-in cable.
#[derive(Debug, PartialEq, Eq, Structural, Clone, Copy)]
pub enum CableCoding {
    NoCable,
    Ampere(u8),
}

/// The cable coding that the text `s` stands for: `0` is no cable, `13` to `32` a
/// rating in ampere, any other byte value is invalid, and other text is malformed.
pub open spec fn cable_coding_of(s: Seq<char>) -> Result<CableCoding, DecodeFailure> {
    match parsed_unsigned(s, u8::MAX as int) {
        None => Err(DecodeFailure::Malformed),
        Some(n) => if n == 0 {
            Ok(CableCoding::NoCable)
        } else if 13 <= n <= 32 {
            Ok(CableCoding::Ampere(n as u8))
        } else {
            Err(DecodeFailure::Invalid(invalid_message("cable coding"@, s)))
        },
    }
}

impl CableCoding {
    /// Decodes a byte in decimal.
    pub fn from_str(s: &str) -> (r: Result<CableCoding, GoEStatusError>)
        ensures
            outcome(r) == cable_coding_of(s@),
    {
        let num = match parse_u8(s) {
            Ok(n) => n,
            Err(e) => {
                return Err(GoEStatusError::ParseIntError(e));
            },
        };
        if num == 0 {
            Ok(CableCoding::NoCable)
        } else if 13 <= num && num <= 32 {
            Ok(CableCoding::Ampere(num))
        } else {
            Err(invalid_value("cable coding", s))
        }
    }
}

/// Which phases carry voltage, before and after the contactor.
#[derive(Debug, PartialEq, Eq, Structural, Clone, Copy)]
pub struct PhaseStatus {
    pub l1_before_contactor: bool,
    pub l1_after_contactor: bool,
    pub l2_before_contactor: bool,
    pub l2_after_contactor: bool,
    pub l3_before_contactor: bool,
    pub l3_after_contactor: bool,
}

/// Whether bit `k` of `b` is set.
pub open spec fn bit_set(b: u8, k: u8) -> bool {
    b & (1u8 << k) != 0
}

/// The phase status that the byte `b` stands for: bits 0 to 2 are L1 to L3 after the
/// contactor, bits 3 to 5 are L1 to L3 before it, bits 6 and 7 mean nothing.
pub open spec fn phase_status_of(b: u8) -> PhaseStatus {
    PhaseStatus {
        l1_before_contactor: bit_set(b, 3),
        l1_after_contactor: bit_set(b, 0),
        l2_before_contactor: bit_set(b, 4),
        l2_after_contactor: bit_set(b, 1),
        l3_before_contactor: bit_set(b, 5),
        l3_after_contactor: bit_set(b, 2),
    }
}

/// Bits 6 and 7 of the byte do not change the phase status.
pub proof fn lemma_phase_status_ignores_high_bits(b: u8)
    ensures
        phase_status_of(b) == phase_status_of(b & 0x3fu8),
{
    assert({
        &&& (b & (1u8 << 0u8) != 0) == ((b & 0x3fu8) & (1u8 << 0u8) != 0)
        &&& (b & (1u8 << 1u8) != 0) == ((b & 0x3fu8) & (1u8 << 1u8) != 0)
        &&& (b & (1u8 << 2u8) != 0) == ((b & 0x3fu8) & (1u8 << 2u8) != 0)
        &&& (b & (1u8 << 3u8) != 0) == ((b & 0x3fu8) & (1u8 << 3u8) != 0)
        &&& (b & (1u8 << 4u8) != 0) == ((b & 0x3fu8) & (1u8 << 4u8) != 0)
        &&& (b & (1u8 << 5u8) != 0) == ((b & 0x3fu8) & (1u8 << 5u8) != 0)
    }) by (bit_vector);
}

impl From<u8> for PhaseStatus {
    fn from(value: u8) -> PhaseStatus {
        PhaseStatus {
            l1_before_contactor: value & (1u8 << 3u8) != 0,
            l1_after_contactor: value & (1u8 << 0u8) != 0,
            l2_before_contactor: value & (1u8 << 4u8) != 0,
            l2_after_contactor: value & (1u8 << 1u8) != 0,
            l3_before_contactor: value & (1u8 << 5u8) != 0,
            l3_after_contactor: value & (1u8 << 2u8) != 0,
        }
    }
}

impl vstd::std_specs::convert::FromSpecImpl<u8> for PhaseStatus {
    open spec fn obeys_from_spec() -> bool {
        true
    }

    open spec fn from_spec(v: u8) -> PhaseStatus {
        phase_status_of(v)
    }
}

/// Where the hourly electricity prices come from.
#[derive(Debug, PartialEq, Eq, Structural, Clone, Copy)]
pub enum AwattarPriceZone {
    Austria,
    Germany,
}

/// The price zone that the code `s` stands for.
pub open spec fn awattar_price_zone_of(s: Seq<char>) -> Result<AwattarPriceZone, DecodeFailure> {
    if s == seq!['0'] {
        Ok(AwattarPriceZone::Austria)
    } else if s == seq!['1'] {
        Ok(AwattarPriceZone::Germany)
    } else {
        Err(DecodeFailure::Invalid(invalid_message("awattar price zone value"@, s)))
    }
}

impl AwattarPriceZone {
    /// Decodes the wire code `"0"` or `"1"`.
    pub fn from_str(s: &str) -> (r: Result<AwattarPriceZone, GoEStatusError>)
        ensures
            outcome(r) == awattar_price_zone_of(s@),
    {
        if is_single_char(s, '0') {
            Ok(AwattarPriceZone::Austria)
        } else if is_single_char(s, '1') {
            Ok(AwattarPriceZone::Germany)
        } else {
            Err(invalid_value("awattar price zone value", s))
        }
    }
}

} // verus!
