//! The status document as the charger sends it, and its decoding into a typed snapshot.
use vstd::prelude::*;
use vstd::string::*;

use crate::energy::EnergySensorReading;
use crate::field::{
    access_state_of, awattar_price_zone_of, cable_coding_of, car_status_of, phase_status_of,
    stop_state_of, AccessState, AwattarPriceZone, CableCoding, CarStatus, DecodeFailure,
    GoEStatusError, PhaseStatus, StopState,
};
use crate::text::{parse_u32, parse_u8, parsed_unsigned};

verus! {

/// The keys of the status document that are decoded; each is `None` where the key was
/// absent. All values are text but the energy sensor array.
pub struct StatusJson {
    pub car: Option<String>,
    pub amp: Option<String>,
    pub ast: Option<String>,
    pub alw: Option<String>,
    pub stp: Option<String>,
    pub cbl: Option<String>,
    pub pha: Option<String>,
    pub tmp: Option<String>,
    pub dws: Option<String>,
    pub dwo: Option<String>,
    pub eto: Option<String>,
    pub nrg: Option<[i32; 16]>,
    pub sse: Option<String>,
    pub azo: Option<String>,
}

/// A decoded status snapshot: every field is there and valid.
#[derive(Debug)]
pub struct GoEStatus {
    pub car_status: CarStatus,
    pub ampere: u8,
    pub access_state: AccessState,
    pub allow_charging: bool,
    pub stop_state: StopState,
    pub cable_coding: CableCoding,
    pub phase_status: PhaseStatus,
    pub temperature: u8,
    pub charged: u32,
    pub stop_energy: u32,
    pub total_energy: u32,
    pub energy_sensor: EnergySensorReading,
    pub serial_number: String,
    pub awattar_price_zone: AwattarPriceZone,
}

/// A [`GoEStatus`] with its serial number as a sequence of characters.
pub struct GoEStatusView {
    pub car_status: CarStatus,
    pub ampere: u8,
    pub access_state: AccessState,
    pub allow_charging: bool,
    pub stop_state: StopState,
    pub cable_coding: CableCoding,
    pub phase_status: PhaseStatus,
    pub temperature: u8,
    pub charged: u32,
    pub stop_energy: u32,
    pub total_energy: u32,
    pub energy_sensor: EnergySensorReading,
    pub serial_number: Seq<char>,
    pub awattar_price_zone: AwattarPriceZone,
}

impl View for GoEStatus {
    type V = GoEStatusView;

    open spec fn view(&self) -> GoEStatusView {
        GoEStatusView {
            car_status: self.car_status,
            ampere: self.ampere,
            access_state: self.access_state,
            allow_charging: self.allow_charging,
            stop_state: self.stop_state,
            cable_coding: self.cable_coding,
            phase_status: self.phase_status,
            temperature: self.temperature,
            charged: self.charged,
            stop_energy: self.stop_energy,
            total_energy: self.total_energy,
            energy_sensor: self.energy_sensor,
            serial_number: self.serial_number@,
            awattar_price_zone: self.awattar_price_zone,
        }
    }
}

/// The text of the error for the absent key `key`.
pub open spec fn missing_message(key: Seq<char>) -> Seq<char> {
    "Missing field '"@ + key + "'"@
}

/// The text under `key`, or the error for its absence.
pub open spec fn required(key: Seq<char>, v: Option<String>) -> Result<Seq<char>, DecodeFailure> {
    match v {
        Some(s) => Ok(s@),
        None => Err(DecodeFailure::Invalid(missing_message(key))),
    }
}

/// A number of at most `max` under `key`.
pub open spec fn number_field(key: Seq<char>, v: Option<String>, max: int) -> Result<int, DecodeFailure> {
    match required(key, v) {
        Err(e) => Err(e),
        Ok(s) => match parsed_unsigned(s, max) {
            Some(n) => Ok(n),
            None => Err(DecodeFailure::Malformed),
        },
    }
}

/// A code under `key`, decoded by `decode`.
pub open spec fn code_field<T>(key: Seq<char>, v: Option<String>, decode: spec_fn(Seq<char>) -> Result<T, DecodeFailure>) -> Result<T, DecodeFailure> {
    match required(key, v) {
        Err(e) => Err(e),
        Ok(s) => decode(s),
    }
}

impl StatusJson {
    pub open spec fn car_field(self) -> Result<CarStatus, DecodeFailure> {
        code_field("car"@, self.car, |s| car_status_of(s))
    }

    pub open spec fn amp_field(self) -> Result<int, DecodeFailure> {
        number_field("amp"@, self.amp, u8::MAX as int)
    }

    pub open spec fn ast_field(self) -> Result<AccessState, DecodeFailure> {
        code_field("ast"@, self.ast, |s| access_state_of(s))
    }

    pub open spec fn alw_field(self) -> Result<int, DecodeFailure> {
        number_field("alw"@, self.alw, u8::MAX as int)
    }

    pub open spec fn stp_field(self) -> Result<StopState, DecodeFailure> {
        code_field("stp"@, self.stp, |s| stop_state_of(s))
    }

    pub open spec fn cbl_field(self) -> Result<CableCoding, DecodeFailure> {
        code_field("cbl"@, self.cbl, |s| cable_coding_of(s))
    }

    pub open spec fn pha_field(self) -> Result<int, DecodeFailure> {
        number_field("pha"@, self.pha, u8::MAX as int)
    }

    pub open spec fn tmp_field(self) -> Result<int, DecodeFailure> {
        number_field("tmp"@, self.tmp, u8::MAX as int)
    }

    pub open spec fn dws_field(self) -> Result<int, DecodeFailure> {
        number_field("dws"@, self.dws, u32::MAX as int)
    }

    pub open spec fn dwo_field(self) -> Result<int, DecodeFailure> {
        number_field("dwo"@, self.dwo, u32::MAX as int)
    }

    pub open spec fn eto_field(self) -> Result<int, DecodeFailure> {
        number_field("eto"@, self.eto, u32::MAX as int)
    }

    pub open spec fn nrg_field(self) -> Result<EnergySensorReading, DecodeFailure> {
        match self.nrg {
            Some(a) => Ok(EnergySensorReading::of_readings(a@)),
            None => Err(DecodeFailure::Invalid(missing_message("nrg"@))),
        }
    }

    pub open spec fn sse_field(self) -> Result<Seq<char>, DecodeFailure> {
        required("sse"@, self.sse)
    }

    pub open spec fn azo_field(self) -> Result<AwattarPriceZone, DecodeFailure> {
        code_field("azo"@, self.azo, |s| awattar_price_zone_of(s))
    }

    /// The snapshot that the document stands for, or the failure of the first field, in the
    /// order car, amp, ast, alw, stp, cbl, pha, tmp, dws, dwo, eto, nrg, sse, azo, that
    /// cannot be decoded.
    pub open spec fn decoded(self) -> Result<GoEStatusView, DecodeFailure> {
        if self.car_field() is Err {
            Err(self.car_field()->Err_0)
        } else if self.amp_field() is Err {
            Err(self.amp_field()->Err_0)
        } else if self.ast_field() is Err {
            Err(self.ast_field()->Err_0)
        } else if self.alw_field() is Err {
            Err(self.alw_field()->Err_0)
        } else if self.stp_field() is Err {
            Err(self.stp_field()->Err_0)
        } else if self.cbl_field() is Err {
            Err(self.cbl_field()->Err_0)
        } else if self.pha_field() is Err {
            Err(self.pha_field()->Err_0)
        } else if self.tmp_field() is Err {
            Err(self.tmp_field()->Err_0)
        } else if self.dws_field() is Err {
            Err(self.dws_field()->Err_0)
        } else if self.dwo_field() is Err {
            Err(self.dwo_field()->Err_0)
        } else if self.eto_field() is Err {
            Err(self.eto_field()->Err_0)
        } else if self.nrg_field() is Err {
            Err(self.nrg_field()->Err_0)
        } else if self.sse_field() is Err {
            Err(self.sse_field()->Err_0)
        } else if self.azo_field() is Err {
            Err(self.azo_field()->Err_0)
        } else {
            Ok(
                GoEStatusView {
                    car_status: self.car_field()->Ok_0,
                    ampere: self.amp_field()->Ok_0 as u8,
                    access_state: self.ast_field()->Ok_0,
                    allow_charging: self.alw_field()->Ok_0 == 1,
                    stop_state: self.stp_field()->Ok_0,
                    cable_coding: self.cbl_field()->Ok_0,
                    phase_status: phase_status_of(self.pha_field()->Ok_0 as u8),
                    temperature: self.tmp_field()->Ok_0 as u8,
                    charged: self.dws_field()->Ok_0 as u32,
                    stop_energy: self.dwo_field()->Ok_0 as u32,
                    total_energy: self.eto_field()->Ok_0 as u32,
                    energy_sensor: self.nrg_field()->Ok_0,
                    serial_number: self.sse_field()->Ok_0,
                    awattar_price_zone: self.azo_field()->Ok_0,
                },
            )
        }
    }
}

/// The text under `key`, or the error for its absence.
fn required_text<'a>(key: &str, v: &'a Option<String>) -> (r: Result<&'a str, GoEStatusError>)
    ensures
        match r {
            Ok(s) => required(key@, *v) == Ok::<Seq<char>, DecodeFailure>(s@),
            Err(e) => required(key@, *v) == Err::<Seq<char>, DecodeFailure>(e@),
        },
{
    match v {
        Some(s) => Ok(s.as_str()),
        None => {
            let mut m = String::from_str("Missing field '");
            m.append(key);
            m.append("'");
            Err(GoEStatusError::InvalidValue(m))
        },
    }
}

/// A byte in decimal under `key`.
fn u8_field(key: &str, v: &Option<String>) -> (r: Result<u8, GoEStatusError>)
    ensures
        match r {
            Ok(n) => number_field(key@, *v, u8::MAX as int) == Ok::<int, DecodeFailure>(n as int),
            Err(e) => number_field(key@, *v, u8::MAX as int) == Err::<int, DecodeFailure>(e@),
        },
{
    let s = required_text(key, v)?;
    match parse_u8(s) {
        Ok(n) => Ok(n),
        Err(e) => Err(GoEStatusError::ParseIntError(e)),
    }
}

/// A 32-bit unsigned number in decimal under `key`.
fn u32_field(key: &str, v: &Option<String>) -> (r: Result<u32, GoEStatusError>)
    ensures
        match r {
            Ok(n) => number_field(key@, *v, u32::MAX as int) == Ok::<int, DecodeFailure>(n as int),
            Err(e) => number_field(key@, *v, u32::MAX as int) == Err::<int, DecodeFailure>(e@),
        },
{
    let s = required_text(key, v)?;
    match parse_u32(s) {
        Ok(n) => Ok(n),
        Err(e) => Err(GoEStatusError::ParseIntError(e)),
    }
}

impl GoEStatus {
    /// Decodes every field of the document, stopping at the first that fails; no partial
    /// snapshot is ever returned.
    pub fn try_from_status_json(status_json: &StatusJson) -> (r: Result<GoEStatus, GoEStatusError>)
        ensures
            match r {
                Ok(st) => status_json.decoded() == Ok::<GoEStatusView, DecodeFailure>(st@),
                Err(e) => status_json.decoded() == Err::<GoEStatusView, DecodeFailure>(e@),
            },
    {
        let car_status = CarStatus::from_str(required_text("car", &status_json.car)?)?;
        let ampere = u8_field("amp", &status_json.amp)?;
        let access_state = AccessState::from_str(required_text("ast", &status_json.ast)?)?;
        let allow_charging = u8_field("alw", &status_json.alw)? == 1;
        let stop_state = StopState::from_str(required_text("stp", &status_json.stp)?)?;
        let cable_coding = CableCoding::from_str(required_text("cbl", &status_json.cbl)?)?;
        let phase_status = PhaseStatus::from(u8_field("pha", &status_json.pha)?);
        let temperature = u8_field("tmp", &status_json.tmp)?;
        let charged = u32_field("dws", &status_json.dws)?;
        let stop_energy = u32_field("dwo", &status_json.dwo)?;
        let total_energy = u32_field("eto", &status_json.eto)?;
        let energy_sensor = match &status_json.nrg {
            Some(nrg) => EnergySensorReading::from_nrg_array(nrg)?,
            None => {
                let mut m = String::from_str("Missing field '");
                m.append("nrg");
                m.append("'");
                return Err(GoEStatusError::InvalidValue(m));
            },
        };
        let serial_number = required_text("sse", &status_json.sse)?.to_owned();
        let awattar_price_zone = AwattarPriceZone::from_str(required_text("azo", &status_json.azo)?)?;
        Ok(GoEStatus {
            car_status,
            ampere,
            access_state,
            allow_charging,
            stop_state,
            cable_coding,
            phase_status,
            temperature,
            charged,
            stop_energy,
            total_energy,
            energy_sensor,
            serial_number,
            awattar_price_zone,
        })
    }
}

impl StatusJson {
    /// Every field decodes.
    pub open spec fn all_fields_decode(self) -> bool {
        &&& self.car_field() is Ok
        &&& self.amp_field() is Ok
        &&& self.ast_field() is Ok
        &&& self.alw_field() is Ok
        &&& self.stp_field() is Ok
        &&& self.cbl_field() is Ok
        &&& self.pha_field() is Ok
        &&& self.tmp_field() is Ok
        &&& self.dws_field() is Ok
        &&& self.dwo_field() is Ok
        &&& self.eto_field() is Ok
        &&& self.nrg_field() is Ok
        &&& self.sse_field() is Ok
        &&& self.azo_field() is Ok
    }

    /// `e` is the failure of a field that cannot be decoded.
    pub open spec fn is_field_failure(self, e: DecodeFailure) -> bool {
        ||| (self.car_field() is Err && e == self.car_field()->Err_0)
        ||| (self.amp_field() is Err && e == self.amp_field()->Err_0)
        ||| (self.ast_field() is Err && e == self.ast_field()->Err_0)
        ||| (self.alw_field() is Err && e == self.alw_field()->Err_0)
        ||| (self.stp_field() is Err && e == self.stp_field()->Err_0)
        ||| (self.cbl_field() is Err && e == self.cbl_field()->Err_0)
        ||| (self.pha_field() is Err && e == self.pha_field()->Err_0)
        ||| (self.tmp_field() is Err && e == self.tmp_field()->Err_0)
        ||| (self.dws_field() is Err && e == self.dws_field()->Err_0)
        ||| (self.dwo_field() is Err && e == self.dwo_field()->Err_0)
        ||| (self.eto_field() is Err && e == self.eto_field()->Err_0)
        ||| (self.nrg_field() is Err && e == self.nrg_field()->Err_0)
        ||| (self.sse_field() is Err && e == self.sse_field()->Err_0)
        ||| (self.azo_field() is Err && e == self.azo_field()->Err_0)
    }

    /// One of the decoded keys is absent.
    pub open spec fn lacks_a_key(self) -> bool {
        ||| self.car is None
        ||| self.amp is None
        ||| self.ast is None
        ||| self.alw is None
        ||| self.stp is None
        ||| self.cbl is None
        ||| self.pha is None
        ||| self.tmp is None
        ||| self.dws is None
        ||| self.dwo is None
        ||| self.eto is None
        ||| self.nrg is None
        ||| self.sse is None
        ||| self.azo is None
    }
}

/// A snapshot exists exactly when every field decodes: there is no partial snapshot.
pub proof fn lemma_decoded_all_or_nothing(p: StatusJson)
    ensures
        (p.decoded() is Ok) == p.all_fields_decode(),
{
}

/// Where decoding fails, the failure is that of a field which cannot be decoded, and so
/// names that field.
pub proof fn lemma_failure_is_a_field_failure(p: StatusJson)
    requires
        (p.decoded() is Err),
    ensures
        p.is_field_failure(p.decoded()->Err_0),
{
}

/// A document without one of the decoded keys gives no snapshot.
pub proof fn lemma_missing_key_fails(p: StatusJson)
    requires
        p.lacks_a_key(),
    ensures
        (p.decoded() is Err),
{
}

} // verus!
