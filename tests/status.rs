use go_echarger_api::{
    AccessState, AwattarPriceZone, CableCoding, CarStatus, DirectHttpChargerConnection,
    GoEStatus, GoEStatusError, KeyWrite, PhaseStatus, StatusJson, StopState,
};

fn text(s: &str) -> Option<String> {
    Some(s.to_string())
}

fn captured_payload() -> StatusJson {
    StatusJson {
        car: text("2"),
        amp: text("16"),
        ast: text("1"),
        alw: text("1"),
        stp: text("2"),
        cbl: text("20"),
        pha: text("63"),
        tmp: text("25"),
        dws: text("123456"),
        dwo: text("150"),
        eto: text("4294967295"),
        nrg: Some([
            230, 231, 229, 2, 160, 161, 159, 368, 370, 366, 0, 1104, 99, 98, 97, 0,
        ]),
        sse: text("012345"),
        azo: text("1"),
    }
}

fn invalid(text: &str) -> GoEStatusError {
    GoEStatusError::InvalidValue(text.to_string())
}

#[test]
fn test_parse_status_json() {
    let status = GoEStatus::try_from_status_json(&captured_payload()).unwrap();

    assert_eq!(status.car_status, CarStatus::Charging);
    assert_eq!(status.ampere, 16);
    assert_eq!(status.access_state, AccessState::RFID);
    assert!(status.allow_charging);
    assert_eq!(status.stop_state, StopState::SwitchOffAfterKwh);
    assert_eq!(status.cable_coding, CableCoding::Ampere(20));
    assert_eq!(status.phase_status, PhaseStatus::from(0b0011_1111));
    assert!(status.phase_status.l3_before_contactor && status.phase_status.l1_after_contactor);
    assert_eq!(status.temperature, 25);
    assert_eq!(status.charged, 123456);
    assert_eq!(status.stop_energy, 150);
    assert_eq!(status.total_energy, u32::MAX);
    assert_eq!(status.energy_sensor.voltage_l1, 230);
    assert_eq!(status.energy_sensor.voltage_n, 2);
    assert_eq!(status.energy_sensor.current_l1, 160);
    assert_eq!(status.energy_sensor.power_total, 1104);
    assert_eq!(status.energy_sensor.powerfactor_l3, 97);
    assert_eq!(status.serial_number, "012345");
    assert_eq!(status.awattar_price_zone, AwattarPriceZone::Germany);
}

#[test]
fn allow_charging_is_true_only_for_one() {
    for (code, allowed) in [("0", false), ("1", true), ("2", false), ("255", false)] {
        let mut p = captured_payload();
        p.alw = text(code);
        let status = GoEStatus::try_from_status_json(&p).unwrap();
        assert_eq!(status.allow_charging, allowed);
    }
    let mut p = captured_payload();
    p.alw = text("true");
    assert!(matches!(
        GoEStatus::try_from_status_json(&p),
        Err(GoEStatusError::ParseIntError(_))
    ));
}

#[test]
fn access_state_out_of_domain_names_the_field() {
    let mut p = captured_payload();
    p.ast = text("9");
    assert_eq!(
        GoEStatus::try_from_status_json(&p).unwrap_err(),
        invalid("Invalid access state '9'")
    );
}

#[test]
fn missing_key_names_the_key() {
    let mut p = captured_payload();
    p.cbl = None;
    assert_eq!(
        GoEStatus::try_from_status_json(&p).unwrap_err(),
        invalid("Missing field 'cbl'")
    );

    let mut p = captured_payload();
    p.nrg = None;
    assert_eq!(
        GoEStatus::try_from_status_json(&p).unwrap_err(),
        invalid("Missing field 'nrg'")
    );

    let mut p = captured_payload();
    p.azo = None;
    assert_eq!(
        GoEStatus::try_from_status_json(&p).unwrap_err(),
        invalid("Missing field 'azo'")
    );
}

#[test]
fn first_failing_field_is_reported() {
    let mut p = captured_payload();
    p.car = text("7");
    p.amp = None;
    p.ast = text("9");
    assert_eq!(
        GoEStatus::try_from_status_json(&p).unwrap_err(),
        invalid("Invalid car status '7'")
    );
}

#[test]
fn numbers_wider_than_their_field_are_parse_errors() {
    let mut p = captured_payload();
    p.amp = text("256");
    assert!(matches!(
        GoEStatus::try_from_status_json(&p),
        Err(GoEStatusError::ParseIntError(_))
    ));

    let mut p = captured_payload();
    p.eto = text("4294967296");
    assert!(matches!(
        GoEStatus::try_from_status_json(&p),
        Err(GoEStatusError::ParseIntError(_))
    ));

    let mut p = captured_payload();
    p.tmp = text("-3");
    assert!(matches!(
        GoEStatus::try_from_status_json(&p),
        Err(GoEStatusError::ParseIntError(_))
    ));
}

#[test]
fn stop_state_code_one_fails_the_document() {
    let mut p = captured_payload();
    p.stp = text("1");
    assert_eq!(
        GoEStatus::try_from_status_json(&p).unwrap_err(),
        invalid("Invalid value for stop state '1'")
    );
}

#[test]
fn serial_number_is_passed_through() {
    let mut p = captured_payload();
    p.sse = text(" not a number ");
    let status = GoEStatus::try_from_status_json(&p).unwrap();
    assert_eq!(status.serial_number, " not a number ");
}

#[test]
fn set_current_limit_writes_amp() {
    let w = KeyWrite::ampere(16);
    assert_eq!(w.key, "amp");
    assert_eq!(w.value, "16");
    let w = KeyWrite::ampere(0);
    assert_eq!(w.value, "0");
    let w = KeyWrite::ampere(u32::MAX);
    assert_eq!(w.value, "4294967295");
}

#[test]
fn set_allow_charging_writes_alw() {
    let w = KeyWrite::allow_charging(true);
    assert_eq!((w.key.as_str(), w.value.as_str()), ("alw", "1"));
    let w = KeyWrite::allow_charging(false);
    assert_eq!((w.key.as_str(), w.value.as_str()), ("alw", "0"));
}

#[test]
fn set_access_state_writes_ast() {
    let w = KeyWrite::access_state(AccessState::RFID);
    assert_eq!((w.key.as_str(), w.value.as_str()), ("ast", "1"));
    let w = KeyWrite::access_state(AccessState::Open);
    assert_eq!(w.value, "0");
    let w = KeyWrite::access_state(AccessState::ElectricityPrices);
    assert_eq!(w.value, "2");
    for state in [AccessState::Open, AccessState::RFID, AccessState::ElectricityPrices] {
        let w = KeyWrite::access_state(state);
        assert_eq!(AccessState::from_str(&w.value), Ok(state));
    }
}

#[test]
fn http_endpoints() {
    let c = DirectHttpChargerConnection::new("192.168.0.7".to_string());
    assert_eq!(c.base_url(), "http://192.168.0.7/");
    assert_eq!(c.status_url(), "http://192.168.0.7/status");
    assert_eq!(c.set_key_url(), "http://192.168.0.7/mqtt");
    assert_eq!(
        go_echarger_api::connection::http::set_key_payload("amp", "16"),
        "amp=16"
    );
}
