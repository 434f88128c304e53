use waveplus_gateway::clock::Timestamp;
use waveplus_gateway::http::build_payload;
use waveplus_gateway::http::is_success_status;
use waveplus_gateway::http::payload_string;
use waveplus_gateway::measurement::DeviceAddress;
use waveplus_gateway::measurement::MeasurementMetadata;
use waveplus_gateway::measurement::WavePlusMeasurement;
use waveplus_gateway::measurement::WavePlusMeasurementData;
use waveplus_gateway::state::Errors;
use waveplus_gateway::state::ExecutionMode;
use waveplus_gateway::state::State;
use waveplus_gateway::state::Status;

fn sample_measurement() -> WavePlusMeasurement {
    WavePlusMeasurement {
        metadata: MeasurementMetadata {
            serial_number: 1234567,
            address: DeviceAddress { octets: [0xA4, 0x34, 0xF1, 0x2B, 0x00, 0x9F] },
            datetime: Timestamp::new(2024, 3, 7, 9, 5, 30).unwrap(),
        },
        data: WavePlusMeasurementData {
            version: 1,
            humidity: 96,
            radon_short: Some(52),
            radon_long: None,
            temperature: 1876,
            pressure: 50342,
            co2: 666,
            voc: 52,
        },
    }
}

#[test]
fn payload_renders_the_wire_format() {
    let errors = Errors { wifi_disconnects: 1, ble_disconnects: 2, http_errors: 3 };
    let body = payload_string(&sample_measurement(), &errors);
    let expected = String::from("{\"serial_number\":\"1234567\",")
        + "\"address\":\"A4:34:F1:2B:00:9F\","
        + "\"datetime\":\"2024-03-07 09:05:30\","
        + "\"data\":{\"version\":1,\"humidity\":48.0,\"radon_short\":52.0,"
        + "\"temperature\":18.76,\"pressure\":1006.84,\"co2\":666.0,\"voc\":52.0},"
        + "\"errors\":{\"wifi_disconnects\":1,\"ble_disconnects\":2,\"http_errors\":3}}";
    assert_eq!(body, expected);
}

#[test]
fn payload_omits_both_radon_fields_when_absent() {
    let mut m = sample_measurement();
    m.data.radon_short = None;
    m.data.radon_long = None;
    let body = payload_string(&m, &Errors::default());
    assert!(!body.contains("radon_short"));
    assert!(!body.contains("radon_long"));
    assert!(body.contains("\"humidity\":48.0,\"temperature\":18.76"));
}

#[test]
fn payload_keeps_both_radon_fields_when_present() {
    let mut m = sample_measurement();
    m.data.radon_long = Some(52);
    let body = payload_string(&m, &Errors::default());
    assert!(body.contains("\"radon_short\":52.0,\"radon_long\":52.0"));
}

#[test]
fn fixed_point_rendering_matches_float_formatting() {
    // The fixed-point renderer writes the same digits the collector would
    // see from a shortest-roundtrip float serialization of the same values.
    let mut m = sample_measurement();
    m.data.temperature = 1800;
    m.data.pressure = 50000;
    m.data.humidity = 95;
    let body = payload_string(&m, &Errors::default());
    assert!(body.contains("\"humidity\":47.5"), "{}", body);
    assert!(body.contains("\"temperature\":18.0"), "{}", body);
    assert!(body.contains("\"pressure\":1000.0"), "{}", body);
    assert_eq!(1800 as f64 / 100.0, 18.0);
    assert_eq!(50000 as f64 / 50.0, 1000.0);
    assert_eq!(95 as f64 / 2.0, 47.5);

    m.data.temperature = 5;
    let body = payload_string(&m, &Errors::default());
    assert!(body.contains("\"temperature\":0.05"), "{}", body);
}

#[test]
fn zero_padded_datetime() {
    let mut m = sample_measurement();
    m.metadata.datetime = Timestamp::new(980, 11, 3, 0, 0, 7).unwrap();
    let body = payload_string(&m, &Errors::default());
    assert!(body.contains("\"datetime\":\"0980-11-03 00:00:07\""), "{}", body);
}

#[test]
fn build_payload_needs_a_held_measurement() {
    let state = State::default();
    assert!(build_payload(&state).is_none());

    let state = State {
        mode: ExecutionMode::SendMeasurement,
        status: Status::Sending,
        last_run: None,
        measurement: Some(sample_measurement()),
        force_radon_measurement: false,
        waveplus: None,
        errors: Errors::default(),
    };
    let body = build_payload(&state).unwrap();
    assert!(body.contains("\"serial_number\":\"1234567\""));
    assert!(body.contains("\"wifi_disconnects\":0"));
}

#[test]
fn success_statuses_are_the_two_hundreds() {
    assert!(!is_success_status(199));
    assert!(is_success_status(200));
    assert!(is_success_status(250));
    assert!(is_success_status(299));
    assert!(!is_success_status(300));
    assert!(!is_success_status(404));
    assert!(!is_success_status(500));
    assert!(!is_success_status(0));
}
