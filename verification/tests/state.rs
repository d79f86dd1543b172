use libra::device::{Config, Device, Libra, Model, Reading, Timeout};
use libra::error::AppError;
use libra::state::{
    find_connected_phidgets, AppData, ConfigBackend, Session, SettledRead, TEST_WEIGHT_SAMPLES,
    TEST_WEIGHT_TIMEOUT_SECS,
};

const SERVICE: &str = "http://127.0.0.1:8080";

fn reading(value: f64) -> Reading {
    Reading { bits: value.to_bits() }
}

fn config(gain: f64, offset: f64) -> Config {
    Config {
        gain: reading(gain),
        offset: reading(offset),
        sample_count: 3,
        settle_timeout: Timeout { secs: 5, nanos: 0 },
    }
}

fn session(handle: u32, number: u64) -> Session<u32> {
    Session { handle, device: Device { model: Model::Bench, number }, config: config(1.0, 0.0) }
}

fn fresh() -> AppData<u32> {
    AppData::new()
}

#[test]
fn new_state_is_empty() {
    let state = fresh();
    assert_eq!(state.scale, None);
    assert_eq!(state.empty_calibration_reading, None);
    assert_eq!(state.backend, None);
}

#[test]
fn connect_stores_the_session() {
    let mut state = fresh();
    assert_eq!(state.begin_connect(), Ok(()));
    assert_eq!(state.complete_connect(Ok(session(1, 1))), Ok(()));
    assert_eq!(state.scale, Some(session(1, 1)));
}

#[test]
fn second_connect_fails_and_leaves_the_session_untouched() {
    let mut state = fresh();
    assert_eq!(state.begin_connect(), Ok(()));
    assert_eq!(state.complete_connect(Ok(session(1, 1))), Ok(()));
    assert_eq!(state.begin_connect(), Err(AppError::ScaleAlreadyConnected));
    assert_eq!(state.begin_connect(), Err(AppError::ScaleAlreadyConnected));
    assert_eq!(state.scale, Some(session(1, 1)));
}

#[test]
fn connect_that_completes_late_gives_way_to_the_held_session() {
    let mut state = fresh();
    assert_eq!(state.begin_connect(), Ok(()));
    assert_eq!(state.begin_connect(), Ok(()));
    assert_eq!(state.complete_connect(Ok(session(1, 1))), Ok(()));
    assert_eq!(state.complete_connect(Ok(session(2, 2))), Err(AppError::ScaleAlreadyConnected));
    assert_eq!(state.scale, Some(session(1, 1)));
    assert_eq!(
        state.complete_connect(Err(AppError::Scale("busy".to_string()))),
        Err(AppError::Scale("busy".to_string()))
    );
    assert_eq!(state.scale, Some(session(1, 1)));
}

#[test]
fn failed_connect_records_nothing() {
    let mut state = fresh();
    assert_eq!(state.begin_connect(), Ok(()));
    assert_eq!(
        state.complete_connect(Err(AppError::Scale("no device".to_string()))),
        Err(AppError::Scale("no device".to_string()))
    );
    assert_eq!(state.scale, None);
    assert_eq!(state.begin_connect(), Ok(()));
}

#[test]
fn connect_after_disconnect_is_allowed() {
    let mut state = fresh();
    assert_eq!(state.complete_connect(Ok(session(1, 1))), Ok(()));
    assert_eq!(state.drop_scale(), Ok(()));
    assert_eq!(state.begin_connect(), Ok(()));
    assert_eq!(state.complete_connect(Ok(session(2, 2))), Ok(()));
    assert_eq!(state.scale, Some(session(2, 2)));
}

#[test]
fn weigh_takes_the_session_out_and_puts_it_back() {
    let mut state = fresh();
    assert_eq!(state.complete_connect(Ok(session(1, 1))), Ok(()));
    let taken = state.take_session().unwrap();
    assert_eq!(taken, session(1, 1));
    assert_eq!(state.scale, None);
    assert_eq!(state.take_session(), Err(AppError::NoScaleConnected));
    assert_eq!(state.complete_weigh(taken, Ok(reading(12.5))), Ok(reading(12.5)));
    assert_eq!(state.scale, Some(session(1, 1)));
}

#[test]
fn weigh_without_a_session_fails() {
    let mut state = fresh();
    assert_eq!(state.take_session(), Err(AppError::NoScaleConnected));
    assert_eq!(state.scale, None);
}

#[test]
fn failed_weigh_puts_the_session_back() {
    let mut state = fresh();
    assert_eq!(state.complete_connect(Ok(session(1, 1))), Ok(()));
    let taken = state.take_session().unwrap();
    assert_eq!(
        state.complete_weigh(taken, Err(AppError::Scale("timeout".to_string()))),
        Err(AppError::Scale("timeout".to_string()))
    );
    assert_eq!(state.scale, Some(session(1, 1)));
    let again = state.take_session().unwrap();
    assert_eq!(state.complete_weigh(again, Ok(reading(3.25))), Ok(reading(3.25)));
    assert_eq!(state.scale, Some(session(1, 1)));
}

#[test]
fn disconnect_of_an_absent_session_fails() {
    let mut state = fresh();
    assert_eq!(state.drop_scale(), Err(AppError::NoScaleConnected));
    assert_eq!(state.complete_connect(Ok(session(1, 1))), Ok(()));
    assert_eq!(state.drop_scale(), Ok(()));
    assert_eq!(state.scale, None);
    assert_eq!(state.drop_scale(), Err(AppError::NoScaleConnected));
}

#[test]
fn finish_calibration_before_calibrate_empty_fails() {
    let mut state = fresh();
    assert_eq!(state.begin_finish_calibration(), Err(AppError::NoEmptyCalibrationValue));
    assert_eq!(state.complete_connect(Ok(session(1, 1))), Ok(()));
    assert_eq!(state.begin_finish_calibration(), Err(AppError::NoEmptyCalibrationValue));
    assert_eq!(state.scale, Some(session(1, 1)));
}

#[test]
fn calibrate_empty_replaces_the_session_and_keeps_the_reading() {
    let mut state = fresh();
    assert_eq!(state.complete_connect(Ok(session(1, 1))), Ok(()));
    let record = Config {
        gain: reading(1.0),
        offset: reading(0.0),
        sample_count: 8,
        settle_timeout: Timeout { secs: 2, nanos: 500_000_000 },
    };
    let read = state.begin_calibrate_empty(&record);
    assert_eq!(
        read,
        SettledRead { sample_count: 8, timeout: Timeout { secs: 2, nanos: 500_000_000 } }
    );
    assert_eq!(state.scale, None);
    assert_eq!(state.complete_calibrate_empty(Ok((session(2, 1), reading(100.0)))), Ok(()));
    assert_eq!(state.scale, Some(session(2, 1)));
    assert_eq!(state.empty_calibration_reading, Some(reading(100.0)));
}

#[test]
fn failed_calibrate_empty_leaves_no_session_and_no_reading() {
    let mut state = fresh();
    assert_eq!(state.complete_connect(Ok(session(1, 1))), Ok(()));
    state.begin_calibrate_empty(&config(1.0, 0.0));
    assert_eq!(
        state.complete_calibrate_empty(Err(AppError::Scale("unplugged".to_string()))),
        Err(AppError::Scale("unplugged".to_string()))
    );
    assert_eq!(state.scale, None);
    assert_eq!(state.empty_calibration_reading, None);
}

#[test]
fn calibration_arithmetic() {
    let mut state = fresh();
    state.begin_calibrate_empty(&config(1.0, 0.0));
    let empty_reading = 100.0_f64;
    assert_eq!(state.complete_calibrate_empty(Ok((session(1, 9), reading(empty_reading)))), Ok(()));
    let (taken, stored) = state.begin_finish_calibration().unwrap();
    assert_eq!(stored, reading(100.0));
    assert_eq!(state.scale, None);
    assert_eq!(state.empty_calibration_reading, Some(reading(100.0)));
    let test_weight = 500.0_f64;
    let second_reading = 600.0_f64;
    let zero = f64::from_bits(stored.bits);
    let gain = test_weight / (second_reading - zero);
    let offset = test_weight * zero / (second_reading - zero);
    let calibrated = taken.calibrated(reading(gain), reading(offset));
    assert_eq!(calibrated.device, Device { model: Model::Bench, number: 9 });
    assert_eq!(calibrated.config, config(1.0, 100.0));
    let reopened = Session { handle: 2, device: calibrated.device, config: calibrated.config };
    assert_eq!(state.complete_finish_calibration(Ok(reopened)), Ok(calibrated));
    assert_eq!(state.empty_calibration_reading, None);
    let held = state.scale.as_ref().unwrap();
    assert_eq!(f64::from_bits(held.config.gain.bits), 1.0);
    assert_eq!(f64::from_bits(held.config.offset.bits), 100.0);
    assert_eq!(held.handle, 2);
}

#[test]
fn calibration_with_equal_readings_hands_on_what_is_not_finite() {
    let mut state = fresh();
    state.begin_calibrate_empty(&config(1.0, 0.0));
    assert_eq!(state.complete_calibrate_empty(Ok((session(1, 9), reading(100.0)))), Ok(()));
    let (taken, stored) = state.begin_finish_calibration().unwrap();
    let zero = f64::from_bits(stored.bits);
    let gain = 500.0 / (100.0 - zero);
    let offset = 500.0 * zero / (100.0 - zero);
    let calibrated = taken.calibrated(reading(gain), reading(offset));
    let reopened = Session { handle: 2, device: calibrated.device, config: calibrated.config };
    let libra = state.complete_finish_calibration(Ok(reopened)).unwrap();
    assert!(!f64::from_bits(libra.config.gain.bits).is_finite());
    assert!(!f64::from_bits(libra.config.offset.bits).is_finite());
    assert_eq!(libra.config.gain, reading(f64::INFINITY));
}

#[test]
fn finish_calibration_twice_fails_the_second_time() {
    let mut state = fresh();
    state.begin_calibrate_empty(&config(1.0, 0.0));
    assert_eq!(state.complete_calibrate_empty(Ok((session(1, 9), reading(100.0)))), Ok(()));
    let (taken, _) = state.begin_finish_calibration().unwrap();
    let calibrated = taken.calibrated(reading(1.0), reading(100.0));
    let reopened = Session { handle: 2, device: calibrated.device, config: calibrated.config };
    assert_eq!(state.complete_finish_calibration(Ok(reopened)), Ok(calibrated));
    assert_eq!(state.begin_finish_calibration(), Err(AppError::NoEmptyCalibrationValue));
    assert_eq!(state.empty_calibration_reading, None);
    assert!(state.scale.is_some());
}

#[test]
fn finish_calibration_without_a_session_keeps_the_reading() {
    let mut state = fresh();
    state.begin_calibrate_empty(&config(1.0, 0.0));
    assert_eq!(state.complete_calibrate_empty(Ok((session(1, 9), reading(100.0)))), Ok(()));
    assert_eq!(state.drop_scale(), Ok(()));
    assert_eq!(state.begin_finish_calibration(), Err(AppError::NoScaleConnected));
    assert_eq!(state.empty_calibration_reading, Some(reading(100.0)));
}

#[test]
fn failed_finish_calibration_keeps_the_reading_for_a_retry() {
    let mut state = fresh();
    state.begin_calibrate_empty(&config(1.0, 0.0));
    assert_eq!(state.complete_calibrate_empty(Ok((session(1, 9), reading(100.0)))), Ok(()));
    let _ = state.begin_finish_calibration().unwrap();
    assert_eq!(
        state.complete_finish_calibration(Err(AppError::Scale("read failed".to_string()))),
        Err(AppError::Scale("read failed".to_string()))
    );
    assert_eq!(state.scale, None);
    assert_eq!(state.empty_calibration_reading, Some(reading(100.0)));
    assert_eq!(state.begin_finish_calibration(), Err(AppError::NoScaleConnected));
}

#[test]
fn backend_is_initialized_once() {
    let mut state = fresh();
    assert_eq!(state.get_backend(), Err(AppError::BackendNotInitialized));
    assert_eq!(state.initialize_backend(SERVICE, Ok("credential".to_string())), Ok(()));
    let expected = ConfigBackend {
        base_url: "http://127.0.0.1:8080".to_string(),
        auth_token: "credential".to_string(),
    };
    assert_eq!(state.get_backend(), Ok(expected.clone()));
    assert_eq!(state.backend, Some(expected.clone()));
    assert_eq!(
        state.initialize_backend(SERVICE, Ok("other".to_string())),
        Err(AppError::BackendAlreadyInitialized)
    );
    assert_eq!(
        state.initialize_backend("http://other.example", Err("environment variable not found".to_string())),
        Err(AppError::BackendAlreadyInitialized)
    );
    assert_eq!(state.get_backend(), Ok(expected));
}

#[test]
fn backend_needs_the_credential() {
    let mut state = fresh();
    assert_eq!(
        state.initialize_backend("http://other.example", Err("environment variable not found".to_string())),
        Err(AppError::VarError("environment variable not found".to_string()))
    );
    assert_eq!(state.backend, None);
    assert_eq!(state.get_backend(), Err(AppError::BackendNotInitialized));
    assert_eq!(state.initialize_backend(SERVICE, Ok("credential".to_string())), Ok(()));
}

#[test]
fn no_phidgets_found_is_a_failure() {
    assert_eq!(find_connected_phidgets(Vec::new()), Err(AppError::NoScaleConnected));
    assert_eq!(find_connected_phidgets(vec![7, -3]), Ok(vec![7, -3]));
}

#[test]
fn session_record_and_recalibration() {
    let held = session(1, 4);
    assert_eq!(held.libra(), Libra { config: config(1.0, 0.0), device: held.device });
    let changed = held.config.with_calibration(reading(2.0), reading(3.0));
    assert_eq!(changed, config(2.0, 3.0));
    assert_eq!(changed.sample_count, 3);
    assert_eq!(changed.settle_timeout, Timeout { secs: 5, nanos: 0 });
}

#[test]
fn test_weight_is_read_with_fixed_parameters() {
    let read = SettledRead::for_test_weight();
    assert_eq!(read, SettledRead { sample_count: 3, timeout: Timeout { secs: 5, nanos: 0 } });
    assert_eq!(read.sample_count, TEST_WEIGHT_SAMPLES);
    assert_eq!(read.timeout.secs, TEST_WEIGHT_TIMEOUT_SECS);
}
