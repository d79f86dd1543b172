//! The application's shared state and the steps that change it.
//!
//! Work on the scale is slow, so no operation holds the state while the
//! driver runs. An operation is therefore cut into steps: one that looks at
//! the state and decides whether the driver may be used, and one that
//! records what the driver answered. Between the two the session is out of
//! the state, and whoever looks for it then finds none.

use vstd::prelude::*;
use vstd::string::StringExecFns;
use crate::device::{Config, Device, Libra, Reading, Timeout};
use crate::error::AppError;

verus! {

/// Number of samples that go into the reading of the test weight.
pub const TEST_WEIGHT_SAMPLES: usize = 3;

/// Longest wait for the reading of the test weight, in seconds.
pub const TEST_WEIGHT_TIMEOUT_SECS: u64 = 5;

/// An open connection to a scale: the driver's handle of type `H` and the
/// record that it was opened with.
#[derive(Debug, PartialEq, Eq)]
pub struct Session<H> {
    pub handle: H,
    pub device: Device,
    pub config: Config,
}

impl<H> Session<H> {
    /// The record that a session stands for.
    pub open spec fn record(self) -> Libra {
        Libra { config: self.config, device: self.device }
    }

    /// Returns the record that the session was opened with.
    pub fn libra(&self) -> (libra: Libra)
        ensures
            libra == self.record(),
    {
        Libra { config: self.config, device: self.device }
    }

    /// Returns the session's record with new linear coefficients; the device
    /// and the sampling parameters are kept.
    pub fn calibrated(&self, gain: Reading, offset: Reading) -> (libra: Libra)
        ensures
            libra == (Libra {
                config: self.config.recalibrated(gain, offset),
                device: self.device,
            }),
    {
        Libra { config: self.config.with_calibration(gain, offset), device: self.device }
    }
}

/// How a settled reading is to be taken.
#[derive(Clone, Copy, Debug, PartialEq, Eq, Structural)]
pub struct SettledRead {
    pub sample_count: usize,
    pub timeout: Timeout,
}

/// The way in which a scale with calibration `config` is read while it is
/// empty: with the sampling parameters of that calibration.
pub open spec fn empty_read(config: Config) -> SettledRead {
    SettledRead { sample_count: config.sample_count, timeout: config.settle_timeout }
}

/// The way in which the scale is read while it carries the test weight.
pub open spec fn test_weight_read() -> SettledRead {
    SettledRead {
        sample_count: TEST_WEIGHT_SAMPLES,
        timeout: Timeout { secs: TEST_WEIGHT_TIMEOUT_SECS, nanos: 0 },
    }
}

impl SettledRead {
    /// Returns the way in which the scale is read while it carries the test
    /// weight.
    pub fn for_test_weight() -> (read: SettledRead)
        ensures
            read == test_weight_read(),
    {
        SettledRead {
            sample_count: TEST_WEIGHT_SAMPLES,
            timeout: Timeout { secs: TEST_WEIGHT_TIMEOUT_SECS, nanos: 0 },
        }
    }
}

/// What a client of the remote configuration service is made from.
#[derive(Debug, PartialEq, Eq)]
pub struct ConfigBackend {
    pub base_url: String,
    pub auth_token: String,
}

impl Clone for ConfigBackend {
    fn clone(&self) -> (copy: ConfigBackend)
        ensures
            copy == *self,
    {
        ConfigBackend { base_url: self.base_url.clone(), auth_token: self.auth_token.clone() }
    }
}

/// State shared by all operations of the application.
///
/// Each field may be empty whatever the others hold.
#[derive(Debug, PartialEq, Eq)]
pub struct AppData<H> {
    /// The one scale session, if a scale is connected.
    pub scale: Option<Session<H>>,
    /// Reading of the empty scale, present between the two calibration steps.
    pub empty_calibration_reading: Option<Reading>,
    /// The client of the remote service, once it has been set up.
    pub backend: Option<ConfigBackend>,
}

impl<H> AppData<H> {
    /// The state at start-up: nothing connected, nothing set up.
    pub open spec fn initial() -> AppData<H> {
        AppData { scale: None, empty_calibration_reading: None, backend: None }
    }

    /// [`AppData::initialize_backend`] leads from `self` to `next` with
    /// `outcome` when the service is at `base_url` and reading the credential
    /// gave `credential`.
    pub open spec fn initializes_backend(
        self,
        base_url: Seq<char>,
        credential: Result<String, String>,
        next: AppData<H>,
        outcome: Result<(), AppError>,
    ) -> bool {
        if self.backend is Some {
            next == self && outcome == Err::<(), AppError>(AppError::BackendAlreadyInitialized)
        } else {
            match credential {
                Err(detail) => next == self && outcome == Err::<(), AppError>(
                    AppError::VarError(detail),
                ),
                Ok(token) => {
                    &&& outcome is Ok
                    &&& next.scale == self.scale
                    &&& next.empty_calibration_reading == self.empty_calibration_reading
                    &&& next.backend matches Some(backend)
                    &&& backend.base_url@ == base_url
                    &&& backend.auth_token == token
                },
            }
        }
    }

    /// Outcome of [`AppData::get_backend`].
    pub open spec fn backend_or_error(self) -> Result<ConfigBackend, AppError> {
        match self.backend {
            Some(backend) => Ok(backend),
            None => Err(AppError::BackendNotInitialized),
        }
    }

    /// Outcome of [`AppData::begin_connect`].
    pub open spec fn connect_allowed(self) -> Result<(), AppError> {
        if self.scale is Some {
            Err(AppError::ScaleAlreadyConnected)
        } else {
            Ok(())
        }
    }

    /// State and outcome of [`AppData::complete_connect`].
    pub open spec fn after_complete_connect(self, opened: Result<Session<H>, AppError>) -> (
        AppData<H>,
        Result<(), AppError>,
    ) {
        match opened {
            Err(error) => (self, Err(error)),
            Ok(session) => if self.scale is Some {
                (self, Err(AppError::ScaleAlreadyConnected))
            } else {
                (AppData { scale: Some(session), ..self }, Ok(()))
            },
        }
    }

    /// State and outcome of [`AppData::take_session`].
    pub open spec fn after_take_session(self) -> (AppData<H>, Result<Session<H>, AppError>) {
        match self.scale {
            Some(session) => (AppData { scale: None, ..self }, Ok(session)),
            None => (self, Err(AppError::NoScaleConnected)),
        }
    }

    /// State and outcome of [`AppData::complete_weigh`].
    pub open spec fn after_complete_weigh(
        self,
        session: Session<H>,
        weighed: Result<Reading, AppError>,
    ) -> (AppData<H>, Result<Reading, AppError>) {
        (AppData { scale: Some(session), ..self }, weighed)
    }

    /// State and outcome of [`AppData::drop_scale`].
    pub open spec fn after_drop_scale(self) -> (AppData<H>, Result<(), AppError>) {
        match self.scale {
            Some(_) => (AppData { scale: None, ..self }, Ok(())),
            None => (self, Err(AppError::NoScaleConnected)),
        }
    }

    /// State after [`AppData::begin_calibrate_empty`].
    pub open spec fn after_begin_calibrate_empty(self) -> AppData<H> {
        AppData { scale: None, ..self }
    }

    /// State and outcome of [`AppData::complete_calibrate_empty`].
    pub open spec fn after_complete_calibrate_empty(
        self,
        captured: Result<(Session<H>, Reading), AppError>,
    ) -> (AppData<H>, Result<(), AppError>) {
        match captured {
            Ok((session, reading)) => (
                AppData {
                    scale: Some(session),
                    empty_calibration_reading: Some(reading),
                    ..self
                },
                Ok(()),
            ),
            Err(error) => (self, Err(error)),
        }
    }

    /// State and outcome of [`AppData::begin_finish_calibration`].
    pub open spec fn after_begin_finish_calibration(self) -> (
        AppData<H>,
        Result<(Session<H>, Reading), AppError>,
    ) {
        match self.empty_calibration_reading {
            None => (self, Err(AppError::NoEmptyCalibrationValue)),
            Some(reading) => match self.scale {
                None => (self, Err(AppError::NoScaleConnected)),
                Some(session) => (AppData { scale: None, ..self }, Ok((session, reading))),
            },
        }
    }

    /// State and outcome of [`AppData::complete_finish_calibration`].
    pub open spec fn after_complete_finish_calibration(
        self,
        reopened: Result<Session<H>, AppError>,
    ) -> (AppData<H>, Result<Libra, AppError>) {
        match reopened {
            Ok(session) => (
                AppData { scale: Some(session), empty_calibration_reading: None, ..self },
                Ok(session.record()),
            ),
            Err(error) => (self, Err(error)),
        }
    }

    /// Creates the state of a freshly started application.
    pub fn new() -> (state: AppData<H>)
        ensures
            state == AppData::<H>::initial(),
    {
        AppData { scale: None, empty_calibration_reading: None, backend: None }
    }

    /// Sets up the client of the remote service, once.
    ///
    /// `base_url` is the address of the service. `credential` is what
    /// reading the credential from the environment gave: the credential, or
    /// the description of the failure. A second set-up fails with
    /// `BackendAlreadyInitialized` whatever the credential; a missing
    /// credential fails with `VarError`. Both leave the state as it was.
    pub fn initialize_backend(
        &mut self,
        base_url: &str,
        credential: Result<String, String>,
    ) -> (outcome: Result<(), AppError>)
        ensures
            old(self).initializes_backend(base_url@, credential, *final(self), outcome),
    {
        if self.backend.is_some() {
            return Err(AppError::BackendAlreadyInitialized);
        }
        match credential {
            Err(detail) => Err(AppError::VarError(detail)),
            Ok(token) => {
                self.backend = Some(
                    ConfigBackend { base_url: String::from_str(base_url), auth_token: token },
                );
                Ok(())
            },
        }
    }

    /// Hands out a copy of the client's description, or fails with
    /// `BackendNotInitialized` before [`AppData::initialize_backend`] has
    /// succeeded.
    pub fn get_backend(&self) -> (backend: Result<ConfigBackend, AppError>)
        ensures
            backend == self.backend_or_error(),
    {
        match &self.backend {
            Some(backend) => Ok(backend.clone()),
            None => Err(AppError::BackendNotInitialized),
        }
    }
}

impl<H> AppData<H> {
    /// First step of connecting: decides whether the driver may open a
    /// session. Fails with `ScaleAlreadyConnected` while one is held.
    pub fn begin_connect(&self) -> (allowed: Result<(), AppError>)
        ensures
            allowed == self.connect_allowed(),
    {
        if self.scale.is_some() {
            Err(AppError::ScaleAlreadyConnected)
        } else {
            Ok(())
        }
    }

    /// Second step of connecting: records what the driver answered. A
    /// failure is handed on and leaves the state as it was, so that no
    /// half-open session is ever recorded. A session that was opened is held
    /// from now on, unless another one has come to be held since the first
    /// step: then the new one is given up, the held one stays untouched, and
    /// the step fails with `ScaleAlreadyConnected`.
    pub fn complete_connect(&mut self, opened: Result<Session<H>, AppError>) -> (outcome: Result<
        (),
        AppError,
    >)
        ensures
            (*final(self), outcome) == old(self).after_complete_connect(opened),
    {
        match opened {
            Err(error) => Err(error),
            Ok(session) => {
                if self.scale.is_some() {
                    Err(AppError::ScaleAlreadyConnected)
                } else {
                    self.scale = Some(session);
                    Ok(())
                }
            },
        }
    }

    /// Takes the session out of the state for as long as the driver works
    /// on it. Fails with `NoScaleConnected` where none is held.
    pub fn take_session(&mut self) -> (taken: Result<Session<H>, AppError>)
        ensures
            (*final(self), taken) == old(self).after_take_session(),
    {
        match self.scale.take() {
            Some(session) => Ok(session),
            None => Err(AppError::NoScaleConnected),
        }
    }

    /// Last step of weighing: the session goes back into the state as it
    /// was taken, whether the reading succeeded or failed, and what the
    /// driver answered is handed on.
    pub fn complete_weigh(
        &mut self,
        session: Session<H>,
        weighed: Result<Reading, AppError>,
    ) -> (outcome: Result<Reading, AppError>)
        ensures
            (*final(self), outcome) == old(self).after_complete_weigh(session, weighed),
    {
        self.scale = Some(session);
        weighed
    }

    /// Gives the session up. Fails with `NoScaleConnected` where none is
    /// held, so that a second disconnect never passes for a first.
    pub fn drop_scale(&mut self) -> (outcome: Result<(), AppError>)
        ensures
            (*final(self), outcome) == old(self).after_drop_scale(),
    {
        match self.scale.take() {
            Some(_) => Ok(()),
            None => Err(AppError::NoScaleConnected),
        }
    }

    /// First step of the zero-point capture of a scale with calibration
    /// `config`: gives up whatever session is held, since calibration always
    /// connects afresh, and says how the empty scale is to be read: with the
    /// sample count and the timeout of `config`.
    pub fn begin_calibrate_empty(&mut self, config: &Config) -> (read: SettledRead)
        ensures
            *final(self) == old(self).after_begin_calibrate_empty(),
            read == empty_read(*config),
    {
        self.scale = None;
        SettledRead { sample_count: config.sample_count, timeout: config.settle_timeout }
    }

    /// Second step of the zero-point capture: records the fresh session and
    /// the reading of the empty scale. A failure of the driver is handed on
    /// and leaves the state as it was.
    pub fn complete_calibrate_empty(
        &mut self,
        captured: Result<(Session<H>, Reading), AppError>,
    ) -> (outcome: Result<(), AppError>)
        ensures
            (*final(self), outcome) == old(self).after_complete_calibrate_empty(captured),
    {
        match captured {
            Ok((session, reading)) => {
                self.scale = Some(session);
                self.empty_calibration_reading = Some(reading);
                Ok(())
            },
            Err(error) => Err(error),
        }
    }

    /// First step of the test-weight capture. Fails with
    /// `NoEmptyCalibrationValue` where no zero point was captured, then with
    /// `NoScaleConnected` where no session is held; both leave the state as
    /// it was. Else the session is taken out and handed over with the
    /// zero-point reading, which stays in the state until the calibration
    /// has succeeded.
    pub fn begin_finish_calibration(&mut self) -> (taken: Result<(Session<H>, Reading), AppError>)
        ensures
            (*final(self), taken) == old(self).after_begin_finish_calibration(),
    {
        match self.empty_calibration_reading {
            None => Err(AppError::NoEmptyCalibrationValue),
            Some(reading) => match self.scale.take() {
                None => Err(AppError::NoScaleConnected),
                Some(session) => Ok((session, reading)),
            },
        }
    }

    /// Last step of the test-weight capture: records the session that was
    /// opened with the new coefficients, forgets the zero-point reading and
    /// hands out the calibrated record. A failure of the driver is handed on
    /// and leaves the state as it was: the zero-point reading is kept for
    /// another attempt.
    pub fn complete_finish_calibration(
        &mut self,
        reopened: Result<Session<H>, AppError>,
    ) -> (outcome: Result<Libra, AppError>)
        ensures
            (*final(self), outcome) == old(self).after_complete_finish_calibration(reopened),
    {
        match reopened {
            Ok(session) => {
                let libra = session.libra();
                self.scale = Some(session);
                self.empty_calibration_reading = None;
                Ok(libra)
            },
            Err(error) => Err(error),
        }
    }
}

/// Accepts the handles that the driver found, unless it found none: then
/// the search fails with `NoScaleConnected`.
pub fn find_connected_phidgets(found: Vec<isize>) -> (outcome: Result<Vec<isize>, AppError>)
    ensures
        outcome == if found@.len() == 0 {
            Err::<Vec<isize>, AppError>(AppError::NoScaleConnected)
        } else {
            Ok::<Vec<isize>, AppError>(found)
        },
{
    if found.is_empty() {
        Err(AppError::NoScaleConnected)
    } else {
        Ok(found)
    }
}

} // verus!
