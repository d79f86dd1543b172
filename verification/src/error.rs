//! Failures that an operation of the application can report.

use vstd::prelude::*;
use vstd::string::StringExecFns;

verus! {

/// Failure of the device list or of the remote configuration service.
#[derive(Debug, PartialEq, Eq)]
pub enum MenuError {
    /// The device list has no backing file yet.
    FileNotFound,
    /// A record with the same device identity is already stored.
    LibraAlreadyExists,
    /// No record with the given device identity is stored.
    LibraNotFound,
    /// The remote service answered with text that is no device identifier;
    /// the text is carried along.
    InvalidResponse(String),
    /// Any other failure of the file codec or of the transport, with its
    /// description.
    Other(String),
}

impl MenuError {
    /// The text shown for this failure.
    pub open spec fn message_text(self) -> Seq<char> {
        match self {
            MenuError::FileNotFound => "Config file not found"@,
            MenuError::LibraAlreadyExists => "Libra already exists"@,
            MenuError::LibraNotFound => "Libra not found"@,
            MenuError::InvalidResponse(text) => "Invalid response: "@ + text@,
            MenuError::Other(detail) => detail@,
        }
    }

    /// Renders the failure for display.
    pub fn message(&self) -> (text: String)
        ensures
            text@ == self.message_text(),
    {
        match self {
            MenuError::FileNotFound => String::from_str("Config file not found"),
            MenuError::LibraAlreadyExists => String::from_str("Libra already exists"),
            MenuError::LibraNotFound => String::from_str("Libra not found"),
            MenuError::InvalidResponse(text) => {
                String::from_str("Invalid response: ").concat(text.as_str())
            },
            MenuError::Other(detail) => detail.clone(),
        }
    }
}

/// Everything that can go wrong in an operation of the application.
///
/// Failures of outside systems carry the description that the system gave.
#[derive(Debug, PartialEq, Eq)]
pub enum AppError {
    /// A value could not be encoded or decoded.
    Serde(String),
    /// The device list or the remote service failed.
    Menu(MenuError),
    /// The scale driver failed.
    Scale(String),
    /// An operation needs a scale session and none is held.
    NoScaleConnected,
    /// A scale session is already held.
    ScaleAlreadyConnected,
    /// The transport to the remote service failed.
    Reqwest(String),
    /// The second calibration step was asked for without the first.
    NoEmptyCalibrationValue,
    /// A needed environment variable could not be read.
    VarError(String),
    /// The remote service is used before its client exists.
    BackendNotInitialized,
    /// The client of the remote service exists already.
    BackendAlreadyInitialized,
    /// The application framework failed.
    Tauri(String),
}

impl AppError {
    /// The text shown for this failure.
    pub open spec fn message_text(self) -> Seq<char> {
        match self {
            AppError::Serde(detail) => "Serde failed: "@ + detail@,
            AppError::Menu(source) => "Error with config file: "@ + source.message_text(),
            AppError::Scale(detail) => "Scale Error: "@ + detail@,
            AppError::NoScaleConnected => "No Scale Connected"@,
            AppError::ScaleAlreadyConnected => "Scale Already Connected"@,
            AppError::Reqwest(detail) => "Reqwest Error: "@ + detail@,
            AppError::NoEmptyCalibrationValue => "No empty calibration value"@,
            AppError::VarError(detail) => detail@,
            AppError::BackendNotInitialized => "Backend not initialized"@,
            AppError::BackendAlreadyInitialized => "Backend already initialized"@,
            AppError::Tauri(detail) => "Tauri Error: "@ + detail@,
        }
    }

    /// Renders the failure for display.
    pub fn message(&self) -> (text: String)
        ensures
            text@ == self.message_text(),
    {
        match self {
            AppError::Serde(detail) => String::from_str("Serde failed: ").concat(detail.as_str()),
            AppError::Menu(source) => {
                let inner = source.message();
                String::from_str("Error with config file: ").concat(inner.as_str())
            },
            AppError::Scale(detail) => String::from_str("Scale Error: ").concat(detail.as_str()),
            AppError::NoScaleConnected => String::from_str("No Scale Connected"),
            AppError::ScaleAlreadyConnected => String::from_str("Scale Already Connected"),
            AppError::Reqwest(detail) => {
                String::from_str("Reqwest Error: ").concat(detail.as_str())
            },
            AppError::NoEmptyCalibrationValue => String::from_str("No empty calibration value"),
            AppError::VarError(detail) => detail.clone(),
            AppError::BackendNotInitialized => String::from_str("Backend not initialized"),
            AppError::BackendAlreadyInitialized => String::from_str("Backend already initialized"),
            AppError::Tauri(detail) => String::from_str("Tauri Error: ").concat(detail.as_str()),
        }
    }
}

impl From<MenuError> for AppError {
    fn from(source: MenuError) -> (error: AppError) {
        AppError::Menu(source)
    }
}

impl vstd::std_specs::convert::FromSpecImpl<MenuError> for AppError {
    open spec fn obeys_from_spec() -> bool {
        true
    }

    open spec fn from_spec(source: MenuError) -> AppError {
        AppError::Menu(source)
    }
}

} // verus!
