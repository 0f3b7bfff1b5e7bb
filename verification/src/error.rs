//! The errors of the library and their texts.

use vstd::prelude::*;
use vstd::string::StringExecFns;

verus! {

/// What the library keeps of a failure that the sensor subsystem reported:
/// the operating system's error number, where there is one, and the text of
/// the failure.
#[derive(Debug, Clone, PartialEq, Eq)]
pub struct DeviceError {
    pub os_code: Option<i32>,
    pub message: String,
}

/// Mathematical value of a [`DeviceError`].
pub struct DeviceErrorView {
    pub os_code: Option<i32>,
    pub message: Seq<char>,
}

impl View for DeviceError {
    type V = DeviceErrorView;

    open spec fn view(&self) -> DeviceErrorView {
        DeviceErrorView { os_code: self.os_code, message: self.message@ }
    }
}

/// Every way in which the daemon can fail.
#[derive(Debug, Clone, PartialEq, Eq)]
pub enum Error {
    /// The hardware or the configuration is in a state that cannot be used.
    InvalidState(String),
    /// The system clock failed.
    Time(String),
    /// The collector's address is not a valid URL.
    Url(String),
    /// A sample could not be serialized.
    Json(String),
    /// The sensor subsystem reported a failure.
    Iio(DeviceError),
    /// The connection to the collector failed.
    Ws(String),
    /// No device carries an accelerometer.
    SensorNotFound,
    /// No trigger device exists.
    IioTriggerNotFound,
}

/// Mathematical value of an [`Error`].
pub enum ErrorView {
    InvalidState(Seq<char>),
    Time(Seq<char>),
    Url(Seq<char>),
    Json(Seq<char>),
    Iio(DeviceErrorView),
    Ws(Seq<char>),
    SensorNotFound,
    IioTriggerNotFound,
}

impl ErrorView {
    /// The line that describes the error to the user.
    pub open spec fn text(self) -> Seq<char> {
        match self {
            ErrorView::InvalidState(m) => "invalid state: "@ + m,
            ErrorView::Time(m) => "time error: "@ + m,
            ErrorView::Url(m) => "url parse error: "@ + m,
            ErrorView::Json(m) => "json error: "@ + m,
            ErrorView::Iio(e) => "iio error: "@ + e.message,
            ErrorView::Ws(m) => "websocket error: "@ + m,
            ErrorView::SensorNotFound => "iio sensor not found"@,
            ErrorView::IioTriggerNotFound => "iio trigger not found"@,
        }
    }
}

impl View for Error {
    type V = ErrorView;

    open spec fn view(&self) -> ErrorView {
        match self {
            Error::InvalidState(m) => ErrorView::InvalidState(m@),
            Error::Time(m) => ErrorView::Time(m@),
            Error::Url(m) => ErrorView::Url(m@),
            Error::Json(m) => ErrorView::Json(m@),
            Error::Iio(e) => ErrorView::Iio(e@),
            Error::Ws(m) => ErrorView::Ws(m@),
            Error::SensorNotFound => ErrorView::SensorNotFound,
            Error::IioTriggerNotFound => ErrorView::IioTriggerNotFound,
        }
    }
}

/// The result of an operation with its error taken by its mathematical value.
pub open spec fn outcome<T>(r: Result<T, Error>) -> Result<T, ErrorView> {
    match r {
        Ok(v) => Ok(v),
        Err(e) => Err(e@),
    }
}

impl DeviceError {
    /// A copy of the failure.
    pub fn duplicate(&self) -> (copy: DeviceError)
        ensures
            copy == *self,
    {
        DeviceError { os_code: self.os_code, message: self.message.clone() }
    }
}

impl Error {
    /// An [`Error::InvalidState`] with the given message.
    pub fn invalid_state(message: &str) -> (e: Error)
        ensures
            e@ == ErrorView::InvalidState(message@),
    {
        Error::InvalidState(message.to_owned())
    }

    /// The line that describes the error to the user.
    pub fn message(&self) -> (line: String)
        ensures
            line@ == self@.text(),
    {
        match self {
            Error::InvalidState(m) => "invalid state: ".to_owned().concat(m.as_str()),
            Error::Time(m) => "time error: ".to_owned().concat(m.as_str()),
            Error::Url(m) => "url parse error: ".to_owned().concat(m.as_str()),
            Error::Json(m) => "json error: ".to_owned().concat(m.as_str()),
            Error::Iio(e) => "iio error: ".to_owned().concat(e.message.as_str()),
            Error::Ws(m) => "websocket error: ".to_owned().concat(m.as_str()),
            Error::SensorNotFound => "iio sensor not found".to_owned(),
            Error::IioTriggerNotFound => "iio trigger not found".to_owned(),
        }
    }
}

} // verus!
