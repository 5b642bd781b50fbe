//! The error channel: every failure of a backend becomes one `IapError`, and
//! every `IapError` has one text, which is all that reaches the host.

use crate::foreign::{io_error_text, windows_error_text};
use vstd::prelude::*;

verus! {

/// What a native plugin answers when it rejects a call.
#[derive(Debug, Clone)]
pub struct ErrorResponse<T = ()> {
    /// Error code.
    pub code: Option<String>,
    /// Error message.
    pub message: Option<String>,
    /// Optional error data.
    pub data: T,
}

/// The text of a rejection: the code in square brackets, then the message,
/// with " - " between them where both are there.
pub open spec fn error_response_text(code: Option<Seq<char>>, message: Option<Seq<char>>) -> Seq<
    char,
> {
    let head = match code {
        Some(c) => "["@ + c + "]"@ + (if message is Some {
            " - "@
        } else {
            Seq::empty()
        }),
        None => Seq::empty(),
    };
    let tail = match message {
        Some(m) => m,
        None => Seq::empty(),
    };
    head + tail
}

impl<T> ErrorResponse<T> {
    /// The text of this rejection.
    pub open spec fn text(&self) -> Seq<char> {
        error_response_text(self.code.deep_view(), self.message.deep_view())
    }

    /// Writes the rejection as the host sees it.
    pub fn to_string(&self) -> (r: String)
        ensures
            r@ == self.text(),
    {
        let mut out: String = String::new();
        if let Some(code) = &self.code {
            out.append("[");
            out.append(code.as_str());
            out.append("]");
            if self.message.is_some() {
                out.append(" - ");
            }
        }
        if let Some(message) = &self.message {
            out.append(message.as_str());
        }
        assert(out@ =~= self.text());
        out
    }
}

/// Why a call into a native plugin failed.
#[derive(Debug)]
pub enum PluginInvokeError {
    /// The plugin rejected the call.
    InvokeRejected(ErrorResponse),
    /// The response could not be decoded; the field is the decoder's text.
    CannotDeserializeResponse(String),
    /// The request could not be encoded; the field is the encoder's text.
    CannotSerializePayload(String),
}

pub enum PluginInvokeErrorModel {
    InvokeRejected { code: Option<Seq<char>>, message: Option<Seq<char>> },
    CannotDeserializeResponse(Seq<char>),
    CannotSerializePayload(Seq<char>),
}

impl PluginInvokeErrorModel {
    pub open spec fn text(self) -> Seq<char> {
        match self {
            PluginInvokeErrorModel::InvokeRejected { code, message } => error_response_text(
                code,
                message,
            ),
            PluginInvokeErrorModel::CannotDeserializeResponse(detail) => {
                "failed to deserialize response: "@ + detail
            },
            PluginInvokeErrorModel::CannotSerializePayload(detail) => {
                "failed to serialize payload: "@ + detail
            },
        }
    }
}

impl DeepView for PluginInvokeError {
    type V = PluginInvokeErrorModel;

    open spec fn deep_view(&self) -> PluginInvokeErrorModel {
        match self {
            PluginInvokeError::InvokeRejected(response) => PluginInvokeErrorModel::InvokeRejected {
                code: response.code.deep_view(),
                message: response.message.deep_view(),
            },
            PluginInvokeError::CannotDeserializeResponse(detail) => {
                PluginInvokeErrorModel::CannotDeserializeResponse(detail@)
            },
            PluginInvokeError::CannotSerializePayload(detail) => {
                PluginInvokeErrorModel::CannotSerializePayload(detail@)
            },
        }
    }
}

impl View for PluginInvokeError {
    type V = PluginInvokeErrorModel;

    open spec fn view(&self) -> PluginInvokeErrorModel {
        self.deep_view()
    }
}

impl PluginInvokeError {
    /// Writes the failure as the host sees it.
    pub fn to_string(&self) -> (r: String)
        ensures
            r@ == self@.text(),
    {
        match self {
            PluginInvokeError::InvokeRejected(response) => response.to_string(),
            PluginInvokeError::CannotDeserializeResponse(detail) => {
                let mut out: String = String::from_str("failed to deserialize response: ");
                out.append(detail.as_str());
                out
            },
            PluginInvokeError::CannotSerializePayload(detail) => {
                let mut out: String = String::from_str("failed to serialize payload: ");
                out.append(detail.as_str());
                out
            },
        }
    }
}

impl From<ErrorResponse> for PluginInvokeError {
    fn from(response: ErrorResponse) -> (r: PluginInvokeError) {
        PluginInvokeError::InvokeRejected(response)
    }
}

impl vstd::std_specs::convert::FromSpecImpl<ErrorResponse> for PluginInvokeError {
    open spec fn obeys_from_spec() -> bool {
        true
    }

    open spec fn from_spec(response: ErrorResponse) -> PluginInvokeError {
        PluginInvokeError::InvokeRejected(response)
    }
}

/// The one error type of the library.
#[derive(Debug)]
pub enum IapError {
    /// A local failure: input, output, decoding, or a native call that went
    /// wrong. The field is its message.
    Io(String),
    /// A native plugin could not be invoked or rejected the call.
    PluginInvoke(PluginInvokeError),
    /// A failure that the Windows API reported.
    WindowsApi(windows_result::Error),
}

pub enum IapErrorModel {
    Io(Seq<char>),
    PluginInvoke(PluginInvokeErrorModel),
    WindowsApi(windows_result::Error),
}

impl IapErrorModel {
    /// The text of the error, where the library fixes it. A failure of the
    /// Windows API reads as the system writes it, which is fixed nowhere
    /// here.
    pub open spec fn text(self) -> Option<Seq<char>> {
        match self {
            IapErrorModel::Io(message) => Some(message),
            IapErrorModel::PluginInvoke(inner) => Some(inner.text()),
            IapErrorModel::WindowsApi(_) => None,
        }
    }
}

impl DeepView for IapError {
    type V = IapErrorModel;

    open spec fn deep_view(&self) -> IapErrorModel {
        match self {
            IapError::Io(message) => IapErrorModel::Io(message@),
            IapError::PluginInvoke(inner) => IapErrorModel::PluginInvoke(inner@),
            IapError::WindowsApi(error) => IapErrorModel::WindowsApi(*error),
        }
    }
}

impl View for IapError {
    type V = IapErrorModel;

    open spec fn view(&self) -> IapErrorModel {
        self.deep_view()
    }
}

/// The message with which something that a platform lacks is refused.
pub open spec fn unsupported_text(feature: Seq<char>) -> Seq<char> {
    feature + " is not supported on this platform"@
}

impl IapError {
    /// The refusal of something that the platform lacks.
    pub fn unsupported(feature: &str) -> (r: IapError)
        ensures
            r@ == IapErrorModel::Io(unsupported_text(feature@)),
    {
        let mut message: String = String::from_str(feature);
        message.append(" is not supported on this platform");
        IapError::Io(message)
    }

    /// A local failure with the given message.
    pub fn other(message: &str) -> (r: IapError)
        ensures
            r@ == IapErrorModel::Io(message@),
    {
        IapError::Io(String::from_str(message))
    }

    /// Writes the error as the host sees it: the one string that crosses
    /// the boundary. A failure of the Windows API is written by the
    /// system's own rule.
    pub fn to_string(&self) -> (r: String)
        ensures
            self@.text() matches Some(text) ==> r@ == text,
    {
        match self {
            IapError::Io(message) => message.clone(),
            IapError::PluginInvoke(inner) => inner.to_string(),
            IapError::WindowsApi(error) => windows_error_text(error),
        }
    }
}

/// Whether an outcome is the one that a model of it describes: the same
/// case, and in it a value with that model.
pub open spec fn agrees<T: DeepView>(outcome: Result<T, IapError>, model: Result<
    T::V,
    IapErrorModel,
>) -> bool {
    match (outcome, model) {
        (Ok(value), Ok(expected)) => value.deep_view() == expected,
        (Err(error), Err(expected)) => error@ == expected,
        _ => false,
    }
}

impl From<PluginInvokeError> for IapError {
    fn from(inner: PluginInvokeError) -> (r: IapError) {
        IapError::PluginInvoke(inner)
    }
}

impl vstd::std_specs::convert::FromSpecImpl<PluginInvokeError> for IapError {
    open spec fn obeys_from_spec() -> bool {
        true
    }

    open spec fn from_spec(inner: PluginInvokeError) -> IapError {
        IapError::PluginInvoke(inner)
    }
}

impl From<std::io::Error> for IapError {
    /// Keeps the text of the failure.
    fn from(error: std::io::Error) -> (r: IapError)
        ensures
            r is Io,
    {
        IapError::Io(io_error_text(&error))
    }
}

impl vstd::std_specs::convert::FromSpecImpl<std::io::Error> for IapError {
    open spec fn obeys_from_spec() -> bool {
        false
    }

    open spec fn from_spec(error: std::io::Error) -> IapError {
        arbitrary()
    }
}

impl From<windows_result::Error> for IapError {
    fn from(error: windows_result::Error) -> (r: IapError) {
        IapError::WindowsApi(error)
    }
}

impl vstd::std_specs::convert::FromSpecImpl<windows_result::Error> for IapError {
    open spec fn obeys_from_spec() -> bool {
        true
    }

    open spec fn from_spec(error: windows_result::Error) -> IapError {
        IapError::WindowsApi(error)
    }
}

} // verus!
