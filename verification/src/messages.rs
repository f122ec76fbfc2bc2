//! What each error says to a reader.
use crate::model::{
    FetchError, IoFailure, IoStage, StoreError, TransportFailure, TransportStage,
};
use crate::text::{decimal, decimal_text};
use vstd::prelude::*;
use vstd::string::*;

verus! {

/// How the failure of a file operation names the operation.
pub open spec fn io_prefix(stage: IoStage) -> Seq<char> {
    match stage {
        IoStage::LocateDir => "Failed to get app data directory: "@,
        IoStage::CreateDir => "Failed to create data directory: "@,
        IoStage::Write => "Failed to write data file: "@,
        IoStage::Read => "Failed to read data file: "@,
        IoStage::Remove => "Failed to remove data file: "@,
        IoStage::ListDir => "Failed to read data directory: "@,
    }
}

/// What the failure of a file operation says: the operation, then the
/// detail that was reported.
pub open spec fn io_message(stage: IoStage, detail: Seq<char>) -> Seq<char> {
    io_prefix(stage) + detail
}

/// What an error of the store says.
pub open spec fn store_message(error: StoreError) -> Seq<char> {
    match error {
        StoreError::Io(failure) => io_message(failure.stage, failure.detail@),
        StoreError::Corrupt(detail) => "Failed to parse data file: "@ + detail@,
        StoreError::Encode(detail) => "Failed to serialize data: "@ + detail@,
    }
}

/// How a request without an answer names what failed.
pub open spec fn transport_prefix(stage: TransportStage) -> Seq<char> {
    match stage {
        TransportStage::Setup => "Failed to create HTTP client: "@,
        TransportStage::Send => "Network request failed: "@,
    }
}

/// What a request without an answer says: what failed, then the detail that
/// was reported.
pub open spec fn transport_message(stage: TransportStage, detail: Seq<char>) -> Seq<char> {
    transport_prefix(stage) + detail
}

/// What a status outside 200..=299 says: the code, and the reason phrase
/// where the status has a standard one.
pub open spec fn status_message(code: u16, reason: Option<String>) -> Seq<char> {
    match reason {
        Some(reason) => "HTTP error: "@ + decimal(code as nat) + " "@ + reason@ + " - "@
            + reason@,
        None => "HTTP error: "@ + decimal(code as nat) + " <unknown status code> - Unknown"@,
    }
}

/// What an error of a fetch says.
pub open spec fn fetch_message(error: FetchError) -> Seq<char> {
    match error {
        FetchError::Transport(failure) => transport_message(failure.stage, failure.detail@),
        FetchError::HttpStatus { code, reason } => status_message(code, reason),
        FetchError::Decode(detail) => "Failed to parse JSON response: "@ + detail@,
        FetchError::LocalLoad(inner) => "Failed to load local data: "@ + store_message(inner),
        FetchError::Persist(inner) => store_message(inner),
        FetchError::NoDataAvailable => "No data available online or locally"@,
        FetchError::ConnectivityRequired =>
            "Cannot reach website. Please check your internet connection."@,
    }
}

impl IoFailure {
    /// Describes the failure for a reader.
    pub fn message(&self) -> (text: String)
        ensures
            text@ == io_message(self.stage, self.detail@),
    {
        let mut text = String::from_str(
            match self.stage {
                IoStage::LocateDir => "Failed to get app data directory: ",
                IoStage::CreateDir => "Failed to create data directory: ",
                IoStage::Write => "Failed to write data file: ",
                IoStage::Read => "Failed to read data file: ",
                IoStage::Remove => "Failed to remove data file: ",
                IoStage::ListDir => "Failed to read data directory: ",
            },
        );
        text.append(self.detail.as_str());
        text
    }
}

impl StoreError {
    /// Describes the error for a reader.
    pub fn message(&self) -> (text: String)
        ensures
            text@ == store_message(*self),
    {
        match self {
            StoreError::Io(failure) => failure.message(),
            StoreError::Corrupt(detail) => {
                let mut text = String::from_str("Failed to parse data file: ");
                text.append(detail.as_str());
                text
            },
            StoreError::Encode(detail) => {
                let mut text = String::from_str("Failed to serialize data: ");
                text.append(detail.as_str());
                text
            },
        }
    }
}

impl TransportFailure {
    /// Describes the failure for a reader.
    pub fn message(&self) -> (text: String)
        ensures
            text@ == transport_message(self.stage, self.detail@),
    {
        let mut text = String::from_str(
            match self.stage {
                TransportStage::Setup => "Failed to create HTTP client: ",
                TransportStage::Send => "Network request failed: ",
            },
        );
        text.append(self.detail.as_str());
        text
    }
}

/// Describes a status outside 200..=299 for a reader.
fn describe_status(code: u16, reason: &Option<String>) -> (text: String)
    ensures
        text@ == status_message(code, *reason),
{
    let mut text = String::from_str("HTTP error: ");
    text.append(decimal_text(code).as_str());
    match reason {
        Some(reason) => {
            text.append(" ");
            text.append(reason.as_str());
            text.append(" - ");
            text.append(reason.as_str());
        },
        None => {
            text.append(" <unknown status code> - Unknown");
        },
    }
    text
}

impl FetchError {
    /// Describes the error for a reader.
    pub fn message(&self) -> (text: String)
        ensures
            text@ == fetch_message(*self),
    {
        match self {
            FetchError::Transport(failure) => failure.message(),
            FetchError::HttpStatus { code, reason } => describe_status(*code, reason),
            FetchError::Decode(detail) => {
                let mut text = String::from_str("Failed to parse JSON response: ");
                text.append(detail.as_str());
                text
            },
            FetchError::LocalLoad(inner) => {
                let mut text = String::from_str("Failed to load local data: ");
                text.append(inner.message().as_str());
                text
            },
            FetchError::Persist(inner) => inner.message(),
            FetchError::NoDataAvailable => String::from_str("No data available online or locally"),
            FetchError::ConnectivityRequired => String::from_str(
                "Cannot reach website. Please check your internet connection.",
            ),
        }
    }
}

} // verus!
