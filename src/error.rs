//! Every way a run can fail, each with a message of its own.

use vstd::prelude::*;
use crate::text::{decimal, decimal_text};

verus! {

/// The failures of a run, from configuration to the provider's answer.
#[derive(Debug)]
pub enum CommitError {
    /// No configuration source was found.
    ConfigMissing,
    /// The configuration could not be read into the expected shape.
    ConfigMalformed(String),
    /// `default_provider` names no configured provider.
    ProviderNotFound(String),
    /// The active provider has an empty API key.
    CredentialMissing,
    /// The request body could not be serialized.
    SerializationError(String),
    /// Sending the request failed (connection, timeout, name resolution).
    TransportError(String),
    /// The answer arrived but its body could not be read.
    ResponseReadError(String),
    /// A success status came with a body that is no completion.
    MalformedSuccess { diagnostic: String, body: String },
    /// A completion with no choices.
    EmptyCompletion,
    /// A failure status with a structured error body.
    ProviderError { error_type: String, message: String },
    /// A failure status with any other body, kept verbatim.
    HttpError { status: u16, body: String },
}

/// The message shown for an error.
pub open spec fn error_text(e: CommitError) -> Seq<char> {
    match e {
        CommitError::ConfigMissing => "Configuration file not found."@,
        CommitError::ConfigMalformed(d) => "Could not parse config file. Check the file format: "@
            + d@,
        CommitError::ProviderNotFound(n) => "No configured provider is named "@ + n@,
        CommitError::CredentialMissing => "API key not configured."@,
        CommitError::SerializationError(d) => "Error while serializing request body: "@ + d@,
        CommitError::TransportError(d) => "Error while requesting api: "@ + d@,
        CommitError::ResponseReadError(d) => "Error while reading response: "@ + d@,
        CommitError::MalformedSuccess { diagnostic, body } =>
            "Error while deserializing api response: "@ + diagnostic@ + "\n"@ + body@,
        CommitError::EmptyCompletion => "Error no content in response"@,
        CommitError::ProviderError { error_type, message } => "API Error ("@ + error_type@
            + "): "@ + message@,
        CommitError::HttpError { status, body } => "HTTP Error "@ + decimal(status as nat)
            + ": "@ + body@,
    }
}

/// Which failure an error is, as a number.
pub open spec fn error_kind(e: CommitError) -> nat {
    match e {
        CommitError::ConfigMissing => 0,
        CommitError::ConfigMalformed(_) => 1,
        CommitError::ProviderNotFound(_) => 2,
        CommitError::CredentialMissing => 3,
        CommitError::SerializationError(_) => 4,
        CommitError::TransportError(_) => 5,
        CommitError::MalformedSuccess { .. } => 6,
        CommitError::EmptyCompletion => 7,
        CommitError::ProviderError { .. } => 8,
        CommitError::HttpError { .. } => 9,
        CommitError::ResponseReadError(_) => 10,
    }
}

/// The fixed text that opens the message of an error.
pub open spec fn error_lead(e: CommitError) -> Seq<char> {
    match e {
        CommitError::ConfigMissing => "Configuration file not found."@,
        CommitError::ConfigMalformed(_) => "Could not parse config file. Check the file format: "@,
        CommitError::ProviderNotFound(_) => "No configured provider is named "@,
        CommitError::CredentialMissing => "API key not configured."@,
        CommitError::SerializationError(_) => "Error while serializing request body: "@,
        CommitError::TransportError(_) => "Error while requesting api: "@,
        CommitError::MalformedSuccess { .. } => "Error while deserializing api response: "@,
        CommitError::EmptyCompletion => "Error no content in response"@,
        CommitError::ProviderError { .. } => "API Error ("@,
        CommitError::HttpError { .. } => "HTTP Error "@,
        CommitError::ResponseReadError(_) => "Error while reading response: "@,
    }
}

/// A position at which the leads of two kinds of error differ.
pub open spec fn telling_position(a: nat, b: nat) -> int {
    if (a == 5 || a == 10) && (b == 5 || b == 10) {
        14
    } else if (4 <= a <= 6 || a == 10) && (4 <= b <= 6 || b == 10) {
        12
    } else if a <= 1 && b <= 1 {
        2
    } else if (a == 3 || a == 8) && (b == 3 || b == 8) {
        4
    } else if (4 <= a <= 7 || a == 10) && (4 <= b <= 7 || b == 10) {
        6
    } else {
        0
    }
}

proof fn lemma_error_text_starts_with_lead(e: CommitError)
    ensures
        error_lead(e).len() <= error_text(e).len(),
        error_text(e).subrange(0, error_lead(e).len() as int) == error_lead(e),
{
    assert(error_text(e).subrange(0, error_lead(e).len() as int) =~= error_lead(e));
}

/// Messages of two different kinds of failure always differ, whatever text
/// they carry.
pub proof fn lemma_error_messages_distinct(a: CommitError, b: CommitError)
    requires
        error_kind(a) != error_kind(b),
    ensures
        error_text(a) != error_text(b),
{
    reveal_strlit("Configuration file not found.");
    reveal_strlit("Could not parse config file. Check the file format: ");
    reveal_strlit("No configured provider is named ");
    reveal_strlit("API key not configured.");
    reveal_strlit("Error while serializing request body: ");
    reveal_strlit("Error while requesting api: ");
    reveal_strlit("Error while deserializing api response: ");
    reveal_strlit("Error no content in response");
    reveal_strlit("API Error (");
    reveal_strlit("HTTP Error ");
    reveal_strlit("Error while reading response: ");
    lemma_error_text_starts_with_lead(a);
    lemma_error_text_starts_with_lead(b);
    let k = telling_position(error_kind(a), error_kind(b));
    assert(error_lead(a)[k] != error_lead(b)[k]);
    assert(error_text(a)[k] == error_lead(a)[k]);
    assert(error_text(b)[k] == error_lead(b)[k]);
}

impl CommitError {
    /// The message shown to the user.
    pub fn message(&self) -> (r: String)
        ensures
            r@ == error_text(*self),
    {
        match self {
            CommitError::ConfigMissing => "Configuration file not found.".to_string(),
            CommitError::ConfigMalformed(d) => {
                let mut m = "Could not parse config file. Check the file format: ".to_string();
                m.append(d.as_str());
                m
            },
            CommitError::ProviderNotFound(n) => {
                let mut m = "No configured provider is named ".to_string();
                m.append(n.as_str());
                m
            },
            CommitError::CredentialMissing => "API key not configured.".to_string(),
            CommitError::SerializationError(d) => {
                let mut m = "Error while serializing request body: ".to_string();
                m.append(d.as_str());
                m
            },
            CommitError::TransportError(d) => {
                let mut m = "Error while requesting api: ".to_string();
                m.append(d.as_str());
                m
            },
            CommitError::MalformedSuccess { diagnostic, body } => {
                let mut m = "Error while deserializing api response: ".to_string();
                m.append(diagnostic.as_str());
                m.append("\n");
                m.append(body.as_str());
                m
            },
            CommitError::ResponseReadError(d) => {
                let mut m = "Error while reading response: ".to_string();
                m.append(d.as_str());
                m
            },
            CommitError::EmptyCompletion => "Error no content in response".to_string(),
            CommitError::ProviderError { error_type, message } => {
                let mut m = "API Error (".to_string();
                m.append(error_type.as_str());
                m.append("): ");
                m.append(message.as_str());
                m
            },
            CommitError::HttpError { status, body } => {
                let mut m = "HTTP Error ".to_string();
                let code = decimal_text(*status as u32);
                m.append(code.as_str());
                m.append(": ");
                m.append(body.as_str());
                m
            },
        }
    }
}

} // verus!
