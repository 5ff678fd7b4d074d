use vstd::prelude::*;
use vstd::string::*;
use crate::text::cat;
use crate::json::{Json, fields, is_object, text_at, bool_at, text_member, member_of, object};

verus! {

/// Every failure the client reports, each with the text that explains it.
#[derive(Debug)]
pub enum ZocliError {
    AccountExists(String),
    AccountNotFound(String),
    CurrentAccountMissing,
    Validation(String),
    Config(String),
    Io(String),
    Serialization(String),
    Network(String),
    Api(String),
    Auth(String),
    OutputExists(String),
    UnsupportedOperation(String),
    Integrity(String),
}

/// Process exit status of each error kind: usage errors 1, local state 4, remote 5.
pub open spec fn spec_exit_code(e: ZocliError) -> i32 {
    match e {
        ZocliError::AccountExists(_) | ZocliError::AccountNotFound(_)
        | ZocliError::CurrentAccountMissing | ZocliError::Validation(_) | ZocliError::Auth(_)
        | ZocliError::OutputExists(_) | ZocliError::UnsupportedOperation(_) => 1,
        ZocliError::Config(_) | ZocliError::Io(_) | ZocliError::Serialization(_) => 4,
        ZocliError::Network(_) | ZocliError::Api(_) | ZocliError::Integrity(_) => 5,
    }
}

/// Stable machine-readable code of each error kind.
pub open spec fn spec_code(e: ZocliError) -> Seq<char> {
    match e {
        ZocliError::AccountExists(_) => "ACCOUNT_EXISTS"@,
        ZocliError::AccountNotFound(_) => "ACCOUNT_NOT_FOUND"@,
        ZocliError::CurrentAccountMissing => "CURRENT_ACCOUNT_MISSING"@,
        ZocliError::Validation(_) => "VALIDATION_ERROR"@,
        ZocliError::Config(_) => "CONFIG_ERROR"@,
        ZocliError::Io(_) => "IO_ERROR"@,
        ZocliError::Serialization(_) => "SERIALIZATION_ERROR"@,
        ZocliError::Network(_) => "NETWORK_ERROR"@,
        ZocliError::Api(_) => "API_ERROR"@,
        ZocliError::Auth(_) => "AUTH_ERROR"@,
        ZocliError::OutputExists(_) => "OUTPUT_EXISTS"@,
        ZocliError::UnsupportedOperation(_) => "UNSUPPORTED_OPERATION"@,
        ZocliError::Integrity(_) => "INTEGRITY_ERROR"@,
    }
}

/// The human-readable message of an error: a fixed prefix per kind and the detail.
pub open spec fn spec_message(e: ZocliError) -> Seq<char> {
    match e {
        ZocliError::AccountExists(d) => "Account already exists: "@ + d@,
        ZocliError::AccountNotFound(d) => "Account not found: "@ + d@,
        ZocliError::CurrentAccountMissing => "No current account configured"@,
        ZocliError::Validation(d) => "Validation error: "@ + d@,
        ZocliError::Config(d) => "Config error: "@ + d@,
        ZocliError::Io(d) => "I/O error: "@ + d@,
        ZocliError::Serialization(d) => "Serialization error: "@ + d@,
        ZocliError::Network(d) => "Network error: "@ + d@,
        ZocliError::Api(d) => "API error: "@ + d@,
        ZocliError::Auth(d) => "Auth error: "@ + d@,
        ZocliError::OutputExists(d) => "Output already exists: "@ + d@,
        ZocliError::UnsupportedOperation(d) => "Unsupported operation: "@ + d@,
        ZocliError::Integrity(d) => "Integrity error: "@ + d@,
    }
}

impl ZocliError {
    pub fn code(&self) -> (r: &'static str)
        ensures
            r@ == spec_code(*self),
    {
        match self {
            ZocliError::AccountExists(_) => "ACCOUNT_EXISTS",
            ZocliError::AccountNotFound(_) => "ACCOUNT_NOT_FOUND",
            ZocliError::CurrentAccountMissing => "CURRENT_ACCOUNT_MISSING",
            ZocliError::Validation(_) => "VALIDATION_ERROR",
            ZocliError::Config(_) => "CONFIG_ERROR",
            ZocliError::Io(_) => "IO_ERROR",
            ZocliError::Serialization(_) => "SERIALIZATION_ERROR",
            ZocliError::Network(_) => "NETWORK_ERROR",
            ZocliError::Api(_) => "API_ERROR",
            ZocliError::Auth(_) => "AUTH_ERROR",
            ZocliError::OutputExists(_) => "OUTPUT_EXISTS",
            ZocliError::UnsupportedOperation(_) => "UNSUPPORTED_OPERATION",
            ZocliError::Integrity(_) => "INTEGRITY_ERROR",
        }
    }

    /// The message shown to the user (the error's display text).
    pub fn message(&self) -> (r: String)
        ensures
            r@ == spec_message(*self),
    {
        match self {
            ZocliError::AccountExists(d) => cat("Account already exists: ", d.as_str()),
            ZocliError::AccountNotFound(d) => cat("Account not found: ", d.as_str()),
            ZocliError::CurrentAccountMissing => String::from_str("No current account configured"),
            ZocliError::Validation(d) => cat("Validation error: ", d.as_str()),
            ZocliError::Config(d) => cat("Config error: ", d.as_str()),
            ZocliError::Io(d) => cat("I/O error: ", d.as_str()),
            ZocliError::Serialization(d) => cat("Serialization error: ", d.as_str()),
            ZocliError::Network(d) => cat("Network error: ", d.as_str()),
            ZocliError::Api(d) => cat("API error: ", d.as_str()),
            ZocliError::Auth(d) => cat("Auth error: ", d.as_str()),
            ZocliError::OutputExists(d) => cat("Output already exists: ", d.as_str()),
            ZocliError::UnsupportedOperation(d) => cat("Unsupported operation: ", d.as_str()),
            ZocliError::Integrity(d) => cat("Integrity error: ", d.as_str()),
        }
    }

    pub fn exit_code(&self) -> (r: i32)
        ensures
            r == spec_exit_code(*self),
    {
        match self {
            ZocliError::AccountExists(_) | ZocliError::AccountNotFound(_)
            | ZocliError::CurrentAccountMissing | ZocliError::Validation(_) | ZocliError::Auth(_)
            | ZocliError::OutputExists(_) | ZocliError::UnsupportedOperation(_) => 1,
            ZocliError::Config(_) | ZocliError::Io(_) | ZocliError::Serialization(_) => 4,
            ZocliError::Network(_) | ZocliError::Api(_) | ZocliError::Integrity(_) => 5,
        }
    }

    /// The error as JSON: `code`, `message` and `ok: false`.
    pub fn as_json(&self) -> (r: Json)
        ensures
            is_object(r, 3),
            text_at(r, 0, "code"@, spec_code(*self)),
            text_at(r, 1, "message"@, spec_message(*self)),
            bool_at(r, 2, "ok"@, false),
    {
        let msg = self.message();
        let mut ms: Vec<(String, Json)> = Vec::new();
        ms.push(text_member("code", self.code()));
        ms.push(member_of("message", Json::Str(msg)));
        ms.push(member_of("ok", Json::Bool(false)));
        object(ms)
    }
}

/// The JSON-RPC error code of an error: invalid params for validation errors, method not
/// found for unsupported operations, a server error otherwise.
pub open spec fn spec_error_code(e: ZocliError) -> int {
    match e {
        ZocliError::Validation(_) => -32602,
        ZocliError::UnsupportedOperation(_) => -32601,
        _ => -32000,
    }
}

pub fn error_code(err: &ZocliError) -> (r: i64)
    ensures
        r == spec_error_code(*err),
{
    match err {
        ZocliError::Validation(_) => -32602,
        ZocliError::UnsupportedOperation(_) => -32601,
        _ => -32000,
    }
}


} // verus!
