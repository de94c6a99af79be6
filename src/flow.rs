//! How each way a webhook can fail maps to the HTTP status it is answered with.
use vstd::prelude::*;
use crate::signature::RejectReason;

verus! {

/// Why a webhook request was not carried through.
#[derive(Clone, Copy, Debug, PartialEq, Eq, Structural)]
pub enum WebhookError {
    /// The signature header is absent.
    MissingSignature,
    /// The signature header is not text, or not of the shape `sha256=<hex>, t=<digits>`.
    MalformedSignature,
    /// The body could not be read or is not the expected JSON.
    InvalidBody,
    /// Neither signing scheme gives the header's signature.
    SignatureMismatch,
    /// The site settings could not be fetched.
    SettingsUnavailable,
    /// The subscriber list could not be fetched.
    SubscribersUnavailable,
}

impl WebhookError {
    /// The error for a rejected signature check.
    pub fn from_reason(reason: RejectReason) -> (r: WebhookError)
        ensures
            r == match reason {
                RejectReason::MissingHeader => WebhookError::MissingSignature,
                RejectReason::MalformedHeader => WebhookError::MalformedSignature,
                RejectReason::SignatureMismatch => WebhookError::SignatureMismatch,
            },
    {
        match reason {
            RejectReason::MissingHeader => WebhookError::MissingSignature,
            RejectReason::MalformedHeader => WebhookError::MalformedSignature,
            RejectReason::SignatureMismatch => WebhookError::SignatureMismatch,
        }
    }

    /// The HTTP status: 401 for a missing or wrong signature, 400 for a
    /// malformed header or body, 500 where the admin API failed.
    pub fn status_code(&self) -> (r: u16)
        ensures
            r == match *self {
                WebhookError::MissingSignature | WebhookError::SignatureMismatch => 401u16,
                WebhookError::MalformedSignature | WebhookError::InvalidBody => 400u16,
                WebhookError::SettingsUnavailable | WebhookError::SubscribersUnavailable => 500u16,
            },
    {
        match self {
            WebhookError::MissingSignature | WebhookError::SignatureMismatch => 401,
            WebhookError::MalformedSignature | WebhookError::InvalidBody => 400,
            WebhookError::SettingsUnavailable | WebhookError::SubscribersUnavailable => 500,
        }
    }
}

} // verus!
