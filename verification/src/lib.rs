//! Enrollment handshake for a push-based two-factor provider: from the text of
//! an enrollment QR code to an `otpauth://` descriptor.
//!
//! The stages run in a line, each one consuming what the stage before it made:
//! barcode text, payload, hostname, activation request, shared secret, base32
//! secret, OTP URI. The one HTTP exchange in the middle is the caller's to
//! perform; everything on either side of it is here.

pub mod authority;
pub mod enrollment;
pub mod error;
pub mod otp;
pub mod payload;
pub mod request;
pub mod response;
pub mod secret;
mod text;
