//! The error taxonomy of the launcher core.
//!
//! Every failure surfaced to a caller is classified into one of these kinds;
//! raw transport or parsing failures never escape unclassified.

use crate::strutil::{dec_seq, u64_to_string};
use vstd::prelude::*;
use vstd::string::*;

verus! {

/// Why the Xbox security token service refused the account, keyed by the
/// numeric `XErr` code of its 401 response.
#[derive(Debug, Clone, PartialEq, Eq, Structural)]
pub enum XboxRestriction {
    /// 2148916233: the account exists but has never signed up to Xbox.
    SignUpRequired,
    /// 2148916235: the service is unavailable in the account's region.
    RegionUnavailable,
    /// 2148916236 or 2148916237: adult (age) verification is required.
    AdultVerificationRequired,
    /// 2148916238: the account belongs to a child and needs a family.
    ChildAccount,
    /// Any other code, carried along for diagnostics.
    Unknown(u64),
}

/// The failure kinds of the identity chain and the acquisition pipeline.
#[derive(Debug)]
pub enum LauncherError {
    /// The whole local port range was probed and nothing could be bound.
    NoPortAvailable,
    /// The state echoed by the redirect differs from the session's own.
    CsrfMismatch,
    /// No valid redirect arrived before the deadline.
    RedirectTimeout,
    /// A remote service answered with an unexpected shape; the message
    /// says which exchange failed.
    ProtocolError(String),
    /// The account owns no copy of the game and has no profile.
    NotEntitled,
    /// The Xbox security token service refused the account.
    XboxRestriction(XboxRestriction),
    /// No manifest entry carries the requested id and kind.
    VersionNotFound,
    /// A checksum disagreement between the manifest and what was observed.
    IntegrityViolation { artifact: String, expected: String, actual: String },
    /// A local read or write failed; the message carries the cause.
    FilesystemError(String),
    /// An archive entry could not be unpacked, or would escape the
    /// destination directory.
    ExtractError(String),
    /// The progress channel was closed under the producer.
    ChannelClosed,
    /// The running platform has no supported runtime flavour.
    UnsupportedPlatform,
    /// The chapter offers no runtime archive for the running platform.
    JavaUnavailable,
}

impl LauncherError {
    /// The user-facing message of this failure, the one the caller renders:
    /// no raw transport error ever reaches the user unclassified.
    pub open spec fn message_spec(self) -> Seq<char> {
        match self {
            LauncherError::NoPortAvailable => "Cannot create port"@,
            LauncherError::CsrfMismatch => "CSRF check fail"@,
            LauncherError::RedirectTimeout => "Wait for too much time"@,
            LauncherError::ProtocolError(m) => m@,
            LauncherError::NotEntitled => "Not a owner of a minecraft copy"@,
            LauncherError::XboxRestriction(k) => k.message_spec(),
            LauncherError::VersionNotFound => "Version not Found"@,
            LauncherError::IntegrityViolation { artifact, expected, actual } => "Sha1 "@ + actual@
                + " of "@ + artifact@
                + " is invalid, a malicious file might be present on the remote server, should be "@
                + expected@,
            LauncherError::FilesystemError(m) => m@,
            LauncherError::ExtractError(m) => m@,
            LauncherError::ChannelClosed => "Can't receive code!"@,
            LauncherError::UnsupportedPlatform => "Your current platform is not supported"@,
            LauncherError::JavaUnavailable => "No available executable available for your platform"@,
        }
    }

    /// Renders the user-facing message.
    pub fn message(&self) -> (r: String)
        ensures
            r@ == self.message_spec(),
    {
        match self {
            LauncherError::NoPortAvailable => String::from_str("Cannot create port"),
            LauncherError::CsrfMismatch => String::from_str("CSRF check fail"),
            LauncherError::RedirectTimeout => String::from_str("Wait for too much time"),
            LauncherError::ProtocolError(m) => m.clone(),
            LauncherError::NotEntitled => String::from_str("Not a owner of a minecraft copy"),
            LauncherError::XboxRestriction(k) => k.message(),
            LauncherError::VersionNotFound => String::from_str("Version not Found"),
            LauncherError::IntegrityViolation { artifact, expected, actual } => {
                let mut s = String::from_str("Sha1 ");
                s.append(actual.as_str());
                s.append(" of ");
                s.append(artifact.as_str());
                s.append(
                    " is invalid, a malicious file might be present on the remote server, should be ",
                );
                s.append(expected.as_str());
                proof {
                    assert(s@ =~= self.message_spec());
                }
                s
            },
            LauncherError::FilesystemError(m) => m.clone(),
            LauncherError::ExtractError(m) => m.clone(),
            LauncherError::ChannelClosed => String::from_str("Can't receive code!"),
            LauncherError::UnsupportedPlatform => String::from_str(
                "Your current platform is not supported",
            ),
            LauncherError::JavaUnavailable => String::from_str(
                "No available executable available for your platform",
            ),
        }
    }
}

impl XboxRestriction {
    /// The user-facing message for this restriction.
    pub open spec fn message_spec(self) -> Seq<char> {
        match self {
            XboxRestriction::SignUpRequired => "Please sign up to xbox"@,
            XboxRestriction::RegionUnavailable => "Xbox Live is unavailable in your country"@,
            XboxRestriction::AdultVerificationRequired => "Your account need adult verification, please visit xbox page"@,
            XboxRestriction::ChildAccount => "This account is marked as owned by a child and we cannot process until this account is added to a Family by an adult"@,
            XboxRestriction::Unknown(code) => "An unknown error occured, error code: "@ + dec_seq(
                code as nat,
            ),
        }
    }

    /// Renders the user-facing message.
    pub fn message(&self) -> (r: String)
        ensures
            r@ == self.message_spec(),
    {
        match self {
            XboxRestriction::SignUpRequired => String::from_str("Please sign up to xbox"),
            XboxRestriction::RegionUnavailable => String::from_str(
                "Xbox Live is unavailable in your country",
            ),
            XboxRestriction::AdultVerificationRequired => String::from_str(
                "Your account need adult verification, please visit xbox page",
            ),
            XboxRestriction::ChildAccount => String::from_str(
                "This account is marked as owned by a child and we cannot process until this account is added to a Family by an adult",
            ),
            XboxRestriction::Unknown(code) => {
                let mut s = String::from_str("An unknown error occured, error code: ");
                let d = u64_to_string(*code);
                s.append(d.as_str());
                s
            },
        }
    }
}

} // verus!
