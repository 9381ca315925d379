//! The error kinds of the launcher core, each with a tag and a message.

use vstd::prelude::*;
use crate::decimal::{decimal_digits, push_decimal};
use crate::text::{push_str, string_of};
use crate::outside::{uuid_text, uuid_to_text};

verus! {

/// What can go wrong in the install and launch core.
#[derive(Debug)]
pub enum Error {
    /// A file-system operation failed; carries the system's message.
    Io(String),
    /// An HTTP transfer failed; carries the client's message.
    Network(String),
    /// The server answered with a status outside the 2xx range.
    HttpResponseNotSuccess(u16, String),
    /// A downloaded file does not have the recorded digest; carries the URL.
    Sha1Missmatch(String),
    /// A ranged transfer delivered another number of bytes than asked for.
    ChunkLengthMismatch,
    /// A URL could not be parsed; carries the parser's message.
    UrlParse(String),
    /// A JSON document does not have the expected shape.
    JsonParse(String),
    /// A version descriptor lacks a required part; carries its name.
    InvalidVersionJson(String),
    /// A Minecraft version string could not be understood.
    InvalidMinecraftVersion,
    /// The version manifest has no entry for the wanted version.
    VersionMetadataNotfound,
    /// An instance's configuration lacks what an install needs.
    InstanceBroken,
    /// An instance's configuration names a loader without a version.
    InvalidInstanceConfig,
    /// No Java runtime is published for this platform.
    NoSupportedJavaRuntime,
    /// A Forge version string does not start with a number.
    InvalidForgeVersion,
    /// The Forge installer did not report success.
    ForgeInstallerFailed,
    /// The NeoForged installer did not report success.
    NeoforgedInstallerFailed,
    /// The authlib-injector release document lacks a required part.
    InvalidAuthlibResponse,
    /// No stored account has this identifier.
    AccountNotfound(u128),
    /// The account does not own the game.
    OwnershipCheckFailed,
    /// The stored profile is not among those the server offers.
    ProfileUnavailable,
    /// A response of the Microsoft login chain lacks a key; carries its name.
    MicrosoftResponseMissingKey(String),
    /// An install is already running.
    AlreadyInstalling,
    /// A launch is already running.
    AlreadyInLaunching,
    /// The operation was cancelled.
    Aborted,
}

/// The tag under which an error is reported.
pub open spec fn kind_of(e: Error) -> Seq<char> {
    match e {
        Error::Io(_) => "Io"@,
        Error::Network(_) => "Network"@,
        Error::HttpResponseNotSuccess(_, _) => "HttpResponseNotSuccess"@,
        Error::Sha1Missmatch(_) => "Sha1Missmatch"@,
        Error::ChunkLengthMismatch => "ChunkLengthMismatch"@,
        Error::UrlParse(_) => "UrlParse"@,
        Error::JsonParse(_) => "JsonParse"@,
        Error::InvalidVersionJson(_) => "InvalidVersionJson"@,
        Error::InvalidMinecraftVersion => "InvalidMinecraftVersion"@,
        Error::VersionMetadataNotfound => "VersionMetadataNotfound"@,
        Error::InstanceBroken => "InstanceBroken"@,
        Error::InvalidInstanceConfig => "InvalidInstanceConfig"@,
        Error::NoSupportedJavaRuntime => "NoSupportedJavaRuntime"@,
        Error::InvalidForgeVersion => "InvalidForgeVersion"@,
        Error::ForgeInstallerFailed => "ForgeInstallerFailed"@,
        Error::NeoforgedInstallerFailed => "NeoforgedInstallerFailed"@,
        Error::InvalidAuthlibResponse => "InvalidAuthlibResponse"@,
        Error::AccountNotfound(_) => "AccountNotfound"@,
        Error::OwnershipCheckFailed => "OwnershipCheckFailed"@,
        Error::ProfileUnavailable => "ProfileUnavailable"@,
        Error::MicrosoftResponseMissingKey(_) => "MicrosoftResponseMissingKey"@,
        Error::AlreadyInstalling => "AlreadyInstalling"@,
        Error::AlreadyInLaunching => "AlreadyInLaunching"@,
        Error::Aborted => "Aborted"@,
    }
}

/// The text shown for an error.
pub open spec fn message_of(e: Error) -> Seq<char> {
    match e {
        Error::Io(m) => m@,
        Error::Network(m) => m@,
        Error::HttpResponseNotSuccess(status, reason) => decimal_digits(status as nat) + " "@
            + reason@,
        Error::Sha1Missmatch(url) => url@,
        Error::ChunkLengthMismatch => "Chunk length mismatch"@,
        Error::UrlParse(m) => m@,
        Error::JsonParse(m) => m@,
        Error::InvalidVersionJson(field) => "Invalid version.json, missing "@ + field@,
        Error::InvalidMinecraftVersion => "Invalid Minecraft version"@,
        Error::VersionMetadataNotfound => "Version metadata not found in version manifest"@,
        Error::InstanceBroken => "Bad instance.toml file"@,
        Error::InvalidInstanceConfig => "Invalid instance config"@,
        Error::NoSupportedJavaRuntime => "No supported java runtime"@,
        Error::InvalidForgeVersion => "Could not understand forge version"@,
        Error::ForgeInstallerFailed => "Failed to run forge installer"@,
        Error::NeoforgedInstallerFailed => "Failed to run neoforged installer"@,
        Error::InvalidAuthlibResponse => "Invalid authlib-injector response"@,
        Error::AccountNotfound(id) => "Account not found: "@ + uuid_text(id),
        Error::OwnershipCheckFailed => "Cannot check ownership"@,
        Error::ProfileUnavailable => "This profile is no longer available"@,
        Error::MicrosoftResponseMissingKey(key) => key@,
        Error::AlreadyInstalling => "Another instance is installing"@,
        Error::AlreadyInLaunching => "Another instance is launching"@,
        Error::Aborted => "Aborted"@,
    }
}

impl Error {
    /// The tag of this error in its `{kind, message}` form.
    pub fn kind(&self) -> (r: String)
        ensures
            r@ == kind_of(*self),
    {
        match self {
            Error::Io(_) => "Io".to_owned(),
            Error::Network(_) => "Network".to_owned(),
            Error::HttpResponseNotSuccess(_, _) => "HttpResponseNotSuccess".to_owned(),
            Error::Sha1Missmatch(_) => "Sha1Missmatch".to_owned(),
            Error::ChunkLengthMismatch => "ChunkLengthMismatch".to_owned(),
            Error::UrlParse(_) => "UrlParse".to_owned(),
            Error::JsonParse(_) => "JsonParse".to_owned(),
            Error::InvalidVersionJson(_) => "InvalidVersionJson".to_owned(),
            Error::InvalidMinecraftVersion => "InvalidMinecraftVersion".to_owned(),
            Error::VersionMetadataNotfound => "VersionMetadataNotfound".to_owned(),
            Error::InstanceBroken => "InstanceBroken".to_owned(),
            Error::InvalidInstanceConfig => "InvalidInstanceConfig".to_owned(),
            Error::NoSupportedJavaRuntime => "NoSupportedJavaRuntime".to_owned(),
            Error::InvalidForgeVersion => "InvalidForgeVersion".to_owned(),
            Error::ForgeInstallerFailed => "ForgeInstallerFailed".to_owned(),
            Error::NeoforgedInstallerFailed => "NeoforgedInstallerFailed".to_owned(),
            Error::InvalidAuthlibResponse => "InvalidAuthlibResponse".to_owned(),
            Error::AccountNotfound(_) => "AccountNotfound".to_owned(),
            Error::OwnershipCheckFailed => "OwnershipCheckFailed".to_owned(),
            Error::ProfileUnavailable => "ProfileUnavailable".to_owned(),
            Error::MicrosoftResponseMissingKey(_) => "MicrosoftResponseMissingKey".to_owned(),
            Error::AlreadyInstalling => "AlreadyInstalling".to_owned(),
            Error::AlreadyInLaunching => "AlreadyInLaunching".to_owned(),
            Error::Aborted => "Aborted".to_owned(),
        }
    }

    /// The text of this error in its `{kind, message}` form.
    pub fn message(&self) -> (r: String)
        ensures
            r@ == message_of(*self),
    {
        match self {
            Error::Io(m) => m.clone(),
            Error::Network(m) => m.clone(),
            Error::HttpResponseNotSuccess(status, reason) => {
                let mut out: Vec<char> = Vec::new();
                push_decimal(&mut out, *status as u64);
                push_str(&mut out, " ");
                push_str(&mut out, reason.as_str());
                string_of(&out)
            },
            Error::Sha1Missmatch(url) => url.clone(),
            Error::ChunkLengthMismatch => "Chunk length mismatch".to_owned(),
            Error::UrlParse(m) => m.clone(),
            Error::JsonParse(m) => m.clone(),
            Error::InvalidVersionJson(field) => {
                let mut out: Vec<char> = Vec::new();
                push_str(&mut out, "Invalid version.json, missing ");
                push_str(&mut out, field.as_str());
                string_of(&out)
            },
            Error::InvalidMinecraftVersion => "Invalid Minecraft version".to_owned(),
            Error::VersionMetadataNotfound => "Version metadata not found in version manifest"
                .to_owned(),
            Error::InstanceBroken => "Bad instance.toml file".to_owned(),
            Error::InvalidInstanceConfig => "Invalid instance config".to_owned(),
            Error::NoSupportedJavaRuntime => "No supported java runtime".to_owned(),
            Error::InvalidForgeVersion => "Could not understand forge version".to_owned(),
            Error::ForgeInstallerFailed => "Failed to run forge installer".to_owned(),
            Error::NeoforgedInstallerFailed => "Failed to run neoforged installer".to_owned(),
            Error::InvalidAuthlibResponse => "Invalid authlib-injector response".to_owned(),
            Error::AccountNotfound(id) => {
                let mut out: Vec<char> = Vec::new();
                push_str(&mut out, "Account not found: ");
                let text = uuid_to_text(*id);
                push_str(&mut out, text.as_str());
                string_of(&out)
            },
            Error::OwnershipCheckFailed => "Cannot check ownership".to_owned(),
            Error::ProfileUnavailable => "This profile is no longer available".to_owned(),
            Error::MicrosoftResponseMissingKey(key) => key.clone(),
            Error::AlreadyInstalling => "Another instance is installing".to_owned(),
            Error::AlreadyInLaunching => "Another instance is launching".to_owned(),
            Error::Aborted => "Aborted".to_owned(),
        }
    }
}

} // verus!
