//! The errors a load or a store can end in.
use vstd::prelude::*;

verus! {

/// `std::io::Error`, carried from the caller's file-system step to the
/// error that names the phase it failed in.
#[verifier::external_type_specification]
#[verifier::external_body]
pub struct ExIoError(std::io::Error);

/// `toml::de::Error`, the cause of a document that does not decode.
#[verifier::external_type_specification]
#[verifier::external_body]
pub struct ExTomlDeError(toml::de::Error);

/// `toml::ser::Error`, the cause of a value that does not encode.
#[verifier::external_type_specification]
#[verifier::external_body]
pub struct ExTomlSerError(toml::ser::Error);

/// The errors a configuration load or store can encounter. Every variant
/// but `BadConfigDirectory` keeps the underlying cause.
#[derive(Debug)]
pub enum ConfyError {
    BadTomlData(toml::de::Error),
    DirectoryCreationFailed(std::io::Error),
    GeneralLoadError(std::io::Error),
    BadConfigDirectory(String),
    SerializeTomlError(toml::ser::Error),
    WriteConfigurationFileError(std::io::Error),
    ReadConfigurationFileError(std::io::Error),
    OpenConfigurationFileError(std::io::Error),
    SetPermissionsFileError(std::io::Error),
}

impl ConfyError {
    /// The one-line description of the error, as shown to a user. The cause
    /// that a variant carries is not part of it.
    pub open spec fn message(self) -> Seq<char> {
        match self {
            ConfyError::BadTomlData(_) => "Bad TOML data"@,
            ConfyError::DirectoryCreationFailed(_) => "Failed to create directory"@,
            ConfyError::GeneralLoadError(_) => "Failed to load configuration file"@,
            ConfyError::BadConfigDirectory(reason) => "Bad configuration directory: "@ + reason@,
            ConfyError::SerializeTomlError(_) => "Failed to serialize configuration data into TOML"@,
            ConfyError::WriteConfigurationFileError(_) => "Failed to write configuration file"@,
            ConfyError::ReadConfigurationFileError(_) => "Failed to read configuration file"@,
            ConfyError::OpenConfigurationFileError(_) => "Failed to open configuration file"@,
            ConfyError::SetPermissionsFileError(_) => "Failed to set configuration file permissions"@,
        }
    }

    /// Renders [`ConfyError::message`].
    pub fn to_string(&self) -> (r: String)
        ensures
            r@ == self.message(),
    {
        match self {
            ConfyError::BadTomlData(_) => String::from_str("Bad TOML data"),
            ConfyError::DirectoryCreationFailed(_) => String::from_str("Failed to create directory"),
            ConfyError::GeneralLoadError(_) => String::from_str("Failed to load configuration file"),
            ConfyError::BadConfigDirectory(reason) => {
                String::from_str("Bad configuration directory: ").concat(reason.as_str())
            },
            ConfyError::SerializeTomlError(_) => {
                String::from_str("Failed to serialize configuration data into TOML")
            },
            ConfyError::WriteConfigurationFileError(_) => {
                String::from_str("Failed to write configuration file")
            },
            ConfyError::ReadConfigurationFileError(_) => {
                String::from_str("Failed to read configuration file")
            },
            ConfyError::OpenConfigurationFileError(_) => {
                String::from_str("Failed to open configuration file")
            },
            ConfyError::SetPermissionsFileError(_) => {
                String::from_str("Failed to set configuration file permissions")
            },
        }
    }
}

} // verus!
