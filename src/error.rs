use vstd::prelude::*;

verus! {

/// What went wrong while parsing the content of a master key file.
#[derive(Debug, Clone, Copy, PartialEq, Eq)]
pub enum KeyFileError {
    /// The file does not hold exactly the expected number of bytes.
    WrongSize { expected: usize, actual: usize },
    /// The last byte of the file is not a newline.
    MissingNewline,
    /// A byte before the newline is not a hexadecimal digit.
    InvalidHex,
}

/// The cloud configuration translation that failed.
#[derive(Debug, Clone, Copy, PartialEq, Eq)]
pub enum CloudOp {
    AwsFromProto,
    AzureFromProto,
}

/// The broad class an error falls into.
#[derive(Debug, Clone, Copy, PartialEq, Eq)]
pub enum ErrorKind {
    Config,
    Io,
    Cloud,
    Other,
}

/// Errors of backend resolution and key manager provisioning.
#[derive(Debug, Clone, PartialEq, Eq)]
pub enum Error {
    /// A file or directory could not be accessed; carries the system's message.
    Io(String),
    /// The key file named by a file master key was never read.
    KeyFileNotRead { path: String },
    /// A master key file has the wrong shape.
    KeyFile(KeyFileError),
    /// The Azure vendor was selected without its sub-configuration.
    MissingAzureConfig,
    /// Translating the KMS configuration failed: the key id is empty.
    EmptyKeyId { op: CloudOp },
    /// No KMS provider is known under this vendor name.
    ProviderNotFound { vendor: String },
}

impl Error {
    pub open spec fn spec_kind(&self) -> ErrorKind {
        match self {
            Error::Io(_) | Error::KeyFileNotRead { .. } => ErrorKind::Io,
            Error::KeyFile(_) => ErrorKind::Other,
            Error::MissingAzureConfig | Error::ProviderNotFound { .. } => ErrorKind::Config,
            Error::EmptyKeyId { .. } => ErrorKind::Cloud,
        }
    }

    /// The class of this error.
    pub fn kind(&self) -> (r: ErrorKind)
        ensures
            r == self.spec_kind(),
    {
        match self {
            Error::Io(_) | Error::KeyFileNotRead { .. } => ErrorKind::Io,
            Error::KeyFile(_) => ErrorKind::Other,
            Error::MissingAzureConfig | Error::ProviderNotFound { .. } => ErrorKind::Config,
            Error::EmptyKeyId { .. } => ErrorKind::Cloud,
        }
    }

    pub open spec fn spec_message(&self) -> Seq<char> {
        match self {
            Error::Io(m) => m@,
            Error::KeyFileNotRead { path } => "master key file was not read: "@ + path@,
            Error::KeyFile(KeyFileError::WrongSize { .. }) => "mismatch master key file size"@,
            Error::KeyFile(KeyFileError::MissingNewline) => "master key file should end with newline"@,
            Error::KeyFile(KeyFileError::InvalidHex) => "failed to decode master key from file"@,
            Error::MissingAzureConfig => "invalid configurations for Azure KMS"@,
            Error::EmptyKeyId { op: CloudOp::AwsFromProto } => "aws from proto: KMS key id can not be empty"@,
            Error::EmptyKeyId { op: CloudOp::AzureFromProto } => "azure from proto: KMS key id can not be empty"@,
            Error::ProviderNotFound { vendor } => "provider not found "@ + vendor@,
        }
    }

    /// A readable message; it names the offending path or vendor where there is one.
    pub fn message(&self) -> (r: String)
        ensures
            r@ == self.spec_message(),
    {
        match self {
            Error::Io(m) => m.clone(),
            Error::KeyFileNotRead { path } => "master key file was not read: ".to_owned().concat(path.as_str()),
            Error::KeyFile(KeyFileError::WrongSize { .. }) => "mismatch master key file size".to_owned(),
            Error::KeyFile(KeyFileError::MissingNewline) => "master key file should end with newline".to_owned(),
            Error::KeyFile(KeyFileError::InvalidHex) => "failed to decode master key from file".to_owned(),
            Error::MissingAzureConfig => "invalid configurations for Azure KMS".to_owned(),
            Error::EmptyKeyId { op: CloudOp::AwsFromProto } => "aws from proto: KMS key id can not be empty".to_owned(),
            Error::EmptyKeyId { op: CloudOp::AzureFromProto } => "azure from proto: KMS key id can not be empty".to_owned(),
            Error::ProviderNotFound { vendor } => "provider not found ".to_owned().concat(vendor.as_str()),
        }
    }
}

} // verus!
