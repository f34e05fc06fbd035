//! The errors of this crate.

use vstd::prelude::*;
use vstd::std_specs::cmp::PartialEqSpecImpl;
use vstd::string::StringExecFns;

verus! {

/// What this crate returns: a value, or the reason there is none.
pub type KcheckResult<T> = Result<T, KcheckError>;

/// The mathematical value of a [`KcheckError`].
pub enum Failure {
    DuplicateConfig(Seq<char>),
    FileDoesNotExist(Seq<char>),
    InvalidFile(Seq<char>),
    IoError(Seq<char>),
    JsonParseError(Seq<char>),
    KernelConfigBuildError(Seq<char>),
    KernelConfigNotFound,
    KernelConfigParseError,
    MissingFileExtension,
    NoConfig,
    TomlParseError(Seq<char>),
    UninitializedField(Seq<char>),
    UnknownFileType(Seq<char>),
    UnknownKernelConfigOption(Seq<char>),
}

impl Failure {
    /// The message an error is shown as.
    pub open spec fn display(self) -> Seq<char> {
        match self {
            Failure::DuplicateConfig(s) => "Duplicate config found: "@ + s,
            Failure::FileDoesNotExist(s) => "File does not exist: "@ + s,
            Failure::InvalidFile(s) => "File is not a valid: "@ + s,
            Failure::IoError(s) => "IO Error: "@ + s,
            Failure::JsonParseError(s) => "Error parsing json file: "@ + s,
            Failure::KernelConfigBuildError(s) => "Error building KernelConfig: "@ + s,
            Failure::KernelConfigNotFound => "Kernel config not found"@,
            Failure::KernelConfigParseError => "Kernel config parse error"@,
            Failure::MissingFileExtension => "No file extension found"@,
            Failure::NoConfig => "Could not find a config file"@,
            Failure::TomlParseError(s) => "Error parsing toml file: "@ + s,
            Failure::UninitializedField(s) => "Uninitialized field: "@ + s,
            Failure::UnknownFileType(s) => "Unknown file type: "@ + s,
            Failure::UnknownKernelConfigOption(s) => "Unknown kernel config option: "@ + s,
        }
    }
}

/// Why an operation of this crate gave no value.
#[derive(Debug)]
pub enum KcheckError {
    /// More than one line of the kernel config matches the symbol.
    DuplicateConfig(String),
    /// A file that was asked for does not exist.
    FileDoesNotExist(String),
    /// A file is not of the kind that was asked for.
    InvalidFile(String),
    /// Reading failed.
    IoError(String),
    /// A JSON requirement document is malformed.
    JsonParseError(String),
    /// A kernel config cannot be built from what the builder was given.
    KernelConfigBuildError(String),
    /// The system offers no kernel config.
    KernelConfigNotFound,
    /// A line that matches the symbol is neither an assignment nor a
    /// "not set" comment.
    KernelConfigParseError,
    /// A requirement document's path has no extension.
    MissingFileExtension,
    /// No requirement document was found.
    NoConfig,
    /// A TOML requirement document is malformed.
    TomlParseError(String),
    /// A field that a builder needs was not set.
    UninitializedField(String),
    /// A requirement document's extension names no known format.
    UnknownFileType(String),
    /// The symbol is assigned a value that is none of `y`, `m`, `n`.
    UnknownKernelConfigOption(String),
}

impl View for KcheckError {
    type V = Failure;

    open spec fn view(&self) -> Failure {
        match self {
            KcheckError::DuplicateConfig(s) => Failure::DuplicateConfig(s@),
            KcheckError::FileDoesNotExist(s) => Failure::FileDoesNotExist(s@),
            KcheckError::InvalidFile(s) => Failure::InvalidFile(s@),
            KcheckError::IoError(s) => Failure::IoError(s@),
            KcheckError::JsonParseError(s) => Failure::JsonParseError(s@),
            KcheckError::KernelConfigBuildError(s) => Failure::KernelConfigBuildError(s@),
            KcheckError::KernelConfigNotFound => Failure::KernelConfigNotFound,
            KcheckError::KernelConfigParseError => Failure::KernelConfigParseError,
            KcheckError::MissingFileExtension => Failure::MissingFileExtension,
            KcheckError::NoConfig => Failure::NoConfig,
            KcheckError::TomlParseError(s) => Failure::TomlParseError(s@),
            KcheckError::UninitializedField(s) => Failure::UninitializedField(s@),
            KcheckError::UnknownFileType(s) => Failure::UnknownFileType(s@),
            KcheckError::UnknownKernelConfigOption(s) => Failure::UnknownKernelConfigOption(s@),
        }
    }
}

impl DeepView for KcheckError {
    type V = Failure;

    open spec fn deep_view(&self) -> Failure {
        self@
    }
}

impl Clone for KcheckError {
    fn clone(&self) -> (r: Self)
        ensures
            r == *self,
    {
        match self {
            KcheckError::DuplicateConfig(s) => KcheckError::DuplicateConfig(s.clone()),
            KcheckError::FileDoesNotExist(s) => KcheckError::FileDoesNotExist(s.clone()),
            KcheckError::InvalidFile(s) => KcheckError::InvalidFile(s.clone()),
            KcheckError::IoError(s) => KcheckError::IoError(s.clone()),
            KcheckError::JsonParseError(s) => KcheckError::JsonParseError(s.clone()),
            KcheckError::KernelConfigBuildError(s) => KcheckError::KernelConfigBuildError(
                s.clone(),
            ),
            KcheckError::KernelConfigNotFound => KcheckError::KernelConfigNotFound,
            KcheckError::KernelConfigParseError => KcheckError::KernelConfigParseError,
            KcheckError::MissingFileExtension => KcheckError::MissingFileExtension,
            KcheckError::NoConfig => KcheckError::NoConfig,
            KcheckError::TomlParseError(s) => KcheckError::TomlParseError(s.clone()),
            KcheckError::UninitializedField(s) => KcheckError::UninitializedField(s.clone()),
            KcheckError::UnknownFileType(s) => KcheckError::UnknownFileType(s.clone()),
            KcheckError::UnknownKernelConfigOption(s) => KcheckError::UnknownKernelConfigOption(
                s.clone(),
            ),
        }
    }
}

impl PartialEq for KcheckError {
    fn eq(&self, other: &Self) -> (r: bool) {
        match self {
            KcheckError::DuplicateConfig(a) => match other {
                KcheckError::DuplicateConfig(b) => *a == *b,
                _ => false,
            },
            KcheckError::FileDoesNotExist(a) => match other {
                KcheckError::FileDoesNotExist(b) => *a == *b,
                _ => false,
            },
            KcheckError::InvalidFile(a) => match other {
                KcheckError::InvalidFile(b) => *a == *b,
                _ => false,
            },
            KcheckError::IoError(a) => match other {
                KcheckError::IoError(b) => *a == *b,
                _ => false,
            },
            KcheckError::JsonParseError(a) => match other {
                KcheckError::JsonParseError(b) => *a == *b,
                _ => false,
            },
            KcheckError::KernelConfigBuildError(a) => match other {
                KcheckError::KernelConfigBuildError(b) => *a == *b,
                _ => false,
            },
            KcheckError::KernelConfigNotFound => matches!(other, KcheckError::KernelConfigNotFound),
            KcheckError::KernelConfigParseError => matches!(
                other,
                KcheckError::KernelConfigParseError
            ),
            KcheckError::MissingFileExtension => matches!(other, KcheckError::MissingFileExtension),
            KcheckError::NoConfig => matches!(other, KcheckError::NoConfig),
            KcheckError::TomlParseError(a) => match other {
                KcheckError::TomlParseError(b) => *a == *b,
                _ => false,
            },
            KcheckError::UninitializedField(a) => match other {
                KcheckError::UninitializedField(b) => *a == *b,
                _ => false,
            },
            KcheckError::UnknownFileType(a) => match other {
                KcheckError::UnknownFileType(b) => *a == *b,
                _ => false,
            },
            KcheckError::UnknownKernelConfigOption(a) => match other {
                KcheckError::UnknownKernelConfigOption(b) => *a == *b,
                _ => false,
            },
        }
    }
}

impl PartialEqSpecImpl for KcheckError {
    open spec fn obeys_eq_spec() -> bool {
        true
    }

    open spec fn eq_spec(&self, other: &Self) -> bool {
        self@ == other@
    }
}

/// The mathematical value of a result of this crate.
pub open spec fn outcome<T: DeepView>(r: KcheckResult<T>) -> Result<T::V, Failure> {
    match r {
        Ok(value) => Ok(value.deep_view()),
        Err(error) => Err(error@),
    }
}

/// `head` followed by `tail`.
fn message(head: &str, tail: &String) -> (r: String)
    ensures
        r@ == head@ + tail@,
{
    let mut r = String::from_str(head);
    r.append(tail.as_str());
    r
}

impl KcheckError {
    /// The message this error is shown as.
    pub fn to_string(&self) -> (r: String)
        ensures
            r@ == self@.display(),
    {
        match self {
            KcheckError::DuplicateConfig(s) => message("Duplicate config found: ", s),
            KcheckError::FileDoesNotExist(s) => message("File does not exist: ", s),
            KcheckError::InvalidFile(s) => message("File is not a valid: ", s),
            KcheckError::IoError(s) => message("IO Error: ", s),
            KcheckError::JsonParseError(s) => message("Error parsing json file: ", s),
            KcheckError::KernelConfigBuildError(s) => message("Error building KernelConfig: ", s),
            KcheckError::KernelConfigNotFound => String::from_str("Kernel config not found"),
            KcheckError::KernelConfigParseError => String::from_str("Kernel config parse error"),
            KcheckError::MissingFileExtension => String::from_str("No file extension found"),
            KcheckError::NoConfig => String::from_str("Could not find a config file"),
            KcheckError::TomlParseError(s) => message("Error parsing toml file: ", s),
            KcheckError::UninitializedField(s) => message("Uninitialized field: ", s),
            KcheckError::UnknownFileType(s) => message("Unknown file type: ", s),
            KcheckError::UnknownKernelConfigOption(s) => message(
                "Unknown kernel config option: ",
                s,
            ),
        }
    }
}

} // verus!
