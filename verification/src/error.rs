//! What the planner rejects. Every rejection is found while a plan is built,
//! before any command is issued.

use vstd::prelude::*;
use vstd::string::StringExecFns;
use crate::text::{decimal, decimal_string};

verus! {

/// Why a declared partition size has no span.
#[derive(Debug, Clone, Copy, PartialEq, Eq, Structural)]
pub enum SizeError {
    /// An exact size of zero bytes.
    ZeroBytes,
    /// A percentage of zero or above one hundred.
    InvalidPercentage(u8),
    /// A size that comes to no space at all.
    ZeroSpan,
}

/// A configuration or a disk plan that cannot be installed.
#[derive(Debug, Clone)]
pub enum ValidationError {
    /// The plan was made for another disk than the selected one.
    DiskMismatch,
    /// The plan holds no partition.
    EmptyPlan,
    /// The disk holds less than one MiB.
    DiskTooSmall,
    /// More than one partition asks for the rest of the disk.
    MultipleRemainder,
    /// The sized partitions leave nothing for the one that takes the rest.
    NoSpaceForRemainder,
    /// The size of the named partition has no span.
    Size { partition: String, cause: SizeError },
    /// The named partition would be empty.
    InvalidRange { partition: String },
    /// A custom filesystem without a name.
    EmptyFilesystemName,
    /// A mountpoint that is given, and empty.
    EmptyMountpoint,
    /// A locale without a language.
    EmptyLocaleLanguage,
    /// A locale without a region.
    EmptyLocaleRegion,
    /// A network configuration without a hostname.
    EmptyHostname,
}

/// A rejection, as the contracts see it.
pub enum ValidationErrorView {
    DiskMismatch,
    EmptyPlan,
    DiskTooSmall,
    MultipleRemainder,
    NoSpaceForRemainder,
    Size { partition: Seq<char>, cause: SizeError },
    InvalidRange { partition: Seq<char> },
    EmptyFilesystemName,
    EmptyMountpoint,
    EmptyLocaleLanguage,
    EmptyLocaleRegion,
    EmptyHostname,
}

impl View for ValidationError {
    type V = ValidationErrorView;

    open spec fn view(&self) -> ValidationErrorView {
        match self {
            ValidationError::DiskMismatch => ValidationErrorView::DiskMismatch,
            ValidationError::EmptyPlan => ValidationErrorView::EmptyPlan,
            ValidationError::DiskTooSmall => ValidationErrorView::DiskTooSmall,
            ValidationError::MultipleRemainder => ValidationErrorView::MultipleRemainder,
            ValidationError::NoSpaceForRemainder => ValidationErrorView::NoSpaceForRemainder,
            ValidationError::Size { partition, cause } => ValidationErrorView::Size {
                partition: partition@,
                cause: *cause,
            },
            ValidationError::InvalidRange { partition } => ValidationErrorView::InvalidRange {
                partition: partition@,
            },
            ValidationError::EmptyFilesystemName => ValidationErrorView::EmptyFilesystemName,
            ValidationError::EmptyMountpoint => ValidationErrorView::EmptyMountpoint,
            ValidationError::EmptyLocaleLanguage => ValidationErrorView::EmptyLocaleLanguage,
            ValidationError::EmptyLocaleRegion => ValidationErrorView::EmptyLocaleRegion,
            ValidationError::EmptyHostname => ValidationErrorView::EmptyHostname,
        }
    }
}

/// The sentence that reports a size without span.
pub open spec fn size_error_text(cause: SizeError) -> Seq<char> {
    match cause {
        SizeError::ZeroBytes => "partition size must be > 0 bytes"@,
        SizeError::InvalidPercentage(percent) => "invalid percentage size: "@ + decimal(
            percent as nat,
        ),
        SizeError::ZeroSpan => "computed partition size is zero"@,
    }
}

/// The sentence that reports a rejection, with the partition it is about.
pub open spec fn error_text(error: ValidationErrorView) -> Seq<char> {
    match error {
        ValidationErrorView::DiskMismatch => "disk mismatch between selection and plan"@,
        ValidationErrorView::EmptyPlan => "partition plan must contain at least one partition"@,
        ValidationErrorView::DiskTooSmall =>
            "target disk size too small to compute partition ranges"@,
        ValidationErrorView::MultipleRemainder => "only one remainder partition is supported"@,
        ValidationErrorView::NoSpaceForRemainder => "no remaining space for remainder partition"@,
        ValidationErrorView::Size { partition, cause } =>
            "failed to compute size for partition "@ + partition + ": "@ + size_error_text(cause),
        ValidationErrorView::InvalidRange { partition } =>
            "invalid range computed for partition "@ + partition,
        ValidationErrorView::EmptyFilesystemName => "custom filesystem identifier cannot be empty"@,
        ValidationErrorView::EmptyMountpoint => "mountpoint cannot be empty when provided"@,
        ValidationErrorView::EmptyLocaleLanguage => "locale language cannot be empty"@,
        ValidationErrorView::EmptyLocaleRegion => "locale region cannot be empty"@,
        ValidationErrorView::EmptyHostname => "hostname cannot be empty"@,
    }
}

impl SizeError {
    /// The report of this error as a sentence.
    pub fn message(&self) -> (text: String)
        ensures
            text@ == size_error_text(*self),
    {
        match self {
            SizeError::ZeroBytes => String::from_str("partition size must be > 0 bytes"),
            SizeError::InvalidPercentage(percent) => {
                let number = decimal_string(*percent as u64);
                String::from_str("invalid percentage size: ").concat(number.as_str())
            },
            SizeError::ZeroSpan => String::from_str("computed partition size is zero"),
        }
    }
}

impl ValidationError {
    /// The report of this error as a sentence.
    pub fn message(&self) -> (text: String)
        ensures
            text@ == error_text(self@),
    {
        match self {
            ValidationError::DiskMismatch => String::from_str(
                "disk mismatch between selection and plan",
            ),
            ValidationError::EmptyPlan => String::from_str(
                "partition plan must contain at least one partition",
            ),
            ValidationError::DiskTooSmall => String::from_str(
                "target disk size too small to compute partition ranges",
            ),
            ValidationError::MultipleRemainder => String::from_str(
                "only one remainder partition is supported",
            ),
            ValidationError::NoSpaceForRemainder => String::from_str(
                "no remaining space for remainder partition",
            ),
            ValidationError::Size { partition, cause } => {
                let reason = cause.message();
                String::from_str("failed to compute size for partition ").concat(
                    partition.as_str(),
                ).concat(": ").concat(reason.as_str())
            },
            ValidationError::InvalidRange { partition } => String::from_str(
                "invalid range computed for partition ",
            ).concat(partition.as_str()),
            ValidationError::EmptyFilesystemName => String::from_str(
                "custom filesystem identifier cannot be empty",
            ),
            ValidationError::EmptyMountpoint => String::from_str(
                "mountpoint cannot be empty when provided",
            ),
            ValidationError::EmptyLocaleLanguage => String::from_str(
                "locale language cannot be empty",
            ),
            ValidationError::EmptyLocaleRegion => String::from_str("locale region cannot be empty"),
            ValidationError::EmptyHostname => String::from_str("hostname cannot be empty"),
        }
    }
}

} // verus!
