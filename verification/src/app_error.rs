//! The error taxonomy of the rendering core: a typed error kind plus
//! a human-readable message fixed by the kind.

use vstd::prelude::*;

verus! {

/// What went wrong, at the granularity callers can act on. A device
/// call that failed carries its raw status code.
#[derive(Debug, Clone, Copy, PartialEq, Eq, Structural)]
pub enum AppErrorType {
    VulkanError(i32),
    VulkanLoadingError,
    NoSuitableDevice,
    NoSuitableMemType,
    IoError,
    HandleError,
}

/// An error of the rendering core: its kind and the message text that
/// the kind determines.
#[derive(Debug, Clone)]
pub struct AppError {
    pub error_type: AppErrorType,
    pub message: String,
}

/// The text that the graphics library prints for a raw status code.
pub uninterp spec fn vk_result_text(code: i32) -> Seq<char>;

/// Relies on `ash::vk::Result`'s `Display` implementation, which
/// writes a fixed description (or the status name) for each raw code:
/// the text is a function of the code alone.
#[verifier::external_body]
fn vk_result_message(code: i32) -> (text: String)
    ensures
        text@ == vk_result_text(code),
{
    ash::vk::Result::from_raw(code).to_string()
}

/// The message that belongs to each error kind.
pub open spec fn spec_error_message(error_type: AppErrorType) -> Seq<char> {
    match error_type {
        AppErrorType::VulkanError(code) => vk_result_text(code),
        AppErrorType::VulkanLoadingError => "Couldn't load the Vulkan library."@,
        AppErrorType::NoSuitableDevice => "No suitable physical device is avaible."@,
        AppErrorType::NoSuitableMemType => "Failed to find suitable memory type."@,
        AppErrorType::IoError => "An io error occured."@,
        AppErrorType::HandleError => "An error occured while retreiving an handle."@,
    }
}

impl AppError {
    /// Builds the error for a kind, with the message the kind fixes.
    pub fn new(error_type: AppErrorType) -> (r: Self)
        ensures
            r.error_type == error_type,
            r.message@ == spec_error_message(error_type),
    {
        let message = match error_type {
            AppErrorType::VulkanError(vk_result) => vk_result_message(vk_result),
            AppErrorType::VulkanLoadingError => "Couldn't load the Vulkan library.".to_owned(),
            AppErrorType::NoSuitableDevice => "No suitable physical device is avaible.".to_owned(),
            AppErrorType::NoSuitableMemType => "Failed to find suitable memory type.".to_owned(),
            AppErrorType::IoError => "An io error occured.".to_owned(),
            AppErrorType::HandleError => "An error occured while retreiving an handle.".to_owned(),
        };

        AppError { error_type, message }
    }

    /// The typed error for a device call that failed with `code`.
    pub fn from_vk_result(code: i32) -> (r: Self)
        ensures
            r.error_type == AppErrorType::VulkanError(code),
            r.message@ == vk_result_text(code),
    {
        AppError { error_type: AppErrorType::VulkanError(code), message: vk_result_message(code) }
    }
}

/// The result type of every fallible operation of the core.
pub type AppResult<T> = Result<T, AppError>;

} // verus!
