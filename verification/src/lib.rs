//! Request validation and response shaping for an image tone-mapping upload
//! service.
//!
//! The crate holds the decisions of one upload: whether the payload is an
//! image the service accepts, which argument list the external image tool is
//! started with, and which response each outcome of the tool becomes. Reading
//! the request, running the tool and touching the file system are left to the
//! caller, which hands plain values in and takes plain values back.

pub mod format;
pub mod size;
pub mod codec;
pub mod validate;
pub mod command;
pub mod response;

pub use crate::command::{tool_arguments, tool_name, tuning_argument};
pub use crate::format::is_supported_image_format;
pub use crate::response::{
    begin, finish, judge_exit, judge_output, reject, ProcessResponse, Step, ToolOutcome,
};
pub use crate::validate::{check_decoded, validate_upload, Rejection};
