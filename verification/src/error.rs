//! The error type of the library.

use vstd::prelude::*;

verus! {

/// `std::io::Error`, carried through unread.
#[verifier::external_type_specification]
#[verifier::external_body]
pub struct ExIoError(std::io::Error);

/// `io_uring::squeue::PushError`, carried through unread.
#[verifier::external_type_specification]
#[verifier::external_body]
pub struct ExPushError(io_uring::squeue::PushError);

/// `serde_json::Error`, carried through unread.
#[verifier::external_type_specification]
#[verifier::external_body]
pub struct ExJsonError(serde_json::Error);

/// What can go wrong in the control engine and in a queue.
#[derive(Debug)]
pub enum UblkError {
    /// Entering the ring failed.
    UringSubmissionError(std::io::Error),
    /// The submission queue took no further entry.
    UringPushError(io_uring::squeue::PushError),
    /// A completion carried a result that is not tolerated.
    UringIOError(i32),
    /// The device record could not be parsed or written.
    JsonError(serde_json::Error),
    /// The descriptor buffer could not be mapped.
    MmapError(String),
    /// The queue has stopped and has nothing left to wait for.
    QueueIsDown(String),
    /// A file could not be opened, read or written.
    OtherIOError(std::io::Error),
    /// Any other failure, with its error number.
    OtherError(i32),
}

impl UblkError {
    /// What the error says of itself.
    pub fn message(&self) -> (r: String)
        ensures
            r@ == match self {
                UblkError::UringSubmissionError(_) => "failed to read the key file"@,
                UblkError::UringPushError(_) => "failed to push SQE to uring"@,
                UblkError::UringIOError(_) => "io_uring IO failure"@,
                UblkError::JsonError(_) => "json failure"@,
                UblkError::MmapError(_) => "mmap failure"@,
                UblkError::QueueIsDown(_) => "queue down failure"@,
                UblkError::OtherIOError(_) => "other IO failure"@,
                UblkError::OtherError(_) => "other failure"@,
            },
    {
        match self {
            UblkError::UringSubmissionError(_) => "failed to read the key file".to_string(),
            UblkError::UringPushError(_) => "failed to push SQE to uring".to_string(),
            UblkError::UringIOError(_) => "io_uring IO failure".to_string(),
            UblkError::JsonError(_) => "json failure".to_string(),
            UblkError::MmapError(_) => "mmap failure".to_string(),
            UblkError::QueueIsDown(_) => "queue down failure".to_string(),
            UblkError::OtherIOError(_) => "other IO failure".to_string(),
            UblkError::OtherError(_) => "other failure".to_string(),
        }
    }
}

} // verus!
