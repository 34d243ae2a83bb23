use vstd::prelude::*;

verus! {

#[verifier::external_type_specification]
#[verifier::external_body]
pub struct ExIoError(std::io::Error);

#[verifier::external_type_specification]
#[verifier::external_body]
pub struct ExImageError(image::ImageError);

/// Everything that can end a run or a step of it.
#[derive(Debug)]
pub enum GifError {
    /// A file could not be read, written, copied or created.
    Io(std::io::Error),
    /// The image could not be decoded or a frame could not be encoded.
    Image(image::ImageError),
    /// The input holds no frames.
    NoFrames,
    /// The compressor executable could not be started.
    GifsicleNotFound,
    /// The compressor ran and exited unsuccessfully, with what it wrote to stderr.
    GifsicleExecFailed(String),
    /// The input file does not exist.
    InputFileNotFound(String),
    /// No artifact could be delivered as output.
    NoValidResults,
    /// A temporary directory could not be created.
    TempDirFailed(String),
    /// Any other failure, as text.
    Other(String),
}

} // verus!
