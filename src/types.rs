use vstd::prelude::*;

verus! {

/// The transport's status for a failed call; opaque to the library.
#[verifier::external_type_specification]
#[verifier::external_body]
pub struct ExStatus(tonic::Status);

/// The error of a malformed JSON document; opaque to the library.
#[verifier::external_type_specification]
#[verifier::external_body]
pub struct ExJsonError(serde_json::Error);

/// A failure code reported by the controller.
#[derive(Debug, Clone, Copy, PartialEq, Eq, Structural)]
pub struct KachakaError {
    pub error_code: i32,
}

/// Every way in which a call to the controller can fail.
#[derive(Debug)]
pub enum KachakaApiError {
    /// The transport failed; the call may be retried.
    CommunicationError(tonic::Status),
    /// The controller ran the call and reported a failure code.
    ApiError(KachakaError),
    /// The controller answered without a field that the call needs.
    NullResult,
    /// An auxiliary JSON document could not be decoded.
    JsonParseError(serde_json::Error),
}

/// The outcome that the controller reports for a call it ran.
#[derive(Debug, Clone, Copy, PartialEq, Eq, Structural)]
pub struct RpcResult {
    pub success: bool,
    pub error_code: i32,
}

/// Whether the robot is being charged.
#[derive(Debug, Clone, Copy, PartialEq, Eq, Structural)]
pub enum PowerSupplyStatus {
    Charging,
    Discharging,
}

/// The command state code that the controller reports.
#[derive(Debug, Clone, Copy, PartialEq, Eq, Structural)]
pub enum CommandStateKind {
    Unspecified,
    Pending,
    Running,
}

/// What the robot is doing with respect to commands; `C` is the command
/// message as the transport delivers it.
#[derive(Debug)]
pub enum CommandState<C> {
    Unspecified,
    Pending,
    Running(C, String),
}

/// The outcome of the last command that the robot finished.
#[derive(Debug)]
pub struct CommandResult<C> {
    pub command: C,
    pub result: Result<(), KachakaError>,
}

/// A raw camera frame as the controller sends it: an encoding name, the
/// size in pixels and the pixel bytes, row by row.
#[derive(Debug)]
pub struct RosImage {
    pub encoding: String,
    pub width: u32,
    pub height: u32,
    pub data: Vec<u8>,
}

/// How the bytes of one pixel are laid out.
#[derive(Debug, Clone, Copy, PartialEq, Eq, Structural)]
pub enum PixelFormat {
    /// Red, green, blue: three bytes.
    Rgb8,
    /// Red, green, blue, alpha: four bytes.
    Rgba8,
}

/// Pixel bytes, row by row, in a layout that an image is built from as it
/// stands.
#[derive(Debug)]
pub struct RawPixels {
    pub format: PixelFormat,
    pub width: u32,
    pub height: u32,
    pub data: Vec<u8>,
}

/// Why a raw camera frame could not be turned into an image.
#[derive(Debug, Clone, Copy, PartialEq, Eq, Structural)]
pub enum RosImageError {
    /// The encoding is none of `rgb8`, `rgba8` and `bgr8`.
    UnsupportedEncoding,
    /// The pixel bytes are fewer than the size and encoding need.
    BufferTooSmall,
}

} // verus!
