use crate::types::{
    CommandResult, CommandState, CommandStateKind, KachakaApiError, KachakaError, PixelFormat,
    RawPixels, RosImage, RosImageError, RpcResult,
};
use vstd::prelude::*;
use vstd::string::StringExecFns;

verus! {

/// A decoded camera image; opaque to the library.
#[verifier::external_type_specification]
#[verifier::external_body]
pub struct ExDynamicImage(image::DynamicImage);

/// The outcome that a reported result stands for.
pub open spec fn rpc_outcome(result: RpcResult) -> Result<(), KachakaError> {
    if result.success {
        Ok(())
    } else {
        Err(KachakaError { error_code: result.error_code })
    }
}

impl From<RpcResult> for Result<(), KachakaError> {
    fn from(result: RpcResult) -> (r: Self) {
        if result.success {
            Ok(())
        } else {
            Err(KachakaError { error_code: result.error_code })
        }
    }
}

impl vstd::std_specs::convert::FromSpecImpl<RpcResult> for Result<(), KachakaError> {
    open spec fn obeys_from_spec() -> bool {
        true
    }

    open spec fn from_spec(result: RpcResult) -> Self {
        rpc_outcome(result)
    }
}

/// The last finished command with its outcome, where the controller gave
/// both; `None` where either is missing.
pub fn last_command_result<C>(result: Option<RpcResult>, command: Option<C>) -> (r: Option<CommandResult<C>>)
    ensures
        match (result, command) {
            (Some(result), Some(command)) => r == Some(
                CommandResult { command, result: rpc_outcome(result) },
            ),
            _ => r is None,
        },
{
    match result {
        Some(result) => match command {
            Some(command) => Some(CommandResult { command, result: Result::<(), KachakaError>::from(result) }),
            None => None,
        },
        None => None,
    }
}

impl<C> CommandState<C> {
    /// The command state for a reported state code. A running state names its
    /// command and that command's identifier; one reported without its
    /// command is a protocol violation.
    pub fn from_response(state: CommandStateKind, command: Option<C>, command_id: String) -> (r: Result<
        CommandState<C>,
        KachakaApiError,
    >)
        ensures
            match state {
                CommandStateKind::Unspecified => r == Ok::<CommandState<C>, KachakaApiError>(
                    CommandState::Unspecified,
                ),
                CommandStateKind::Pending => r == Ok::<CommandState<C>, KachakaApiError>(
                    CommandState::Pending,
                ),
                CommandStateKind::Running => match command {
                    Some(command) => r == Ok::<CommandState<C>, KachakaApiError>(
                        CommandState::Running(command, command_id),
                    ),
                    None => r == Err::<CommandState<C>, KachakaApiError>(KachakaApiError::NullResult),
                },
            },
    {
        match state {
            CommandStateKind::Unspecified => Ok(CommandState::Unspecified),
            CommandStateKind::Pending => Ok(CommandState::Pending),
            CommandStateKind::Running => match command {
                Some(command) => Ok(CommandState::Running(command, command_id)),
                None => Err(KachakaApiError::NullResult),
            },
        }
    }
}

/// The bytes per pixel of a supported raw encoding.
pub open spec fn bytes_per_pixel(encoding: Seq<char>) -> Option<int> {
    if encoding == "rgb8"@ || encoding == "bgr8"@ {
        Some(3)
    } else if encoding == "rgba8"@ {
        Some(4)
    } else {
        None
    }
}

/// `data` with the first and third byte of every whole three-byte pixel
/// exchanged; bytes after the last whole pixel stay where they are.
pub open spec fn swap_red_blue(data: Seq<u8>) -> Seq<u8> {
    Seq::new(
        data.len(),
        |i: int|
            if i < data.len() - data.len() % 3 {
                data[i - i % 3 + 2 - i % 3]
            } else {
                data[i]
            },
    )
}

/// Turns blue-green-red pixel bytes into red-green-blue ones.
pub fn bgr_to_rgb(data: Vec<u8>) -> (r: Vec<u8>)
    ensures
        r@ == swap_red_blue(data@),
{
    let mut pixels = data;
    let ghost input = pixels@;
    let whole = pixels.len() - pixels.len() % 3;
    let mut i: usize = 0;
    while i < whole
        invariant
            whole == input.len() - input.len() % 3,
            i <= whole,
            i % 3 == 0,
            pixels@.len() == input.len(),
            forall|j: int| 0 <= j < i ==> #[trigger] pixels@[j] == swap_red_blue(input)[j],
            forall|j: int| i <= j < input.len() ==> #[trigger] pixels@[j] == input[j],
        decreases whole - i,
    {
        let first = pixels[i];
        let third = pixels[i + 2];
        pixels.set(i, third);
        pixels.set(i + 2, first);
        i = i + 3;
    }
    assert(pixels@ =~= swap_red_blue(input));
    pixels
}

/// Relies on `image::RgbImage::from_raw`: it takes a buffer of at least three
/// bytes per pixel and refuses a shorter one.
#[verifier::external_body]
fn rgb8_image(width: u32, height: u32, data: Vec<u8>) -> (r: Option<image::DynamicImage>)
    ensures
        r is Some <==> 3 * (width as int) * (height as int) <= data@.len(),
{
    image::RgbImage::from_raw(width, height, data).map(image::DynamicImage::ImageRgb8)
}

/// Relies on `image::RgbaImage::from_raw`: it takes a buffer of at least four
/// bytes per pixel and refuses a shorter one.
#[verifier::external_body]
fn rgba8_image(width: u32, height: u32, data: Vec<u8>) -> (r: Option<image::DynamicImage>)
    ensures
        r is Some <==> 4 * (width as int) * (height as int) <= data@.len(),
{
    image::RgbaImage::from_raw(width, height, data).map(image::DynamicImage::ImageRgba8)
}

/// Whether `n` bytes per pixel cover a frame of `width` by `height` pixels
/// within `len` bytes.
pub open spec fn frame_fits(n: int, width: u32, height: u32, len: int) -> bool {
    n * (width as int) * (height as int) <= len
}

impl RosImage {
    /// The frame's pixel bytes in red-green-blue order, with or without
    /// alpha. The encodings `rgb8`, `rgba8` and `bgr8` are supported, the
    /// last by reordering each pixel's bytes; the pixel bytes must cover the
    /// whole frame.
    pub fn into_raw_pixels(self) -> (r: Result<RawPixels, RosImageError>)
        ensures
            match bytes_per_pixel(self.encoding@) {
                None => r == Err::<RawPixels, RosImageError>(RosImageError::UnsupportedEncoding),
                Some(n) => if frame_fits(n, self.width, self.height, self.data@.len() as int) {
                    &&& r is Ok
                    &&& r->Ok_0.format == (if n == 4 {
                        PixelFormat::Rgba8
                    } else {
                        PixelFormat::Rgb8
                    })
                    &&& r->Ok_0.width == self.width
                    &&& r->Ok_0.height == self.height
                    &&& r->Ok_0.data@ == (if self.encoding@ == "bgr8"@ {
                        swap_red_blue(self.data@)
                    } else {
                        self.data@
                    })
                } else {
                    r == Err::<RawPixels, RosImageError>(RosImageError::BufferTooSmall)
                },
            },
    {
        proof {
            reveal_strlit("rgb8");
            reveal_strlit("rgba8");
            reveal_strlit("bgr8");
            assert("rgba8"@[0] != "bgr8"@[0]);
            assert("rgb8"@[0] != "bgr8"@[0]);
        }
        let RosImage { encoding, width, height, data } = self;
        let (format, bytes_per_pixel, data) = if encoding == String::from_str("rgb8") {
            (PixelFormat::Rgb8, 3u128, data)
        } else if encoding == String::from_str("rgba8") {
            (PixelFormat::Rgba8, 4u128, data)
        } else if encoding == String::from_str("bgr8") {
            (PixelFormat::Rgb8, 3u128, bgr_to_rgb(data))
        } else {
            return Err(RosImageError::UnsupportedEncoding);
        };
        assert(width as int * height as int <= 0xffff_ffff * 0xffff_ffff) by (nonlinear_arith)
            requires
                width <= 0xffff_ffff,
                height <= 0xffff_ffff,
        ;
        let pixels = width as u128 * height as u128;
        assert(bytes_per_pixel * pixels <= 4 * (0xffff_ffff * 0xffff_ffff)) by (nonlinear_arith)
            requires
                pixels <= 0xffff_ffff * 0xffff_ffff,
                bytes_per_pixel <= 4,
        ;
        assert(bytes_per_pixel * pixels == bytes_per_pixel * width as int * height as int) by (nonlinear_arith)
            requires
                pixels == width as int * height as int,
        ;
        if bytes_per_pixel * pixels <= data.len() as u128 {
            Ok(RawPixels { format, width, height, data })
        } else {
            Err(RosImageError::BufferTooSmall)
        }
    }

    /// Decodes the frame into an image, as `into_raw_pixels` lays it out.
    pub fn into_dynamic_image(self) -> (r: Result<image::DynamicImage, RosImageError>)
        ensures
            match bytes_per_pixel(self.encoding@) {
                None => r matches Err(RosImageError::UnsupportedEncoding),
                Some(n) => if frame_fits(n, self.width, self.height, self.data@.len() as int) {
                    r is Ok
                } else {
                    r matches Err(RosImageError::BufferTooSmall)
                },
            },
    {
        let pixels = match self.into_raw_pixels() {
            Ok(pixels) => pixels,
            Err(e) => return Err(e),
        };
        let RawPixels { format, width, height, data } = pixels;
        let converted = match format {
            PixelFormat::Rgb8 => rgb8_image(width, height, data),
            PixelFormat::Rgba8 => rgba8_image(width, height, data),
        };
        match converted {
            Some(image) => Ok(image),
            None => Err(RosImageError::BufferTooSmall),
        }
    }
}

} // verus!
