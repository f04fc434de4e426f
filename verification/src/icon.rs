//! The tray icons: choosing the icon for a wake state and turning its encoded
//! data into RGBA pixels.

use crate::error::AppError;
use vstd::prelude::*;
use vstd::string::*;

verus! {

/// The error of the image decoder.
#[verifier::external_type_specification]
#[verifier::external_body]
pub struct ExImageError(image::ImageError);

/// The RGBA pixels, row by row and four bytes each, that the PNG decoder
/// makes of encoded image data; `None` where it rejects the data.
pub uninterp spec fn rgba_of_png(data: Seq<u8>) -> Option<Seq<u8>>;

/// Decodes image data as PNG with `image::load_from_memory_with_format` and
/// `ImageFormat::Png`, and converts the image with `DynamicImage::into_rgba8`
/// and `ImageBuffer::into_raw`. With the format given, the decoder neither
/// guesses the format nor looks up a registered decoder, so the result
/// depends on the data alone; the contract gives it the name `rgba_of_png`
/// and claims nothing else of it.
#[verifier::external_body]
fn decode_png_rgba(data: &[u8]) -> (result: Result<Vec<u8>, image::ImageError>)
    ensures
        match result {
            Ok(pixels) => rgba_of_png(data@) == Some(pixels@),
            Err(_) => rgba_of_png(data@) is None,
        },
{
    match image::load_from_memory_with_format(data, image::ImageFormat::Png) {
        Ok(decoded) => Ok(decoded.into_rgba8().into_raw()),
        Err(error) => Err(error),
    }
}

/// The message for an icon that could not be loaded.
pub open spec fn icon_failure_message(is_awake: bool) -> Seq<char> {
    "Failed to load "@ + (if is_awake {
        "awake"@
    } else {
        "sleep"@
    }) + " icon from embedded data"@
}

/// The error for icon data that the decoder rejected.
pub open spec fn is_icon_failure(error: AppError, is_awake: bool, cause: Seq<char>) -> bool {
    &&& error is IconProcessing
    &&& error.message() == icon_failure_message(is_awake)
    &&& error.cause() == cause
    &&& error.hint() == "This is a bug. Icon data may be corrupted."@
}

/// Which of the two encoded icons shows a wake state: the "blocked" one while
/// awake, the "allowed" one otherwise.
pub fn select_icon<'a>(is_awake: bool, icon_allow: &'a [u8], icon_block: &'a [u8]) -> (chosen:
    &'a [u8])
    ensures
        chosen@ == (if is_awake {
            icon_block@
        } else {
            icon_allow@
        }),
{
    if is_awake {
        icon_block
    } else {
        icon_allow
    }
}

/// The icon for a wake state from what the decoder made of its data: the
/// pixels as they are, or an `IconProcessing` error that carries the cause.
pub fn icon_from_decoded(is_awake: bool, decoded: Result<Vec<u8>, String>) -> (result: Result<
    Vec<u8>,
    AppError,
>)
    ensures
        match decoded {
            Ok(pixels) => result == Ok::<Vec<u8>, AppError>(pixels),
            Err(cause) => result is Err && is_icon_failure(result->Err_0, is_awake, cause@),
        },
{
    match decoded {
        Ok(pixels) => Ok(pixels),
        Err(cause) => {
            let mut message = String::from_str("Failed to load ");
            message.append(if is_awake { "awake" } else { "sleep" });
            message.append(" icon from embedded data");
            Err(
                AppError::IconProcessing {
                    message,
                    cause,
                    recovery_hint: "This is a bug. Icon data may be corrupted.",
                },
            )
        },
    }
}

/// The RGBA pixels of the tray icon for a wake state, from the two icons
/// encoded as PNG. Data that the decoder rejects gives an `IconProcessing`
/// error.
pub fn get_icon_rgba(is_awake: bool, icon_allow: &[u8], icon_block: &[u8]) -> (result: Result<
    Vec<u8>,
    AppError,
>)
    ensures
        ({
            let chosen = if is_awake {
                icon_block@
            } else {
                icon_allow@
            };
            match result {
                Ok(pixels) => rgba_of_png(chosen) == Some(pixels@),
                Err(error) => rgba_of_png(chosen) is None && exists|cause: Seq<char>|
                    is_icon_failure(error, is_awake, cause),
            }
        }),
{
    let chosen = select_icon(is_awake, icon_allow, icon_block);
    let decoded = match decode_png_rgba(chosen) {
        Ok(pixels) => Ok(pixels),
        Err(error) => Err(error.to_string()),
    };
    icon_from_decoded(is_awake, decoded)
}

} // verus!
