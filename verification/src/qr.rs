use qrcode::types::QrError;
use vstd::prelude::*;

verus! {

/// Why the `qrcode` crate could not encode some data.
#[derive(Debug, Clone, Copy, PartialEq, Eq, Structural)]
pub enum QrFailure {
    DataTooLong,
    InvalidVersion,
    UnsupportedCharacterSet,
    InvalidEciDesignator,
    InvalidCharacter,
}

/// What the `qrcode` crate makes of `data`: the SVG document it draws,
/// encoded at the medium error correction level in the smallest symbol that
/// holds it, at least `size` pixels wide and high, with dark modules in
/// colour `dark` and light ones in colour `light`; or the reason it gives
/// when no QR code can hold the data.
pub uninterp spec fn qr_svg_document(data: Seq<u8>, size: u32, dark: Seq<char>, light: Seq<char>) -> Result<Seq<char>, QrFailure>;

/// Calls `qrcode::QrCode::new` on `data` and, when it succeeds, renders the
/// code with `qrcode::render::svg::Color` pixels through the crate's
/// renderer (`min_dimensions`, `dark_color`, `light_color`, `build`); a
/// `QrError` is passed on as the `QrFailure` of the same name. Claims that
/// the outcome is the one named by `qr_svg_document` for these arguments.
/// `min_dimensions` adds `size` and the symbol's width in modules minus one
/// in `u32`; a symbol is at most 185 modules across with its quiet zone, so
/// `requires` keeps that sum from overflowing.
#[verifier::external_body]
fn render_qr_svg(data: &[u8], size: u32, dark: &str, light: &str) -> (svg: Result<String, QrFailure>)
    requires
        size <= u32::MAX - 184,
    ensures
        match svg {
            Ok(text) => qr_svg_document(data@, size, dark@, light@) == Ok::<Seq<char>, QrFailure>(text@),
            Err(failure) => qr_svg_document(data@, size, dark@, light@) == Err::<Seq<char>, QrFailure>(failure),
        },
{
    match qrcode::QrCode::new(data) {
        Ok(code) => Ok(code.render::<qrcode::render::svg::Color>().min_dimensions(size, size)
            .dark_color(qrcode::render::svg::Color(dark)).light_color(qrcode::render::svg::Color(light)).build()),
        Err(QrError::DataTooLong) => Err(QrFailure::DataTooLong),
        Err(QrError::InvalidVersion) => Err(QrFailure::InvalidVersion),
        Err(QrError::UnsupportedCharacterSet) => Err(QrFailure::UnsupportedCharacterSet),
        Err(QrError::InvalidEciDesignator) => Err(QrFailure::InvalidEciDesignator),
        Err(QrError::InvalidCharacter) => Err(QrFailure::InvalidCharacter),
    }
}

/// The name under which a failure is reported.
pub open spec fn failure_name(failure: QrFailure) -> Seq<char> {
    match failure {
        QrFailure::DataTooLong => "DataTooLong"@,
        QrFailure::InvalidVersion => "InvalidVersion"@,
        QrFailure::UnsupportedCharacterSet => "UnsupportedCharacterSet"@,
        QrFailure::InvalidEciDesignator => "InvalidEciDesignator"@,
        QrFailure::InvalidCharacter => "InvalidCharacter"@,
    }
}

fn failure_text(failure: QrFailure) -> (text: &'static str)
    ensures
        text@ == failure_name(failure),
{
    match failure {
        QrFailure::DataTooLong => "DataTooLong",
        QrFailure::InvalidVersion => "InvalidVersion",
        QrFailure::UnsupportedCharacterSet => "UnsupportedCharacterSet",
        QrFailure::InvalidEciDesignator => "InvalidEciDesignator",
        QrFailure::InvalidCharacter => "InvalidCharacter",
    }
}

/// Side of the pairing QR code, in pixels (at least).
pub const QR_SIZE: u32 = 180;

/// What the pairing dialog shows for a rendering of the QR code: the SVG
/// document itself, or the text `Erro QR: <reason>` when the crate could
/// not encode the content.
pub fn qr_outcome(rendered: Result<String, QrFailure>) -> (shown: Result<String, String>)
    ensures
        match rendered {
            Ok(document) => shown matches Ok(text) && text@ == document@,
            Err(failure) => shown matches Err(text) && text@ == "Erro QR: "@ + failure_name(failure),
        },
{
    match rendered {
        Ok(text) => Ok(text),
        Err(failure) => {
            let mut text = String::from_str("Erro QR: ");
            text.append(failure_text(failure));
            Err(text)
        },
    }
}

/// The pairing QR code for `content` as an SVG document, drawn in dark
/// slate on white, at least 180 pixels wide; when no QR code can hold the
/// content, the text `Erro QR: <reason>` with the reason the crate gives.
pub fn generate_qr_svg_string(content: &str) -> (svg: Result<String, String>)
    ensures
        match qr_svg_document(vstd::string::StringSliceAdditionalSpecFns::spec_bytes(content), QR_SIZE, "#0f172a"@, "#ffffff"@) {
            Ok(document) => svg matches Ok(text) && text@ == document,
            Err(failure) => svg matches Err(text) && text@ == "Erro QR: "@ + failure_name(failure),
        },
{
    qr_outcome(render_qr_svg(content.as_bytes(), QR_SIZE, "#0f172a", "#ffffff"))
}

} // verus!
