use vstd::prelude::*;

use crate::config::PdfImageFormat;

verus! {

/// The character of a decimal digit.
pub open spec fn digit_char(d: nat) -> char {
    seq!['0', '1', '2', '3', '4', '5', '6', '7', '8', '9'][d as int]
}

/// The decimal digits of `n`, without leading zeros.
pub open spec fn decimal(n: nat) -> Seq<char>
    decreases n,
{
    if n < 10 {
        seq![digit_char(n)]
    } else {
        decimal(n / 10) + seq![digit_char(n % 10)]
    }
}

/// The file extension of an output format.
pub open spec fn extension_spec(format: PdfImageFormat) -> Seq<char> {
    match format {
        PdfImageFormat::Png => seq!['p', 'n', 'g'],
        PdfImageFormat::Jpeg => seq!['j', 'p', 'g'],
        PdfImageFormat::Webp => seq!['w', 'e', 'b', 'p'],
    }
}

/// The name of the file that holds page `index`: `"{index}.{extension}"`.
pub open spec fn file_name_spec(index: nat, format: PdfImageFormat) -> Seq<char> {
    decimal(index) + seq!['.'] + extension_spec(format)
}

/// Relies on std's `ToString` through `Display` for `u16`: the decimal digits,
/// without sign or leading zeros.
#[verifier::external_body]
fn decimal_string(n: u16) -> (r: String)
    ensures
        r@ == decimal(n as nat),
{
    n.to_string()
}

/// Relies on `image::ImageFormat::extensions_str`, whose first entry is
/// "png" for PNG, "jpg" for JPEG and "webp" for WebP.
#[verifier::external_body]
fn first_extension(format: PdfImageFormat) -> (r: String)
    ensures
        r@ == extension_spec(format),
{
    let format = match format {
        PdfImageFormat::Png => image::ImageFormat::Png,
        PdfImageFormat::Jpeg => image::ImageFormat::Jpeg,
        PdfImageFormat::Webp => image::ImageFormat::WebP,
    };
    format.extensions_str()[0].to_string()
}

/// The file name of the page with global index `index`.
pub fn image_name(index: u16, format: PdfImageFormat) -> (r: String)
    ensures
        r@ == file_name_spec(index as nat, format),
{
    let mut name = decimal_string(index);
    proof {
        reveal_strlit(".");
    }
    name.append(".");
    let extension = first_extension(format);
    name.append(extension.as_str());
    name
}

} // verus!
