//! Turning the bytes of a captured image into the PNG file stored for it.
use vstd::prelude::*;

use crate::db::sql::{is_uuid_v4_text, new_uuid};
use crate::text::{append_chars, chars_of, string_from};

verus! {

/// The PNG encoding of the image held in `bytes` (its format, PNG or BMP, guessed
/// from the bytes themselves); none when the bytes cannot be decoded as an image or the
/// image cannot be encoded.
pub uninterp spec fn png_of(bytes: Seq<u8>) -> Option<Seq<u8>>;

/// `image::load_from_memory`, then `DynamicImage::write_to` with
/// `ImageFormat::Png` into memory (the encoder `save_with_format` uses for a PNG
/// file). Decoding and encoding depend on the bytes alone, so the result is
/// named `png_of`; either error gives none.
#[verifier::external_body]
fn reencode_png(bytes: &[u8]) -> (r: Option<Vec<u8>>)
    ensures
        (r is Some) == (png_of(bytes@) is Some),
        r matches Some(v) ==> v@ == png_of(bytes@)->Some_0,
{
    let image = image::load_from_memory(bytes).ok()?;
    let mut out = std::io::Cursor::new(Vec::new());
    image.write_to(&mut out, image::ImageFormat::Png).ok()?;
    Some(out.into_inner())
}

/// The name of a stored image: a random id followed by `.png`.
pub open spec fn is_png_file_name(name: Seq<char>) -> bool {
    &&& name.len() == 40
    &&& is_uuid_v4_text(name.take(36))
    &&& name.skip(36) == seq!['.', 'p', 'n', 'g']
}

/// A captured image ready to be written to the images folder.
pub struct ImageFile {
    pub file_name: String,
    pub png: Vec<u8>,
}

/// The file for the image captured as `bytes`: the image re-encoded as PNG under
/// a new random name; none when the bytes are not an image that can be re-encoded.
pub fn image_file(bytes: &[u8]) -> (r: Option<ImageFile>)
    ensures
        (r is Some) == (png_of(bytes@) is Some),
        r matches Some(f) ==> {
            &&& f.png@ == png_of(bytes@)->Some_0
            &&& is_png_file_name(f.file_name@)
        },
{
    let png = match reencode_png(bytes) {
        Some(v) => v,
        None => return None,
    };
    let id = new_uuid();
    let mut name = chars_of(id.as_str());
    let ext = vec!['.', 'p', 'n', 'g'];
    append_chars(&mut name, &ext);
    assert(name@.take(36) =~= id@);
    assert(name@.skip(36) =~= seq!['.', 'p', 'n', 'g']);
    Some(ImageFile { file_name: string_from(&name), png })
}

} // verus!
