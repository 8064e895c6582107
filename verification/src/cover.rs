//! Album art.

use vstd::prelude::*;

verus! {

/// The image formats that a cover can have.
#[derive(Clone, Copy, Debug, PartialEq, Eq, Structural)]
pub enum ImageFormat {
    Png,
    Jpeg,
    Gif,
    Bmp,
    Tiff,
}

/// What a picture shows.
#[derive(Clone, Copy, Debug, PartialEq, Eq, Structural)]
pub enum PictureKind {
    Other,
    CoverFront,
}

/// A picture to embed in a tag.
#[derive(Clone, Debug)]
pub struct CoverArt {
    pub kind: PictureKind,
    pub format: ImageFormat,
    pub data: Vec<u8>,
}

/// The contents of a [`CoverArt`].
#[verifier::ext_equal]
pub struct CoverArtView {
    pub kind: PictureKind,
    pub format: ImageFormat,
    pub data: Seq<u8>,
}

impl View for CoverArt {
    type V = CoverArtView;

    open spec fn view(&self) -> CoverArtView {
        CoverArtView { kind: self.kind, format: self.format, data: self.data@ }
    }
}

/// The contents of an optional [`CoverArt`].
pub open spec fn optional_cover(cover: Option<CoverArt>) -> Option<CoverArtView> {
    match cover {
        Some(art) => Some(art@),
        None => None,
    }
}

/// Whether `data` begins with `prefix`.
pub open spec fn begins(data: Seq<u8>, prefix: Seq<u8>) -> bool {
    prefix.is_prefix_of(data)
}

/// The format that the first bytes of an image tell.
pub open spec fn format_by_signature(data: Seq<u8>) -> Option<ImageFormat> {
    if data.len() < 8 {
        None
    } else if begins(data, seq![0x89, 0x50, 0x4e, 0x47, 0x0d, 0x0a, 0x1a, 0x0a]) {
        Some(ImageFormat::Png)
    } else if begins(data, seq![0xff, 0xd8]) {
        Some(ImageFormat::Jpeg)
    } else if begins(data, seq![0x47, 0x49, 0x46, 0x38, 0x37, 0x61]) || begins(
        data,
        seq![0x47, 0x49, 0x46, 0x38, 0x39, 0x61],
    ) {
        Some(ImageFormat::Gif)
    } else if begins(data, seq![0x42, 0x4d]) {
        Some(ImageFormat::Bmp)
    } else if begins(data, seq![0x49, 0x49, 0x2a, 0x00]) || begins(
        data,
        seq![0x4d, 0x4d, 0x00, 0x2a],
    ) {
        Some(ImageFormat::Tiff)
    } else {
        None
    }
}

/// `lofty::picture::Picture::from_reader` on the bytes of `data`, and the MIME type of the picture
/// that it gives. It gives one exactly for data of eight bytes or more that begin with the
/// signature of a PNG, JPEG, GIF, BMP or TIFF image, and the MIME type is that of the signature.
#[verifier::external_body]
fn sniff(data: &Vec<u8>) -> (format: Option<ImageFormat>)
    ensures
        format == format_by_signature(data@),
{
    let mut reader = std::io::Cursor::new(data.as_slice());
    let picture = lofty::picture::Picture::from_reader(&mut reader).ok()?;
    match picture.mime_type()? {
        lofty::picture::MimeType::Png => Some(ImageFormat::Png),
        lofty::picture::MimeType::Jpeg => Some(ImageFormat::Jpeg),
        lofty::picture::MimeType::Gif => Some(ImageFormat::Gif),
        lofty::picture::MimeType::Bmp => Some(ImageFormat::Bmp),
        lofty::picture::MimeType::Tiff => Some(ImageFormat::Tiff),
        _ => None,
    }
}

/// The format that the `Content-Type` of a response tells: PNG where it says so, else JPEG.
pub open spec fn format_by_content_type(content_type: Option<Seq<char>>) -> ImageFormat {
    if content_type == Some("image/png"@) {
        ImageFormat::Png
    } else {
        ImageFormat::Jpeg
    }
}

/// The front cover that a response holds: none where the request did not succeed or the body is
/// too short for an image, and otherwise all bytes of the body, in the format that they tell, or
/// else the content type.
pub open spec fn cover_in(
    success: bool,
    data: Seq<u8>,
    content_type: Option<Seq<char>>,
) -> Option<CoverArtView> {
    if !success || data.len() < 8 {
        None
    } else {
        Some(
            CoverArtView {
                kind: PictureKind::CoverFront,
                format: match format_by_signature(data) {
                    Some(format) => format,
                    None => format_by_content_type(content_type),
                },
                data,
            },
        )
    }
}

/// Makes the front cover of an album from a response: whether its status is a success, its body,
/// and its `Content-Type`. The bytes decide the format where they can. A failure gives no cover.
pub fn cover_from_response(success: bool, data: Vec<u8>, content_type: Option<String>) -> (cover:
    Option<CoverArt>)
    ensures
        optional_cover(cover) == cover_in(
            success,
            data@,
            crate::text::optional_text(content_type),
        ),
{
    if !success || data.len() < 8 {
        return None;
    }
    let format = match sniff(&data) {
        Some(format) => format,
        None => match content_type {
            Some(mime) => if mime == "image/png".to_owned() {
                ImageFormat::Png
            } else {
                ImageFormat::Jpeg
            },
            None => ImageFormat::Jpeg,
        },
    };
    Some(CoverArt { kind: PictureKind::CoverFront, format, data })
}

/// A body that tells its format is embedded in that format, whatever the content type says.
pub proof fn bytes_decide_the_format(
    data: Seq<u8>,
    one: Option<Seq<char>>,
    other: Option<Seq<char>>,
)
    requires
        format_by_signature(data) is Some,
    ensures
        cover_in(true, data, one) == cover_in(true, data, other),
{
}

/// A response yields a cover exactly where it is a success with a body of eight bytes or more, and
/// the cover holds that body unchanged, as a front cover.
pub proof fn covers_hold_the_body(success: bool, data: Seq<u8>, content_type: Option<Seq<char>>)
    ensures
        cover_in(success, data, content_type) is Some <==> success && data.len() >= 8,
        cover_in(success, data, content_type) matches Some(cover) ==> cover.data == data
            && cover.kind == PictureKind::CoverFront,
{
}

/// The first bytes of a body of eight bytes or more, whatever its length and its content type, tell
/// the format of the cover.
pub proof fn first_bytes_tell_the_format(data: Seq<u8>, content_type: Option<Seq<char>>)
    requires
        data.len() >= 8,
    ensures
        ({
            let cover = cover_in(true, data, content_type);
            &&& cover is Some
            &&& data[0] == 0x89 && data[1] == 0x50 && data[2] == 0x4e && data[3] == 0x47 && data[4]
                == 0x0d && data[5] == 0x0a && data[6] == 0x1a && data[7] == 0x0a
                ==> cover->0.format == ImageFormat::Png
            &&& data[0] == 0xff && data[1] == 0xd8 ==> cover->0.format == ImageFormat::Jpeg
            &&& data[0] == 0x47 && data[1] == 0x49 && data[2] == 0x46 && data[3] == 0x38 && (data[4]
                == 0x37 || data[4] == 0x39) && data[5] == 0x61 ==> cover->0.format
                == ImageFormat::Gif
            &&& data[0] == 0x42 && data[1] == 0x4d ==> cover->0.format == ImageFormat::Bmp
            &&& data[0] == 0x49 && data[1] == 0x49 && data[2] == 0x2a && data[3] == 0x00
                ==> cover->0.format == ImageFormat::Tiff
            &&& data[0] == 0x4d && data[1] == 0x4d && data[2] == 0x00 && data[3] == 0x2a
                ==> cover->0.format == ImageFormat::Tiff
        }),
{
    signatures_are_first_bytes(data);
}

/// Where the first bytes are those of no image, the cover is PNG exactly where the content type is
/// `image/png`, and JPEG otherwise.
pub proof fn content_type_tells_the_format_otherwise(
    data: Seq<u8>,
    content_type: Option<Seq<char>>,
)
    requires
        data.len() >= 8,
        !(data[0] == 0x89 && data[1] == 0x50 && data[2] == 0x4e && data[3] == 0x47 && data[4]
            == 0x0d && data[5] == 0x0a && data[6] == 0x1a && data[7] == 0x0a),
        !(data[0] == 0xff && data[1] == 0xd8),
        !(data[0] == 0x47 && data[1] == 0x49 && data[2] == 0x46 && data[3] == 0x38 && (data[4]
            == 0x37 || data[4] == 0x39) && data[5] == 0x61),
        !(data[0] == 0x42 && data[1] == 0x4d),
        !(data[0] == 0x49 && data[1] == 0x49 && data[2] == 0x2a && data[3] == 0x00),
        !(data[0] == 0x4d && data[1] == 0x4d && data[2] == 0x00 && data[3] == 0x2a),
    ensures
        cover_in(true, data, content_type) is Some,
        content_type == Some("image/png"@) ==> cover_in(true, data, content_type)->0.format
            == ImageFormat::Png,
        content_type != Some("image/png"@) ==> cover_in(true, data, content_type)->0.format
            == ImageFormat::Jpeg,
{
    signatures_are_first_bytes(data);
}

proof fn beginnings_are_first_bytes(data: Seq<u8>, prefix: Seq<u8>)
    requires
        prefix.len() <= data.len(),
    ensures
        begins(data, prefix) <==> forall|i: int| 0 <= i < prefix.len() ==> data[i] == prefix[i],
{
    if begins(data, prefix) {
        assert(data.subrange(0, prefix.len() as int) == prefix);
        assert forall|i: int| 0 <= i < prefix.len() implies data[i] == prefix[i] by {
            assert(data.subrange(0, prefix.len() as int)[i] == data[i]);
        }
    } else if forall|i: int| 0 <= i < prefix.len() ==> data[i] == prefix[i] {
        assert(data.subrange(0, prefix.len() as int) == prefix);
    }
}

proof fn signatures_are_first_bytes(data: Seq<u8>)
    requires
        data.len() >= 8,
    ensures
        format_by_signature(data) == if data[0] == 0x89 && data[1] == 0x50 && data[2] == 0x4e
            && data[3] == 0x47 && data[4] == 0x0d && data[5] == 0x0a && data[6] == 0x1a && data[7]
            == 0x0a {
            Some(ImageFormat::Png)
        } else if data[0] == 0xff && data[1] == 0xd8 {
            Some(ImageFormat::Jpeg)
        } else if data[0] == 0x47 && data[1] == 0x49 && data[2] == 0x46 && data[3] == 0x38 && (
        data[4] == 0x37 || data[4] == 0x39) && data[5] == 0x61 {
            Some(ImageFormat::Gif)
        } else if data[0] == 0x42 && data[1] == 0x4d {
            Some(ImageFormat::Bmp)
        } else if data[0] == 0x49 && data[1] == 0x49 && data[2] == 0x2a && data[3] == 0x00 {
            Some(ImageFormat::Tiff)
        } else if data[0] == 0x4d && data[1] == 0x4d && data[2] == 0x00 && data[3] == 0x2a {
            Some(ImageFormat::Tiff)
        } else {
            None
        },
{
    let png: Seq<u8> = seq![0x89, 0x50, 0x4e, 0x47, 0x0d, 0x0a, 0x1a, 0x0a];
    let jpeg: Seq<u8> = seq![0xff, 0xd8];
    let gif_87: Seq<u8> = seq![0x47, 0x49, 0x46, 0x38, 0x37, 0x61];
    let gif_89: Seq<u8> = seq![0x47, 0x49, 0x46, 0x38, 0x39, 0x61];
    let bmp: Seq<u8> = seq![0x42, 0x4d];
    let tiff_le: Seq<u8> = seq![0x49, 0x49, 0x2a, 0x00];
    let tiff_be: Seq<u8> = seq![0x4d, 0x4d, 0x00, 0x2a];
    beginnings_are_first_bytes(data, png);
    beginnings_are_first_bytes(data, jpeg);
    beginnings_are_first_bytes(data, gif_87);
    beginnings_are_first_bytes(data, gif_89);
    beginnings_are_first_bytes(data, bmp);
    beginnings_are_first_bytes(data, tiff_le);
    beginnings_are_first_bytes(data, tiff_be);
    assert(png[0] == 0x89 && png[1] == 0x50 && png[2] == 0x4e && png[3] == 0x47 && png[4] == 0x0d
        && png[5] == 0x0a && png[6] == 0x1a && png[7] == 0x0a);
    assert(jpeg[0] == 0xff && jpeg[1] == 0xd8);
    assert(gif_87[0] == 0x47 && gif_87[1] == 0x49 && gif_87[2] == 0x46 && gif_87[3] == 0x38
        && gif_87[4] == 0x37 && gif_87[5] == 0x61);
    assert(gif_89[0] == 0x47 && gif_89[1] == 0x49 && gif_89[2] == 0x46 && gif_89[3] == 0x38
        && gif_89[4] == 0x39 && gif_89[5] == 0x61);
    assert(bmp[0] == 0x42 && bmp[1] == 0x4d);
    assert(tiff_le[0] == 0x49 && tiff_le[1] == 0x49 && tiff_le[2] == 0x2a && tiff_le[3] == 0x00);
    assert(tiff_be[0] == 0x4d && tiff_be[1] == 0x4d && tiff_be[2] == 0x00 && tiff_be[3] == 0x2a);
}

/// The view of a cover tells its kind, format and bytes as they are.
pub proof fn cover_views_are_exact(art: CoverArt)
    ensures
        art@.kind == art.kind,
        art@.format == art.format,
        art@.data == art.data@,
        optional_cover(Some(art)) == Some(art@),
        optional_cover(None) is None,
{
}

} // verus!
