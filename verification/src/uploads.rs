//! User image uploads: avatars and community artwork.
//!
//! Every upload is decoded (rejecting non-images), downscaled to at most
//! 1024px and re-encoded as JPEG, which also strips EXIF metadata; then it is
//! stored and served back from `/uploads/{file}`.

use crate::errors::AppError;
use crate::ids;
use crate::ids::Uuid;
use crate::text;
use vstd::prelude::*;
use vstd::string::*;

verus! {

/// Largest width and height of a stored image.
pub const MAX_DIMENSION: u32 = 1024;

/// Hard cap on decoded source dimensions; anything larger is rejected before
/// decode to bound memory (guards against decompression bombs).
pub const MAX_SOURCE_DIMENSION: u32 = 12_000;

pub const JPEG_QUALITY: u8 = 85;

/// Where uploaded images are written and how their public URLs are built.
#[derive(Debug, PartialEq, Eq)]
pub struct UploadConfig {
    /// Local directory backing `/uploads` (created at startup).
    pub dir: String,
    /// External base URL clients can reach the API on; stored image URLs
    /// are `{public_base_url}/uploads/{file}`.
    pub public_base_url: String,
}

// ---------------------------------------------------------------------------
// The multipart field
// ---------------------------------------------------------------------------

/// Whether a multipart field is the upload: it has the conventional name, or it
/// carries a file.
pub fn is_image_field(name: Option<&str>, has_file_name: bool) -> (res: bool)
    ensures
        res == (name.deep_view() == Some("image"@) || has_file_name),
{
    let named: bool = match name {
        Some(n) => n.eq("image"),
        None => false,
    };
    named || has_file_name
}

/// The upload that the first such field carries. `None` means that the body has
/// no such field.
pub fn read_image_field(content: Option<Vec<u8>>) -> (res: Result<Vec<u8>, AppError>)
    ensures
        match content {
            Some(bytes) => if bytes@.len() == 0 {
                res matches Err(e) && e.deep_view() == AppError::<Seq<char>>::BadRequest(
                    "uploaded file is empty"@,
                )
            } else {
                res == Ok::<Vec<u8>, AppError>(bytes)
            },
            None => res matches Err(e) && e.deep_view() == AppError::<Seq<char>>::BadRequest(
                "multipart body must contain an `image` file field"@,
            ),
        },
{
    match content {
        Some(bytes) => if bytes.len() == 0 {
            Err(AppError::BadRequest("uploaded file is empty".to_owned()))
        } else {
            Ok(bytes)
        },
        None => Err(
            AppError::BadRequest("multipart body must contain an `image` file field".to_owned()),
        ),
    }
}

// ---------------------------------------------------------------------------
// The picture
// ---------------------------------------------------------------------------

/// A decoded picture, whose pixels only the `image` crate looks at.
#[verifier::external_type_specification]
#[verifier::external_body]
pub struct ExDynamicImage(image::DynamicImage);

/// Why a file could not be decoded.
#[derive(Debug, Clone, Copy, PartialEq, Eq, Structural)]
pub enum DecodeFailure {
    /// Its beginning could not be read.
    Unreadable,
    /// It is no image in a supported format, or a larger one than allowed.
    Unsupported,
}

/// The width and height of a picture.
pub uninterp spec fn picture_size(picture: image::DynamicImage) -> (u32, u32);

/// What `image` decodes a file to, given the largest width and height.
pub uninterp spec fn decoded_picture(bytes: Seq<u8>, max_width: u32, max_height: u32) -> Result<
    image::DynamicImage,
    DecodeFailure,
>;

/// What `image` scales a picture down to, given the bounds it has to fit in.
pub uninterp spec fn thumbnail_picture(
    picture: image::DynamicImage,
    width: u32,
    height: u32,
) -> image::DynamicImage;

/// What `image` encodes the colours of a picture to as JPEG, given the quality.
pub uninterp spec fn jpeg_file(picture: image::DynamicImage, quality: u8) -> Result<
    Seq<u8>,
    Seq<char>,
>;

/// `image::ImageReader` with its format guessed from the content and its
/// dimensions limited, then `decode`. The result is named; a picture that comes
/// out keeps the limits, which are strict.
#[verifier::external_body]
fn decode_picture(bytes: &Vec<u8>, max_width: u32, max_height: u32) -> (res: Result<
    image::DynamicImage,
    DecodeFailure,
>)
    ensures
        res == decoded_picture(bytes@, max_width, max_height),
        res matches Ok(picture) ==> picture_size(picture).0 <= max_width && picture_size(picture).1
            <= max_height,
{
    let mut reader = image::ImageReader::new(std::io::Cursor::new(bytes))
        .with_guessed_format()
        .map_err(|_| DecodeFailure::Unreadable)?;
    let mut limits = image::Limits::default();
    limits.max_image_width = Some(max_width);
    limits.max_image_height = Some(max_height);
    reader.limits(limits);
    reader.decode().map_err(|_| DecodeFailure::Unsupported)
}

/// `image::DynamicImage::width` and `height`.
#[verifier::external_body]
fn size_of_picture(picture: &image::DynamicImage) -> (res: (u32, u32))
    ensures
        res == picture_size(*picture),
{
    (picture.width(), picture.height())
}

/// The picture is too large to be stored as it is.
pub open spec fn oversized(size: (u32, u32)) -> bool {
    size.0 > MAX_DIMENSION || size.1 > MAX_DIMENSION
}

/// Neither side is longer than a source may have.
pub open spec fn within_cap(size: (u32, u32)) -> bool {
    size.0 <= MAX_SOURCE_DIMENSION && size.1 <= MAX_SOURCE_DIMENSION
}

/// A side of length `from` became one of length `to` and did not grow, except
/// that a side of nothing becomes one pixel.
pub open spec fn shrunk(from: u32, to: u32) -> bool {
    1 <= to && (to <= from || (from == 0 && to == 1))
}

/// A picture of size `from`, which is too large, was scaled to the size `to`:
/// its longer side fills the bounds, no side has grown, and the proportions are
/// kept to within a pixel.
pub open spec fn scaled_down(from: (u32, u32), to: (u32, u32)) -> bool {
    &&& shrunk(from.0, to.0)
    &&& shrunk(from.1, to.1)
    &&& from.0 >= from.1 ==> to.0 == MAX_DIMENSION && to.1 <= MAX_DIMENSION
    &&& from.1 >= from.0 ==> to.1 == MAX_DIMENSION && to.0 <= MAX_DIMENSION
    &&& from.0 >= from.1 >= 1 ==> (to.1 - 1) * from.0 < from.1 * MAX_DIMENSION < (to.1 + 1)
        * from.0
    &&& from.1 >= from.0 >= 1 ==> (to.0 - 1) * from.1 < from.0 * MAX_DIMENSION < (to.0 + 1)
        * from.1
}

/// `image::DynamicImage::thumbnail` of a picture that is too large, with
/// [`MAX_DIMENSION`] for both bounds: the picture scaled, its aspect ratio
/// preserved, to the largest size that fits within them. The result is named;
/// of its size it is stated how it comes from that of the source, each side
/// rounded to whole pixels and at least one. Sources beyond the cap are
/// excluded: `image` adds up the samples of a pixel in 32 bits, and too many of
/// 16 bits overflow that.
#[verifier::external_body]
fn thumbnail(picture: &image::DynamicImage, width: u32, height: u32) -> (res: image::DynamicImage)
    requires
        width == MAX_DIMENSION,
        height == MAX_DIMENSION,
        oversized(picture_size(*picture)),
        within_cap(picture_size(*picture)),
    ensures
        res == thumbnail_picture(*picture, width, height),
        scaled_down(picture_size(*picture), picture_size(res)),
{
    picture.thumbnail(width, height)
}

/// The sizes that a JPEG file can have.
pub open spec fn encodable(size: (u32, u32)) -> bool {
    1 <= size.0 <= 65_535 && 1 <= size.1 <= 65_535
}

/// `image::DynamicImage::into_rgb8`, then
/// `image::codecs::jpeg::JpegEncoder::encode_image` at the given quality into a
/// new buffer. The result is named; it is a failure exactly for a picture that
/// is empty or larger than JPEG allows.
#[verifier::external_body]
fn encode_jpeg(picture: image::DynamicImage, quality: u8) -> (res: Result<Vec<u8>, String>)
    ensures
        text::result_view(res) == jpeg_file(picture, quality),
        res is Ok == encodable(picture_size(picture)),
{
    let mut out = std::io::Cursor::new(Vec::new());
    let rgb = image::DynamicImage::ImageRgb8(picture.into_rgb8());
    image::codecs::jpeg::JpegEncoder::new_with_quality(&mut out, quality)
        .encode_image(&rgb)
        .map_err(|e| e.to_string())?;
    Ok(out.into_inner())
}

/// Whether a picture is too large to be stored as it is.
pub fn is_oversized(width: u32, height: u32) -> (res: bool)
    ensures
        res == oversized((width, height)),
{
    width > MAX_DIMENSION || height > MAX_DIMENSION
}

/// A picture as it is stored: scaled down if it is too large.
pub open spec fn stored_picture(picture: image::DynamicImage) -> image::DynamicImage {
    if oversized(picture_size(picture)) {
        thumbnail_picture(picture, MAX_DIMENSION, MAX_DIMENSION)
    } else {
        picture
    }
}

/// A picture of size `from` is stored with the size `to`: its own if it fits,
/// else scaled down.
pub open spec fn stored_size(from: (u32, u32), to: (u32, u32)) -> bool {
    if oversized(from) {
        scaled_down(from, to)
    } else {
        to == from
    }
}

/// Scales a picture down if it is too large. No stored picture is wider or
/// higher than [`MAX_DIMENSION`], and none is enlarged.
pub fn clamp_picture(picture: image::DynamicImage) -> (res: image::DynamicImage)
    requires
        within_cap(picture_size(picture)),
    ensures
        res == stored_picture(picture),
        stored_size(picture_size(picture), picture_size(res)),
        picture_size(res).0 <= MAX_DIMENSION,
        picture_size(res).1 <= MAX_DIMENSION,
{
    let (width, height) = size_of_picture(&picture);
    if is_oversized(width, height) {
        thumbnail(&picture, MAX_DIMENSION, MAX_DIMENSION)
    } else {
        picture
    }
}

/// The size that a picture is stored with keeps the limits.
pub open spec fn stores_within_limits(picture: image::DynamicImage) -> bool {
    let to = picture_size(stored_picture(picture));
    &&& stored_size(picture_size(picture), to)
    &&& to.0 <= MAX_DIMENSION
    &&& to.1 <= MAX_DIMENSION
}

/// The error for a file that could not be decoded.
pub open spec fn decode_error(failure: DecodeFailure) -> AppError<Seq<char>> {
    match failure {
        DecodeFailure::Unreadable => AppError::BadRequest("could not read image"@),
        DecodeFailure::Unsupported => AppError::BadRequest("file is not a supported image"@),
    }
}

/// What an upload is stored as: decoded, clamped and encoded as JPEG.
pub open spec fn normalized_image(
    decoded: Result<image::DynamicImage, DecodeFailure>,
) -> Result<Seq<u8>, AppError<Seq<char>>> {
    match decoded {
        Err(failure) => Err(decode_error(failure)),
        Ok(picture) => match jpeg_file(stored_picture(picture), JPEG_QUALITY) {
            Ok(file) => Ok(file),
            Err(error) => Err(AppError::Internal("jpeg encode failed: "@ + error)),
        },
    }
}

/// What a decoded upload is stored as.
pub fn render(decoded: Result<image::DynamicImage, DecodeFailure>) -> (res: Result<
    Vec<u8>,
    AppError,
>)
    requires
        decoded matches Ok(picture) ==> within_cap(picture_size(picture)),
    ensures
        res is Ok ==> (decoded matches Ok(picture) && stores_within_limits(picture)),
        match res {
            Ok(file) => normalized_image(decoded) == Ok::<Seq<u8>, AppError<Seq<char>>>(file@),
            Err(e) => normalized_image(decoded) == Err::<Seq<u8>, AppError<Seq<char>>>(
                e.deep_view(),
            ),
        },
{
    match decoded {
        Err(DecodeFailure::Unreadable) => Err(
            AppError::BadRequest("could not read image".to_owned()),
        ),
        Err(DecodeFailure::Unsupported) => Err(
            AppError::BadRequest("file is not a supported image".to_owned()),
        ),
        Ok(picture) => match encode_jpeg(clamp_picture(picture), JPEG_QUALITY) {
            Ok(file) => {
                proof {
                    assert(file.deep_view() =~= file@);
                }
                Ok(file)
            },
            Err(error) => Err(
                AppError::Internal(text::join2("jpeg encode failed: ", error.as_str())),
            ),
        },
    }
}

/// Decode, clamp to [`MAX_DIMENSION`], JPEG. Rejects anything that doesn't
/// decode as an image, and sources larger than [`MAX_SOURCE_DIMENSION`].
pub fn normalize_image(bytes: &Vec<u8>) -> (res: Result<Vec<u8>, AppError>)
    ensures
        ({
            let outcome = normalized_image(
                decoded_picture(bytes@, MAX_SOURCE_DIMENSION, MAX_SOURCE_DIMENSION),
            );
            match res {
                Ok(file) => outcome == Ok::<Seq<u8>, AppError<Seq<char>>>(file@),
                Err(e) => outcome == Err::<Seq<u8>, AppError<Seq<char>>>(e.deep_view()),
            }
        }),
        res is Ok ==> (decoded_picture(bytes@, MAX_SOURCE_DIMENSION, MAX_SOURCE_DIMENSION) matches Ok(
            picture,
        ) && within_cap(picture_size(picture)) && stores_within_limits(picture)),
{
    render(decode_picture(bytes, MAX_SOURCE_DIMENSION, MAX_SOURCE_DIMENSION))
}

// ---------------------------------------------------------------------------
// Stored files
// ---------------------------------------------------------------------------

/// The name of a stored file.
pub open spec fn file_name(id: Uuid) -> Seq<char> {
    ids::hyphenated(id) + ".jpg"@
}

/// The public address of a stored file.
pub open spec fn file_url(public_base_url: Seq<char>, name: Seq<char>) -> Seq<char> {
    public_base_url + "/uploads/"@ + name
}

/// The name that the file of a given id is stored under, and its public
/// address.
pub fn stored_file(public_base_url: &str, id: Uuid) -> (res: (String, String))
    ensures
        res.0@ == file_name(id),
        res.1@ == file_url(public_base_url@, file_name(id)),
{
    let name = text::join2(ids::uuid_text(id).as_str(), ".jpg");
    let url = text::join3(public_base_url, "/uploads/", name.as_str());
    (name, url)
}

/// The name that a new file is stored under, which is made up for it, and its
/// public address.
pub fn store_image(public_base_url: &str) -> (res: (String, String))
    ensures
        exists|id: Uuid|
            res.0@ == #[trigger] file_name(id) && res.1@ == file_url(
                public_base_url@,
                file_name(id),
            ),
{
    let id = ids::new_uuid();
    stored_file(public_base_url, id)
}

/// A name that leads out of the upload directory.
pub open spec fn leads_astray(name: Seq<char>) -> bool {
    name.contains('/') || name.contains('\\') || text::occurs_in(name, ".."@)
}

/// The file of ours that an address names: what follows the base address and
/// `/uploads/` in it. An address that begins otherwise (an enrichment provider's,
/// or any other host's) names none, and neither does one that leads out of the
/// directory.
pub open spec fn owned_file(public_base_url: Seq<char>, url: Seq<char>) -> Option<Seq<char>> {
    let prefix = file_url(public_base_url, Seq::empty());
    let name = url.skip(prefix.len() as int);
    if text::occurs_at(url, prefix, 0) && !leads_astray(name) {
        Some(name)
    } else {
        None
    }
}

/// The file that may be removed when the image at `old_url` is replaced.
pub fn delete_if_owned(public_base_url: &str, old_url: Option<&str>) -> (res: Option<String>)
    ensures
        res.deep_view() == (match old_url {
            Some(url) => owned_file(public_base_url@, url@),
            None => None,
        }),
{
    let url = match old_url {
        Some(url) => url,
        None => return None,
    };
    let prefix = text::join2(public_base_url, "/uploads/");
    proof {
        assert(prefix@ =~= file_url(public_base_url@, Seq::empty()));
    }
    match text::strip_prefix(url, prefix.as_str()) {
        Some(name) => {
            proof {
                assert(url@.subrange(0, prefix@.len() as int) =~= prefix@);
                assert(url@.skip(prefix@.len() as int) =~= name@);
            }
            // Guard against traversal; stored names are always `{uuid}.jpg`.
            if text::contains_char(name.as_str(), '/') || text::contains_char(name.as_str(), '\\')
                || text::contains(name.as_str(), "..") {
                return None;
            }
            Some(name)
        },
        None => None,
    }
}

/// The names under which files are stored never lead out of the upload
/// directory, so a replaced upload can always be removed.
pub proof fn law_stored_names_stay_in_the_directory(id: Uuid)
    ensures
        !leads_astray(file_name(id)),
{
    let name = file_name(id);
    reveal_strlit(".jpg");
    reveal_strlit("..");
    ids::law_hyphenated_characters(id);
    let stem = ids::hyphenated(id);
    assert(name.len() == 40);
    assert forall|i: int| 0 <= i < name.len() implies name[i] != '/' && name[i] != '\\' && (
    name[i] == '.' ==> i == 36) by {
        if i < 36 {
            assert(name[i] == stem[i]);
        }
    }
    if text::occurs_in(name, ".."@) {
        let at = choose|at: int| text::occurs_at(name, ".."@, at);
        assert(name.subrange(at, at + 2)[0] == ".."@[0]);
        assert(name.subrange(at, at + 2)[1] == ".."@[1]);
        assert(name[at] == '.');
        assert(name[at + 1] == '.');
    }
}

/// The file of a replaced upload is the one that is removed.
pub proof fn law_replaced_upload_is_removed(public_base_url: Seq<char>, id: Uuid)
    ensures
        owned_file(public_base_url, file_url(public_base_url, file_name(id))) == Some(
            file_name(id),
        ),
{
    law_owned_files_have_our_address(public_base_url, file_name(id));
    law_stored_names_stay_in_the_directory(id);
}

/// What is removed is a file of ours: an address names the file `name` exactly
/// when it is the public address of that name, which stays in the directory.
pub proof fn law_owned_files_have_our_address(public_base_url: Seq<char>, name: Seq<char>)
    ensures
        !leads_astray(name) ==> owned_file(public_base_url, file_url(public_base_url, name))
            == Some(name),
        forall|url: Seq<char>| #[trigger]
            owned_file(public_base_url, url) == Some(name) ==> url == file_url(
                public_base_url,
                name,
            ) && !leads_astray(name),
{
    let prefix = file_url(public_base_url, Seq::empty());
    let whole = file_url(public_base_url, name);
    assert(whole.subrange(0, prefix.len() as int) =~= prefix);
    assert(whole.skip(prefix.len() as int) =~= name);
    assert forall|url: Seq<char>| #[trigger]
        owned_file(public_base_url, url) == Some(name) implies url == whole && !leads_astray(
        name,
    ) by {
        assert(url =~= url.subrange(0, prefix.len() as int) + url.skip(prefix.len() as int));
        assert(url =~= whole);
    }
}

/// The limits on uploads: sources of at most 12000 pixels a side, stored at most
/// 1024 pixels a side.
pub proof fn law_upload_limits(size: (u32, u32))
    ensures
        oversized(size) <==> size.0 > 1024 || size.1 > 1024,
        within_cap(size) <==> size.0 <= 12_000 && size.1 <= 12_000,
        MAX_SOURCE_DIMENSION == 12_000,
{
}

/// What is stored of a picture is the JPEG, at quality 85, of the picture itself
/// where it fits in 1024 by 1024 pixels, and of its thumbnail of that size where
/// it does not.
pub proof fn law_what_is_stored_of_a_picture(picture: image::DynamicImage)
    ensures
        ({
            let size = picture_size(picture);
            let kept = if size.0 <= 1024 && size.1 <= 1024 {
                picture
            } else {
                thumbnail_picture(picture, 1024, 1024)
            };
            match jpeg_file(kept, 85) {
                Ok(file) => normalized_image(Ok(picture)) == Ok::<Seq<u8>, AppError<Seq<char>>>(
                    file,
                ),
                Err(error) => normalized_image(Ok(picture)) == Err::<Seq<u8>, AppError<Seq<char>>>(
                    AppError::Internal("jpeg encode failed: "@ + error),
                ),
            }
        }),
{
}

/// A file that is no picture is a bad request, and told why.
pub proof fn law_undecodable_files_are_refused()
    ensures
        normalized_image(Err(DecodeFailure::Unreadable)) == Err::<Seq<u8>, AppError<Seq<char>>>(
            AppError::BadRequest("could not read image"@),
        ),
        normalized_image(Err(DecodeFailure::Unsupported)) == Err::<Seq<u8>, AppError<Seq<char>>>(
            AppError::BadRequest("file is not a supported image"@),
        ),
{
}

/// A stored file is named after its id, as a JPEG, and served from below
/// `/uploads/`.
pub proof fn law_stored_file_names(public_base_url: Seq<char>, id: Uuid, name: Seq<char>)
    ensures
        file_name(id) == ids::hyphenated(id) + ".jpg"@,
        file_url(public_base_url, name) == public_base_url + "/uploads/"@ + name,
{
}

/// The upload is the first field that is named `image` or carries a file. It must
/// be there, and not be empty.
pub proof fn law_the_uploaded_field(
    name: Option<&str>,
    has_file_name: bool,
    is_image: bool,
    bytes: Vec<u8>,
    read: Result<Vec<u8>, AppError>,
    missing: Result<Vec<u8>, AppError>,
)
    requires
        call_ensures(is_image_field, (name, has_file_name), is_image),
        call_ensures(read_image_field, (Some(bytes),), read),
        call_ensures(read_image_field, (None::<Vec<u8>>,), missing),
    ensures
        is_image <==> has_file_name || (name matches Some(n) && n@ == "image"@),
        bytes@.len() > 0 ==> read == Ok::<Vec<u8>, AppError>(bytes),
        bytes@.len() == 0 ==> (read matches Err(e) && e.deep_view() == AppError::<
            Seq<char>,
        >::BadRequest("uploaded file is empty"@)),
        missing matches Err(e) && e.deep_view() == AppError::<Seq<char>>::BadRequest(
            "multipart body must contain an `image` file field"@,
        ),
{
}

/// When an image is replaced, the file behind its old address is removed exactly
/// where it is one of ours and its name stays in the directory.
pub proof fn law_replaced_files(
    public_base_url: &str,
    old_url: &str,
    res: Option<String>,
    none: Option<String>,
)
    requires
        call_ensures(delete_if_owned, (public_base_url, Some(old_url)), res),
        call_ensures(delete_if_owned, (public_base_url, None::<&str>), none),
    ensures
        none is None,
        res matches Some(name) ==> old_url@ == public_base_url@ + "/uploads/"@ + name@
            && !name@.contains('/') && !name@.contains('\\') && !text::occurs_in(name@, ".."@),
        forall|name: Seq<char>|
            old_url@ == #[trigger] (public_base_url@ + "/uploads/"@ + name) && !name.contains('/')
                && !name.contains('\\') && !text::occurs_in(name, ".."@) ==> res is Some,
{
    if let Some(name) = res {
        law_owned_files_have_our_address(public_base_url@, name@);
        assert(owned_file(public_base_url@, old_url@) == Some(name@));
    }
    assert forall|name: Seq<char>|
        old_url@ == #[trigger] (public_base_url@ + "/uploads/"@ + name) && !name.contains('/')
            && !name.contains('\\') && !text::occurs_in(name, ".."@) implies res is Some by {
        law_owned_files_have_our_address(public_base_url@, name);
    }
}

} // verus!
