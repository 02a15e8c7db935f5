//! Deciding how to answer a request for an icon.
//!
//! A request names a file by a percent-encoded path.  The answer is the
//! image in that file, or the icon of the application bundle or of the
//! program that the path names.  Looking at the disk and converting icons is
//! left to the caller; what to look at, and what to make of it, is decided
//! here.

use crate::launcher::{AppPlist, Platform};
use crate::text::{contains_char, ends_with};
use vstd::prelude::*;
use vstd::string::*;

verus! {

/// What `urlencoding::decode` makes of a percent-encoded text: the decoded
/// text, or nothing where the decoded bytes are not valid UTF-8.  The result
/// depends on the text alone.
pub uninterp spec fn percent_decoded(encoded: Seq<char>) -> Option<Seq<char>>;

/// `urlencoding::decode`, with an owned result and `None` for its error.
/// The contract gives the result its name and claims no more.
#[verifier::external_body]
fn percent_decode(encoded: &str) -> (decoded: Option<String>)
    ensures
        match decoded {
            Some(text) => percent_decoded(encoded@) == Some(text@),
            None => percent_decoded(encoded@) is None,
        },
{
    match urlencoding::decode(encoded) {
        Ok(text) => Some(text.into_owned()),
        Err(_) => None,
    }
}

/// The path of a request without its first character, the slash that the
/// path of a request starts with.
pub open spec fn without_lead(uri_path: Seq<char>) -> Seq<char> {
    if uri_path.len() == 0 {
        uri_path
    } else {
        uri_path.subrange(1, uri_path.len() as int)
    }
}

/// The path of a request without its first character.
pub fn strip_lead(uri_path: &str) -> (rest: &str)
    ensures
        rest@ == without_lead(uri_path@),
{
    let length = uri_path.unicode_len();
    if length == 0 {
        uri_path
    } else {
        uri_path.substring_char(1, length)
    }
}

/// What a request for `uri_path` comes to, once its path was decoded or
/// found not to decode: the decoded path, or the failure of a path that is
/// no text.
pub fn decoded_request(uri_path: &str, decoded: Option<String>) -> (r: Result<String, String>)
    ensures
        match decoded {
            Some(path) => r is Ok && r->Ok_0@ == path@,
            None => r is Err && r->Err_0@ == "Could not decode path '"@ + uri_path@ + "'"@,
        },
{
    match decoded {
        Some(path) => Ok(path),
        None => {
            let mut message = String::from_str("Could not decode path '");
            message.append(uri_path);
            message.append("'");
            Err(message)
        },
    }
}

/// The file that a request for `uri_path` asks about, or the message of the
/// failure of a path that decodes to no text.
pub open spec fn requested(uri_path: Seq<char>) -> Result<Seq<char>, Seq<char>> {
    match percent_decoded(without_lead(uri_path)) {
        Some(path) => Ok(path),
        None => Err("Could not decode path '"@ + uri_path + "'"@),
    }
}

/// The file that a request for `uri_path` asks about: the path without its
/// first character, percent-decoded.
pub fn request_path(uri_path: &str) -> (r: Result<String, String>)
    ensures
        match requested(uri_path@) {
            Ok(path) => r matches Ok(p) && p@ == path,
            Err(message) => r matches Err(m) && m@ == message,
        },
{
    decoded_request(uri_path, percent_decode(strip_lead(uri_path)))
}

/// Whether a program that is not where `icon_path` says is to be looked for
/// on the search path: on Windows, for a path that ends in `.exe`.
pub open spec fn needs_search(platform: Platform, icon_path: Seq<char>, exists: bool) -> bool {
    platform is Windows && ".exe"@.is_suffix_of(icon_path) && !exists
}

/// Whether a program that is not where `icon_path` says is to be looked for
/// on the search path.
pub fn needs_path_search(platform: Platform, icon_path: &str, exists: bool) -> (search: bool)
    ensures
        search == needs_search(platform, icon_path@, exists),
{
    match platform {
        Platform::Windows => ends_with(icon_path, ".exe") && !exists,
        _ => false,
    }
}

/// The message of a search that found nothing for `request_path`.
pub open spec fn search_failed(request_path: Seq<char>) -> Seq<char> {
    "Could not find executable '"@ + request_path + "' in system path"@
}

/// The message of a request for a path that is not on disk.
pub open spec fn path_missing(request_path: Seq<char>) -> Seq<char> {
    "Path does not exist '"@ + request_path + "'"@
}

/// The failure of a search for the program `request_path`.
pub fn executable_not_found(request_path: &str) -> (message: String)
    ensures
        message@ == search_failed(request_path@),
{
    let mut message = String::from_str("Could not find executable '");
    message.append(request_path);
    message.append("' in system path");
    message
}

/// The failure of a request for a path that is not on disk.
pub fn path_not_found(request_path: &str) -> (message: String)
    ensures
        message@ == path_missing(request_path@),
{
    let mut message = String::from_str("Path does not exist '");
    message.append(request_path);
    message.append("'");
    message
}

/// Where the icon of the bundle `bundle` lies, for the icon file that its
/// property list names: in the bundle's resources, with the extension
/// `.icns` where the name has none.
pub open spec fn bundle_icon(bundle: Seq<char>, icon_file: Seq<char>) -> Seq<char> {
    bundle + "/Contents/Resources/"@ + icon_file + if icon_file.contains('.') {
        Seq::<char>::empty()
    } else {
        ".icns"@
    }
}

/// Where the icon of the bundle `bundle` lies according to its property
/// list, or the message of the failure of a list that names no icon.
pub open spec fn bundle_icon_of(bundle: Seq<char>, info: AppPlist) -> Result<Seq<char>, Seq<char>> {
    match info.cf_bundle_icon_file {
        Some(icon_file) => Ok(bundle_icon(bundle, icon_file@)),
        None => Err("No CFBundleIconFile found in Info.plist"@),
    }
}

/// Where the icon of the bundle `bundle` lies, or the failure of a bundle
/// whose property list names no icon.
pub fn bundle_icon_path(bundle: &str, info: &AppPlist) -> (r: Result<String, String>)
    ensures
        match bundle_icon_of(bundle@, *info) {
            Ok(path) => r matches Ok(p) && p@ == path,
            Err(message) => r matches Err(m) && m@ == message,
        },
{
    match &info.cf_bundle_icon_file {
        None => Err(String::from_str("No CFBundleIconFile found in Info.plist")),
        Some(icon_file) => {
            let mut path = String::from_str(bundle);
            path.append("/Contents/Resources/");
            path.append(icon_file.as_str());
            if !contains_char(icon_file.as_str(), '.') {
                path.append(".icns");
            }
            assert(path@ =~= bundle_icon(bundle@, icon_file@));
            Ok(path)
        },
    }
}

/// The media type of an image file, by the ending of its path.
pub open spec fn media_type(path: Seq<char>) -> Option<Seq<char>> {
    if ".png"@.is_suffix_of(path) {
        Some("image/png"@)
    } else if ".jpg"@.is_suffix_of(path) || ".jpeg"@.is_suffix_of(path) {
        Some("image/jpeg"@)
    } else if ".gif"@.is_suffix_of(path) {
        Some("image/gif"@)
    } else if ".svg"@.is_suffix_of(path) {
        Some("image/svg+xml"@)
    } else {
        None
    }
}

/// The media type of the image file at `path`, or the failure of a path
/// whose ending names no image.
pub fn image_media_type(path: &str) -> (r: Result<&'static str, String>)
    ensures
        match media_type(path@) {
            Some(name) => r is Ok && r->Ok_0@ == name,
            None => r is Err && r->Err_0@ == "Unknown image extension"@ + path@,
        },
{
    if ends_with(path, ".png") {
        Ok("image/png")
    } else if ends_with(path, ".jpg") || ends_with(path, ".jpeg") {
        Ok("image/jpeg")
    } else if ends_with(path, ".gif") {
        Ok("image/gif")
    } else if ends_with(path, ".svg") {
        Ok("image/svg+xml")
    } else {
        let mut message = String::from_str("Unknown image extension");
        message.append(path);
        Err(message)
    }
}

/// How the image for a path comes about.
#[derive(Clone, Copy, Debug, PartialEq, Eq)]
pub enum IconSource {
    /// The path is an Apple icon file, to be converted.
    AppleIcon,
    /// The path is a Windows icon or program; the system hands out its icon.
    SystemIcon,
    /// The path is an image file of the given media type, to be read as it is.
    Image { media_type: &'static str },
}

/// The mathematical value of an [`IconSource`].
pub enum SourceModel {
    AppleIcon,
    SystemIcon,
    Image { media_type: Seq<char> },
}

impl View for IconSource {
    type V = SourceModel;

    open spec fn view(&self) -> SourceModel {
        match *self {
            IconSource::AppleIcon => SourceModel::AppleIcon,
            IconSource::SystemIcon => SourceModel::SystemIcon,
            IconSource::Image { media_type } => SourceModel::Image { media_type: media_type@ },
        }
    }
}

impl SourceModel {
    /// The media type of the image that the source gives: a converted icon
    /// is a PNG image, an image file is what its ending says.
    pub open spec fn media_type(self) -> Seq<char> {
        match self {
            SourceModel::AppleIcon => "image/png"@,
            SourceModel::SystemIcon => "image/png"@,
            SourceModel::Image { media_type } => media_type,
        }
    }
}

impl IconSource {
    /// The media type of the image that the source gives.
    pub fn media_type(&self) -> (name: &'static str)
        ensures
            name@ == self@.media_type(),
    {
        match self {
            IconSource::AppleIcon => "image/png",
            IconSource::SystemIcon => "image/png",
            IconSource::Image { media_type } => media_type,
        }
    }
}

/// Whether the icon at `path` is converted from an Apple icon file.
pub open spec fn is_apple_icon(platform: Platform, path: Seq<char>) -> bool {
    platform is MacOs && ".icns"@.is_suffix_of(path)
}

/// Whether the icon at `path` is taken from the system.
pub open spec fn is_system_icon(platform: Platform, path: Seq<char>) -> bool {
    platform is Windows && (".ico"@.is_suffix_of(path) || ".exe"@.is_suffix_of(path))
}

/// How the image for `path` comes about on `platform`, or the message of the
/// failure of a path that no source answers for.
pub open spec fn source_of(platform: Platform, path: Seq<char>) -> Result<SourceModel, Seq<char>> {
    if is_apple_icon(platform, path) {
        Ok(SourceModel::AppleIcon)
    } else if is_system_icon(platform, path) {
        Ok(SourceModel::SystemIcon)
    } else {
        match media_type(path) {
            Some(media_type) => Ok(SourceModel::Image { media_type }),
            None => Err("Unknown image extension"@ + path),
        }
    }
}

/// Decides how the image for `icon_path` comes about on `platform`.
pub fn icon_source(platform: Platform, icon_path: &str) -> (r: Result<IconSource, String>)
    ensures
        match source_of(platform, icon_path@) {
            Ok(source) => r matches Ok(s) && s@ == source,
            Err(message) => r matches Err(m) && m@ == message,
        },
{
    match platform {
        Platform::MacOs => {
            if ends_with(icon_path, ".icns") {
                return Ok(IconSource::AppleIcon);
            }
        },
        Platform::Windows => {
            if ends_with(icon_path, ".ico") || ends_with(icon_path, ".exe") {
                return Ok(IconSource::SystemIcon);
            }
        },
        Platform::Other => {},
    }
    match image_media_type(icon_path) {
        Ok(media_type) => Ok(IconSource::Image { media_type }),
        Err(message) => Err(message),
    }
}

/// A size and resolution in which an Apple icon file may hold its icon.
#[derive(Clone, Copy, Debug, PartialEq, Eq, Structural)]
pub enum IconFormat {
    Rgba32x32At2x,
    Rgba64x64,
    Rgba128x128,
    Rgba128x128At2x,
    Rgba256x256,
    Rgba256x256At2x,
    Rgba512x512,
    Rgba512x512At2x,
    Rgba32x32,
    Rgba16x16At2x,
    Rgba16x16,
}

/// The formats in the order in which they are tried: the medium sizes
/// first, growing, then the small ones.
pub open spec fn icon_preference() -> Seq<IconFormat> {
    seq![
        IconFormat::Rgba32x32At2x,
        IconFormat::Rgba64x64,
        IconFormat::Rgba128x128,
        IconFormat::Rgba128x128At2x,
        IconFormat::Rgba256x256,
        IconFormat::Rgba256x256At2x,
        IconFormat::Rgba512x512,
        IconFormat::Rgba512x512At2x,
        IconFormat::Rgba32x32,
        IconFormat::Rgba16x16At2x,
        IconFormat::Rgba16x16,
    ]
}

/// The formats in the order in which they are tried.
pub fn preferred_icon_formats() -> (formats: Vec<IconFormat>)
    ensures
        formats@ == icon_preference(),
{
    let formats = vec![
        IconFormat::Rgba32x32At2x,
        IconFormat::Rgba64x64,
        IconFormat::Rgba128x128,
        IconFormat::Rgba128x128At2x,
        IconFormat::Rgba256x256,
        IconFormat::Rgba256x256At2x,
        IconFormat::Rgba512x512,
        IconFormat::Rgba512x512At2x,
        IconFormat::Rgba32x32,
        IconFormat::Rgba16x16At2x,
        IconFormat::Rgba16x16,
    ];
    assert(formats@ =~= icon_preference());
    formats
}

/// Whether position `at` is the first at which `decodes` holds and a
/// preferred format stands.
pub open spec fn is_first_choice(decodes: Seq<bool>, at: int) -> bool {
    &&& 0 <= at < decodes.len()
    &&& at < icon_preference().len()
    &&& decodes[at]
    &&& forall|earlier: int| 0 <= earlier < at ==> !decodes[earlier]
}

/// Chooses the format in which an icon is taken from an Apple icon file.
///
/// `decodes` says of each preferred format, by its position in the order of
/// preference, whether the file holds an icon of it that decodes.  The first
/// such format is chosen; a file with none is a failure.
pub fn choose_icon_format(decodes: &[bool]) -> (r: Result<IconFormat, String>)
    ensures
        match r {
            Ok(format) => exists|at: int| #[trigger]
                is_first_choice(decodes@, at) && format == icon_preference()[at],
            Err(message) => message@ == "No proper icon size found in icns file"@ && forall|
                at: int,
            |
                0 <= at < decodes.len() && at < icon_preference().len() ==> !decodes[at],
        },
{
    let formats = preferred_icon_formats();
    let mut at: usize = 0;
    while at < formats.len() && at < decodes.len()
        invariant
            formats@ == icon_preference(),
            at <= formats.len(),
            at <= decodes.len(),
            forall|earlier: int| 0 <= earlier < at ==> !decodes[earlier],
        decreases formats.len() - at,
    {
        if decodes[at] {
            assert(is_first_choice(decodes@, at as int));
            return Ok(formats[at]);
        }
        at = at + 1;
    }
    Err(String::from_str("No proper icon size found in icns file"))
}

/// The body of the answer to a request that failed.
pub fn failure_page(message: &str) -> (page: String)
    ensures
        page@ == "Internal Server Error\n\n"@ + message@,
{
    let mut page = String::from_str("Internal Server Error\n\n");
    page.append(message);
    page
}

} // verus!
