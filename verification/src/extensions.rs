//! What the extension commands decide around files and the registry: ids,
//! paths within a package, media types of icons, and the defaults of what a
//! manifest contributes.

use crate::chars::{chars_of, find_char, pattern_at, position_of, stands_at, string_of};
use crate::text::{str_ends_with, str_starts_with, text_ends_with, text_starts_with};
use crate::trusted::{
    base64_encode, base64_text, is_lower_hex, lowercase, percent_encoded, random_uuid,
    to_lowercase, url_encode,
};
use vstd::prelude::*;

verus! {

/// A colour theme that an extension contributes.
#[derive(Debug, Clone)]
pub struct ThemeContribution {
    pub id: String,
    pub label: String,
    pub ui_theme: String,
    pub path: String,
    pub extension_id: String,
}

/// An icon theme that an extension contributes.
#[derive(Debug, Clone)]
pub struct IconThemeContribution {
    pub id: String,
    pub label: String,
    pub path: String,
    pub extension_id: String,
}

/// A grammar that an extension contributes; embedded languages are pairs of
/// scope and language.
#[derive(Debug, Clone)]
pub struct GrammarContribution {
    pub language: Option<String>,
    pub scope_name: String,
    pub path: String,
    pub extension_id: String,
    pub embedded_languages: Option<Vec<(String, String)>>,
}

/// A language that an extension contributes.
#[derive(Debug, Clone)]
pub struct LanguageContribution {
    pub id: String,
    pub extensions: Vec<String>,
    pub aliases: Vec<String>,
    pub configuration: Option<String>,
    pub extension_id: String,
}

/// A file of snippets that an extension contributes.
#[derive(Debug, Clone)]
pub struct SnippetContribution {
    pub language: String,
    pub path: String,
    pub extension_id: String,
}

/// The text, or a default where there is none.
pub open spec fn named_or(o: Option<String>, default: Seq<char>) -> Seq<char> {
    match o {
        Some(s) => s@,
        None => default,
    }
}

fn name_or(o: &Option<String>, default: &str) -> (r: String)
    ensures
        r@ == named_or(*o, default@),
{
    match o {
        Some(s) => s.clone(),
        None => String::from_str(default),
    }
}

/// The id of an extension: its publisher and its name with a dot between,
/// `unknown` standing for either where the manifest names none.
pub fn extension_id(publisher: &Option<String>, name: &Option<String>) -> (r: String)
    ensures
        r@ == named_or(*publisher, "unknown"@) + "."@ + named_or(*name, "unknown"@),
{
    let mut r = name_or(publisher, "unknown");
    r.append(".");
    r.append(name_or(name, "unknown").as_str());
    r
}

/// Whether an id names a publisher and an extension: it holds a dot.
pub open spec fn names_publisher(id: Seq<char>) -> bool {
    position_of(id, '.', 0) < id.len()
}

/// Splits an id at its first dot into publisher and name; none where it
/// holds no dot.
pub fn split_extension_id(id: &str) -> (r: Option<(String, String)>)
    ensures
        r is Some == names_publisher(id@),
        r matches Some(parts) ==> parts.0@ == id@.subrange(0, position_of(id@, '.', 0)) && parts.1@
            == id@.subrange(position_of(id@, '.', 0) + 1, id@.len() as int),
{
    let chars = chars_of(id);
    let dot = find_char(&chars, '.', 0);
    if dot >= chars.len() {
        return None;
    }
    Some((string_of(&chars, 0, dot), string_of(&chars, dot + 1, chars.len())))
}

/// The URL under which the registry describes an extension.
pub fn openvsx_url(publisher: &str, name: &str) -> (r: String)
    ensures
        r@ == "https://open-vsx.org/api/"@ + publisher@ + "/"@ + name@,
{
    let mut r = String::from_str("https://open-vsx.org/api/");
    r.append(publisher);
    r.append("/");
    r.append(name);
    r
}

/// The URL under which the registry searches for a query: the query
/// percent-encoded, a hundred results at most.
pub fn openvsx_search_url(query: &str) -> (r: String)
    ensures
        r@ == "https://open-vsx.org/api/-/search?query="@ + percent_encoded(
            vstd::utf8::encode_utf8(query@),
            vstd::utf8::encode_utf8(query@).len(),
        ) + "&size=100"@,
{
    let mut r = String::from_str("https://open-vsx.org/api/-/search?query=");
    r.append(url_encode(query).as_str());
    r.append("&size=100");
    r
}

/// The name of the directory that holds an installed extension.
pub fn extension_dir_name(publisher: &str, name: &str, version: &str) -> (r: String)
    ensures
        r@ == publisher@ + "."@ + name@ + "-"@ + version@,
{
    let mut r = String::from_str(publisher);
    r.append(".");
    r.append(name);
    r.append("-");
    r.append(version);
    r
}

/// Where an entry of a package goes under the directory of the extension:
/// what follows `extension/` in its path; nowhere for an entry outside
/// `extension/`.
pub fn package_target(path: &str) -> (r: Option<String>)
    ensures
        r is Some == stands_at(path@, "extension/"@, 0),
        r matches Some(target) ==> target@ == path@.subrange(10, path@.len() as int),
{
    let chars = chars_of(path);
    let prefix = chars_of("extension/");
    proof {
        reveal_strlit("extension/");
    }
    if pattern_at(&chars, &prefix, 0) {
        Some(string_of(&chars, 10, chars.len()))
    } else {
        None
    }
}

/// Whether an entry of a package is a directory: its name ends with a slash.
pub fn is_directory_entry(name: &str) -> (r: bool)
    ensures
        r == text_ends_with(name@, "/"@),
{
    str_ends_with(name, "/")
}

/// Whether a directory holds the extension with the given id: its name
/// starts with the id, without regard to case.
pub fn holds_extension(dir_name: &str, extension_id: &str) -> (r: bool)
    ensures
        r == text_starts_with(lowercase(dir_name@), lowercase(extension_id@)),
{
    let dir = to_lowercase(dir_name);
    let id = to_lowercase(extension_id);
    str_starts_with(dir.as_str(), id.as_str())
}

/// Whether a value of a manifest stands for a localised text: it is more
/// than two characters long and both starts and ends with a percent sign.
pub open spec fn is_placeholder(value: Seq<char>) -> bool {
    value.len() > 2 && value[0] == '%' && value.last() == '%'
}

/// The key under which a placeholder is looked up: what stands between its
/// percent signs.
pub fn localization_key(value: &str) -> (r: Option<String>)
    ensures
        r is Some == is_placeholder(value@),
        r matches Some(key) ==> key@ == value@.subrange(1, value@.len() - 1),
{
    let chars = chars_of(value);
    if chars.len() > 2 && chars[0] == '%' && chars[chars.len() - 1] == '%' {
        Some(string_of(&chars, 1, chars.len() - 1))
    } else {
        None
    }
}

/// The text that a value of a manifest stands for: what was found under its
/// key where it is a placeholder and something was found, the value itself
/// otherwise.
pub fn resolve_localization(value: &str, found: &Option<String>) -> (r: String)
    ensures
        r@ == if is_placeholder(value@) && found is Some {
            found->0@
        } else {
            value@
        },
{
    match (localization_key(value), found) {
        (Some(_), Some(text)) => text.clone(),
        _ => String::from_str(value),
    }
}

/// The media type of the icon that a manifest names, by the ending of its
/// path.
pub open spec fn manifest_icon_type(path: Seq<char>) -> Seq<char> {
    if text_ends_with(path, ".svg"@) {
        "image/svg+xml"@
    } else if text_ends_with(path, ".png"@) {
        "image/png"@
    } else if text_ends_with(path, ".jpg"@) || text_ends_with(path, ".jpeg"@) {
        "image/jpeg"@
    } else {
        "image/png"@
    }
}

/// The media type of an icon file, by the ending of its path.
pub open spec fn icon_type(path: Seq<char>) -> Seq<char> {
    if text_ends_with(path, ".svg"@) {
        "image/svg+xml"@
    } else if text_ends_with(path, ".png"@) {
        "image/png"@
    } else if text_ends_with(path, ".jpg"@) || text_ends_with(path, ".jpeg"@) {
        "image/jpeg"@
    } else if text_ends_with(path, ".gif"@) {
        "image/gif"@
    } else if text_ends_with(path, ".webp"@) {
        "image/webp"@
    } else {
        "application/octet-stream"@
    }
}

/// The media type of the icon that a manifest names.
pub fn manifest_icon_mime(path: &str) -> (r: &'static str)
    ensures
        r@ == manifest_icon_type(path@),
{
    if str_ends_with(path, ".svg") {
        "image/svg+xml"
    } else if str_ends_with(path, ".png") {
        "image/png"
    } else if str_ends_with(path, ".jpg") || str_ends_with(path, ".jpeg") {
        "image/jpeg"
    } else {
        "image/png"
    }
}

/// The media type of an icon file.
pub fn icon_mime(path: &str) -> (r: &'static str)
    ensures
        r@ == icon_type(path@),
{
    if str_ends_with(path, ".svg") {
        "image/svg+xml"
    } else if str_ends_with(path, ".png") {
        "image/png"
    } else if str_ends_with(path, ".jpg") || str_ends_with(path, ".jpeg") {
        "image/jpeg"
    } else if str_ends_with(path, ".gif") {
        "image/gif"
    } else if str_ends_with(path, ".webp") {
        "image/webp"
    } else {
        "application/octet-stream"
    }
}

/// Whether bytes are few enough for their base-64 text to have a length.
pub open spec fn encodable(bytes: Seq<u8>) -> bool {
    bytes.len() + 2 <= usize::MAX / 4 * 3
}

/// The bytes in base 64; none where they are too many for the text to have
/// a length.
pub fn encode_base64(bytes: &[u8]) -> (r: Option<String>)
    ensures
        r is Some == encodable(bytes@),
        r matches Some(text) ==> text@ == base64_text(bytes@),
{
    if bytes.len() > usize::MAX / 4 * 3 - 2 {
        None
    } else {
        Some(base64_encode(bytes))
    }
}

/// A data URL for content of a media type that is given in base 64.
pub fn data_url_of(mime: &str, encoded: &str) -> (r: String)
    ensures
        r@ == "data:"@ + mime@ + ";base64,"@ + encoded@,
{
    let mut r = String::from_str("data:");
    r.append(mime);
    r.append(";base64,");
    r.append(encoded);
    r
}

/// A data URL for bytes of a media type.
pub fn data_url(mime: &str, bytes: &[u8]) -> (r: Option<String>)
    ensures
        r is Some == encodable(bytes@),
        r matches Some(url) ==> url@ == "data:"@ + mime@ + ";base64,"@ + base64_text(bytes@),
{
    match encode_base64(bytes) {
        Some(text) => Some(data_url_of(mime, text.as_str())),
        None => None,
    }
}

/// The theme that a manifest contributes at `path`: no label reads as empty,
/// no id as the label, and no kind as the dark one.
pub fn theme_contribution(
    label: &Option<String>,
    id: &Option<String>,
    ui_theme: &Option<String>,
    path: String,
    extension_id: &str,
) -> (r: ThemeContribution)
    ensures
        r.label@ == named_or(*label, Seq::empty()),
        r.id@ == named_or(*id, named_or(*label, Seq::empty())),
        r.ui_theme@ == named_or(*ui_theme, "vs-dark"@),
        r.path == path,
        r.extension_id@ == extension_id@,
{
    let label = match label {
        Some(s) => s.clone(),
        None => String::new(),
    };
    ThemeContribution {
        id: name_or(id, label.as_str()),
        label,
        ui_theme: name_or(ui_theme, "vs-dark"),
        path,
        extension_id: String::from_str(extension_id),
    }
}

/// The icon theme that a manifest contributes at `path`.
pub fn icon_theme_contribution(
    label: &Option<String>,
    id: &Option<String>,
    path: String,
    extension_id: &str,
) -> (r: IconThemeContribution)
    ensures
        r.label@ == named_or(*label, Seq::empty()),
        r.id@ == named_or(*id, named_or(*label, Seq::empty())),
        r.path == path,
        r.extension_id@ == extension_id@,
{
    let label = match label {
        Some(s) => s.clone(),
        None => String::new(),
    };
    IconThemeContribution {
        id: name_or(id, label.as_str()),
        label,
        path,
        extension_id: String::from_str(extension_id),
    }
}

/// The grammar that a manifest contributes at `path`: no scope reads as
/// empty.
pub fn grammar_contribution(
    language: Option<String>,
    scope_name: &Option<String>,
    path: String,
    extension_id: &str,
    embedded_languages: Option<Vec<(String, String)>>,
) -> (r: GrammarContribution)
    ensures
        r.language == language,
        r.scope_name@ == named_or(*scope_name, Seq::empty()),
        r.path == path,
        r.extension_id@ == extension_id@,
        r.embedded_languages == embedded_languages,
{
    GrammarContribution {
        language,
        scope_name: match scope_name {
            Some(s) => s.clone(),
            None => String::new(),
        },
        path,
        extension_id: String::from_str(extension_id),
        embedded_languages,
    }
}

/// The snippets that a manifest contributes at `path`: no language reads as
/// empty.
pub fn snippet_contribution(language: &Option<String>, path: String, extension_id: &str) -> (r:
    SnippetContribution)
    ensures
        r.language@ == named_or(*language, Seq::empty()),
        r.path == path,
        r.extension_id@ == extension_id@,
{
    SnippetContribution {
        language: match language {
            Some(s) => s.clone(),
            None => String::new(),
        },
        path,
        extension_id: String::from_str(extension_id),
    }
}

/// The language that a manifest contributes; none where it has no id.
pub fn language_contribution(
    id: &Option<String>,
    extensions: Vec<String>,
    aliases: Vec<String>,
    configuration: Option<String>,
    extension_id: &str,
) -> (r: Option<LanguageContribution>)
    ensures
        r is Some == (named_or(*id, Seq::empty()).len() > 0),
        r matches Some(language) ==> language.id@ == id->0@ && language.extensions == extensions
            && language.aliases == aliases && language.configuration == configuration
            && language.extension_id@ == extension_id@,
{
    match id {
        Some(name) => if name.as_str().unicode_len() > 0 {
            Some(
                LanguageContribution {
                    id: name.clone(),
                    extensions,
                    aliases,
                    configuration,
                    extension_id: String::from_str(extension_id),
                },
            )
        } else {
            None
        },
        None => None,
    }
}

/// Whether a setting is deprecated: it is where it has a message saying so,
/// and otherwise as its flag says.
pub fn deprecated_flag(has_message: bool, flag: Option<bool>) -> (r: Option<bool>)
    ensures
        r == if has_message {
            Some(true)
        } else {
            flag
        },
{
    if has_message {
        Some(true)
    } else {
        flag
    }
}

/// The label of a new window for a unique id: `main-` and the id up to its
/// first hyphen.
pub fn window_label_for(unique: &str) -> (r: String)
    ensures
        r@ == "main-"@ + unique@.subrange(0, position_of(unique@, '-', 0)),
{
    let chars = chars_of(unique);
    let end = find_char(&chars, '-', 0);
    String::from_str("main-").concat(string_of(&chars, 0, end).as_str())
}

/// The label of a new window, made from a fresh random id: `main-` and the
/// eight hexadecimal digits with which the id starts.
pub fn window_label() -> (r: String)
    ensures
        r@.len() == 13,
        r@.subrange(0, 5) == "main-"@,
        forall|i: int| 5 <= i < 13 ==> is_lower_hex(#[trigger] r@[i]),
{
    let unique = random_uuid();
    let r = window_label_for(unique.as_str());
    proof {
        reveal_strlit("main-");
        reveal_with_fuel(position_of, 10);
        assert forall|i: int| 0 <= i < 8 implies unique@[i] != '-' by {
            assert(is_lower_hex(unique@[i]));
        }
        assert(unique@[8] == '-');
        assert(position_of(unique@, '-', 0) == 8);
        assert(r@.subrange(0, 5) =~= "main-"@);
        assert forall|i: int| 5 <= i < 13 implies is_lower_hex(#[trigger] r@[i]) by {
            assert(r@[i] == unique@[i - 5]);
        }
    }
    r
}

} // verus!
