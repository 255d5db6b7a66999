//! Rules of the file commands that need no file system: what a path may
//! hold, how content is fingerprinted, and how results are summed up.

use crate::chars::{chars_of, lines_of, split_lines};
use crate::extensions::{encodable, encode_base64};
use crate::text::{
    first_occurrence, str_ends_with, str_find, str_starts_with, text_contains, text_ends_with,
    text_starts_with,
};
use crate::trusted::{
    base64_text, hex_encode, hex_text, join_path, lowercase, push_char, sha256, sha256_digest,
    to_lowercase,
};
use vstd::prelude::*;

verus! {

/// Why a file operation failed. Each variant names the path concerned; `Io`
/// carries the message of the operating system.
#[derive(Debug, Clone)]
pub enum FileError {
    NotFound(String),
    IsDirectory(String),
    NotDirectory(String),
    TooLarge(String, usize),
    AlreadyExists(String),
    Io(String),
    InvalidPath(String),
}

/// One entry of a directory listing.
#[derive(Debug, Clone)]
pub struct FileEntry {
    pub name: String,
    pub path: String,
    pub file_type: String,
    pub size: u64,
    pub modified_at: String,
}

/// What is known of one path.
#[derive(Debug, Clone)]
pub struct FileStat {
    pub path: String,
    pub name: String,
    pub file_type: String,
    pub size: u64,
    pub created_at: String,
    pub modified_at: String,
    pub accessed_at: String,
    pub mode: u32,
    pub sha256: Option<String>,
}

/// One place where a search found its query: line and column count from 1.
#[derive(Debug, Clone)]
pub struct SearchMatch {
    pub path: String,
    pub line: usize,
    pub column: usize,
    pub text: String,
}

/// The mathematical form of a `SearchMatch`.
pub ghost struct SearchMatchView {
    pub path: Seq<char>,
    pub line: int,
    pub column: int,
    pub text: Seq<char>,
}

impl View for SearchMatch {
    type V = SearchMatchView;

    open spec fn view(&self) -> SearchMatchView {
        SearchMatchView {
            path: self.path@,
            line: self.line as int,
            column: self.column as int,
            text: self.text@,
        }
    }
}

/// The entries of a directory and their number.
#[derive(Debug, Clone)]
pub struct ListResult {
    pub entries: Vec<FileEntry>,
    pub count: usize,
}

/// The content of a file, its fingerprint and its size.
#[derive(Debug, Clone)]
pub struct ReadResult {
    pub content: String,
    pub sha256: String,
    pub size: u64,
}

/// What a write did.
#[derive(Debug, Clone)]
pub struct WriteResult {
    pub path: String,
    pub sha256: String,
    pub created: bool,
    pub bytes_written: usize,
}

/// The matches of a search, their number, and whether the search stopped at
/// its limit.
#[derive(Debug, Clone)]
pub struct SearchResult {
    pub matches: Vec<SearchMatch>,
    pub count: usize,
    pub truncated: bool,
}

/// The content of a binary file in base 64, its size and its media type.
#[derive(Debug, Clone)]
pub struct ReadBinaryResult {
    pub content: String,
    pub size: u64,
    pub mime_type: String,
}

/// The SHA-256 fingerprint of content, in hexadecimal.
pub open spec fn content_hash(content: Seq<u8>) -> Seq<char> {
    hex_text(sha256(content))
}

/// Whether a text holds the character with code zero.
pub open spec fn holds_nul(text: Seq<char>) -> bool {
    exists|i: int| 0 <= i < text.len() && text[i] == '\0'
}

/// The text with every backslash turned into a slash.
pub open spec fn forward_slashes(text: Seq<char>) -> Seq<char> {
    Seq::new(
        text.len(),
        |i: int|
            if text[i] == '\\' {
                '/'
            } else {
                text[i]
            },
    )
}

/// The media type that the ending of a lower-case path stands for.
pub open spec fn media_type(lower: Seq<char>) -> Seq<char> {
    if text_ends_with(lower, ".png"@) {
        "image/png"@
    } else if text_ends_with(lower, ".jpg"@) || text_ends_with(lower, ".jpeg"@) {
        "image/jpeg"@
    } else if text_ends_with(lower, ".gif"@) {
        "image/gif"@
    } else if text_ends_with(lower, ".webp"@) {
        "image/webp"@
    } else if text_ends_with(lower, ".svg"@) {
        "image/svg+xml"@
    } else if text_ends_with(lower, ".bmp"@) {
        "image/bmp"@
    } else if text_ends_with(lower, ".ico"@) {
        "image/x-icon"@
    } else if text_ends_with(lower, ".avif"@) {
        "image/avif"@
    } else {
        "application/octet-stream"@
    }
}

/// The SHA-256 fingerprint of content, in hexadecimal.
pub fn hash_content(content: &[u8]) -> (hash: String)
    ensures
        hash@ == content_hash(content@),
        hash@.len() == 64,
{
    let digest = sha256_digest(content);
    hex_encode(digest.as_slice())
}

fn has_nul(text: &str) -> (r: bool)
    ensures
        r == holds_nul(text@),
{
    let chars = chars_of(text);
    let mut i: usize = 0;
    while i < chars.len()
        invariant
            i <= chars@.len(),
            chars@ == text@,
            forall|j: int| 0 <= j < i ==> chars@[j] != '\0',
        decreases chars.len() - i,
    {
        if chars[i] == '\0' {
            assert(text@[i as int] == '\0');
            return true;
        }
        i = i + 1;
    }
    false
}

/// Resolves a path against the workspace. A path that holds the character
/// with code zero is refused as invalid; any other is adjoined to the
/// workspace by the rules of the platform, an absolute path standing for
/// itself.
pub fn resolve_path(workspace: &str, rel_path: &str) -> (r: Result<String, FileError>)
    ensures
        r is Err <==> holds_nul(rel_path@),
        r matches Err(e) ==> e matches FileError::InvalidPath(path) && path@ == rel_path@,
{
    if has_nul(rel_path) {
        return Err(FileError::InvalidPath(String::from_str(rel_path)));
    }
    Ok(join_path(workspace, rel_path))
}

/// The path with every backslash turned into a slash.
pub fn to_forward_slashes(path: &str) -> (r: String)
    ensures
        r@ == forward_slashes(path@),
{
    let chars = chars_of(path);
    let mut r = String::new();
    let mut i: usize = 0;
    while i < chars.len()
        invariant
            i <= chars@.len(),
            r@ == forward_slashes(chars@).subrange(0, i as int),
        decreases chars.len() - i,
    {
        let c = if chars[i] == '\\' {
            '/'
        } else {
            chars[i]
        };
        push_char(&mut r, c);
        assert(r@ =~= forward_slashes(chars@).subrange(0, i + 1));
        i = i + 1;
    }
    assert(r@ =~= forward_slashes(chars@));
    r
}

/// The name of the kind of a file system entry.
pub fn file_type_name(is_dir: bool, is_symlink: bool) -> (r: &'static str)
    ensures
        is_dir ==> r@ == "directory"@,
        !is_dir && is_symlink ==> r@ == "symlink"@,
        !is_dir && !is_symlink ==> r@ == "file"@,
{
    if is_dir {
        "directory"
    } else if is_symlink {
        "symlink"
    } else {
        "file"
    }
}

/// The media type of a file, by the ending of its path given in lower case.
pub fn media_type_for(lower: &str) -> (r: String)
    ensures
        r@ == media_type(lower@),
{
    let p = lower;
    if str_ends_with(p, ".png") {
        String::from_str("image/png")
    } else if str_ends_with(p, ".jpg") || str_ends_with(p, ".jpeg") {
        String::from_str("image/jpeg")
    } else if str_ends_with(p, ".gif") {
        String::from_str("image/gif")
    } else if str_ends_with(p, ".webp") {
        String::from_str("image/webp")
    } else if str_ends_with(p, ".svg") {
        String::from_str("image/svg+xml")
    } else if str_ends_with(p, ".bmp") {
        String::from_str("image/bmp")
    } else if str_ends_with(p, ".ico") {
        String::from_str("image/x-icon")
    } else if str_ends_with(p, ".avif") {
        String::from_str("image/avif")
    } else {
        String::from_str("application/octet-stream")
    }
}

/// The media type of a file, by the ending of its path without regard to
/// case.
pub fn mime_type_for(path: &str) -> (r: String)
    ensures
        r@ == media_type(lowercase(path@)),
{
    let lower = to_lowercase(path);
    media_type_for(lower.as_str())
}

/// What the file system says of a path.
#[derive(Debug, Clone, Copy, PartialEq, Eq, Structural)]
pub struct PathFacts {
    pub exists: bool,
    pub is_dir: bool,
    pub size: u64,
}

/// Whether a path can be read as a file of at most `max_size` bytes: it must
/// exist, be no directory, and be no larger.
pub fn check_readable(rel_path: &str, facts: PathFacts, max_size: usize) -> (r: Result<(), FileError>)
    ensures
        !facts.exists ==> (r matches Err(FileError::NotFound(p)) && p@ == rel_path@),
        facts.exists && facts.is_dir ==> (r matches Err(FileError::IsDirectory(p)) && p@
            == rel_path@),
        facts.exists && !facts.is_dir && facts.size > max_size ==> (r matches Err(
            FileError::TooLarge(p, n),
        ) && p@ == rel_path@ && n == max_size),
        facts.exists && !facts.is_dir && facts.size <= max_size ==> r is Ok,
{
    if !facts.exists {
        Err(FileError::NotFound(String::from_str(rel_path)))
    } else if facts.is_dir {
        Err(FileError::IsDirectory(String::from_str(rel_path)))
    } else if facts.size > max_size as u64 {
        Err(FileError::TooLarge(String::from_str(rel_path), max_size))
    } else {
        Ok(())
    }
}

/// Whether a path can be written as a file: what exists is overwritten only
/// where that is allowed, and never a directory.
pub fn check_writable(rel_path: &str, facts: PathFacts, overwrite: bool) -> (r: Result<(), FileError>)
    ensures
        facts.exists && !overwrite ==> (r matches Err(FileError::AlreadyExists(p)) && p@
            == rel_path@),
        facts.exists && overwrite && facts.is_dir ==> (r matches Err(FileError::IsDirectory(p))
            && p@ == rel_path@),
        !facts.exists || (overwrite && !facts.is_dir) ==> r is Ok,
{
    if facts.exists && !overwrite {
        Err(FileError::AlreadyExists(String::from_str(rel_path)))
    } else if facts.exists && facts.is_dir {
        Err(FileError::IsDirectory(String::from_str(rel_path)))
    } else {
        Ok(())
    }
}

/// Whether a path can be listed: it must exist and be a directory.
pub fn check_listable(rel_path: &str, facts: PathFacts) -> (r: Result<(), FileError>)
    ensures
        !facts.exists ==> (r matches Err(FileError::NotFound(p)) && p@ == rel_path@),
        facts.exists && !facts.is_dir ==> (r matches Err(FileError::NotDirectory(p)) && p@
            == rel_path@),
        facts.exists && facts.is_dir ==> r is Ok,
{
    if !facts.exists {
        Err(FileError::NotFound(String::from_str(rel_path)))
    } else if !facts.is_dir {
        Err(FileError::NotDirectory(String::from_str(rel_path)))
    } else {
        Ok(())
    }
}

/// Whether a directory is to be created at a path: not where one is there
/// already, and something else in its place is an error.
pub fn check_creatable(rel_path: &str, facts: PathFacts) -> (r: Result<bool, FileError>)
    ensures
        !facts.exists ==> r == Ok::<bool, FileError>(true),
        facts.exists && facts.is_dir ==> r == Ok::<bool, FileError>(false),
        facts.exists && !facts.is_dir ==> (r matches Err(FileError::AlreadyExists(p)) && p@
            == rel_path@),
{
    if !facts.exists {
        Ok(true)
    } else if facts.is_dir {
        Ok(false)
    } else {
        Err(FileError::AlreadyExists(String::from_str(rel_path)))
    }
}

/// Whether a path can be the source of an operation: it must exist.
pub fn check_source(rel_path: &str, facts: PathFacts) -> (r: Result<(), FileError>)
    ensures
        !facts.exists ==> (r matches Err(FileError::NotFound(p)) && p@ == rel_path@),
        facts.exists ==> r is Ok,
{
    if !facts.exists {
        Err(FileError::NotFound(String::from_str(rel_path)))
    } else {
        Ok(())
    }
}

/// Whether a path can be the target of a move or a copy: what exists is
/// replaced only where that is allowed.
pub fn check_target(rel_path: &str, facts: PathFacts, overwrite: bool) -> (r: Result<(), FileError>)
    ensures
        facts.exists && !overwrite ==> (r matches Err(FileError::AlreadyExists(p)) && p@
            == rel_path@),
        !facts.exists || overwrite ==> r is Ok,
{
    if facts.exists && !overwrite {
        Err(FileError::AlreadyExists(String::from_str(rel_path)))
    } else {
        Ok(())
    }
}

/// The mode reported for every path.
pub const DEFAULT_MODE: u32 = 0o644;

impl FileEntry {
    /// The entry of a listing: the path is shown with forward slashes, the
    /// kind by its name.
    pub fn new(name: String, shown_path: &str, is_dir: bool, is_symlink: bool, size: u64, modified_at: String) -> (r:
        FileEntry)
        ensures
            r.name == name,
            r.path@ == forward_slashes(shown_path@),
            is_dir ==> r.file_type@ == "directory"@,
            !is_dir && is_symlink ==> r.file_type@ == "symlink"@,
            !is_dir && !is_symlink ==> r.file_type@ == "file"@,
            r.size == size,
            r.modified_at == modified_at,
    {
        FileEntry {
            name,
            path: to_forward_slashes(shown_path),
            file_type: String::from_str(file_type_name(is_dir, is_symlink)),
            size,
            modified_at,
        }
    }
}

impl FileStat {
    /// What is reported of a path; a fingerprint is given only for what is
    /// no directory.
    pub fn new(
        path: String,
        name: String,
        is_dir: bool,
        is_symlink: bool,
        size: u64,
        created_at: String,
        modified_at: String,
        accessed_at: String,
        sha256: Option<String>,
    ) -> (r: FileStat)
        ensures
            r.path == path,
            r.name == name,
            is_dir ==> r.file_type@ == "directory"@ && r.sha256 is None,
            !is_dir && is_symlink ==> r.file_type@ == "symlink"@,
            !is_dir && !is_symlink ==> r.file_type@ == "file"@,
            !is_dir ==> r.sha256 == sha256,
            r.size == size,
            r.created_at == created_at,
            r.modified_at == modified_at,
            r.accessed_at == accessed_at,
            r.mode == DEFAULT_MODE,
    {
        FileStat {
            path,
            name,
            file_type: String::from_str(file_type_name(is_dir, is_symlink)),
            size,
            created_at,
            modified_at,
            accessed_at,
            mode: DEFAULT_MODE,
            sha256: if is_dir {
                None
            } else {
                sha256
            },
        }
    }
}

/// Whether an entry is hidden: its name starts with a dot.
pub fn is_hidden(name: &str) -> (r: bool)
    ensures
        r == text_starts_with(name@, "."@),
{
    str_starts_with(name, ".")
}

/// The text in which a line is searched: the line itself, or the line in
/// lower case where case does not matter.
pub open spec fn searched_text(line: Seq<char>, case_sensitive: bool) -> Seq<char> {
    if case_sensitive {
        line
    } else {
        lowercase(line)
    }
}

/// Whether a line holds the query.
pub open spec fn line_matches(line: Seq<char>, query: Seq<char>, case_sensitive: bool) -> bool {
    text_contains(searched_text(line, case_sensitive), searched_text(query, case_sensitive))
}

/// The position in bytes of the first match of the query in a line that
/// holds it.
pub open spec fn match_position(line: Seq<char>, query: Seq<char>, case_sensitive: bool) -> int {
    position_in(searched_text(line, case_sensitive), searched_text(query, case_sensitive))
}

/// The position in bytes of the first occurrence of a text in another that
/// holds it.
pub open spec fn position_in(searched: Seq<char>, wanted: Seq<char>) -> int {
    choose|position: int|
        first_occurrence(
            vstd::utf8::encode_utf8(searched),
            vstd::utf8::encode_utf8(wanted),
            position,
        )
}

/// The column of a match at a position in bytes: counted from 1.
pub open spec fn column_of(position: int) -> int {
    if position < usize::MAX {
        position + 1
    } else {
        usize::MAX as int
    }
}

/// The match that a line with the given number gives.
pub open spec fn match_of(
    path: Seq<char>,
    line_number: int,
    line: Seq<char>,
    query: Seq<char>,
    case_sensitive: bool,
) -> SearchMatchView {
    SearchMatchView {
        path,
        line: line_number,
        column: column_of(match_position(line, query, case_sensitive)),
        text: line,
    }
}

/// The matches among the first `n` lines, as long as there is room for them:
/// a line that holds the query gives one match, and no line is looked at once
/// `room` matches are found.
pub open spec fn matches_in(
    path: Seq<char>,
    lines: Seq<Seq<char>>,
    query: Seq<char>,
    case_sensitive: bool,
    room: int,
    n: nat,
) -> Seq<SearchMatchView>
    decreases n,
{
    if n == 0 {
        Seq::empty()
    } else {
        let before = matches_in(path, lines, query, case_sensitive, room, (n - 1) as nat);
        if before.len() < room && line_matches(lines[n - 1], query, case_sensitive) {
            before.push(match_of(path, n as int, lines[n - 1], query, case_sensitive))
        } else {
            before
        }
    }
}

/// The views of a vector of matches.
pub open spec fn match_views(matches: Seq<SearchMatch>) -> Seq<SearchMatchView> {
    Seq::new(matches.len(), |i: int| matches[i]@)
}

/// Searches one line, which has the given number, for a text: `searched` is
/// the line as it is compared and `wanted` the query as it is compared, both
/// as they are or both in lower case. The match shows the line itself; its
/// column is that of the first occurrence, in bytes.
pub fn match_in_line(path: &str, line_number: usize, line: &str, searched: &str, wanted: &str) -> (r:
    Option<SearchMatch>)
    ensures
        r is Some == text_contains(searched@, wanted@),
        r matches Some(found) ==> found@ == (SearchMatchView {
            path: path@,
            line: line_number as int,
            column: column_of(position_in(searched@, wanted@)),
            text: line@,
        }),
{
    match str_find(searched, wanted) {
        Some(position) => {
            proof {
                let hay = vstd::utf8::encode_utf8(searched@);
                let needle = vstd::utf8::encode_utf8(wanted@);
                let chosen = position_in(searched@, wanted@);
                assert(first_occurrence(hay, needle, position as int));
                assert(first_occurrence(hay, needle, chosen));
                assert(chosen == position);
            }
            let column = if position < usize::MAX {
                position + 1
            } else {
                usize::MAX
            };
            Some(
                SearchMatch {
                    path: String::from_str(path),
                    line: line_number,
                    column,
                    text: String::from_str(line),
                },
            )
        },
        None => None,
    }
}

/// Searches one line, which has the given number, for the query. Where case
/// does not matter both are compared in lower case. The column is that of
/// the first match, in bytes.
pub fn match_line(path: &str, line_number: usize, line: &str, query: &str, case_sensitive: bool) -> (r:
    Option<SearchMatch>)
    ensures
        r is Some == line_matches(line@, query@, case_sensitive),
        r matches Some(found) ==> found@ == match_of(
            path@,
            line_number as int,
            line@,
            query@,
            case_sensitive,
        ),
{
    if case_sensitive {
        match_in_line(path, line_number, line, line, query)
    } else {
        let searched = to_lowercase(line);
        let wanted = to_lowercase(query);
        match_in_line(path, line_number, line, searched.as_str(), wanted.as_str())
    }
}

/// Searches the content of a file line by line and adds the matches to those
/// found so far, until `max_results` are found in all. Lines count from 1.
pub fn search_content(
    path: &str,
    content: &str,
    query: &str,
    case_sensitive: bool,
    max_results: usize,
    matches: &mut Vec<SearchMatch>,
)
    ensures
        match_views(final(matches)@) == match_views(old(matches)@) + matches_in(
            path@,
            lines_of(content@),
            query@,
            case_sensitive,
            max_results - old(matches)@.len(),
            lines_of(content@).len(),
        ),
{
    let lines = split_lines(content);
    let ghost start = match_views(matches@);
    let ghost room = max_results - matches@.len();
    let mut i: usize = 0;
    assert(match_views(matches@) =~= start + matches_in(
        path@,
        lines.deep_view(),
        query@,
        case_sensitive,
        room,
        0,
    ));
    while i < lines.len()
        invariant
            i <= lines@.len(),
            lines.deep_view() == lines_of(content@),
            room == max_results - start.len(),
            match_views(matches@) == start + matches_in(
                path@,
                lines.deep_view(),
                query@,
                case_sensitive,
                room,
                i as nat,
            ),
        decreases lines.len() - i,
    {
        let ghost before = match_views(matches@);
        let ghost found_before = matches_in(
            path@,
            lines.deep_view(),
            query@,
            case_sensitive,
            room,
            i as nat,
        );
        assert(lines.deep_view()[i as int] == lines@[i as int]@);
        assert(lines@.len() <= usize::MAX);
        if matches.len() < max_results {
            match match_line(path, i + 1, lines[i].as_str(), query, case_sensitive) {
                Some(found) => {
                    matches.push(found);
                    assert(match_views(matches@) =~= before.push(found@));
                    assert(before.push(found@) =~= start + found_before.push(found@));
                },
                None => {},
            }
        }
        i = i + 1;
    }
    assert(lines.deep_view().len() == lines@.len());
}

impl ListResult {
    /// The listing with its count.
    pub fn new(entries: Vec<FileEntry>) -> (r: ListResult)
        ensures
            r.entries == entries,
            r.count == entries@.len(),
    {
        let count = entries.len();
        ListResult { entries, count }
    }
}

impl SearchResult {
    /// The matches with their count; the search counts as cut short where it
    /// found as many as it was allowed.
    pub fn new(matches: Vec<SearchMatch>, max_results: usize) -> (r: SearchResult)
        ensures
            r.matches == matches,
            r.count == matches@.len(),
            r.truncated == (matches@.len() >= max_results),
    {
        let count = matches.len();
        SearchResult { matches, count, truncated: count >= max_results }
    }
}

impl ReadBinaryResult {
    /// The result for content already in base 64, with the size of what was
    /// encoded and the path in lower case, which gives the media type.
    pub fn from_encoded(content: String, size: u64, lower_path: &str) -> (r: ReadBinaryResult)
        ensures
            r.content == content,
            r.size == size,
            r.mime_type@ == media_type(lower_path@),
    {
        ReadBinaryResult { content, size, mime_type: media_type_for(lower_path) }
    }

    /// The content of the file at `path` in base 64, with its size and media
    /// type; none where the content is too large to encode.
    pub fn new(bytes: &[u8], path: &str) -> (r: Option<ReadBinaryResult>)
        ensures
            r is Some == encodable(bytes@),
            r matches Some(result) ==> result.content@ == base64_text(bytes@) && result.size
                == bytes@.len() && result.mime_type@ == media_type(lowercase(path@)),
    {
        match encode_base64(bytes) {
            Some(content) => {
                let lower = to_lowercase(path);
                Some(Self::from_encoded(content, bytes.len() as u64, lower.as_str()))
            },
            None => None,
        }
    }
}

impl ReadResult {
    /// The content read with its fingerprint and size.
    pub fn new(content: String, size: u64) -> (r: ReadResult)
        ensures
            r.content == content,
            r.size == size,
            r.sha256@ == content_hash(vstd::utf8::encode_utf8(content@)),
    {
        let sha256 = hash_content(content.as_str().as_bytes());
        ReadResult { content, sha256, size }
    }
}

impl WriteResult {
    /// What a write of `content` to `path` did: the fingerprint and length
    /// of what was written, and whether the file is new.
    pub fn new(path: String, content: &str, existed: bool) -> (r: WriteResult)
        ensures
            r.path == path,
            r.sha256@ == content_hash(vstd::utf8::encode_utf8(content@)),
            r.created == !existed,
            r.bytes_written == vstd::utf8::encode_utf8(content@).len(),
    {
        let bytes = content.as_bytes();
        let sha256 = hash_content(bytes);
        WriteResult { path, sha256, created: !existed, bytes_written: bytes.len() }
    }
}

} // verus!
