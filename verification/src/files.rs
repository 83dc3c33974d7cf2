//! The rules of the file utilities: which files the scanners pass over, how a
//! file's content is read, how duplicates are grouped and results are ordered.

use crate::checksum::{lowercase, lowercase_of};
use crate::installer::Platform;
use crate::text::{decimal, ends_with, same_text, starts_with, u64_to_string};
use vstd::prelude::*;
use vstd::string::*;

verus! {

/// The picture formats that are handed on as pictures.
#[derive(Clone, Copy, Debug, PartialEq, Eq, Structural)]
pub enum ImageKind {
    Png,
    Jpeg,
    Gif,
    Bmp,
    Webp,
}

/// How the content of a file is read, told by the file's name.
#[derive(Clone, Copy, Debug, PartialEq, Eq, Structural)]
pub enum ContentKind {
    Pdf,
    Docx,
    /// The older word processor format, which cannot be read.
    LegacyDoc,
    Spreadsheet,
    Image(ImageKind),
    PlainText,
}

/// The methods that the HTTP pass-through sends.
#[derive(Clone, Copy, Debug, PartialEq, Eq, Structural)]
pub enum HttpMethod {
    Get,
    Post,
    Put,
    Delete,
}

/// A file whose name begins with a dot is hidden.
pub open spec fn hidden(name: Seq<char>) -> bool {
    "."@.is_prefix_of(name)
}

/// Whether a file of this name is passed over by the scanners.
pub fn is_hidden(name: &str) -> (r: bool)
    ensures
        r == hidden(name@),
{
    starts_with(name, ".")
}

/// How to read a file whose path, in lower case, is `path`.
pub open spec fn content_kind_of(path: Seq<char>) -> ContentKind {
    if ".pdf"@.is_suffix_of(path) {
        ContentKind::Pdf
    } else if ".docx"@.is_suffix_of(path) {
        ContentKind::Docx
    } else if ".doc"@.is_suffix_of(path) {
        ContentKind::LegacyDoc
    } else if ".xlsx"@.is_suffix_of(path) || ".xls"@.is_suffix_of(path) {
        ContentKind::Spreadsheet
    } else if ".png"@.is_suffix_of(path) {
        ContentKind::Image(ImageKind::Png)
    } else if ".jpg"@.is_suffix_of(path) || ".jpeg"@.is_suffix_of(path) {
        ContentKind::Image(ImageKind::Jpeg)
    } else if ".gif"@.is_suffix_of(path) {
        ContentKind::Image(ImageKind::Gif)
    } else if ".bmp"@.is_suffix_of(path) {
        ContentKind::Image(ImageKind::Bmp)
    } else if ".webp"@.is_suffix_of(path) {
        ContentKind::Image(ImageKind::Webp)
    } else {
        ContentKind::PlainText
    }
}

/// Tells how to read a file from its path, which is given in lower case.
pub fn content_kind_of_lowered(path: &str) -> (kind: ContentKind)
    ensures
        kind == content_kind_of(path@),
{
    if ends_with(path, ".pdf") {
        ContentKind::Pdf
    } else if ends_with(path, ".docx") {
        ContentKind::Docx
    } else if ends_with(path, ".doc") {
        ContentKind::LegacyDoc
    } else if ends_with(path, ".xlsx") || ends_with(path, ".xls") {
        ContentKind::Spreadsheet
    } else if ends_with(path, ".png") {
        ContentKind::Image(ImageKind::Png)
    } else if ends_with(path, ".jpg") || ends_with(path, ".jpeg") {
        ContentKind::Image(ImageKind::Jpeg)
    } else if ends_with(path, ".gif") {
        ContentKind::Image(ImageKind::Gif)
    } else if ends_with(path, ".bmp") {
        ContentKind::Image(ImageKind::Bmp)
    } else if ends_with(path, ".webp") {
        ContentKind::Image(ImageKind::Webp)
    } else {
        ContentKind::PlainText
    }
}

/// Tells how to read a file from its path, whatever the case of its letters.
pub fn content_kind(path: &str) -> (kind: ContentKind)
    ensures
        kind == content_kind_of(lowercase_of(path@)),
{
    let lowered = lowercase(path);
    content_kind_of_lowered(lowered.as_str())
}

/// The media type under which content of a kind is handed on; none for the kind
/// that cannot be read.
pub open spec fn mime_type_of(kind: ContentKind) -> Option<Seq<char>> {
    match kind {
        ContentKind::Pdf => Some("application/pdf"@),
        ContentKind::Docx => Some(
            "application/vnd.openxmlformats-officedocument.wordprocessingml.document"@,
        ),
        ContentKind::LegacyDoc => None,
        ContentKind::Spreadsheet => Some(
            "application/vnd.openxmlformats-officedocument.spreadsheetml.sheet"@,
        ),
        ContentKind::Image(ImageKind::Png) => Some("image/png"@),
        ContentKind::Image(ImageKind::Jpeg) => Some("image/jpeg"@),
        ContentKind::Image(ImageKind::Gif) => Some("image/gif"@),
        ContentKind::Image(ImageKind::Bmp) => Some("image/bmp"@),
        ContentKind::Image(ImageKind::Webp) => Some("image/webp"@),
        ContentKind::PlainText => Some("text/plain"@),
    }
}

/// The media type of a kind of content, or the reason why it cannot be read.
pub fn mime_type(kind: ContentKind) -> (mime: Result<&'static str, &'static str>)
    ensures
        match mime {
            Ok(name) => mime_type_of(kind) == Some(name@),
            Err(reason) => mime_type_of(kind) is None && reason@
                == "DOC format not supported. Please convert to DOCX."@,
        },
{
    match kind {
        ContentKind::Pdf => Ok("application/pdf"),
        ContentKind::Docx => Ok(
            "application/vnd.openxmlformats-officedocument.wordprocessingml.document",
        ),
        ContentKind::LegacyDoc => Err("DOC format not supported. Please convert to DOCX."),
        ContentKind::Spreadsheet => Ok(
            "application/vnd.openxmlformats-officedocument.spreadsheetml.sheet",
        ),
        ContentKind::Image(ImageKind::Png) => Ok("image/png"),
        ContentKind::Image(ImageKind::Jpeg) => Ok("image/jpeg"),
        ContentKind::Image(ImageKind::Gif) => Ok("image/gif"),
        ContentKind::Image(ImageKind::Bmp) => Ok("image/bmp"),
        ContentKind::Image(ImageKind::Webp) => Ok("image/webp"),
        ContentKind::PlainText => Ok("text/plain"),
    }
}

/// The file name extensions, in lower case, of the files that are scanned for
/// references to other files.
pub open spec fn text_extensions() -> Seq<Seq<char>> {
    seq![
        "rs"@,
        "js"@,
        "ts"@,
        "jsx"@,
        "tsx"@,
        "py"@,
        "java"@,
        "c"@,
        "cpp"@,
        "h"@,
        "hpp"@,
        "cs"@,
        "go"@,
        "rb"@,
        "php"@,
        "swift"@,
        "kt"@,
        "scala"@,
        "sh"@,
        "bash"@,
        "html"@,
        "css"@,
        "scss"@,
        "sass"@,
        "less"@,
        "xml"@,
        "json"@,
        "yaml"@,
        "yml"@,
        "toml"@,
        "ini"@,
        "conf"@,
        "config"@,
        "md"@,
        "txt"@,
        "rst"@,
        "tex"@,
    ]
}

/// Whether files with this extension, given in lower case, are scanned for
/// references.
pub fn is_text_extension(extension: &str) -> (r: bool)
    ensures
        r == text_extensions().contains(extension@),
{
    let known: [&str; 37] = [
        "rs",
        "js",
        "ts",
        "jsx",
        "tsx",
        "py",
        "java",
        "c",
        "cpp",
        "h",
        "hpp",
        "cs",
        "go",
        "rb",
        "php",
        "swift",
        "kt",
        "scala",
        "sh",
        "bash",
        "html",
        "css",
        "scss",
        "sass",
        "less",
        "xml",
        "json",
        "yaml",
        "yml",
        "toml",
        "ini",
        "conf",
        "config",
        "md",
        "txt",
        "rst",
        "tex",
    ];
    let ghost list = text_extensions();
    assert(list.len() == 37);
    assert(forall|j: int| 0 <= j < 37 ==> known@[j]@ == #[trigger] list[j]);
    let mut k: usize = 0;
    while k < 37
        invariant
            k <= 37,
            list == text_extensions(),
            list.len() == 37,
            forall|j: int| 0 <= j < 37 ==> known@[j]@ == #[trigger] list[j],
            forall|j: int| 0 <= j < k ==> list[j] != extension@,
        decreases 37 - k,
    {
        if same_text(known[k], extension) {
            assert(list[k as int] == extension@);
            return true;
        }
        k += 1;
    }
    false
}

/// The number of seconds in a day.
pub const SECONDS_PER_DAY: u64 = 86400;

/// The whole days between two moments, both in seconds since the same epoch; none
/// where the later moment is not the later one.
pub open spec fn days_between(now: u64, then: u64) -> u64 {
    if now >= then {
        ((now - then) / 86400) as u64
    } else {
        0
    }
}

/// Counts the whole days from `then` to `now`.
pub fn days_since(now: u64, then: u64) -> (days: u64)
    ensures
        days == days_between(now, then),
{
    if now >= then {
        (now - then) / SECONDS_PER_DAY
    } else {
        0
    }
}

/// Whether a file that was last read `days` days ago counts as unused under a
/// threshold of `threshold` days.
pub fn is_unused(days: u64, threshold: u64) -> (r: bool)
    ensures
        r == (days >= threshold),
{
    days >= threshold
}

/// The method that `name`, given in upper case, names.
pub open spec fn method_of(name: Seq<char>) -> Option<HttpMethod> {
    if name == "GET"@ {
        Some(HttpMethod::Get)
    } else if name == "POST"@ {
        Some(HttpMethod::Post)
    } else if name == "PUT"@ {
        Some(HttpMethod::Put)
    } else if name == "DELETE"@ {
        Some(HttpMethod::Delete)
    } else {
        None
    }
}

/// Reads the name of a method, which is given in upper case.
pub fn parse_method(name: &str) -> (method: Option<HttpMethod>)
    ensures
        method == method_of(name@),
{
    if same_text(name, "GET") {
        Some(HttpMethod::Get)
    } else if same_text(name, "POST") {
        Some(HttpMethod::Post)
    } else if same_text(name, "PUT") {
        Some(HttpMethod::Put)
    } else if same_text(name, "DELETE") {
        Some(HttpMethod::Delete)
    } else {
        None
    }
}

/// The report of a method that is not sent.
pub fn unsupported_method_message(name: &str) -> (message: String)
    ensures
        message@ == "Unsupported HTTP method: "@ + name@,
{
    let mut message = String::from_str("Unsupported HTTP method: ");
    message.append(name);
    message
}

/// The report of an answer whose status is no success.
pub fn http_error_message(status: u16, body: &str) -> (message: String)
    ensures
        message@ == "HTTP "@ + decimal(status as nat) + ": "@ + body@,
{
    let mut message = String::from_str("HTTP ");
    message.append(u64_to_string(status as u64).as_str());
    message.append(": ");
    message.append(body);
    assert(message@ =~= "HTTP "@ + decimal(status as nat) + ": "@ + body@);
    message
}

/// Whether the item at position `a` comes before the item at position `b` when
/// items are listed from the largest key down: the larger key first, and of two
/// equal keys the one that stood first.
pub open spec fn comes_before(keys: Seq<u64>, a: int, b: int) -> bool {
    keys[a] > keys[b] || (keys[a] == keys[b] && a < b)
}

/// `order` lists each of the first `count` positions of `keys` once, from the
/// largest key down, and positions with equal keys in their own order.
pub open spec fn is_descending_order(keys: Seq<u64>, order: Seq<usize>, count: int) -> bool {
    &&& order.len() == count
    &&& forall|i: int| 0 <= i < order.len() ==> 0 <= #[trigger] order[i] < count
    &&& forall|i: int, j: int|
        0 <= i < j < order.len() ==> comes_before(keys, order[i] as int, order[j] as int)
}

/// Orders the positions of `keys` from the largest key down. Positions with equal
/// keys keep their order.
pub fn descending_order(keys: &Vec<u64>) -> (order: Vec<usize>)
    ensures
        is_descending_order(keys@, order@, keys@.len() as int),
{
    let mut order: Vec<usize> = Vec::new();
    let mut k: usize = 0;
    while k < keys.len()
        invariant
            k <= keys@.len(),
            is_descending_order(keys@, order@, k as int),
        decreases keys@.len() - k,
    {
        let mut at: usize = 0;
        while at < order.len() && keys[order[at]] >= keys[k]
            invariant
                k < keys@.len(),
                at <= order@.len(),
                is_descending_order(keys@, order@, k as int),
                forall|j: int| 0 <= j < at ==> keys@[order@[j] as int] >= keys@[k as int],
            decreases order@.len() - at,
        {
            at += 1;
        }
        let ghost before = order@;
        order.insert(at, k);
        proof {
            let after = order@;
            assert(after == before.insert(at as int, k));
            assert forall|i: int, j: int| 0 <= i < j < after.len() implies comes_before(
                keys@,
                after[i] as int,
                after[j] as int,
            ) by {
                if j < at {
                    assert(after[i] == before[i] && after[j] == before[j]);
                } else if j == at {
                    assert(after[i] == before[i]);
                } else if i < at {
                    assert(after[i] == before[i] && after[j] == before[j - 1]);
                } else if i == at {
                    assert(after[j] == before[j - 1]);
                    assert(comes_before(keys@, before[at as int] as int, before[j - 1] as int)
                        || j - 1 == at);
                } else {
                    assert(after[i] == before[i - 1] && after[j] == before[j - 1]);
                }
            }
            assert forall|i: int| 0 <= i < after.len() implies 0 <= #[trigger] after[i] < k
                + 1 by {
                if i < at {
                    assert(after[i] == before[i]);
                } else if i > at {
                    assert(after[i] == before[i - 1]);
                }
            }
        }
        k += 1;
    }
    order
}

/// An order as `descending_order` gives it names every position exactly once.
pub proof fn lemma_descending_order_is_a_permutation(keys: Seq<u64>, order: Seq<usize>)
    requires
        is_descending_order(keys, order, keys.len() as int),
    ensures
        forall|i: int, j: int| 0 <= i < j < order.len() ==> order[i] != order[j],
        order.len() == keys.len(),
{
    assert forall|i: int, j: int| 0 <= i < j < order.len() implies order[i] != order[j] by {
        assert(comes_before(keys, order[i] as int, order[j] as int));
    }
}


/// The command that opens a file with the program that the desktop has for it:
/// the program's name, then its arguments.
pub open spec fn open_command_of(platform: Platform, path: Seq<char>) -> Seq<Seq<char>> {
    match platform {
        Platform::MacOs => seq!["open"@, path],
        Platform::Windows => seq!["cmd"@, "/C"@, "start"@, ""@, path],
        Platform::Linux => seq!["xdg-open"@, path],
    }
}

/// Builds the command that opens the file at `path`.
pub fn open_command(platform: Platform, path: &str) -> (command: Vec<String>)
    ensures
        command.deep_view() == open_command_of(platform, path@),
{
    let mut command: Vec<String> = Vec::new();
    match platform {
        Platform::MacOs => {
            command.push(String::from_str("open"));
        },
        Platform::Windows => {
            command.push(String::from_str("cmd"));
            command.push(String::from_str("/C"));
            command.push(String::from_str("start"));
            command.push(String::from_str(""));
        },
        Platform::Linux => {
            command.push(String::from_str("xdg-open"));
        },
    }
    command.push(String::from_str(path));
    assert(command.deep_view() =~= open_command_of(platform, path@));
    command
}

/// The event that the window is sent when a menu item is chosen; none for an
/// item that the application does not handle itself.
pub fn menu_event(item: &str) -> (event: Option<&'static str>)
    ensures
        match event {
            Some(name) => (item@ == "show_help"@ && name@ == "show-help"@) || (item@ == "about"@
                && name@ == "show-about"@),
            None => item@ != "show_help"@ && item@ != "about"@,
        },
{
    if same_text(item, "show_help") {
        Some("show-help")
    } else if same_text(item, "about") {
        Some("show-about")
    } else {
        None
    }
}

/// A file as the scanner for duplicates sees it: the digest of its content, its
/// path, and its size where that could be read.
#[derive(Clone, Debug, PartialEq, Eq)]
pub struct HashedFile {
    pub hash: String,
    pub path: String,
    pub size: Option<u64>,
}

/// The files that share one content.
#[derive(Clone, Debug, PartialEq, Eq)]
pub struct DuplicateFileGroup {
    pub hash: String,
    pub size: u64,
    pub files: Vec<String>,
}

/// The paths of the files with the digest `hash`, in the order of `files`.
pub open spec fn paths_with(files: Seq<HashedFile>, hash: Seq<char>) -> Seq<Seq<char>>
    decreases files.len(),
{
    if files.len() == 0 {
        Seq::empty()
    } else if files.last().hash@ == hash {
        paths_with(files.drop_last(), hash).push(files.last().path@)
    } else {
        paths_with(files.drop_last(), hash)
    }
}

/// The size of the files with the digest `hash`: that of the last of them whose
/// size is known, and zero where none is known.
pub open spec fn size_with(files: Seq<HashedFile>, hash: Seq<char>) -> u64
    decreases files.len(),
{
    if files.len() == 0 {
        0
    } else if files.last().hash@ == hash && files.last().size is Some {
        files.last().size->0
    } else {
        size_with(files.drop_last(), hash)
    }
}

/// One of the first `count` files has the digest `hash`.
pub open spec fn occurs_before(files: Seq<HashedFile>, count: int, hash: Seq<char>) -> bool {
    exists|j: int| 0 <= j < count && j < files.len() && (#[trigger] files[j]).hash@ == hash
}

/// One of `groups` is the group of the digest `hash`.
pub open spec fn has_group(groups: Seq<DuplicateFileGroup>, hash: Seq<char>) -> bool {
    exists|g: int| 0 <= g < groups.len() && (#[trigger] groups[g]).hash@ == hash
}

impl DuplicateFileGroup {
    /// The group holds all the files of `files` that have its digest, which are
    /// more than one, and their size.
    pub open spec fn gathers(self, files: Seq<HashedFile>) -> bool {
        &&& self.files.deep_view() == paths_with(files, self.hash@)
        &&& self.files@.len() > 1
        &&& self.size == size_with(files, self.hash@)
    }
}

/// `groups` are the duplicates among the first `count` of `files`: one group for
/// each digest that more than one of all the files has and that one of the first
/// `count` has, each group complete, no digest twice, and the groups with the
/// largest files first.
pub open spec fn are_duplicates(
    groups: Seq<DuplicateFileGroup>,
    files: Seq<HashedFile>,
    count: int,
) -> bool {
    &&& forall|g: int| 0 <= g < groups.len() ==> (#[trigger] groups[g]).gathers(files)
    &&& forall|g: int|
        0 <= g < groups.len() ==> occurs_before(files, count, (#[trigger] groups[g]).hash@)
    &&& forall|g: int, h: int|
        0 <= g < h < groups.len() ==> (#[trigger] groups[g]).hash@ != (#[trigger] groups[h]).hash@
    &&& forall|g: int, h: int|
        0 <= g < h < groups.len() ==> (#[trigger] groups[g]).size >= (#[trigger] groups[h]).size
    &&& forall|k: int|
        0 <= k < count && k < files.len() && paths_with(files, (#[trigger] files[k]).hash@).len()
            > 1 ==> has_group(groups, files[k].hash@)
}

/// Gathers the files with the digest `hash`.
fn gather(files: &Vec<HashedFile>, hash: &str) -> (group: DuplicateFileGroup)
    ensures
        group.hash@ == hash@,
        group.files.deep_view() == paths_with(files@, hash@),
        group.size == size_with(files@, hash@),
{
    let mut paths: Vec<String> = Vec::new();
    let mut size: u64 = 0;
    let mut k: usize = 0;
    assert(files@.take(0) =~= Seq::<HashedFile>::empty());
    while k < files.len()
        invariant
            k <= files@.len(),
            paths.deep_view() == paths_with(files@.take(k as int), hash@),
            size == size_with(files@.take(k as int), hash@),
        decreases files@.len() - k,
    {
        proof {
            assert(files@.take(k + 1).drop_last() =~= files@.take(k as int));
            assert(files@.take(k + 1).last() == files@[k as int]);
        }
        if same_text(files[k].hash.as_str(), hash) {
            let ghost before = paths.deep_view();
            paths.push(files[k].path.clone());
            assert(paths.deep_view() =~= before.push(files@[k as int].path@));
            match files[k].size {
                Some(known) => {
                    size = known;
                },
                None => {},
            }
        }
        k += 1;
    }
    assert(files@.take(k as int) =~= files@);
    DuplicateFileGroup { hash: String::from_str(hash), size, files: paths }
}

/// Whether a file before the `k`-th has the digest of the `k`-th.
fn seen_before(files: &Vec<HashedFile>, k: usize) -> (seen: bool)
    requires
        k < files@.len(),
    ensures
        seen == occurs_before(files@, k as int, files@[k as int].hash@),
{
    let mut j: usize = 0;
    while j < k
        invariant
            j <= k < files@.len(),
            forall|i: int| 0 <= i < j ==> (#[trigger] files@[i]).hash@ != files@[k as int].hash@,
        decreases k - j,
    {
        if same_text(files[j].hash.as_str(), files[k].hash.as_str()) {
            return true;
        }
        j += 1;
    }
    false
}

/// Finds the files that share their content with another file, and groups them:
/// one group for each digest that more than one file has, with the paths in the
/// order of `files`, and the groups with the largest files first.
pub fn find_duplicates(files: &Vec<HashedFile>) -> (groups: Vec<DuplicateFileGroup>)
    ensures
        are_duplicates(groups@, files@, files@.len() as int),
{
    let mut groups: Vec<DuplicateFileGroup> = Vec::new();
    let mut k: usize = 0;
    while k < files.len()
        invariant
            k <= files@.len(),
            are_duplicates(groups@, files@, k as int),
        decreases files@.len() - k,
    {
        let ghost before = groups@;
        let ghost hash = files@[k as int].hash@;
        let seen = seen_before(files, k);
        if !seen {
            let group = gather(files, files[k].hash.as_str());
            if group.files.len() > 1 {
                let mut at: usize = 0;
                while at < groups.len() && groups[at].size >= group.size
                    invariant
                        at <= groups@.len(),
                        groups@ == before,
                        forall|g: int| 0 <= g < at ==> (#[trigger] groups@[g]).size >= group.size,
                    decreases groups@.len() - at,
                {
                    at += 1;
                }
                groups.insert(at, group);
                proof {
                    let after = groups@;
                    assert(after == before.insert(at as int, group));
                    assert(forall|g: int| 0 <= g < at ==> after[g] == before[g]);
                    assert(after[at as int] == group);
                    assert(forall|g: int| at < g < after.len() ==> after[g] == before[g - 1]);
                    assert(occurs_before(files@, k + 1, hash)) by {
                        assert(files@[k as int].hash@ == hash);
                    }
                    assert forall|g: int| 0 <= g < after.len() implies occurs_before(
                        files@,
                        k + 1,
                        (#[trigger] after[g]).hash@,
                    ) by {
                        if g != at {
                            let old_g = if g < at {
                                g
                            } else {
                                g - 1
                            };
                            assert(occurs_before(files@, k as int, before[old_g].hash@));
                        }
                    }
                    assert forall|g: int, h: int| 0 <= g < h < after.len() implies (
                    #[trigger] after[g]).hash@ != (#[trigger] after[h]).hash@ by {
                        if g != at && h != at {
                            let old_g = if g < at {
                                g
                            } else {
                                g - 1
                            };
                            let old_h = if h < at {
                                h
                            } else {
                                h - 1
                            };
                            assert(before[old_g].hash@ != before[old_h].hash@);
                        } else {
                            let other = if g == at {
                                h - 1
                            } else {
                                g
                            };
                            assert(occurs_before(files@, k as int, before[other].hash@));
                        }
                    }
                    assert forall|g: int, h: int| 0 <= g < h < after.len() implies (
                    #[trigger] after[g]).size >= (#[trigger] after[h]).size by {
                        if g != at && h != at {
                            let old_g = if g < at {
                                g
                            } else {
                                g - 1
                            };
                            let old_h = if h < at {
                                h
                            } else {
                                h - 1
                            };
                            assert(before[old_g].size >= before[old_h].size);
                        } else if g == at {
                            if at < before.len() {
                                assert(before[at as int].size < group.size);
                                if h - 1 > at {
                                    assert(before[at as int].size >= before[h - 1].size);
                                }
                            }
                        }
                    }
                    assert forall|j: int|
                        0 <= j < k + 1 && j < files@.len() && paths_with(
                            files@,
                            (#[trigger] files@[j]).hash@,
                        ).len() > 1 implies has_group(after, files@[j].hash@) by {
                        if j < k {
                            assert(has_group(before, files@[j].hash@));
                            let old_g = choose|g: int|
                                0 <= g < before.len() && (#[trigger] before[g]).hash@
                                    == files@[j].hash@;
                            let new_g = if old_g < at {
                                old_g
                            } else {
                                old_g + 1
                            };
                            assert(after[new_g].hash@ == files@[j].hash@);
                        } else {
                            assert(after[at as int].hash@ == files@[j].hash@);
                        }
                    }
                }
            } else {
                proof {
                    assert forall|g: int| 0 <= g < before.len() implies occurs_before(
                        files@,
                        k + 1,
                        (#[trigger] before[g]).hash@,
                    ) by {
                        assert(occurs_before(files@, k as int, before[g].hash@));
                    }
                }
            }
        } else {
            proof {
                assert forall|g: int| 0 <= g < before.len() implies occurs_before(
                    files@,
                    k + 1,
                    (#[trigger] before[g]).hash@,
                ) by {
                    assert(occurs_before(files@, k as int, before[g].hash@));
                }
                let j = choose|j: int|
                    0 <= j < k && j < files@.len() && (#[trigger] files@[j]).hash@ == hash;
                if paths_with(files@, hash).len() > 1 {
                    assert(has_group(before, files@[j].hash@));
                }
            }
        }
        k += 1;
    }
    groups
}

} // verus!
