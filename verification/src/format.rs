//! Format Resolver: maps an archive's file name to the extraction tool,
//! by literal suffix against a priority-ordered table. One suffix is
//! ambiguous between two tool dialects and needs content sniffing: the
//! caller runs an inspection command and hands its output to
//! [`resolve_rar`], which scans it for a marker substring.
use crate::text::ends_with_str;
use crate::text::is_suffix_of;
use vstd::prelude::*;

verus! {

/// The exit code reported when a file name matches no format rule.
pub const UNRECOGNIZED_FORMAT_EXIT: i32 = 21;

/// An extraction tool this front end knows how to invoke.
#[derive(Clone, Copy, Debug, PartialEq, Eq, Structural)]
pub enum Tool {
    /// `tar xvf`
    Tar,
    /// `7z x`
    SevenZ,
    /// `gbkunzip`
    GbkUnzip,
    /// `unzip`
    Unzip,
    /// `rar x`
    Rar,
    /// `bsdtar xf`, for the container format
    Bsdtar,
}

/// What the resolver decided for a file name.
#[derive(Clone, Copy, Debug, PartialEq, Eq, Structural)]
pub enum Resolution {
    /// A container format: extract with [`Tool::Bsdtar`], then recurse into
    /// the members.
    Container,
    /// A plain recognized format with its tool.
    Recognized(Tool),
    /// The ambiguous suffix: inspect the file's content, then call
    /// [`resolve_rar`] on the inspection output.
    Sniff,
    /// No rule matches: a fatal input error.
    Unrecognized,
}

/// The name has the container format's suffix and a nonempty stem before it,
/// so its final extension component is exactly `deb`.
pub open spec fn spec_is_container_name(name: Seq<char>) -> bool {
    name.len() > 4 && is_suffix_of(".deb"@, name)
}

/// The tar family of suffixes, most specific first.
pub open spec fn spec_has_tar_suffix(name: Seq<char>) -> bool {
    ||| is_suffix_of(".tar.gz"@, name)
    ||| is_suffix_of(".tar.xz"@, name)
    ||| is_suffix_of(".tar.zst"@, name)
    ||| is_suffix_of(".tar.bz2"@, name)
    ||| is_suffix_of(".tgz"@, name)
    ||| is_suffix_of(".txz"@, name)
    ||| is_suffix_of(".tbz"@, name)
    ||| is_suffix_of(".tar"@, name)
}

/// The suffixes handled by `7z`.
pub open spec fn spec_has_sevenz_suffix(name: Seq<char>) -> bool {
    ||| is_suffix_of(".7z"@, name)
    ||| is_suffix_of(".chm"@, name)
    ||| is_suffix_of(".a"@, name)
}

/// The zip-family suffixes handled by `unzip`.
pub open spec fn spec_has_unzip_suffix(name: Seq<char>) -> bool {
    ||| is_suffix_of(".xpi"@, name)
    ||| is_suffix_of(".jar"@, name)
    ||| is_suffix_of(".apk"@, name)
    ||| is_suffix_of(".maff"@, name)
    ||| is_suffix_of(".epub"@, name)
    ||| is_suffix_of(".crx"@, name)
    ||| is_suffix_of(".whl"@, name)
    ||| is_suffix_of(".xapk"@, name)
}

/// The whole suffix table, in priority order: first matching rule wins.
pub open spec fn spec_resolution(name: Seq<char>) -> Resolution {
    if spec_is_container_name(name) {
        Resolution::Container
    } else if spec_has_tar_suffix(name) {
        Resolution::Recognized(Tool::Tar)
    } else if spec_has_sevenz_suffix(name) {
        Resolution::Recognized(Tool::SevenZ)
    } else if is_suffix_of(".zip"@, name) {
        Resolution::Recognized(Tool::GbkUnzip)
    } else if spec_has_unzip_suffix(name) {
        Resolution::Recognized(Tool::Unzip)
    } else if is_suffix_of(".rar"@, name) {
        Resolution::Sniff
    } else {
        Resolution::Unrecognized
    }
}

/// Resolves a file name against the suffix table.
pub fn resolve_name(name: &str) -> (r: Resolution)
    ensures
        r == spec_resolution(name@),
{
    if name.unicode_len() > 4 && ends_with_str(name, ".deb") {
        Resolution::Container
    } else if ends_with_str(name, ".tar.gz") || ends_with_str(
        name,
        ".tar.xz",
    ) || ends_with_str(name, ".tar.zst") || ends_with_str(
        name,
        ".tar.bz2",
    ) || ends_with_str(name, ".tgz") || ends_with_str(name, ".txz")
        || ends_with_str(name, ".tbz") || ends_with_str(name, ".tar") {
        Resolution::Recognized(Tool::Tar)
    } else if ends_with_str(name, ".7z") || ends_with_str(name, ".chm")
        || ends_with_str(name, ".a") {
        Resolution::Recognized(Tool::SevenZ)
    } else if ends_with_str(name, ".zip") {
        Resolution::Recognized(Tool::GbkUnzip)
    } else if ends_with_str(name, ".xpi") || ends_with_str(name, ".jar")
        || ends_with_str(name, ".apk") || ends_with_str(name, ".maff")
        || ends_with_str(name, ".epub") || ends_with_str(name, ".crx")
        || ends_with_str(name, ".whl") || ends_with_str(name, ".xapk") {
        Resolution::Recognized(Tool::Unzip)
    } else if ends_with_str(name, ".rar") {
        Resolution::Sniff
    } else {
        Resolution::Unrecognized
    }
}

impl Tool {
    /// The executable's name.
    pub open spec fn spec_executable(self) -> Seq<char> {
        match self {
            Tool::Tar => "tar"@,
            Tool::SevenZ => "7z"@,
            Tool::GbkUnzip => "gbkunzip"@,
            Tool::Unzip => "unzip"@,
            Tool::Rar => "rar"@,
            Tool::Bsdtar => "bsdtar"@,
        }
    }

    /// The tool's fixed argument before the archive path, if it takes one.
    pub open spec fn spec_flag(self) -> Option<Seq<char>> {
        match self {
            Tool::Tar => Some("xvf"@),
            Tool::SevenZ => Some("x"@),
            Tool::GbkUnzip => None,
            Tool::Unzip => None,
            Tool::Rar => Some("x"@),
            Tool::Bsdtar => Some("xf"@),
        }
    }

    /// The executable's name.
    pub fn executable(&self) -> (r: &'static str)
        ensures
            r@ == self.spec_executable(),
    {
        match self {
            Tool::Tar => "tar",
            Tool::SevenZ => "7z",
            Tool::GbkUnzip => "gbkunzip",
            Tool::Unzip => "unzip",
            Tool::Rar => "rar",
            Tool::Bsdtar => "bsdtar",
        }
    }

    /// The tool's fixed argument before the archive path, if it takes one.
    pub fn flag(&self) -> (r: Option<&'static str>)
        ensures
            match r {
                Some(f) => self.spec_flag() == Some(f@),
                None => self.spec_flag() is None,
            },
    {
        match self {
            Tool::Tar => Some("xvf"),
            Tool::SevenZ => Some("x"),
            Tool::GbkUnzip => None,
            Tool::Unzip => None,
            Tool::Rar => Some("x"),
            Tool::Bsdtar => Some("xf"),
        }
    }
}

/// The external inspection command run on a file whose suffix is ambiguous;
/// its output is handed to [`resolve_rar`].
pub fn inspection_command() -> (r: &'static str)
    ensures
        r@ == "file"@,
{
    "file"
}

/// `pat` occurs in `text` at position `i`.
pub open spec fn match_at(text: Seq<u8>, pat: Seq<u8>, i: int) -> bool {
    0 <= i && i + pat.len() <= text.len() && text.subrange(i, i + pat.len()) == pat
}

/// Relies on twoway::find_bytes: the position of the first occurrence of
/// `pattern` in `text`, or `None` when it does not occur.
pub assume_specification[ twoway::find_bytes ](text: &[u8], pattern: &[u8]) -> (r: Option<usize>)
    ensures
        match r {
            Some(i) => match_at(text@, pattern@, i as int) && forall|j: int|
                0 <= j < i ==> !match_at(text@, pattern@, j),
            None => forall|j: int| !match_at(text@, pattern@, j),
        },
;

/// The bytes of the marker substring `Win32` that tells the two dialects of
/// the ambiguous format apart in an inspection command's output.
pub open spec fn spec_win32_marker() -> Seq<u8> {
    seq![87u8, 105u8, 110u8, 51u8, 50u8]
}

/// The marker bytes as a value.
pub fn win32_marker() -> (r: Vec<u8>)
    ensures
        r@ == spec_win32_marker(),
{
    let mut m: Vec<u8> = Vec::new();
    m.push(87);
    m.push(105);
    m.push(110);
    m.push(51);
    m.push(50);
    proof {
        assert(m@ =~= spec_win32_marker());
    }
    m
}

/// The tool for the ambiguous suffix, given the inspection command's output:
/// one dialect's tool when the marker occurs in it, the other's when not.
pub open spec fn spec_rar_tool(inspect_output: Seq<u8>) -> Tool {
    if exists|i: int| match_at(inspect_output, spec_win32_marker(), i) {
        Tool::SevenZ
    } else {
        Tool::Rar
    }
}

/// Picks the tool for the ambiguous suffix by scanning the inspection
/// command's output for the marker.
pub fn resolve_rar(inspect_output: &[u8]) -> (r: Tool)
    ensures
        r == spec_rar_tool(inspect_output@),
{
    let marker = win32_marker();
    match twoway::find_bytes(inspect_output, marker.as_slice()) {
        Some(_) => Tool::SevenZ,
        None => Tool::Rar,
    }
}

} // verus!
