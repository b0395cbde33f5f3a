//! Attachments: the files a person adds to a prompt and the files a message
//! carries. One [`Attachment`] describes a file by stable ID, name, kind,
//! size, optional thumbnail, and upload lifecycle; its summary is the
//! metadata line read under the name and to assistive technology.

use vstd::prelude::*;
use crate::ids::opt_view;
use crate::binary64::{NUMERATOR_LIMIT, UNIT, double_units, round_quotient};
use crate::stream::ProgressState;
use crate::text::{
    ascii_lower, ascii_lower_seq, chars_of, decimal, digit_char, push_decimal, push_tenths, tail_matches_lower,
};

verus! {

broadcast use vstd::seq_lib::group_seq_properties;

/// The family a file belongs to; drives the fallback glyph and the kind label.
#[derive(Debug, Clone, Copy, PartialEq, Eq, Hash, Structural)]
pub enum AttachmentKind {
    /// Raster or vector images.
    Image,
    /// Documents and plain text.
    Document,
    /// Source code and scripts.
    Code,
    /// Audio recordings.
    Audio,
    /// Video clips.
    Video,
    /// Compressed bundles.
    Archive,
    /// Tabular or structured data.
    Data,
    /// Anything else.
    Other,
}

impl Default for AttachmentKind {
    fn default() -> (r: Self)
        ensures
            r == AttachmentKind::Other,
    {
        AttachmentKind::Other
    }
}

/// The position of the last `.` in a file name, or -1 when it has none.
pub open spec fn last_dot(name: Seq<char>) -> int
    decreases name.len(),
{
    if name.len() == 0 {
        -1
    } else if name.last() == '.' {
        name.len() - 1
    } else {
        last_dot(name.drop_last())
    }
}

/// The extension of a file name: what follows its last `.`, or nothing.
pub open spec fn extension(name: Seq<char>) -> Seq<char> {
    if last_dot(name) < 0 {
        Seq::empty()
    } else {
        name.subrange(last_dot(name) + 1, name.len() as int)
    }
}

/// The kind of a file whose lower-case extension is `e`.
pub open spec fn kind_for_extension(e: Seq<char>) -> AttachmentKind {
    if e == "png"@ || e == "jpg"@ || e == "jpeg"@ || e == "gif"@ || e == "webp"@ || e == "svg"@
        || e == "bmp"@ || e == "heic"@ || e == "avif"@ {
        AttachmentKind::Image
    } else if e == "md"@ || e == "txt"@ || e == "pdf"@ || e == "doc"@ || e == "docx"@ || e == "rtf"@
        || e == "odt"@ || e == "pages"@ {
        AttachmentKind::Document
    } else if e == "rs"@ || e == "ts"@ || e == "tsx"@ || e == "js"@ || e == "jsx"@ || e == "py"@
        || e == "go"@ || e == "rb"@ || e == "java"@ || e == "kt"@ || e == "swift"@ || e == "c"@
        || e == "h"@ || e == "cpp"@ || e == "hpp"@ || e == "cs"@ || e == "sh"@ || e == "zsh"@
        || e == "toml"@ || e == "yaml"@ || e == "yml"@ || e == "html"@ || e == "css"@ || e == "sql"@ {
        AttachmentKind::Code
    } else if e == "mp3"@ || e == "wav"@ || e == "m4a"@ || e == "ogg"@ || e == "flac"@ || e == "aac"@ {
        AttachmentKind::Audio
    } else if e == "mp4"@ || e == "mov"@ || e == "webm"@ || e == "mkv"@ || e == "avi"@ {
        AttachmentKind::Video
    } else if e == "zip"@ || e == "tar"@ || e == "gz"@ || e == "tgz"@ || e == "7z"@ || e == "rar"@
        || e == "bz2"@ || e == "xz"@ {
        AttachmentKind::Archive
    } else if e == "csv"@ || e == "tsv"@ || e == "json"@ || e == "xlsx"@ || e == "xls"@
        || e == "parquet"@ || e == "ndjson"@ {
        AttachmentKind::Data
    } else {
        AttachmentKind::Other
    }
}

/// The kind inferred from a file name: its extension, ignoring ASCII case.
pub open spec fn kind_from_name(name: Seq<char>) -> AttachmentKind {
    kind_for_extension(ascii_lower_seq(extension(name)))
}

/// The short human label for a kind.
pub open spec fn kind_label_spec(kind: AttachmentKind) -> Seq<char> {
    match kind {
        AttachmentKind::Image => "Image"@,
        AttachmentKind::Document => "Document"@,
        AttachmentKind::Code => "Code"@,
        AttachmentKind::Audio => "Audio"@,
        AttachmentKind::Video => "Video"@,
        AttachmentKind::Archive => "Archive"@,
        AttachmentKind::Data => "Data"@,
        AttachmentKind::Other => "File"@,
    }
}

proof fn lemma_last_dot_take(s: Seq<char>, i: int)
    requires
        0 <= i <= s.len(),
        forall|j: int| i <= j < s.len() ==> s[j] != '.',
    ensures
        last_dot(s) == last_dot(s.take(i)),
    decreases s.len() - i,
{
    if i == s.len() {
        assert(s.take(i) =~= s);
    } else {
        assert(s.drop_last().take(i) =~= s.take(i));
        lemma_last_dot_take(s.drop_last(), i);
    }
}

proof fn lemma_last_dot_bounds(s: Seq<char>)
    ensures
        -1 <= last_dot(s) < s.len(),
    decreases s.len(),
{
    if s.len() > 0 {
        lemma_last_dot_bounds(s.drop_last());
    }
}

proof fn lemma_lower_is_dot(c: char)
    ensures
        (ascii_lower(c) == '.') == (c == '.'),
{
    if 'A' <= c && c <= 'Z' {
        let l = ((c as u32) + 32) as char;
        assert(l as u32 == (c as u32) + 32);
        assert(l != '.');
    }
}

proof fn lemma_last_dot_lower(s: Seq<char>)
    ensures
        last_dot(ascii_lower_seq(s)) == last_dot(s),
    decreases s.len(),
{
    if s.len() > 0 {
        assert(ascii_lower_seq(s).drop_last() =~= ascii_lower_seq(s.drop_last()));
        lemma_last_dot_lower(s.drop_last());
        lemma_lower_is_dot(s.last());
    }
}

/// The kind of a file does not depend on the ASCII case of its name:
/// `Hero.PNG`, `hero.png` and `HERO.png` are all images.
pub proof fn lemma_kind_ignores_case(a: Seq<char>, b: Seq<char>)
    requires
        ascii_lower_seq(a) == ascii_lower_seq(b),
    ensures
        kind_from_name(a) == kind_from_name(b),
{
    lemma_last_dot_lower(a);
    lemma_last_dot_lower(b);
    lemma_last_dot_bounds(a);
    lemma_last_dot_bounds(b);
    assert(a.len() == b.len()) by {
        assert(ascii_lower_seq(a).len() == a.len());
        assert(ascii_lower_seq(b).len() == b.len());
    }
    if last_dot(a) >= 0 {
        let i = last_dot(a) + 1;
        assert(ascii_lower_seq(extension(a)) =~= ascii_lower_seq(a).subrange(i, a.len() as int));
        assert(ascii_lower_seq(extension(b)) =~= ascii_lower_seq(b).subrange(i, b.len() as int));
    } else {
        assert(ascii_lower_seq(extension(a)) =~= ascii_lower_seq(extension(b)));
    }
}

/// Only the last extension decides a file's kind: whatever the stem holds,
/// `stem.ext` is the kind of `ext` (so `bundle.tar.gz` is read by `gz`).
pub proof fn lemma_kind_reads_last_extension(stem: Seq<char>, ext: Seq<char>)
    requires
        forall|j: int| 0 <= j < ext.len() ==> ext[j] != '.',
    ensures
        kind_from_name(stem + seq!['.'] + ext) == kind_for_extension(ascii_lower_seq(ext)),
{
    let name = stem + seq!['.'] + ext;
    let i: int = stem.len() as int + 1;
    assert forall|j: int| i <= j < name.len() implies name[j] != '.' by {
        assert(name[j] == ext[j - i]);
    }
    lemma_last_dot_take(name, i);
    assert(name.take(i).last() == '.');
    assert(last_dot(name) == stem.len());
    assert(extension(name) =~= ext);
}

#[verifier::rlimit(50)]
proof fn lemma_image_extensions(e: Seq<char>)
    requires
        seq!["png"@, "jpg"@, "jpeg"@, "gif"@, "webp"@, "svg"@, "bmp"@, "heic"@, "avif"@].contains(e),
    ensures
        kind_for_extension(e) == AttachmentKind::Image,
{
    reveal_strlit("png");
    assert("png"@.len() == 3 && "png"@[0] == 'p' && "png"@[1] == 'n' && "png"@[2] == 'g');
    reveal_strlit("jpg");
    assert("jpg"@.len() == 3 && "jpg"@[0] == 'j' && "jpg"@[1] == 'p' && "jpg"@[2] == 'g');
    reveal_strlit("jpeg");
    assert("jpeg"@.len() == 4 && "jpeg"@[0] == 'j' && "jpeg"@[1] == 'p' && "jpeg"@[2] == 'e' && "jpeg"@[3] == 'g');
    reveal_strlit("gif");
    assert("gif"@.len() == 3 && "gif"@[0] == 'g' && "gif"@[1] == 'i' && "gif"@[2] == 'f');
    reveal_strlit("webp");
    assert("webp"@.len() == 4 && "webp"@[0] == 'w' && "webp"@[1] == 'e' && "webp"@[2] == 'b' && "webp"@[3] == 'p');
    reveal_strlit("svg");
    assert("svg"@.len() == 3 && "svg"@[0] == 's' && "svg"@[1] == 'v' && "svg"@[2] == 'g');
    reveal_strlit("bmp");
    assert("bmp"@.len() == 3 && "bmp"@[0] == 'b' && "bmp"@[1] == 'm' && "bmp"@[2] == 'p');
    reveal_strlit("heic");
    assert("heic"@.len() == 4 && "heic"@[0] == 'h' && "heic"@[1] == 'e' && "heic"@[2] == 'i' && "heic"@[3] == 'c');
    reveal_strlit("avif");
    assert("avif"@.len() == 4 && "avif"@[0] == 'a' && "avif"@[1] == 'v' && "avif"@[2] == 'i' && "avif"@[3] == 'f');
    let l = seq!["png"@, "jpg"@, "jpeg"@, "gif"@, "webp"@, "svg"@, "bmp"@, "heic"@, "avif"@];
    assert(l[0] == "png"@);
    assert(l[1] == "jpg"@);
    assert(l[2] == "jpeg"@);
    assert(l[3] == "gif"@);
    assert(l[4] == "webp"@);
    assert(l[5] == "svg"@);
    assert(l[6] == "bmp"@);
    assert(l[7] == "heic"@);
    assert(l[8] == "avif"@);
}

#[verifier::rlimit(50)]
proof fn lemma_document_extensions(e: Seq<char>)
    requires
        seq!["md"@, "txt"@, "pdf"@, "doc"@, "docx"@, "rtf"@, "odt"@, "pages"@].contains(e),
    ensures
        kind_for_extension(e) == AttachmentKind::Document,
{
    reveal_strlit("png");
    assert("png"@.len() == 3 && "png"@[0] == 'p' && "png"@[1] == 'n' && "png"@[2] == 'g');
    reveal_strlit("jpg");
    assert("jpg"@.len() == 3 && "jpg"@[0] == 'j' && "jpg"@[1] == 'p' && "jpg"@[2] == 'g');
    reveal_strlit("jpeg");
    assert("jpeg"@.len() == 4 && "jpeg"@[0] == 'j' && "jpeg"@[1] == 'p' && "jpeg"@[2] == 'e' && "jpeg"@[3] == 'g');
    reveal_strlit("gif");
    assert("gif"@.len() == 3 && "gif"@[0] == 'g' && "gif"@[1] == 'i' && "gif"@[2] == 'f');
    reveal_strlit("webp");
    assert("webp"@.len() == 4 && "webp"@[0] == 'w' && "webp"@[1] == 'e' && "webp"@[2] == 'b' && "webp"@[3] == 'p');
    reveal_strlit("svg");
    assert("svg"@.len() == 3 && "svg"@[0] == 's' && "svg"@[1] == 'v' && "svg"@[2] == 'g');
    reveal_strlit("bmp");
    assert("bmp"@.len() == 3 && "bmp"@[0] == 'b' && "bmp"@[1] == 'm' && "bmp"@[2] == 'p');
    reveal_strlit("heic");
    assert("heic"@.len() == 4 && "heic"@[0] == 'h' && "heic"@[1] == 'e' && "heic"@[2] == 'i' && "heic"@[3] == 'c');
    reveal_strlit("avif");
    assert("avif"@.len() == 4 && "avif"@[0] == 'a' && "avif"@[1] == 'v' && "avif"@[2] == 'i' && "avif"@[3] == 'f');
    reveal_strlit("md");
    assert("md"@.len() == 2 && "md"@[0] == 'm' && "md"@[1] == 'd');
    reveal_strlit("txt");
    assert("txt"@.len() == 3 && "txt"@[0] == 't' && "txt"@[1] == 'x' && "txt"@[2] == 't');
    reveal_strlit("pdf");
    assert("pdf"@.len() == 3 && "pdf"@[0] == 'p' && "pdf"@[1] == 'd' && "pdf"@[2] == 'f');
    reveal_strlit("doc");
    assert("doc"@.len() == 3 && "doc"@[0] == 'd' && "doc"@[1] == 'o' && "doc"@[2] == 'c');
    reveal_strlit("docx");
    assert("docx"@.len() == 4 && "docx"@[0] == 'd' && "docx"@[1] == 'o' && "docx"@[2] == 'c' && "docx"@[3] == 'x');
    reveal_strlit("rtf");
    assert("rtf"@.len() == 3 && "rtf"@[0] == 'r' && "rtf"@[1] == 't' && "rtf"@[2] == 'f');
    reveal_strlit("odt");
    assert("odt"@.len() == 3 && "odt"@[0] == 'o' && "odt"@[1] == 'd' && "odt"@[2] == 't');
    reveal_strlit("pages");
    assert("pages"@.len() == 5 && "pages"@[0] == 'p' && "pages"@[1] == 'a' && "pages"@[2] == 'g' && "pages"@[3] == 'e' && "pages"@[4] == 's');
    let l = seq!["md"@, "txt"@, "pdf"@, "doc"@, "docx"@, "rtf"@, "odt"@, "pages"@];
    assert(l[0] == "md"@);
    assert(l[1] == "txt"@);
    assert(l[2] == "pdf"@);
    assert(l[3] == "doc"@);
    assert(l[4] == "docx"@);
    assert(l[5] == "rtf"@);
    assert(l[6] == "odt"@);
    assert(l[7] == "pages"@);
}

#[verifier::rlimit(50)]
proof fn lemma_code_extensions(e: Seq<char>)
    requires
        seq!["rs"@, "ts"@, "tsx"@, "js"@, "jsx"@, "py"@, "go"@, "rb"@, "java"@, "kt"@, "swift"@, "c"@, "h"@, "cpp"@, "hpp"@, "cs"@, "sh"@, "zsh"@, "toml"@, "yaml"@, "yml"@, "html"@, "css"@, "sql"@].contains(e),
    ensures
        kind_for_extension(e) == AttachmentKind::Code,
{
    reveal_strlit("png");
    assert("png"@.len() == 3 && "png"@[0] == 'p' && "png"@[1] == 'n' && "png"@[2] == 'g');
    reveal_strlit("jpg");
    assert("jpg"@.len() == 3 && "jpg"@[0] == 'j' && "jpg"@[1] == 'p' && "jpg"@[2] == 'g');
    reveal_strlit("jpeg");
    assert("jpeg"@.len() == 4 && "jpeg"@[0] == 'j' && "jpeg"@[1] == 'p' && "jpeg"@[2] == 'e' && "jpeg"@[3] == 'g');
    reveal_strlit("gif");
    assert("gif"@.len() == 3 && "gif"@[0] == 'g' && "gif"@[1] == 'i' && "gif"@[2] == 'f');
    reveal_strlit("webp");
    assert("webp"@.len() == 4 && "webp"@[0] == 'w' && "webp"@[1] == 'e' && "webp"@[2] == 'b' && "webp"@[3] == 'p');
    reveal_strlit("svg");
    assert("svg"@.len() == 3 && "svg"@[0] == 's' && "svg"@[1] == 'v' && "svg"@[2] == 'g');
    reveal_strlit("bmp");
    assert("bmp"@.len() == 3 && "bmp"@[0] == 'b' && "bmp"@[1] == 'm' && "bmp"@[2] == 'p');
    reveal_strlit("heic");
    assert("heic"@.len() == 4 && "heic"@[0] == 'h' && "heic"@[1] == 'e' && "heic"@[2] == 'i' && "heic"@[3] == 'c');
    reveal_strlit("avif");
    assert("avif"@.len() == 4 && "avif"@[0] == 'a' && "avif"@[1] == 'v' && "avif"@[2] == 'i' && "avif"@[3] == 'f');
    reveal_strlit("md");
    assert("md"@.len() == 2 && "md"@[0] == 'm' && "md"@[1] == 'd');
    reveal_strlit("txt");
    assert("txt"@.len() == 3 && "txt"@[0] == 't' && "txt"@[1] == 'x' && "txt"@[2] == 't');
    reveal_strlit("pdf");
    assert("pdf"@.len() == 3 && "pdf"@[0] == 'p' && "pdf"@[1] == 'd' && "pdf"@[2] == 'f');
    reveal_strlit("doc");
    assert("doc"@.len() == 3 && "doc"@[0] == 'd' && "doc"@[1] == 'o' && "doc"@[2] == 'c');
    reveal_strlit("docx");
    assert("docx"@.len() == 4 && "docx"@[0] == 'd' && "docx"@[1] == 'o' && "docx"@[2] == 'c' && "docx"@[3] == 'x');
    reveal_strlit("rtf");
    assert("rtf"@.len() == 3 && "rtf"@[0] == 'r' && "rtf"@[1] == 't' && "rtf"@[2] == 'f');
    reveal_strlit("odt");
    assert("odt"@.len() == 3 && "odt"@[0] == 'o' && "odt"@[1] == 'd' && "odt"@[2] == 't');
    reveal_strlit("pages");
    assert("pages"@.len() == 5 && "pages"@[0] == 'p' && "pages"@[1] == 'a' && "pages"@[2] == 'g' && "pages"@[3] == 'e' && "pages"@[4] == 's');
    reveal_strlit("rs");
    assert("rs"@.len() == 2 && "rs"@[0] == 'r' && "rs"@[1] == 's');
    reveal_strlit("ts");
    assert("ts"@.len() == 2 && "ts"@[0] == 't' && "ts"@[1] == 's');
    reveal_strlit("tsx");
    assert("tsx"@.len() == 3 && "tsx"@[0] == 't' && "tsx"@[1] == 's' && "tsx"@[2] == 'x');
    reveal_strlit("js");
    assert("js"@.len() == 2 && "js"@[0] == 'j' && "js"@[1] == 's');
    reveal_strlit("jsx");
    assert("jsx"@.len() == 3 && "jsx"@[0] == 'j' && "jsx"@[1] == 's' && "jsx"@[2] == 'x');
    reveal_strlit("py");
    assert("py"@.len() == 2 && "py"@[0] == 'p' && "py"@[1] == 'y');
    reveal_strlit("go");
    assert("go"@.len() == 2 && "go"@[0] == 'g' && "go"@[1] == 'o');
    reveal_strlit("rb");
    assert("rb"@.len() == 2 && "rb"@[0] == 'r' && "rb"@[1] == 'b');
    reveal_strlit("java");
    assert("java"@.len() == 4 && "java"@[0] == 'j' && "java"@[1] == 'a' && "java"@[2] == 'v' && "java"@[3] == 'a');
    reveal_strlit("kt");
    assert("kt"@.len() == 2 && "kt"@[0] == 'k' && "kt"@[1] == 't');
    reveal_strlit("swift");
    assert("swift"@.len() == 5 && "swift"@[0] == 's' && "swift"@[1] == 'w' && "swift"@[2] == 'i' && "swift"@[3] == 'f' && "swift"@[4] == 't');
    reveal_strlit("c");
    assert("c"@.len() == 1 && "c"@[0] == 'c');
    reveal_strlit("h");
    assert("h"@.len() == 1 && "h"@[0] == 'h');
    reveal_strlit("cpp");
    assert("cpp"@.len() == 3 && "cpp"@[0] == 'c' && "cpp"@[1] == 'p' && "cpp"@[2] == 'p');
    reveal_strlit("hpp");
    assert("hpp"@.len() == 3 && "hpp"@[0] == 'h' && "hpp"@[1] == 'p' && "hpp"@[2] == 'p');
    reveal_strlit("cs");
    assert("cs"@.len() == 2 && "cs"@[0] == 'c' && "cs"@[1] == 's');
    reveal_strlit("sh");
    assert("sh"@.len() == 2 && "sh"@[0] == 's' && "sh"@[1] == 'h');
    reveal_strlit("zsh");
    assert("zsh"@.len() == 3 && "zsh"@[0] == 'z' && "zsh"@[1] == 's' && "zsh"@[2] == 'h');
    reveal_strlit("toml");
    assert("toml"@.len() == 4 && "toml"@[0] == 't' && "toml"@[1] == 'o' && "toml"@[2] == 'm' && "toml"@[3] == 'l');
    reveal_strlit("yaml");
    assert("yaml"@.len() == 4 && "yaml"@[0] == 'y' && "yaml"@[1] == 'a' && "yaml"@[2] == 'm' && "yaml"@[3] == 'l');
    reveal_strlit("yml");
    assert("yml"@.len() == 3 && "yml"@[0] == 'y' && "yml"@[1] == 'm' && "yml"@[2] == 'l');
    reveal_strlit("html");
    assert("html"@.len() == 4 && "html"@[0] == 'h' && "html"@[1] == 't' && "html"@[2] == 'm' && "html"@[3] == 'l');
    reveal_strlit("css");
    assert("css"@.len() == 3 && "css"@[0] == 'c' && "css"@[1] == 's' && "css"@[2] == 's');
    reveal_strlit("sql");
    assert("sql"@.len() == 3 && "sql"@[0] == 's' && "sql"@[1] == 'q' && "sql"@[2] == 'l');
    let l = seq!["rs"@, "ts"@, "tsx"@, "js"@, "jsx"@, "py"@, "go"@, "rb"@, "java"@, "kt"@, "swift"@, "c"@, "h"@, "cpp"@, "hpp"@, "cs"@, "sh"@, "zsh"@, "toml"@, "yaml"@, "yml"@, "html"@, "css"@, "sql"@];
    assert(l[0] == "rs"@);
    assert(l[1] == "ts"@);
    assert(l[2] == "tsx"@);
    assert(l[3] == "js"@);
    assert(l[4] == "jsx"@);
    assert(l[5] == "py"@);
    assert(l[6] == "go"@);
    assert(l[7] == "rb"@);
    assert(l[8] == "java"@);
    assert(l[9] == "kt"@);
    assert(l[10] == "swift"@);
    assert(l[11] == "c"@);
    assert(l[12] == "h"@);
    assert(l[13] == "cpp"@);
    assert(l[14] == "hpp"@);
    assert(l[15] == "cs"@);
    assert(l[16] == "sh"@);
    assert(l[17] == "zsh"@);
    assert(l[18] == "toml"@);
    assert(l[19] == "yaml"@);
    assert(l[20] == "yml"@);
    assert(l[21] == "html"@);
    assert(l[22] == "css"@);
    assert(l[23] == "sql"@);
}

#[verifier::rlimit(50)]
proof fn lemma_audio_extensions(e: Seq<char>)
    requires
        seq!["mp3"@, "wav"@, "m4a"@, "ogg"@, "flac"@, "aac"@].contains(e),
    ensures
        kind_for_extension(e) == AttachmentKind::Audio,
{
    reveal_strlit("png");
    assert("png"@.len() == 3 && "png"@[0] == 'p' && "png"@[1] == 'n' && "png"@[2] == 'g');
    reveal_strlit("jpg");
    assert("jpg"@.len() == 3 && "jpg"@[0] == 'j' && "jpg"@[1] == 'p' && "jpg"@[2] == 'g');
    reveal_strlit("jpeg");
    assert("jpeg"@.len() == 4 && "jpeg"@[0] == 'j' && "jpeg"@[1] == 'p' && "jpeg"@[2] == 'e' && "jpeg"@[3] == 'g');
    reveal_strlit("gif");
    assert("gif"@.len() == 3 && "gif"@[0] == 'g' && "gif"@[1] == 'i' && "gif"@[2] == 'f');
    reveal_strlit("webp");
    assert("webp"@.len() == 4 && "webp"@[0] == 'w' && "webp"@[1] == 'e' && "webp"@[2] == 'b' && "webp"@[3] == 'p');
    reveal_strlit("svg");
    assert("svg"@.len() == 3 && "svg"@[0] == 's' && "svg"@[1] == 'v' && "svg"@[2] == 'g');
    reveal_strlit("bmp");
    assert("bmp"@.len() == 3 && "bmp"@[0] == 'b' && "bmp"@[1] == 'm' && "bmp"@[2] == 'p');
    reveal_strlit("heic");
    assert("heic"@.len() == 4 && "heic"@[0] == 'h' && "heic"@[1] == 'e' && "heic"@[2] == 'i' && "heic"@[3] == 'c');
    reveal_strlit("avif");
    assert("avif"@.len() == 4 && "avif"@[0] == 'a' && "avif"@[1] == 'v' && "avif"@[2] == 'i' && "avif"@[3] == 'f');
    reveal_strlit("md");
    assert("md"@.len() == 2 && "md"@[0] == 'm' && "md"@[1] == 'd');
    reveal_strlit("txt");
    assert("txt"@.len() == 3 && "txt"@[0] == 't' && "txt"@[1] == 'x' && "txt"@[2] == 't');
    reveal_strlit("pdf");
    assert("pdf"@.len() == 3 && "pdf"@[0] == 'p' && "pdf"@[1] == 'd' && "pdf"@[2] == 'f');
    reveal_strlit("doc");
    assert("doc"@.len() == 3 && "doc"@[0] == 'd' && "doc"@[1] == 'o' && "doc"@[2] == 'c');
    reveal_strlit("docx");
    assert("docx"@.len() == 4 && "docx"@[0] == 'd' && "docx"@[1] == 'o' && "docx"@[2] == 'c' && "docx"@[3] == 'x');
    reveal_strlit("rtf");
    assert("rtf"@.len() == 3 && "rtf"@[0] == 'r' && "rtf"@[1] == 't' && "rtf"@[2] == 'f');
    reveal_strlit("odt");
    assert("odt"@.len() == 3 && "odt"@[0] == 'o' && "odt"@[1] == 'd' && "odt"@[2] == 't');
    reveal_strlit("pages");
    assert("pages"@.len() == 5 && "pages"@[0] == 'p' && "pages"@[1] == 'a' && "pages"@[2] == 'g' && "pages"@[3] == 'e' && "pages"@[4] == 's');
    reveal_strlit("rs");
    assert("rs"@.len() == 2 && "rs"@[0] == 'r' && "rs"@[1] == 's');
    reveal_strlit("ts");
    assert("ts"@.len() == 2 && "ts"@[0] == 't' && "ts"@[1] == 's');
    reveal_strlit("tsx");
    assert("tsx"@.len() == 3 && "tsx"@[0] == 't' && "tsx"@[1] == 's' && "tsx"@[2] == 'x');
    reveal_strlit("js");
    assert("js"@.len() == 2 && "js"@[0] == 'j' && "js"@[1] == 's');
    reveal_strlit("jsx");
    assert("jsx"@.len() == 3 && "jsx"@[0] == 'j' && "jsx"@[1] == 's' && "jsx"@[2] == 'x');
    reveal_strlit("py");
    assert("py"@.len() == 2 && "py"@[0] == 'p' && "py"@[1] == 'y');
    reveal_strlit("go");
    assert("go"@.len() == 2 && "go"@[0] == 'g' && "go"@[1] == 'o');
    reveal_strlit("rb");
    assert("rb"@.len() == 2 && "rb"@[0] == 'r' && "rb"@[1] == 'b');
    reveal_strlit("java");
    assert("java"@.len() == 4 && "java"@[0] == 'j' && "java"@[1] == 'a' && "java"@[2] == 'v' && "java"@[3] == 'a');
    reveal_strlit("kt");
    assert("kt"@.len() == 2 && "kt"@[0] == 'k' && "kt"@[1] == 't');
    reveal_strlit("swift");
    assert("swift"@.len() == 5 && "swift"@[0] == 's' && "swift"@[1] == 'w' && "swift"@[2] == 'i' && "swift"@[3] == 'f' && "swift"@[4] == 't');
    reveal_strlit("c");
    assert("c"@.len() == 1 && "c"@[0] == 'c');
    reveal_strlit("h");
    assert("h"@.len() == 1 && "h"@[0] == 'h');
    reveal_strlit("cpp");
    assert("cpp"@.len() == 3 && "cpp"@[0] == 'c' && "cpp"@[1] == 'p' && "cpp"@[2] == 'p');
    reveal_strlit("hpp");
    assert("hpp"@.len() == 3 && "hpp"@[0] == 'h' && "hpp"@[1] == 'p' && "hpp"@[2] == 'p');
    reveal_strlit("cs");
    assert("cs"@.len() == 2 && "cs"@[0] == 'c' && "cs"@[1] == 's');
    reveal_strlit("sh");
    assert("sh"@.len() == 2 && "sh"@[0] == 's' && "sh"@[1] == 'h');
    reveal_strlit("zsh");
    assert("zsh"@.len() == 3 && "zsh"@[0] == 'z' && "zsh"@[1] == 's' && "zsh"@[2] == 'h');
    reveal_strlit("toml");
    assert("toml"@.len() == 4 && "toml"@[0] == 't' && "toml"@[1] == 'o' && "toml"@[2] == 'm' && "toml"@[3] == 'l');
    reveal_strlit("yaml");
    assert("yaml"@.len() == 4 && "yaml"@[0] == 'y' && "yaml"@[1] == 'a' && "yaml"@[2] == 'm' && "yaml"@[3] == 'l');
    reveal_strlit("yml");
    assert("yml"@.len() == 3 && "yml"@[0] == 'y' && "yml"@[1] == 'm' && "yml"@[2] == 'l');
    reveal_strlit("html");
    assert("html"@.len() == 4 && "html"@[0] == 'h' && "html"@[1] == 't' && "html"@[2] == 'm' && "html"@[3] == 'l');
    reveal_strlit("css");
    assert("css"@.len() == 3 && "css"@[0] == 'c' && "css"@[1] == 's' && "css"@[2] == 's');
    reveal_strlit("sql");
    assert("sql"@.len() == 3 && "sql"@[0] == 's' && "sql"@[1] == 'q' && "sql"@[2] == 'l');
    reveal_strlit("mp3");
    assert("mp3"@.len() == 3 && "mp3"@[0] == 'm' && "mp3"@[1] == 'p' && "mp3"@[2] == '3');
    reveal_strlit("wav");
    assert("wav"@.len() == 3 && "wav"@[0] == 'w' && "wav"@[1] == 'a' && "wav"@[2] == 'v');
    reveal_strlit("m4a");
    assert("m4a"@.len() == 3 && "m4a"@[0] == 'm' && "m4a"@[1] == '4' && "m4a"@[2] == 'a');
    reveal_strlit("ogg");
    assert("ogg"@.len() == 3 && "ogg"@[0] == 'o' && "ogg"@[1] == 'g' && "ogg"@[2] == 'g');
    reveal_strlit("flac");
    assert("flac"@.len() == 4 && "flac"@[0] == 'f' && "flac"@[1] == 'l' && "flac"@[2] == 'a' && "flac"@[3] == 'c');
    reveal_strlit("aac");
    assert("aac"@.len() == 3 && "aac"@[0] == 'a' && "aac"@[1] == 'a' && "aac"@[2] == 'c');
    let l = seq!["mp3"@, "wav"@, "m4a"@, "ogg"@, "flac"@, "aac"@];
    assert(l[0] == "mp3"@);
    assert(l[1] == "wav"@);
    assert(l[2] == "m4a"@);
    assert(l[3] == "ogg"@);
    assert(l[4] == "flac"@);
    assert(l[5] == "aac"@);
}

#[verifier::rlimit(50)]
proof fn lemma_video_extensions(e: Seq<char>)
    requires
        seq!["mp4"@, "mov"@, "webm"@, "mkv"@, "avi"@].contains(e),
    ensures
        kind_for_extension(e) == AttachmentKind::Video,
{
    reveal_strlit("png");
    assert("png"@.len() == 3 && "png"@[0] == 'p' && "png"@[1] == 'n' && "png"@[2] == 'g');
    reveal_strlit("jpg");
    assert("jpg"@.len() == 3 && "jpg"@[0] == 'j' && "jpg"@[1] == 'p' && "jpg"@[2] == 'g');
    reveal_strlit("jpeg");
    assert("jpeg"@.len() == 4 && "jpeg"@[0] == 'j' && "jpeg"@[1] == 'p' && "jpeg"@[2] == 'e' && "jpeg"@[3] == 'g');
    reveal_strlit("gif");
    assert("gif"@.len() == 3 && "gif"@[0] == 'g' && "gif"@[1] == 'i' && "gif"@[2] == 'f');
    reveal_strlit("webp");
    assert("webp"@.len() == 4 && "webp"@[0] == 'w' && "webp"@[1] == 'e' && "webp"@[2] == 'b' && "webp"@[3] == 'p');
    reveal_strlit("svg");
    assert("svg"@.len() == 3 && "svg"@[0] == 's' && "svg"@[1] == 'v' && "svg"@[2] == 'g');
    reveal_strlit("bmp");
    assert("bmp"@.len() == 3 && "bmp"@[0] == 'b' && "bmp"@[1] == 'm' && "bmp"@[2] == 'p');
    reveal_strlit("heic");
    assert("heic"@.len() == 4 && "heic"@[0] == 'h' && "heic"@[1] == 'e' && "heic"@[2] == 'i' && "heic"@[3] == 'c');
    reveal_strlit("avif");
    assert("avif"@.len() == 4 && "avif"@[0] == 'a' && "avif"@[1] == 'v' && "avif"@[2] == 'i' && "avif"@[3] == 'f');
    reveal_strlit("md");
    assert("md"@.len() == 2 && "md"@[0] == 'm' && "md"@[1] == 'd');
    reveal_strlit("txt");
    assert("txt"@.len() == 3 && "txt"@[0] == 't' && "txt"@[1] == 'x' && "txt"@[2] == 't');
    reveal_strlit("pdf");
    assert("pdf"@.len() == 3 && "pdf"@[0] == 'p' && "pdf"@[1] == 'd' && "pdf"@[2] == 'f');
    reveal_strlit("doc");
    assert("doc"@.len() == 3 && "doc"@[0] == 'd' && "doc"@[1] == 'o' && "doc"@[2] == 'c');
    reveal_strlit("docx");
    assert("docx"@.len() == 4 && "docx"@[0] == 'd' && "docx"@[1] == 'o' && "docx"@[2] == 'c' && "docx"@[3] == 'x');
    reveal_strlit("rtf");
    assert("rtf"@.len() == 3 && "rtf"@[0] == 'r' && "rtf"@[1] == 't' && "rtf"@[2] == 'f');
    reveal_strlit("odt");
    assert("odt"@.len() == 3 && "odt"@[0] == 'o' && "odt"@[1] == 'd' && "odt"@[2] == 't');
    reveal_strlit("pages");
    assert("pages"@.len() == 5 && "pages"@[0] == 'p' && "pages"@[1] == 'a' && "pages"@[2] == 'g' && "pages"@[3] == 'e' && "pages"@[4] == 's');
    reveal_strlit("rs");
    assert("rs"@.len() == 2 && "rs"@[0] == 'r' && "rs"@[1] == 's');
    reveal_strlit("ts");
    assert("ts"@.len() == 2 && "ts"@[0] == 't' && "ts"@[1] == 's');
    reveal_strlit("tsx");
    assert("tsx"@.len() == 3 && "tsx"@[0] == 't' && "tsx"@[1] == 's' && "tsx"@[2] == 'x');
    reveal_strlit("js");
    assert("js"@.len() == 2 && "js"@[0] == 'j' && "js"@[1] == 's');
    reveal_strlit("jsx");
    assert("jsx"@.len() == 3 && "jsx"@[0] == 'j' && "jsx"@[1] == 's' && "jsx"@[2] == 'x');
    reveal_strlit("py");
    assert("py"@.len() == 2 && "py"@[0] == 'p' && "py"@[1] == 'y');
    reveal_strlit("go");
    assert("go"@.len() == 2 && "go"@[0] == 'g' && "go"@[1] == 'o');
    reveal_strlit("rb");
    assert("rb"@.len() == 2 && "rb"@[0] == 'r' && "rb"@[1] == 'b');
    reveal_strlit("java");
    assert("java"@.len() == 4 && "java"@[0] == 'j' && "java"@[1] == 'a' && "java"@[2] == 'v' && "java"@[3] == 'a');
    reveal_strlit("kt");
    assert("kt"@.len() == 2 && "kt"@[0] == 'k' && "kt"@[1] == 't');
    reveal_strlit("swift");
    assert("swift"@.len() == 5 && "swift"@[0] == 's' && "swift"@[1] == 'w' && "swift"@[2] == 'i' && "swift"@[3] == 'f' && "swift"@[4] == 't');
    reveal_strlit("c");
    assert("c"@.len() == 1 && "c"@[0] == 'c');
    reveal_strlit("h");
    assert("h"@.len() == 1 && "h"@[0] == 'h');
    reveal_strlit("cpp");
    assert("cpp"@.len() == 3 && "cpp"@[0] == 'c' && "cpp"@[1] == 'p' && "cpp"@[2] == 'p');
    reveal_strlit("hpp");
    assert("hpp"@.len() == 3 && "hpp"@[0] == 'h' && "hpp"@[1] == 'p' && "hpp"@[2] == 'p');
    reveal_strlit("cs");
    assert("cs"@.len() == 2 && "cs"@[0] == 'c' && "cs"@[1] == 's');
    reveal_strlit("sh");
    assert("sh"@.len() == 2 && "sh"@[0] == 's' && "sh"@[1] == 'h');
    reveal_strlit("zsh");
    assert("zsh"@.len() == 3 && "zsh"@[0] == 'z' && "zsh"@[1] == 's' && "zsh"@[2] == 'h');
    reveal_strlit("toml");
    assert("toml"@.len() == 4 && "toml"@[0] == 't' && "toml"@[1] == 'o' && "toml"@[2] == 'm' && "toml"@[3] == 'l');
    reveal_strlit("yaml");
    assert("yaml"@.len() == 4 && "yaml"@[0] == 'y' && "yaml"@[1] == 'a' && "yaml"@[2] == 'm' && "yaml"@[3] == 'l');
    reveal_strlit("yml");
    assert("yml"@.len() == 3 && "yml"@[0] == 'y' && "yml"@[1] == 'm' && "yml"@[2] == 'l');
    reveal_strlit("html");
    assert("html"@.len() == 4 && "html"@[0] == 'h' && "html"@[1] == 't' && "html"@[2] == 'm' && "html"@[3] == 'l');
    reveal_strlit("css");
    assert("css"@.len() == 3 && "css"@[0] == 'c' && "css"@[1] == 's' && "css"@[2] == 's');
    reveal_strlit("sql");
    assert("sql"@.len() == 3 && "sql"@[0] == 's' && "sql"@[1] == 'q' && "sql"@[2] == 'l');
    reveal_strlit("mp3");
    assert("mp3"@.len() == 3 && "mp3"@[0] == 'm' && "mp3"@[1] == 'p' && "mp3"@[2] == '3');
    reveal_strlit("wav");
    assert("wav"@.len() == 3 && "wav"@[0] == 'w' && "wav"@[1] == 'a' && "wav"@[2] == 'v');
    reveal_strlit("m4a");
    assert("m4a"@.len() == 3 && "m4a"@[0] == 'm' && "m4a"@[1] == '4' && "m4a"@[2] == 'a');
    reveal_strlit("ogg");
    assert("ogg"@.len() == 3 && "ogg"@[0] == 'o' && "ogg"@[1] == 'g' && "ogg"@[2] == 'g');
    reveal_strlit("flac");
    assert("flac"@.len() == 4 && "flac"@[0] == 'f' && "flac"@[1] == 'l' && "flac"@[2] == 'a' && "flac"@[3] == 'c');
    reveal_strlit("aac");
    assert("aac"@.len() == 3 && "aac"@[0] == 'a' && "aac"@[1] == 'a' && "aac"@[2] == 'c');
    reveal_strlit("mp4");
    assert("mp4"@.len() == 3 && "mp4"@[0] == 'm' && "mp4"@[1] == 'p' && "mp4"@[2] == '4');
    reveal_strlit("mov");
    assert("mov"@.len() == 3 && "mov"@[0] == 'm' && "mov"@[1] == 'o' && "mov"@[2] == 'v');
    reveal_strlit("webm");
    assert("webm"@.len() == 4 && "webm"@[0] == 'w' && "webm"@[1] == 'e' && "webm"@[2] == 'b' && "webm"@[3] == 'm');
    reveal_strlit("mkv");
    assert("mkv"@.len() == 3 && "mkv"@[0] == 'm' && "mkv"@[1] == 'k' && "mkv"@[2] == 'v');
    reveal_strlit("avi");
    assert("avi"@.len() == 3 && "avi"@[0] == 'a' && "avi"@[1] == 'v' && "avi"@[2] == 'i');
    let l = seq!["mp4"@, "mov"@, "webm"@, "mkv"@, "avi"@];
    assert(l[0] == "mp4"@);
    assert(l[1] == "mov"@);
    assert(l[2] == "webm"@);
    assert(l[3] == "mkv"@);
    assert(l[4] == "avi"@);
}

#[verifier::rlimit(50)]
proof fn lemma_archive_extensions(e: Seq<char>)
    requires
        seq!["zip"@, "tar"@, "gz"@, "tgz"@, "7z"@, "rar"@, "bz2"@, "xz"@].contains(e),
    ensures
        kind_for_extension(e) == AttachmentKind::Archive,
{
    reveal_strlit("png");
    assert("png"@.len() == 3 && "png"@[0] == 'p' && "png"@[1] == 'n' && "png"@[2] == 'g');
    reveal_strlit("jpg");
    assert("jpg"@.len() == 3 && "jpg"@[0] == 'j' && "jpg"@[1] == 'p' && "jpg"@[2] == 'g');
    reveal_strlit("jpeg");
    assert("jpeg"@.len() == 4 && "jpeg"@[0] == 'j' && "jpeg"@[1] == 'p' && "jpeg"@[2] == 'e' && "jpeg"@[3] == 'g');
    reveal_strlit("gif");
    assert("gif"@.len() == 3 && "gif"@[0] == 'g' && "gif"@[1] == 'i' && "gif"@[2] == 'f');
    reveal_strlit("webp");
    assert("webp"@.len() == 4 && "webp"@[0] == 'w' && "webp"@[1] == 'e' && "webp"@[2] == 'b' && "webp"@[3] == 'p');
    reveal_strlit("svg");
    assert("svg"@.len() == 3 && "svg"@[0] == 's' && "svg"@[1] == 'v' && "svg"@[2] == 'g');
    reveal_strlit("bmp");
    assert("bmp"@.len() == 3 && "bmp"@[0] == 'b' && "bmp"@[1] == 'm' && "bmp"@[2] == 'p');
    reveal_strlit("heic");
    assert("heic"@.len() == 4 && "heic"@[0] == 'h' && "heic"@[1] == 'e' && "heic"@[2] == 'i' && "heic"@[3] == 'c');
    reveal_strlit("avif");
    assert("avif"@.len() == 4 && "avif"@[0] == 'a' && "avif"@[1] == 'v' && "avif"@[2] == 'i' && "avif"@[3] == 'f');
    reveal_strlit("md");
    assert("md"@.len() == 2 && "md"@[0] == 'm' && "md"@[1] == 'd');
    reveal_strlit("txt");
    assert("txt"@.len() == 3 && "txt"@[0] == 't' && "txt"@[1] == 'x' && "txt"@[2] == 't');
    reveal_strlit("pdf");
    assert("pdf"@.len() == 3 && "pdf"@[0] == 'p' && "pdf"@[1] == 'd' && "pdf"@[2] == 'f');
    reveal_strlit("doc");
    assert("doc"@.len() == 3 && "doc"@[0] == 'd' && "doc"@[1] == 'o' && "doc"@[2] == 'c');
    reveal_strlit("docx");
    assert("docx"@.len() == 4 && "docx"@[0] == 'd' && "docx"@[1] == 'o' && "docx"@[2] == 'c' && "docx"@[3] == 'x');
    reveal_strlit("rtf");
    assert("rtf"@.len() == 3 && "rtf"@[0] == 'r' && "rtf"@[1] == 't' && "rtf"@[2] == 'f');
    reveal_strlit("odt");
    assert("odt"@.len() == 3 && "odt"@[0] == 'o' && "odt"@[1] == 'd' && "odt"@[2] == 't');
    reveal_strlit("pages");
    assert("pages"@.len() == 5 && "pages"@[0] == 'p' && "pages"@[1] == 'a' && "pages"@[2] == 'g' && "pages"@[3] == 'e' && "pages"@[4] == 's');
    reveal_strlit("rs");
    assert("rs"@.len() == 2 && "rs"@[0] == 'r' && "rs"@[1] == 's');
    reveal_strlit("ts");
    assert("ts"@.len() == 2 && "ts"@[0] == 't' && "ts"@[1] == 's');
    reveal_strlit("tsx");
    assert("tsx"@.len() == 3 && "tsx"@[0] == 't' && "tsx"@[1] == 's' && "tsx"@[2] == 'x');
    reveal_strlit("js");
    assert("js"@.len() == 2 && "js"@[0] == 'j' && "js"@[1] == 's');
    reveal_strlit("jsx");
    assert("jsx"@.len() == 3 && "jsx"@[0] == 'j' && "jsx"@[1] == 's' && "jsx"@[2] == 'x');
    reveal_strlit("py");
    assert("py"@.len() == 2 && "py"@[0] == 'p' && "py"@[1] == 'y');
    reveal_strlit("go");
    assert("go"@.len() == 2 && "go"@[0] == 'g' && "go"@[1] == 'o');
    reveal_strlit("rb");
    assert("rb"@.len() == 2 && "rb"@[0] == 'r' && "rb"@[1] == 'b');
    reveal_strlit("java");
    assert("java"@.len() == 4 && "java"@[0] == 'j' && "java"@[1] == 'a' && "java"@[2] == 'v' && "java"@[3] == 'a');
    reveal_strlit("kt");
    assert("kt"@.len() == 2 && "kt"@[0] == 'k' && "kt"@[1] == 't');
    reveal_strlit("swift");
    assert("swift"@.len() == 5 && "swift"@[0] == 's' && "swift"@[1] == 'w' && "swift"@[2] == 'i' && "swift"@[3] == 'f' && "swift"@[4] == 't');
    reveal_strlit("c");
    assert("c"@.len() == 1 && "c"@[0] == 'c');
    reveal_strlit("h");
    assert("h"@.len() == 1 && "h"@[0] == 'h');
    reveal_strlit("cpp");
    assert("cpp"@.len() == 3 && "cpp"@[0] == 'c' && "cpp"@[1] == 'p' && "cpp"@[2] == 'p');
    reveal_strlit("hpp");
    assert("hpp"@.len() == 3 && "hpp"@[0] == 'h' && "hpp"@[1] == 'p' && "hpp"@[2] == 'p');
    reveal_strlit("cs");
    assert("cs"@.len() == 2 && "cs"@[0] == 'c' && "cs"@[1] == 's');
    reveal_strlit("sh");
    assert("sh"@.len() == 2 && "sh"@[0] == 's' && "sh"@[1] == 'h');
    reveal_strlit("zsh");
    assert("zsh"@.len() == 3 && "zsh"@[0] == 'z' && "zsh"@[1] == 's' && "zsh"@[2] == 'h');
    reveal_strlit("toml");
    assert("toml"@.len() == 4 && "toml"@[0] == 't' && "toml"@[1] == 'o' && "toml"@[2] == 'm' && "toml"@[3] == 'l');
    reveal_strlit("yaml");
    assert("yaml"@.len() == 4 && "yaml"@[0] == 'y' && "yaml"@[1] == 'a' && "yaml"@[2] == 'm' && "yaml"@[3] == 'l');
    reveal_strlit("yml");
    assert("yml"@.len() == 3 && "yml"@[0] == 'y' && "yml"@[1] == 'm' && "yml"@[2] == 'l');
    reveal_strlit("html");
    assert("html"@.len() == 4 && "html"@[0] == 'h' && "html"@[1] == 't' && "html"@[2] == 'm' && "html"@[3] == 'l');
    reveal_strlit("css");
    assert("css"@.len() == 3 && "css"@[0] == 'c' && "css"@[1] == 's' && "css"@[2] == 's');
    reveal_strlit("sql");
    assert("sql"@.len() == 3 && "sql"@[0] == 's' && "sql"@[1] == 'q' && "sql"@[2] == 'l');
    reveal_strlit("mp3");
    assert("mp3"@.len() == 3 && "mp3"@[0] == 'm' && "mp3"@[1] == 'p' && "mp3"@[2] == '3');
    reveal_strlit("wav");
    assert("wav"@.len() == 3 && "wav"@[0] == 'w' && "wav"@[1] == 'a' && "wav"@[2] == 'v');
    reveal_strlit("m4a");
    assert("m4a"@.len() == 3 && "m4a"@[0] == 'm' && "m4a"@[1] == '4' && "m4a"@[2] == 'a');
    reveal_strlit("ogg");
    assert("ogg"@.len() == 3 && "ogg"@[0] == 'o' && "ogg"@[1] == 'g' && "ogg"@[2] == 'g');
    reveal_strlit("flac");
    assert("flac"@.len() == 4 && "flac"@[0] == 'f' && "flac"@[1] == 'l' && "flac"@[2] == 'a' && "flac"@[3] == 'c');
    reveal_strlit("aac");
    assert("aac"@.len() == 3 && "aac"@[0] == 'a' && "aac"@[1] == 'a' && "aac"@[2] == 'c');
    reveal_strlit("mp4");
    assert("mp4"@.len() == 3 && "mp4"@[0] == 'm' && "mp4"@[1] == 'p' && "mp4"@[2] == '4');
    reveal_strlit("mov");
    assert("mov"@.len() == 3 && "mov"@[0] == 'm' && "mov"@[1] == 'o' && "mov"@[2] == 'v');
    reveal_strlit("webm");
    assert("webm"@.len() == 4 && "webm"@[0] == 'w' && "webm"@[1] == 'e' && "webm"@[2] == 'b' && "webm"@[3] == 'm');
    reveal_strlit("mkv");
    assert("mkv"@.len() == 3 && "mkv"@[0] == 'm' && "mkv"@[1] == 'k' && "mkv"@[2] == 'v');
    reveal_strlit("avi");
    assert("avi"@.len() == 3 && "avi"@[0] == 'a' && "avi"@[1] == 'v' && "avi"@[2] == 'i');
    reveal_strlit("zip");
    assert("zip"@.len() == 3 && "zip"@[0] == 'z' && "zip"@[1] == 'i' && "zip"@[2] == 'p');
    reveal_strlit("tar");
    assert("tar"@.len() == 3 && "tar"@[0] == 't' && "tar"@[1] == 'a' && "tar"@[2] == 'r');
    reveal_strlit("gz");
    assert("gz"@.len() == 2 && "gz"@[0] == 'g' && "gz"@[1] == 'z');
    reveal_strlit("tgz");
    assert("tgz"@.len() == 3 && "tgz"@[0] == 't' && "tgz"@[1] == 'g' && "tgz"@[2] == 'z');
    reveal_strlit("7z");
    assert("7z"@.len() == 2 && "7z"@[0] == '7' && "7z"@[1] == 'z');
    reveal_strlit("rar");
    assert("rar"@.len() == 3 && "rar"@[0] == 'r' && "rar"@[1] == 'a' && "rar"@[2] == 'r');
    reveal_strlit("bz2");
    assert("bz2"@.len() == 3 && "bz2"@[0] == 'b' && "bz2"@[1] == 'z' && "bz2"@[2] == '2');
    reveal_strlit("xz");
    assert("xz"@.len() == 2 && "xz"@[0] == 'x' && "xz"@[1] == 'z');
    let l = seq!["zip"@, "tar"@, "gz"@, "tgz"@, "7z"@, "rar"@, "bz2"@, "xz"@];
    assert(l[0] == "zip"@);
    assert(l[1] == "tar"@);
    assert(l[2] == "gz"@);
    assert(l[3] == "tgz"@);
    assert(l[4] == "7z"@);
    assert(l[5] == "rar"@);
    assert(l[6] == "bz2"@);
    assert(l[7] == "xz"@);
}

#[verifier::rlimit(50)]
proof fn lemma_data_extensions(e: Seq<char>)
    requires
        seq!["csv"@, "tsv"@, "json"@, "xlsx"@, "xls"@, "parquet"@, "ndjson"@].contains(e),
    ensures
        kind_for_extension(e) == AttachmentKind::Data,
{
    reveal_strlit("png");
    assert("png"@.len() == 3 && "png"@[0] == 'p' && "png"@[1] == 'n' && "png"@[2] == 'g');
    reveal_strlit("jpg");
    assert("jpg"@.len() == 3 && "jpg"@[0] == 'j' && "jpg"@[1] == 'p' && "jpg"@[2] == 'g');
    reveal_strlit("jpeg");
    assert("jpeg"@.len() == 4 && "jpeg"@[0] == 'j' && "jpeg"@[1] == 'p' && "jpeg"@[2] == 'e' && "jpeg"@[3] == 'g');
    reveal_strlit("gif");
    assert("gif"@.len() == 3 && "gif"@[0] == 'g' && "gif"@[1] == 'i' && "gif"@[2] == 'f');
    reveal_strlit("webp");
    assert("webp"@.len() == 4 && "webp"@[0] == 'w' && "webp"@[1] == 'e' && "webp"@[2] == 'b' && "webp"@[3] == 'p');
    reveal_strlit("svg");
    assert("svg"@.len() == 3 && "svg"@[0] == 's' && "svg"@[1] == 'v' && "svg"@[2] == 'g');
    reveal_strlit("bmp");
    assert("bmp"@.len() == 3 && "bmp"@[0] == 'b' && "bmp"@[1] == 'm' && "bmp"@[2] == 'p');
    reveal_strlit("heic");
    assert("heic"@.len() == 4 && "heic"@[0] == 'h' && "heic"@[1] == 'e' && "heic"@[2] == 'i' && "heic"@[3] == 'c');
    reveal_strlit("avif");
    assert("avif"@.len() == 4 && "avif"@[0] == 'a' && "avif"@[1] == 'v' && "avif"@[2] == 'i' && "avif"@[3] == 'f');
    reveal_strlit("md");
    assert("md"@.len() == 2 && "md"@[0] == 'm' && "md"@[1] == 'd');
    reveal_strlit("txt");
    assert("txt"@.len() == 3 && "txt"@[0] == 't' && "txt"@[1] == 'x' && "txt"@[2] == 't');
    reveal_strlit("pdf");
    assert("pdf"@.len() == 3 && "pdf"@[0] == 'p' && "pdf"@[1] == 'd' && "pdf"@[2] == 'f');
    reveal_strlit("doc");
    assert("doc"@.len() == 3 && "doc"@[0] == 'd' && "doc"@[1] == 'o' && "doc"@[2] == 'c');
    reveal_strlit("docx");
    assert("docx"@.len() == 4 && "docx"@[0] == 'd' && "docx"@[1] == 'o' && "docx"@[2] == 'c' && "docx"@[3] == 'x');
    reveal_strlit("rtf");
    assert("rtf"@.len() == 3 && "rtf"@[0] == 'r' && "rtf"@[1] == 't' && "rtf"@[2] == 'f');
    reveal_strlit("odt");
    assert("odt"@.len() == 3 && "odt"@[0] == 'o' && "odt"@[1] == 'd' && "odt"@[2] == 't');
    reveal_strlit("pages");
    assert("pages"@.len() == 5 && "pages"@[0] == 'p' && "pages"@[1] == 'a' && "pages"@[2] == 'g' && "pages"@[3] == 'e' && "pages"@[4] == 's');
    reveal_strlit("rs");
    assert("rs"@.len() == 2 && "rs"@[0] == 'r' && "rs"@[1] == 's');
    reveal_strlit("ts");
    assert("ts"@.len() == 2 && "ts"@[0] == 't' && "ts"@[1] == 's');
    reveal_strlit("tsx");
    assert("tsx"@.len() == 3 && "tsx"@[0] == 't' && "tsx"@[1] == 's' && "tsx"@[2] == 'x');
    reveal_strlit("js");
    assert("js"@.len() == 2 && "js"@[0] == 'j' && "js"@[1] == 's');
    reveal_strlit("jsx");
    assert("jsx"@.len() == 3 && "jsx"@[0] == 'j' && "jsx"@[1] == 's' && "jsx"@[2] == 'x');
    reveal_strlit("py");
    assert("py"@.len() == 2 && "py"@[0] == 'p' && "py"@[1] == 'y');
    reveal_strlit("go");
    assert("go"@.len() == 2 && "go"@[0] == 'g' && "go"@[1] == 'o');
    reveal_strlit("rb");
    assert("rb"@.len() == 2 && "rb"@[0] == 'r' && "rb"@[1] == 'b');
    reveal_strlit("java");
    assert("java"@.len() == 4 && "java"@[0] == 'j' && "java"@[1] == 'a' && "java"@[2] == 'v' && "java"@[3] == 'a');
    reveal_strlit("kt");
    assert("kt"@.len() == 2 && "kt"@[0] == 'k' && "kt"@[1] == 't');
    reveal_strlit("swift");
    assert("swift"@.len() == 5 && "swift"@[0] == 's' && "swift"@[1] == 'w' && "swift"@[2] == 'i' && "swift"@[3] == 'f' && "swift"@[4] == 't');
    reveal_strlit("c");
    assert("c"@.len() == 1 && "c"@[0] == 'c');
    reveal_strlit("h");
    assert("h"@.len() == 1 && "h"@[0] == 'h');
    reveal_strlit("cpp");
    assert("cpp"@.len() == 3 && "cpp"@[0] == 'c' && "cpp"@[1] == 'p' && "cpp"@[2] == 'p');
    reveal_strlit("hpp");
    assert("hpp"@.len() == 3 && "hpp"@[0] == 'h' && "hpp"@[1] == 'p' && "hpp"@[2] == 'p');
    reveal_strlit("cs");
    assert("cs"@.len() == 2 && "cs"@[0] == 'c' && "cs"@[1] == 's');
    reveal_strlit("sh");
    assert("sh"@.len() == 2 && "sh"@[0] == 's' && "sh"@[1] == 'h');
    reveal_strlit("zsh");
    assert("zsh"@.len() == 3 && "zsh"@[0] == 'z' && "zsh"@[1] == 's' && "zsh"@[2] == 'h');
    reveal_strlit("toml");
    assert("toml"@.len() == 4 && "toml"@[0] == 't' && "toml"@[1] == 'o' && "toml"@[2] == 'm' && "toml"@[3] == 'l');
    reveal_strlit("yaml");
    assert("yaml"@.len() == 4 && "yaml"@[0] == 'y' && "yaml"@[1] == 'a' && "yaml"@[2] == 'm' && "yaml"@[3] == 'l');
    reveal_strlit("yml");
    assert("yml"@.len() == 3 && "yml"@[0] == 'y' && "yml"@[1] == 'm' && "yml"@[2] == 'l');
    reveal_strlit("html");
    assert("html"@.len() == 4 && "html"@[0] == 'h' && "html"@[1] == 't' && "html"@[2] == 'm' && "html"@[3] == 'l');
    reveal_strlit("css");
    assert("css"@.len() == 3 && "css"@[0] == 'c' && "css"@[1] == 's' && "css"@[2] == 's');
    reveal_strlit("sql");
    assert("sql"@.len() == 3 && "sql"@[0] == 's' && "sql"@[1] == 'q' && "sql"@[2] == 'l');
    reveal_strlit("mp3");
    assert("mp3"@.len() == 3 && "mp3"@[0] == 'm' && "mp3"@[1] == 'p' && "mp3"@[2] == '3');
    reveal_strlit("wav");
    assert("wav"@.len() == 3 && "wav"@[0] == 'w' && "wav"@[1] == 'a' && "wav"@[2] == 'v');
    reveal_strlit("m4a");
    assert("m4a"@.len() == 3 && "m4a"@[0] == 'm' && "m4a"@[1] == '4' && "m4a"@[2] == 'a');
    reveal_strlit("ogg");
    assert("ogg"@.len() == 3 && "ogg"@[0] == 'o' && "ogg"@[1] == 'g' && "ogg"@[2] == 'g');
    reveal_strlit("flac");
    assert("flac"@.len() == 4 && "flac"@[0] == 'f' && "flac"@[1] == 'l' && "flac"@[2] == 'a' && "flac"@[3] == 'c');
    reveal_strlit("aac");
    assert("aac"@.len() == 3 && "aac"@[0] == 'a' && "aac"@[1] == 'a' && "aac"@[2] == 'c');
    reveal_strlit("mp4");
    assert("mp4"@.len() == 3 && "mp4"@[0] == 'm' && "mp4"@[1] == 'p' && "mp4"@[2] == '4');
    reveal_strlit("mov");
    assert("mov"@.len() == 3 && "mov"@[0] == 'm' && "mov"@[1] == 'o' && "mov"@[2] == 'v');
    reveal_strlit("webm");
    assert("webm"@.len() == 4 && "webm"@[0] == 'w' && "webm"@[1] == 'e' && "webm"@[2] == 'b' && "webm"@[3] == 'm');
    reveal_strlit("mkv");
    assert("mkv"@.len() == 3 && "mkv"@[0] == 'm' && "mkv"@[1] == 'k' && "mkv"@[2] == 'v');
    reveal_strlit("avi");
    assert("avi"@.len() == 3 && "avi"@[0] == 'a' && "avi"@[1] == 'v' && "avi"@[2] == 'i');
    reveal_strlit("zip");
    assert("zip"@.len() == 3 && "zip"@[0] == 'z' && "zip"@[1] == 'i' && "zip"@[2] == 'p');
    reveal_strlit("tar");
    assert("tar"@.len() == 3 && "tar"@[0] == 't' && "tar"@[1] == 'a' && "tar"@[2] == 'r');
    reveal_strlit("gz");
    assert("gz"@.len() == 2 && "gz"@[0] == 'g' && "gz"@[1] == 'z');
    reveal_strlit("tgz");
    assert("tgz"@.len() == 3 && "tgz"@[0] == 't' && "tgz"@[1] == 'g' && "tgz"@[2] == 'z');
    reveal_strlit("7z");
    assert("7z"@.len() == 2 && "7z"@[0] == '7' && "7z"@[1] == 'z');
    reveal_strlit("rar");
    assert("rar"@.len() == 3 && "rar"@[0] == 'r' && "rar"@[1] == 'a' && "rar"@[2] == 'r');
    reveal_strlit("bz2");
    assert("bz2"@.len() == 3 && "bz2"@[0] == 'b' && "bz2"@[1] == 'z' && "bz2"@[2] == '2');
    reveal_strlit("xz");
    assert("xz"@.len() == 2 && "xz"@[0] == 'x' && "xz"@[1] == 'z');
    reveal_strlit("csv");
    assert("csv"@.len() == 3 && "csv"@[0] == 'c' && "csv"@[1] == 's' && "csv"@[2] == 'v');
    reveal_strlit("tsv");
    assert("tsv"@.len() == 3 && "tsv"@[0] == 't' && "tsv"@[1] == 's' && "tsv"@[2] == 'v');
    reveal_strlit("json");
    assert("json"@.len() == 4 && "json"@[0] == 'j' && "json"@[1] == 's' && "json"@[2] == 'o' && "json"@[3] == 'n');
    reveal_strlit("xlsx");
    assert("xlsx"@.len() == 4 && "xlsx"@[0] == 'x' && "xlsx"@[1] == 'l' && "xlsx"@[2] == 's' && "xlsx"@[3] == 'x');
    reveal_strlit("xls");
    assert("xls"@.len() == 3 && "xls"@[0] == 'x' && "xls"@[1] == 'l' && "xls"@[2] == 's');
    reveal_strlit("parquet");
    assert("parquet"@.len() == 7 && "parquet"@[0] == 'p' && "parquet"@[1] == 'a' && "parquet"@[2] == 'r' && "parquet"@[3] == 'q' && "parquet"@[4] == 'u' && "parquet"@[5] == 'e' && "parquet"@[6] == 't');
    reveal_strlit("ndjson");
    assert("ndjson"@.len() == 6 && "ndjson"@[0] == 'n' && "ndjson"@[1] == 'd' && "ndjson"@[2] == 'j' && "ndjson"@[3] == 's' && "ndjson"@[4] == 'o' && "ndjson"@[5] == 'n');
    let l = seq!["csv"@, "tsv"@, "json"@, "xlsx"@, "xls"@, "parquet"@, "ndjson"@];
    assert(l[0] == "csv"@);
    assert(l[1] == "tsv"@);
    assert(l[2] == "json"@);
    assert(l[3] == "xlsx"@);
    assert(l[4] == "xls"@);
    assert(l[5] == "parquet"@);
    assert(l[6] == "ndjson"@);
}

/// A file whose last extension, with ASCII letters in lower case, is a
/// known one is classified by it, whatever its stem:
/// png, jpg, jpeg, gif, webp, svg, bmp, heic and avif are images; md, txt,
/// pdf, doc, docx, rtf, odt and pages documents; rs, ts, tsx, js, jsx, py,
/// go, rb, java, kt, swift, c, h, cpp, hpp, cs, sh, zsh, toml, yaml, yml,
/// html, css and sql code; mp3, wav, m4a, ogg, flac and aac audio; mp4,
/// mov, webm, mkv and avi video; zip, tar, gz, tgz, 7z, rar, bz2 and xz
/// archives; csv, tsv, json, xlsx, xls, parquet and ndjson data. A name
/// without a `.` is another file.
pub proof fn lemma_known_extensions(stem: Seq<char>, ext: Seq<char>)
    requires
        forall|j: int| 0 <= j < ext.len() ==> ext[j] != '.',
    ensures
        seq!["png"@, "jpg"@, "jpeg"@, "gif"@, "webp"@, "svg"@, "bmp"@, "heic"@, "avif"@].contains(ascii_lower_seq(ext))
            ==> kind_from_name(stem + seq!['.'] + ext) == AttachmentKind::Image,
        seq!["md"@, "txt"@, "pdf"@, "doc"@, "docx"@, "rtf"@, "odt"@, "pages"@].contains(ascii_lower_seq(ext))
            ==> kind_from_name(stem + seq!['.'] + ext) == AttachmentKind::Document,
        seq!["rs"@, "ts"@, "tsx"@, "js"@, "jsx"@, "py"@, "go"@, "rb"@, "java"@, "kt"@, "swift"@, "c"@, "h"@, "cpp"@, "hpp"@, "cs"@, "sh"@, "zsh"@, "toml"@, "yaml"@, "yml"@, "html"@, "css"@, "sql"@].contains(ascii_lower_seq(ext))
            ==> kind_from_name(stem + seq!['.'] + ext) == AttachmentKind::Code,
        seq!["mp3"@, "wav"@, "m4a"@, "ogg"@, "flac"@, "aac"@].contains(ascii_lower_seq(ext))
            ==> kind_from_name(stem + seq!['.'] + ext) == AttachmentKind::Audio,
        seq!["mp4"@, "mov"@, "webm"@, "mkv"@, "avi"@].contains(ascii_lower_seq(ext))
            ==> kind_from_name(stem + seq!['.'] + ext) == AttachmentKind::Video,
        seq!["zip"@, "tar"@, "gz"@, "tgz"@, "7z"@, "rar"@, "bz2"@, "xz"@].contains(ascii_lower_seq(ext))
            ==> kind_from_name(stem + seq!['.'] + ext) == AttachmentKind::Archive,
        seq!["csv"@, "tsv"@, "json"@, "xlsx"@, "xls"@, "parquet"@, "ndjson"@].contains(ascii_lower_seq(ext))
            ==> kind_from_name(stem + seq!['.'] + ext) == AttachmentKind::Data,
        (forall|j: int| 0 <= j < stem.len() ==> stem[j] != '.') ==> kind_from_name(stem)
            == AttachmentKind::Other,
{
    if seq!["png"@, "jpg"@, "jpeg"@, "gif"@, "webp"@, "svg"@, "bmp"@, "heic"@, "avif"@].contains(ascii_lower_seq(ext)) {
        lemma_image_extensions(ascii_lower_seq(ext));
    }
    if seq!["md"@, "txt"@, "pdf"@, "doc"@, "docx"@, "rtf"@, "odt"@, "pages"@].contains(ascii_lower_seq(ext)) {
        lemma_document_extensions(ascii_lower_seq(ext));
    }
    if seq!["rs"@, "ts"@, "tsx"@, "js"@, "jsx"@, "py"@, "go"@, "rb"@, "java"@, "kt"@, "swift"@, "c"@, "h"@, "cpp"@, "hpp"@, "cs"@, "sh"@, "zsh"@, "toml"@, "yaml"@, "yml"@, "html"@, "css"@, "sql"@].contains(ascii_lower_seq(ext)) {
        lemma_code_extensions(ascii_lower_seq(ext));
    }
    if seq!["mp3"@, "wav"@, "m4a"@, "ogg"@, "flac"@, "aac"@].contains(ascii_lower_seq(ext)) {
        lemma_audio_extensions(ascii_lower_seq(ext));
    }
    if seq!["mp4"@, "mov"@, "webm"@, "mkv"@, "avi"@].contains(ascii_lower_seq(ext)) {
        lemma_video_extensions(ascii_lower_seq(ext));
    }
    if seq!["zip"@, "tar"@, "gz"@, "tgz"@, "7z"@, "rar"@, "bz2"@, "xz"@].contains(ascii_lower_seq(ext)) {
        lemma_archive_extensions(ascii_lower_seq(ext));
    }
    if seq!["csv"@, "tsv"@, "json"@, "xlsx"@, "xls"@, "parquet"@, "ndjson"@].contains(ascii_lower_seq(ext)) {
        lemma_data_extensions(ascii_lower_seq(ext));
    }
    lemma_kind_reads_last_extension(stem, ext);
    if forall|j: int| 0 <= j < stem.len() ==> stem[j] != '.' {
        lemma_last_dot_take(stem, 0);
        assert(extension(stem) =~= Seq::<char>::empty());
        assert(ascii_lower_seq(extension(stem)) =~= Seq::<char>::empty());
        reveal_strlit("png");
        reveal_strlit("jpg");
        reveal_strlit("jpeg");
        reveal_strlit("gif");
        reveal_strlit("webp");
        reveal_strlit("svg");
        reveal_strlit("bmp");
        reveal_strlit("heic");
        reveal_strlit("avif");
        reveal_strlit("md");
        reveal_strlit("txt");
        reveal_strlit("pdf");
        reveal_strlit("doc");
        reveal_strlit("docx");
        reveal_strlit("rtf");
        reveal_strlit("odt");
        reveal_strlit("pages");
        reveal_strlit("rs");
        reveal_strlit("ts");
        reveal_strlit("tsx");
        reveal_strlit("js");
        reveal_strlit("jsx");
        reveal_strlit("py");
        reveal_strlit("go");
        reveal_strlit("rb");
        reveal_strlit("java");
        reveal_strlit("kt");
        reveal_strlit("swift");
        reveal_strlit("c");
        reveal_strlit("h");
        reveal_strlit("cpp");
        reveal_strlit("hpp");
        reveal_strlit("cs");
        reveal_strlit("sh");
        reveal_strlit("zsh");
        reveal_strlit("toml");
        reveal_strlit("yaml");
        reveal_strlit("yml");
        reveal_strlit("html");
        reveal_strlit("css");
        reveal_strlit("sql");
        reveal_strlit("mp3");
        reveal_strlit("wav");
        reveal_strlit("m4a");
        reveal_strlit("ogg");
        reveal_strlit("flac");
        reveal_strlit("aac");
        reveal_strlit("mp4");
        reveal_strlit("mov");
        reveal_strlit("webm");
        reveal_strlit("mkv");
        reveal_strlit("avi");
        reveal_strlit("zip");
        reveal_strlit("tar");
        reveal_strlit("gz");
        reveal_strlit("tgz");
        reveal_strlit("7z");
        reveal_strlit("rar");
        reveal_strlit("bz2");
        reveal_strlit("xz");
        reveal_strlit("csv");
        reveal_strlit("tsv");
        reveal_strlit("json");
        reveal_strlit("xlsx");
        reveal_strlit("xls");
        reveal_strlit("parquet");
        reveal_strlit("ndjson");
    }
}

fn last_dot_index(chars: &Vec<char>) -> (r: Option<usize>)
    ensures
        match r {
            Some(k) => k as int == last_dot(chars@) && k < chars@.len(),
            None => last_dot(chars@) == -1,
        },
{
    let mut i: usize = chars.len();
    while i > 0
        invariant
            i <= chars@.len(),
            forall|j: int| i <= j < chars@.len() ==> chars@[j] != '.',
        decreases i,
    {
        if chars[i - 1] == '.' {
            proof {
                lemma_last_dot_take(chars@, i as int);
            }
            return Some(i - 1);
        }
        i = i - 1;
    }
    proof {
        lemma_last_dot_take(chars@, 0);
    }
    None
}

impl AttachmentKind {
    /// Infers the kind from a file name's extension, ignoring ASCII case:
    /// `Hero.PNG` is an image, `bundle.tar.gz` an archive, `README` other.
    pub fn from_name(name: &str) -> (r: Self)
        ensures
            r == kind_from_name(name@),
    {
        let chars = chars_of(name);
        let n = chars.len();
        let start = match last_dot_index(&chars) {
            Some(k) => {
                assert(k < n);
                k + 1
            },
            None => n,
        };
        assert(ascii_lower_seq(chars@.subrange(start as int, chars@.len() as int)) == ascii_lower_seq(extension(name@)));
        let m = |lit: &str| -> (b: bool)
            requires
                start <= chars@.len(),
            ensures
                b == (ascii_lower_seq(chars@.subrange(start as int, chars@.len() as int)) == lit@),
            { tail_matches_lower(&chars, start, lit) };
        if m("png") || m("jpg") || m("jpeg") || m("gif") || m("webp") || m("svg") || m("bmp")
            || m("heic") || m("avif") {
            AttachmentKind::Image
        } else if m("md") || m("txt") || m("pdf") || m("doc") || m("docx") || m("rtf") || m("odt")
            || m("pages") {
            AttachmentKind::Document
        } else if m("rs") || m("ts") || m("tsx") || m("js") || m("jsx") || m("py") || m("go")
            || m("rb") || m("java") || m("kt") || m("swift") || m("c") || m("h") || m("cpp")
            || m("hpp") || m("cs") || m("sh") || m("zsh") || m("toml") || m("yaml") || m("yml")
            || m("html") || m("css") || m("sql") {
            AttachmentKind::Code
        } else if m("mp3") || m("wav") || m("m4a") || m("ogg") || m("flac") || m("aac") {
            AttachmentKind::Audio
        } else if m("mp4") || m("mov") || m("webm") || m("mkv") || m("avi") {
            AttachmentKind::Video
        } else if m("zip") || m("tar") || m("gz") || m("tgz") || m("7z") || m("rar") || m("bz2")
            || m("xz") {
            AttachmentKind::Archive
        } else if m("csv") || m("tsv") || m("json") || m("xlsx") || m("xls") || m("parquet")
            || m("ndjson") {
            AttachmentKind::Data
        } else {
            AttachmentKind::Other
        }
    }

    /// The short human label for this family.
    pub fn label(self) -> (r: &'static str)
        ensures
            r@ == kind_label_spec(self),
    {
        match self {
            AttachmentKind::Image => "Image",
            AttachmentKind::Document => "Document",
            AttachmentKind::Code => "Code",
            AttachmentKind::Audio => "Audio",
            AttachmentKind::Video => "Video",
            AttachmentKind::Archive => "Archive",
            AttachmentKind::Data => "Data",
            AttachmentKind::Other => "File",
        }
    }
}

/// The symbol of a byte unit.
pub open spec fn byte_unit_label(u: nat) -> Seq<char> {
    if u == 0 {
        "B"@
    } else if u == 1 {
        "KB"@
    } else if u == 2 {
        "MB"@
    } else if u == 3 {
        "GB"@
    } else {
        "TB"@
    }
}

/// The nearest whole number to `n / d`, halves rounding up.
pub open spec fn round_div(n: nat, d: nat) -> nat {
    ((2 * n + d) / (2 * d)) as nat
}

/// The nearest whole number to `n / d`; an exact half goes to the even
/// neighbour, as fixed-precision decimal formatting rounds a tie.
pub open spec fn round_div_even(n: nat, d: nat) -> nat {
    let q = n / d;
    let r = n % d;
    if 2 * r > d {
        q + 1
    } else if 2 * r < d {
        q
    } else if q % 2 == 0 {
        q
    } else {
        q + 1
    }
}

/// Divides rounding to the nearest, an exact half to the even neighbour.
pub fn round_half_even(n: u128, d: u128) -> (r: u128)
    requires
        d > 0,
        n < u128::MAX,
    ensures
        r == round_div_even(n as nat, d as nat),
        r <= n / d + 1,
{
    let q = n / d;
    let rem = n % d;
    assert(q <= n) by (nonlinear_arith)
        requires
            q == n / d,
            d > 0,
    ;
    if rem > d - rem {
        q + 1
    } else if rem < d - rem {
        q
    } else if q % 2 == 0 {
        q
    } else {
        q + 1
    }
}

/// A count rounded to tenths, written with one decimal place.
pub open spec fn tenths_text(tenths: nat) -> Seq<char> {
    decimal(tenths / 10) + "."@ + seq![digit_char(tenths % 10)]
}

/// The byte count in the unit it is shown in: starting from the count as a
/// binary64 value (in units of 2^-52), divide by a thousand, rounding as
/// binary64 division does, while the value reaches a thousand and a larger
/// unit remains. Returns the value and the unit (0 for bytes to 4 for
/// terabytes).
pub open spec fn bytes_scaled(v: nat, unit: nat) -> (nat, nat)
    decreases 4 - unit,
{
    if unit < 4 && v >= 1000 * UNIT {
        bytes_scaled(double_units(v, 1000), unit + 1)
    } else {
        (v, unit)
    }
}

/// A byte count the way file managers read it: bytes below a thousand
/// exactly (`820 B`); otherwise in the largest decimal unit the count
/// reaches, computed in binary64 as [`bytes_scaled`] states. From ten up
/// it is a whole number, the binary value rounded half away from zero
/// (`12 KB`); below ten it has one decimal, the binary value rounded to the
/// nearest tenth with an exact half to the even tenth (`1.4 MB`). So 1,250
/// bytes read `1.2 KB` (1.25 is exact in binary), while 1,150 bytes read
/// `1.1 KB` (1.15 is held just below the half).
pub open spec fn format_bytes_spec(bytes: nat) -> Seq<char> {
    if bytes < 1000 {
        decimal(bytes) + " B"@
    } else {
        let (v, u) = bytes_scaled(double_units(bytes * (UNIT as nat), 1), 0);
        if v >= 10 * UNIT {
            decimal(round_div(v, UNIT as nat)) + " "@ + byte_unit_label(u)
        } else {
            tenths_text(round_div_even(10 * v, UNIT as nat)) + " "@ + byte_unit_label(u)
        }
    }
}

/// A third of a thousand, raised to the number of divisions applied: a
/// bound on how far the value shrinks.
spec fn shrink(unit: nat) -> nat
    decreases unit,
{
    if unit == 0 {
        1
    } else {
        333 * shrink((unit - 1) as nat)
    }
}

fn byte_unit_str(u: usize) -> (r: &'static str)
    requires
        u <= 4,
    ensures
        r@ == byte_unit_label(u as nat),
{
    if u == 0 {
        "B"
    } else if u == 1 {
        "KB"
    } else if u == 2 {
        "MB"
    } else if u == 3 {
        "GB"
    } else {
        "TB"
    }
}

/// Formats a byte count the way file managers do (`820 B`, `12 KB`, `1.4 MB`).
pub fn format_bytes(bytes: u64) -> (r: String)
    ensures
        r@ == format_bytes_spec(bytes as nat),
{
    let mut s = String::new();
    if bytes < 1000 {
        push_decimal(&mut s, bytes);
        s.append(" B");
        return s;
    }
    let b: u128 = bytes as u128;
    let v0: u128 = round_quotient(b * UNIT, 1);
    assert(v0 < NUMERATOR_LIMIT) by (nonlinear_arith)
        requires
            v0 <= 2 * b * UNIT + 1,
            b < 0x1_0000_0000_0000_0000,
    ;
    let mut v: u128 = v0;
    let mut unit: usize = 0;
    proof {
        reveal_with_fuel(shrink, 5);
    }
    while unit < 4 && v >= 1000 * UNIT
        invariant
            unit <= 4,
            v0 <= 2 * b * UNIT + 1,
            b < 0x1_0000_0000_0000_0000,
            v * shrink(unit as nat) <= v0,
            v <= v0,
            v0 < NUMERATOR_LIMIT,
            shrink(unit as nat) >= 1,
            bytes_scaled(v as nat, unit as nat) == bytes_scaled(v0 as nat, 0),
        decreases 4 - unit,
    {
        let next = round_quotient(v, 1000);
        assert(next * 333 <= v) by (nonlinear_arith)
            requires
                next * 1000 <= 2 * v + 1000,
                v >= 1000 * UNIT,
        ;
        assert(next * shrink((unit + 1) as nat) <= v0) by (nonlinear_arith)
            requires
                next * 333 <= v,
                v * shrink(unit as nat) <= v0,
                shrink((unit + 1) as nat) == 333 * shrink(unit as nat),
        ;
        assert(next <= v0) by (nonlinear_arith)
            requires
                next * shrink((unit + 1) as nat) <= v0,
                shrink((unit + 1) as nat) >= 1,
        ;
        v = next;
        unit = unit + 1;
    }
    assert(shrink(4) == 12_296_370_321);
    if v >= 10 * UNIT {
        assert(v < 1000 * UNIT || v * 12_296_370_321 <= v0);
        let whole: u128 = (2 * v + UNIT) / (2 * UNIT);
        assert(whole < 0x1_0000_0000) by (nonlinear_arith)
            requires
                whole == (2 * v + UNIT) / (2 * UNIT),
                v < 1000 * UNIT || v * 12_296_370_321 <= v0,
                v0 <= 2 * b * UNIT + 1,
                b < 0x1_0000_0000_0000_0000,
        ;
        push_decimal(&mut s, whole as u64);
    } else {
        let tenths: u128 = round_half_even(10 * v, UNIT);
        assert(((10 * v) as int) / (UNIT as int) < 100) by (nonlinear_arith)
            requires
                v < 10 * UNIT,
        ;
        push_tenths(&mut s, tenths as u64);
    }
    s.append(" ");
    s.append(byte_unit_str(unit));
    s
}

/// The identity of a thumbnail image: two attachments show the same
/// thumbnail only when they hold the same image, not merely equal bytes.
#[derive(Debug, Clone, Copy, PartialEq, Eq, Structural)]
pub struct ThumbnailKey {
    /// The image's identity, assigned by whoever holds the image.
    pub identity: u64,
}

/// One file with stable identity, presentation metadata, and upload state.
///
/// Equality compares every field; thumbnails compare by identity so a
/// snapshot that re-attaches the same image does not invalidate rows.
#[derive(Debug, Clone, PartialEq, Eq)]
pub struct Attachment {
    id: String,
    name: String,
    kind: AttachmentKind,
    size_bytes: Option<u64>,
    detail: Option<String>,
    thumbnail: Option<ThumbnailKey>,
    state: ProgressState,
    progress: Option<u8>,
}

/// The metadata line of an attachment: its lifecycle while not ready
/// (`Queued`, `Uploading 40%`, `Failed: Too large`), and once ready its
/// kind, size, and detail joined by ` · `.
pub open spec fn summary_spec(
    state: ProgressState,
    progress: Option<u8>,
    kind: AttachmentKind,
    size: Option<u64>,
    detail: Option<Seq<char>>,
) -> Seq<char> {
    match state {
        ProgressState::Pending => "Queued"@,
        ProgressState::Running => match progress {
            Some(p) => "Uploading "@ + decimal(p as nat) + "%"@,
            None => "Uploading"@,
        },
        ProgressState::Failed(reason) => "Failed: "@ + reason@,
        ProgressState::Complete => {
            let sized = match size {
                Some(b) => kind_label_spec(kind) + " · "@ + format_bytes_spec(b as nat),
                None => kind_label_spec(kind),
            };
            match detail {
                Some(d) => sized + " · "@ + d,
                None => sized,
            }
        },
    }
}

impl Attachment {
    /// The stable attachment identifier.
    pub closed spec fn id_view(self) -> Seq<char> {
        self.id@
    }

    /// The visible file name.
    pub closed spec fn name_view(self) -> Seq<char> {
        self.name@
    }

    /// The kind used for the glyph and label.
    pub closed spec fn kind_spec(self) -> AttachmentKind {
        self.kind
    }

    /// The size, if known.
    pub closed spec fn size_spec(self) -> Option<u64> {
        self.size_bytes
    }

    /// The optional detail text.
    pub closed spec fn detail_view(self) -> Option<Seq<char>> {
        opt_view(self.detail)
    }

    /// The thumbnail, if any.
    pub closed spec fn thumbnail_spec(self) -> Option<ThumbnailKey> {
        self.thumbnail
    }

    /// The upload lifecycle.
    pub closed spec fn state_spec(self) -> ProgressState {
        self.state
    }

    /// The upload progress in whole percent, when known.
    pub closed spec fn progress_spec(self) -> Option<u8> {
        self.progress
    }

    /// Creates a ready attachment; the kind is inferred from the name.
    pub fn new(id: &str, name: &str) -> (r: Self)
        ensures
            r.id_view() == id@,
            r.name_view() == name@,
            r.kind_spec() == kind_from_name(name@),
            r.size_spec() is None,
            r.detail_view() is None,
            r.thumbnail_spec() is None,
            r.state_spec() is Complete,
            r.progress_spec() is None,
    {
        Attachment {
            id: id.to_owned(),
            kind: AttachmentKind::from_name(name),
            name: name.to_owned(),
            size_bytes: None,
            detail: None,
            thumbnail: None,
            state: ProgressState::Complete,
            progress: None,
        }
    }

    /// Overrides the inferred kind.
    pub fn kind(self, kind: AttachmentKind) -> (r: Self)
        ensures
            r.kind_spec() == kind,
            r.id_view() == self.id_view(),
            r.name_view() == self.name_view(),
            r.size_spec() == self.size_spec(),
            r.detail_view() == self.detail_view(),
            r.thumbnail_spec() == self.thumbnail_spec(),
            r.state_spec() == self.state_spec(),
            r.progress_spec() == self.progress_spec(),
    {
        Attachment { kind, ..self }
    }

    /// Sets the size shown in the metadata line.
    pub fn size_bytes(self, size_bytes: u64) -> (r: Self)
        ensures
            r.size_spec() == Some(size_bytes),
            r.id_view() == self.id_view(),
            r.name_view() == self.name_view(),
            r.kind_spec() == self.kind_spec(),
            r.detail_view() == self.detail_view(),
            r.thumbnail_spec() == self.thumbnail_spec(),
            r.state_spec() == self.state_spec(),
            r.progress_spec() == self.progress_spec(),
    {
        Attachment { size_bytes: Some(size_bytes), ..self }
    }

    /// Adds a short detail such as `12 pages` or `1280×720`.
    pub fn detail(self, detail: &str) -> (r: Self)
        ensures
            r.detail_view() == Some(detail@),
            r.id_view() == self.id_view(),
            r.name_view() == self.name_view(),
            r.kind_spec() == self.kind_spec(),
            r.size_spec() == self.size_spec(),
            r.thumbnail_spec() == self.thumbnail_spec(),
            r.state_spec() == self.state_spec(),
            r.progress_spec() == self.progress_spec(),
    {
        Attachment { detail: Some(detail.to_owned()), ..self }
    }

    /// Shows an image thumbnail instead of the kind glyph.
    pub fn thumbnail(self, image: ThumbnailKey) -> (r: Self)
        ensures
            r.thumbnail_spec() == Some(image),
            r.id_view() == self.id_view(),
            r.name_view() == self.name_view(),
            r.kind_spec() == self.kind_spec(),
            r.size_spec() == self.size_spec(),
            r.detail_view() == self.detail_view(),
            r.state_spec() == self.state_spec(),
            r.progress_spec() == self.progress_spec(),
    {
        Attachment { thumbnail: Some(image), ..self }
    }

    /// Sets the upload lifecycle: pending or running files are not yet
    /// usable, failed ones carry a reason.
    pub fn state(self, state: ProgressState) -> (r: Self)
        ensures
            r.state_spec() == state,
            r.id_view() == self.id_view(),
            r.name_view() == self.name_view(),
            r.kind_spec() == self.kind_spec(),
            r.size_spec() == self.size_spec(),
            r.detail_view() == self.detail_view(),
            r.thumbnail_spec() == self.thumbnail_spec(),
            r.progress_spec() == self.progress_spec(),
    {
        Attachment { state, ..self }
    }

    /// Sets the upload progress shown while running, in whole percent;
    /// values above a hundred read as a hundred.
    pub fn progress(self, percent: u32) -> (r: Self)
        ensures
            r.progress_spec() == Some((if percent > 100 { 100 } else { percent }) as u8),
            r.id_view() == self.id_view(),
            r.name_view() == self.name_view(),
            r.kind_spec() == self.kind_spec(),
            r.size_spec() == self.size_spec(),
            r.detail_view() == self.detail_view(),
            r.thumbnail_spec() == self.thumbnail_spec(),
            r.state_spec() == self.state_spec(),
    {
        let p: u8 = if percent > 100 { 100 } else { percent as u8 };
        Attachment { progress: Some(p), ..self }
    }

    /// Returns the stable attachment identifier.
    pub fn id(&self) -> (r: &String)
        ensures
            r@ == self.id_view(),
    {
        &self.id
    }

    /// Returns the visible file name.
    pub fn name(&self) -> (r: &String)
        ensures
            r@ == self.name_view(),
    {
        &self.name
    }

    /// Returns the kind used for the glyph and label.
    pub fn attachment_kind(&self) -> (r: AttachmentKind)
        ensures
            r == self.kind_spec(),
    {
        self.kind
    }

    /// Returns the size, if known.
    pub fn size(&self) -> (r: Option<u64>)
        ensures
            r == self.size_spec(),
    {
        self.size_bytes
    }

    /// Returns the optional detail text.
    pub fn detail_text(&self) -> (r: Option<&String>)
        ensures
            match r {
                Some(d) => self.detail_view() == Some(d@),
                None => self.detail_view() is None,
            },
    {
        self.detail.as_ref()
    }

    /// Returns the thumbnail, if any.
    pub fn thumbnail_image(&self) -> (r: Option<ThumbnailKey>)
        ensures
            r == self.thumbnail_spec(),
    {
        self.thumbnail
    }

    /// Returns the upload lifecycle.
    pub fn upload_state(&self) -> (r: &ProgressState)
        ensures
            *r == self.state_spec(),
    {
        &self.state
    }

    /// Returns the upload progress in whole percent, when known.
    pub fn upload_percent(&self) -> (r: Option<u8>)
        ensures
            r == self.progress_spec(),
    {
        self.progress
    }

    /// Returns whether the file is usable (uploaded, not failed).
    pub fn is_ready(&self) -> (r: bool)
        ensures
            r == (self.state_spec() is Complete),
    {
        self.state.is_complete()
    }

    /// The one-line metadata shown under the name and read to assistive
    /// technology: kind, size, detail, or the lifecycle when not ready.
    pub fn summary(&self) -> (r: String)
        ensures
            r@ == summary_spec(self.state_spec(), self.progress_spec(), self.kind_spec(), self.size_spec(), self.detail_view()),
    {
        match &self.state {
            ProgressState::Pending => "Queued".to_owned(),
            ProgressState::Running => match self.progress {
                Some(p) => {
                    let mut s = "Uploading ".to_owned();
                    push_decimal(&mut s, p as u64);
                    s.append("%");
                    s
                },
                None => "Uploading".to_owned(),
            },
            ProgressState::Failed(reason) => {
                let mut s = "Failed: ".to_owned();
                s.append(reason.as_str());
                s
            },
            ProgressState::Complete => {
                let mut s = self.kind.label().to_owned();
                if let Some(size) = self.size_bytes {
                    s.append(" · ");
                    let bytes = format_bytes(size);
                    s.append(bytes.as_str());
                }
                if let Some(detail) = &self.detail {
                    s.append(" · ");
                    s.append(detail.as_str());
                }
                s
            },
        }
    }

    /// The accessible name: file name plus summary.
    pub fn accessibility_label(&self) -> (r: String)
        ensures
            r@ == self.name_view() + ", "@ + summary_spec(self.state_spec(), self.progress_spec(), self.kind_spec(), self.size_spec(), self.detail_view()),
    {
        let mut s = self.name.clone();
        s.append(", ");
        let summary = self.summary();
        s.append(summary.as_str());
        s
    }
}

/// An interaction emitted by attachment previews.
#[derive(Debug, Clone, PartialEq, Eq)]
pub enum AttachmentEvent {
    /// The user activated a read-only attachment (open, preview, download).
    Opened {
        /// Stable attachment identifier.
        id: String,
    },
    /// The user removed an attachment from a composer.
    Removed {
        /// Stable attachment identifier.
        id: String,
    },
}

} // verus!
