//! Artifacts: their digests and how they are unpacked.

use crate::agent::error::{joined, Error, ErrorModel};
use crate::text;
use vstd::prelude::*;
use vstd::string::*;

verus! {

/// The SHA-256 digest of bytes.
pub uninterp spec fn sha256(data: Seq<u8>) -> Seq<u8>;

/// `sha2::Sha256::digest`: the digest of the bytes, 32 bytes long.
#[verifier::external_body]
fn sha256_digest(data: &[u8]) -> (r: Vec<u8>)
    ensures
        r@ == sha256(data@),
        r@.len() == 32,
{
    <sha2::Sha256 as sha2::Digest>::digest(data).to_vec()
}

/// Bytes in small hexadecimal digits, two for each, the high one first.
pub open spec fn hex_text(data: Seq<u8>) -> Seq<char> {
    Seq::new(
        data.len() * 2,
        |i: int|
            if i % 2 == 0 {
                crate::ids::hex_char(data[i / 2] as int / 16)
            } else {
                crate::ids::hex_char(data[i / 2] as int % 16)
            },
    )
}

/// `hex::encode`: small hexadecimal digits, two for each byte.
#[verifier::external_body]
pub(crate) fn hex_encode(data: &[u8]) -> (r: String)
    ensures
        r@ == hex_text(data@),
{
    hex::encode(data)
}

/// Holds a digest against the one that is expected.
pub fn check_digest(digest: &[u8], expected: &str) -> (r: Result<(), Error>)
    ensures
        r is Ok <==> expected@ == hex_text(digest@),
        r matches Err(e) ==> e@ == (ErrorModel::Sha256Mismatch {
            expected: expected@,
            actual: hex_text(digest@),
        }),
{
    let actual = hex_encode(digest);
    if text::same(actual.as_str(), expected) {
        Ok(())
    } else {
        Err(Error::Sha256Mismatch { expected: expected.to_owned(), actual })
    }
}

/// Holds the digest of a download against the one that is expected.
pub fn verify_digest(bytes: &[u8], expected: &str) -> (r: Result<(), Error>)
    ensures
        r is Ok <==> expected@ == hex_text(sha256(bytes@)),
        r matches Err(e) ==> e@ == (ErrorModel::Sha256Mismatch {
            expected: expected@,
            actual: hex_text(sha256(bytes@)),
        }),
{
    let digest = sha256_digest(bytes);
    check_digest(digest.as_slice(), expected)
}

/// Judges the status code of a download of the given kind for a unit.
pub fn check_download(what: &str, unit_name: &str, code: u16, status: &str) -> (r: Result<
    (),
    Error,
>)
    ensures
        r is Ok <==> 200 <= code < 300,
        r matches Err(e) ==> e@ == ErrorModel::Unit(
            what@ + " download for "@ + unit_name@ + " returned HTTP "@ + status@,
        ),
{
    if 200 <= code && code < 300 {
        Ok(())
    } else {
        let mut s: String = joined(what, " download for ");
        s.append(unit_name);
        s.append(" returned HTTP ");
        s.append(status);
        Err(Error::Unit(s))
    }
}

/// A text in small letters.
pub uninterp spec fn lowercase(s: Seq<char>) -> Seq<char>;

/// `str::to_lowercase`: the text in small letters, by the text alone.
#[verifier::external_body]
fn to_lowercase(s: &str) -> (r: String)
    ensures
        r@ == lowercase(s@),
{
    s.to_lowercase()
}

/// Kinds of archives.
#[derive(Debug, Clone, Copy, PartialEq, Eq, Structural)]
pub enum ArchiveFormat {
    TarGz,
    TarXz,
    TarBz2,
    Deb,
    Zip,
}

/// The kind of archive that a URL in small letters ends in.
pub open spec fn format_of(url: Seq<char>) -> Option<ArchiveFormat> {
    if text::has_suffix(url, ".tar.gz"@) || text::has_suffix(url, ".tgz"@) {
        Some(ArchiveFormat::TarGz)
    } else if text::has_suffix(url, ".tar.xz"@) || text::has_suffix(url, ".txz"@) {
        Some(ArchiveFormat::TarXz)
    } else if text::has_suffix(url, ".tar.bz2"@) || text::has_suffix(url, ".tbz2"@) {
        Some(ArchiveFormat::TarBz2)
    } else if text::has_suffix(url, ".deb"@) {
        Some(ArchiveFormat::Deb)
    } else if text::has_suffix(url, ".zip"@) {
        Some(ArchiveFormat::Zip)
    } else {
        None
    }
}

/// The kind of archive that a URL in small letters ends in.
pub fn archive_format(url: &str) -> (r: Option<ArchiveFormat>)
    ensures
        r == format_of(url@),
{
    if text::ends_with(url, ".tar.gz") || text::ends_with(url, ".tgz") {
        Some(ArchiveFormat::TarGz)
    } else if text::ends_with(url, ".tar.xz") || text::ends_with(url, ".txz") {
        Some(ArchiveFormat::TarXz)
    } else if text::ends_with(url, ".tar.bz2") || text::ends_with(url, ".tbz2") {
        Some(ArchiveFormat::TarBz2)
    } else if text::ends_with(url, ".deb") {
        Some(ArchiveFormat::Deb)
    } else if text::ends_with(url, ".zip") {
        Some(ArchiveFormat::Zip)
    } else {
        None
    }
}

/// How an artifact gets to its place.
#[derive(Debug)]
pub enum Unpack {
    /// It is written to a file, and a program unpacks that file.
    Archive { file: String, program: String, args: Vec<String> },
    /// It is written to a file that is made executable.
    Binary { file: String },
}

/// The ending of the file that an archive is written to.
pub open spec fn extension_of(format: ArchiveFormat) -> Seq<char> {
    match format {
        ArchiveFormat::TarGz => "tar.gz"@,
        ArchiveFormat::TarXz => "tar.xz"@,
        ArchiveFormat::TarBz2 => "tar.bz2"@,
        ArchiveFormat::Deb => "deb"@,
        ArchiveFormat::Zip => "zip"@,
    }
}

/// The file that an archive is written to.
pub open spec fn archive_file(
    dir: Seq<char>,
    unit: Seq<char>,
    version: Seq<char>,
    format: ArchiveFormat,
) -> Seq<char> {
    text::joined_path(dir, unit + "-"@ + version + "."@ + extension_of(format))
}

/// The program that unpacks an archive.
pub open spec fn unpacker(format: ArchiveFormat) -> Seq<char> {
    match format {
        ArchiveFormat::Deb => "dpkg-deb"@,
        ArchiveFormat::Zip => "unzip"@,
        _ => "tar"@,
    }
}

/// The arguments with which an archive is unpacked into a directory.
pub open spec fn unpack_args(format: ArchiveFormat, file: Seq<char>, dir: Seq<char>) -> Seq<
    Seq<char>,
> {
    match format {
        ArchiveFormat::TarGz => seq!["xzf"@, file, "-C"@, dir],
        ArchiveFormat::TarXz => seq!["xJf"@, file, "-C"@, dir],
        ArchiveFormat::TarBz2 => seq!["xjf"@, file, "-C"@, dir],
        ArchiveFormat::Deb => seq!["--extract"@, file, dir],
        ArchiveFormat::Zip => seq!["-o"@, file, "-d"@, dir],
    }
}

/// What a value of [`Unpack`] is.
#[verifier::ext_equal]
pub enum UnpackModel {
    Archive { file: Seq<char>, program: Seq<char>, args: Seq<Seq<char>> },
    Binary { file: Seq<char> },
}

impl View for Unpack {
    type V = UnpackModel;

    open spec fn view(&self) -> UnpackModel {
        match self {
            Unpack::Archive { file, program, args } => UnpackModel::Archive {
                file: file@,
                program: program@,
                args: text::texts(args@),
            },
            Unpack::Binary { file } => UnpackModel::Binary { file: file@ },
        }
    }
}

/// How an artifact of the given kind gets to its place.
pub open spec fn unpack_as(
    format: Option<ArchiveFormat>,
    dir: Seq<char>,
    unit: Seq<char>,
    version: Seq<char>,
) -> UnpackModel {
    match format {
        Some(f) => {
            let file = archive_file(dir, unit, version, f);
            UnpackModel::Archive { file, program: unpacker(f), args: unpack_args(f, file, dir) }
        },
        None => UnpackModel::Binary { file: text::joined_path(dir, unit) },
    }
}

/// Plans how an artifact of the given kind gets to its place.
pub fn plan_unpack_as(
    format: Option<ArchiveFormat>,
    dir: &str,
    unit: &str,
    version: &str,
) -> (r: Unpack)
    ensures
        r@ == unpack_as(format, dir@, unit@, version@),
{
    let f = match format {
        Some(f) => f,
        None => return Unpack::Binary { file: text::join_path(dir, unit) },
    };
    let (extension, program, option): (&str, &str, &str) = match f {
        ArchiveFormat::TarGz => ("tar.gz", "tar", "xzf"),
        ArchiveFormat::TarXz => ("tar.xz", "tar", "xJf"),
        ArchiveFormat::TarBz2 => ("tar.bz2", "tar", "xjf"),
        ArchiveFormat::Deb => ("deb", "dpkg-deb", "--extract"),
        ArchiveFormat::Zip => ("zip", "unzip", "-o"),
    };
    let mut name: String = joined(unit, "-");
    name.append(version);
    name.append(".");
    name.append(extension);
    let file = text::join_path(dir, name.as_str());
    let mut args: Vec<String> = Vec::new();
    args.push(option.to_owned());
    args.push(file.clone());
    match f {
        ArchiveFormat::Deb => {},
        ArchiveFormat::Zip => args.push("-d".to_owned()),
        _ => args.push("-C".to_owned()),
    }
    args.push(dir.to_owned());
    proof {
        assert(text::texts(args@) =~= unpack_args(f, file@, dir@));
    }
    Unpack::Archive { file, program: program.to_owned(), args }
}

/// Plans how an artifact gets to its place, by the URL it came from.
pub fn plan_unpack(url: &str, dir: &str, unit: &str, version: &str) -> (r: Unpack)
    ensures
        r@ == unpack_as(format_of(lowercase(url@)), dir@, unit@, version@),
{
    let lower = to_lowercase(url);
    plan_unpack_as(archive_format(lower.as_str()), dir, unit, version)
}

/// The exit code of a process as the agent shows it.
pub open spec fn code_text(code: Option<i32>) -> Seq<char> {
    match code {
        Some(c) => "Some("@ + text::signed_decimal(c as int) + ")"@,
        None => "None"@,
    }
}

/// Words the exit code of a process.
pub fn show_code(code: Option<i32>) -> (r: String)
    ensures
        r@ == code_text(code),
{
    match code {
        Some(c) => {
            let mut s: String = "Some(".to_owned();
            text::push_i64(&mut s, c as i64);
            s.append(")");
            s
        },
        None => "None".to_owned(),
    }
}

/// Judges an unpacking program by its exit code.
pub fn check_unpacked(unit_name: &str, program: &str, code: Option<i32>) -> (r: Result<(), Error>)
    ensures
        r is Ok <==> code == Some(0i32),
        r matches Err(e) ==> e@ == ErrorModel::Unit(
            "failed to extract artifact for "@ + unit_name@ + ": "@ + program@ + " exited with "@
                + code_text(code),
        ),
{
    if let Some(c) = code {
        if c == 0 {
            return Ok(());
        }
    }
    let mut s: String = joined("failed to extract artifact for ", unit_name);
    s.append(": ");
    s.append(program);
    s.append(" exited with ");
    s.append(show_code(code).as_str());
    Err(Error::Unit(s))
}

/// The kind of an archive is told by its ending: each ending stands for its own
/// kind, and a name without any of them is no archive.
pub proof fn law_ending_tells_the_kind(url: Seq<char>)
    ensures
        format_of(url) == Some(ArchiveFormat::TarGz) <==> text::has_suffix(url, ".tar.gz"@)
            || text::has_suffix(url, ".tgz"@),
        format_of(url) == Some(ArchiveFormat::TarXz) <==> text::has_suffix(url, ".tar.xz"@)
            || text::has_suffix(url, ".txz"@),
        format_of(url) == Some(ArchiveFormat::TarBz2) <==> text::has_suffix(url, ".tar.bz2"@)
            || text::has_suffix(url, ".tbz2"@),
        format_of(url) == Some(ArchiveFormat::Deb) <==> text::has_suffix(url, ".deb"@),
        format_of(url) == Some(ArchiveFormat::Zip) <==> text::has_suffix(url, ".zip"@),
{
    reveal_strlit(".tar.gz");
    reveal_strlit(".tgz");
    reveal_strlit(".tar.xz");
    reveal_strlit(".txz");
    reveal_strlit(".tar.bz2");
    reveal_strlit(".tbz2");
    reveal_strlit(".deb");
    reveal_strlit(".zip");
    let n = url.len();
    if text::has_suffix(url, ".tar.gz"@) {
        assert(url.subrange(n - 7, n as int) == ".tar.gz"@);
        assert(url[n - 1] == ".tar.gz"@[6]);
        assert(url[n - 2] == ".tar.gz"@[5]);
    }
    if text::has_suffix(url, ".tgz"@) {
        assert(url.subrange(n - 4, n as int) == ".tgz"@);
        assert(url[n - 1] == ".tgz"@[3]);
        assert(url[n - 2] == ".tgz"@[2]);
    }
    if text::has_suffix(url, ".tar.xz"@) {
        assert(url[n - 1] == ".tar.xz"@[6]);
        assert(url[n - 2] == ".tar.xz"@[5]);
    }
    if text::has_suffix(url, ".txz"@) {
        assert(url[n - 1] == ".txz"@[3]);
        assert(url[n - 2] == ".txz"@[2]);
    }
    if text::has_suffix(url, ".tar.bz2"@) {
        assert(url[n - 1] == ".tar.bz2"@[7]);
    }
    if text::has_suffix(url, ".tbz2"@) {
        assert(url[n - 1] == ".tbz2"@[4]);
    }
    if text::has_suffix(url, ".deb"@) {
        assert(url[n - 1] == ".deb"@[3]);
    }
    if text::has_suffix(url, ".zip"@) {
        assert(url[n - 1] == ".zip"@[3]);
    }
}

/// How an artifact gets to its place. An archive is written to a file in the
/// unit's directory that is named after the unit, the version and the kind of
/// archive, and a program that knows the kind unpacks that file into that
/// directory; anything else is the unit's own program and is written there under
/// the unit's name.
pub proof fn law_archives_are_unpacked_where_they_are_written(
    format: Option<ArchiveFormat>,
    dir: Seq<char>,
    unit: Seq<char>,
    version: Seq<char>,
)
    ensures
        match unpack_as(format, dir, unit, version) {
            UnpackModel::Archive { file, program, args } => {
                &&& format is Some
                &&& file == text::joined_path(
                    dir,
                    unit + "-"@ + version + (match format->0 {
                        ArchiveFormat::TarGz => "."@ + "tar.gz"@,
                        ArchiveFormat::TarXz => "."@ + "tar.xz"@,
                        ArchiveFormat::TarBz2 => "."@ + "tar.bz2"@,
                        ArchiveFormat::Deb => "."@ + "deb"@,
                        ArchiveFormat::Zip => "."@ + "zip"@,
                    }),
                )
                &&& args.len() == (if format->0 is Deb {
                    3int
                } else {
                    4int
                })
                &&& args[0] == (match format->0 {
                    ArchiveFormat::TarGz => "xzf"@,
                    ArchiveFormat::TarXz => "xJf"@,
                    ArchiveFormat::TarBz2 => "xjf"@,
                    ArchiveFormat::Deb => "--extract"@,
                    ArchiveFormat::Zip => "-o"@,
                })
                &&& args[1] == file
                &&& args.last() == dir
                &&& program == "tar"@ ==> args[2] == "-C"@
                &&& program == "unzip"@ ==> args[2] == "-d"@
                &&& program == "tar"@ <==> (format->0 is TarGz || format->0 is TarXz || format->0
                    is TarBz2)
                &&& program == "dpkg-deb"@ <==> format->0 is Deb
                &&& program == "unzip"@ <==> format->0 is Zip
            },
            UnpackModel::Binary { file } => format is None && file == text::joined_path(dir, unit),
        },
{
    reveal_strlit("tar");
    reveal_strlit("dpkg-deb");
    reveal_strlit("unzip");
    assert("tar"@.len() == 3);
    assert("dpkg-deb"@.len() == 8);
    assert("unzip"@.len() == 5);
    if format is Some {
        let e = extension_of(format->0);
        assert(unit + "-"@ + version + "."@ + e =~= unit + "-"@ + version + ("."@ + e));
    }
}

} // verus!
