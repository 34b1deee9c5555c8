//! Unpacking a zip package: what each entry of the archive becomes below
//! the package folder (a folder, a file with its bytes, or the failure that
//! stops the unpacking).
use vstd::prelude::*;

use crate::download::texts;
use crate::mumu_info::opt_text;
use crate::packages::{normal_names, sanitize_entry_path, EntryComponent};
use crate::text::concat;

verus! {

#[verifier::external_type_specification]
#[verifier::external_body]
#[verifier::reject_recursive_types(R)]
pub struct ExZipArchive<R>(zip::ZipArchive<R>);

#[verifier::external_type_specification]
#[verifier::external_body]
#[verifier::reject_recursive_types(T)]
pub struct ExCursor<T>(std::io::Cursor<T>);

/// The bytes an archive was opened on.
pub uninterp spec fn zip_archive_bytes(archive: zip::ZipArchive<std::io::Cursor<Vec<u8>>>) -> Seq<u8>;

/// What `zip::ZipArchive::new` gives for some bytes: success, or the text of
/// its error.
pub uninterp spec fn zip_opening(bytes: Seq<u8>) -> Result<(), Seq<char>>;

/// How many entries `ZipArchive::len` reports for an archive of the bytes.
pub uninterp spec fn zip_entry_count(bytes: Seq<u8>) -> nat;

/// What `ZipArchive::by_index` gives for entry `i`, read as the entry's
/// name (`ZipFile::name`) and whether it is a directory
/// (`ZipFile::is_dir`), or the text of the error.
pub uninterp spec fn zip_entry_info(bytes: Seq<u8>, i: int) -> Result<(Seq<char>, bool), Seq<char>>;

/// What reading entry `i` to its end gives (`ZipArchive::by_index`, then
/// `Read::read_to_end`): its bytes, or the text of the error.
pub uninterp spec fn zip_entry_data(bytes: Seq<u8>, i: int) -> Result<Seq<u8>, Seq<char>>;

/// The components of a path text as `std::path::Path::components` splits
/// it: the text of each plain name, `None` for a root, drive prefix, `.` or
/// `..`.
pub uninterp spec fn path_parts(text: Seq<char>) -> Seq<Option<Seq<char>>>;

/// Trusted: calls `zip::ZipArchive::new` on a cursor over the bytes.  An
/// opened archive remembers the bytes (`zip_archive_bytes`); the outcome is
/// named `zip_opening`.
#[verifier::external_body]
fn zip_open(bytes: Vec<u8>) -> (r: Result<zip::ZipArchive<std::io::Cursor<Vec<u8>>>, String>)
    ensures
        match r {
            Ok(a) => zip_archive_bytes(a) == bytes@ && zip_opening(bytes@) == Ok::<(), Seq<char>>(()),
            Err(e) => zip_opening(bytes@) == Err::<(), Seq<char>>(e@),
        },
{
    zip::ZipArchive::new(std::io::Cursor::new(bytes)).map_err(|e| e.to_string())
}

/// Trusted: calls `ZipArchive::len`; the count is named `zip_entry_count`.
#[verifier::external_body]
fn zip_len(archive: &zip::ZipArchive<std::io::Cursor<Vec<u8>>>) -> (r: usize)
    ensures
        r == zip_entry_count(zip_archive_bytes(*archive)),
{
    archive.len()
}

/// Trusted: calls `ZipArchive::by_index`, then `ZipFile::name` and
/// `ZipFile::is_dir`; the outcome is named `zip_entry_info`.  The zip
/// crate's `is_dir` tests whether the name ends with `/` or a backslash.
#[verifier::external_body]
fn zip_entry(archive: &mut zip::ZipArchive<std::io::Cursor<Vec<u8>>>, i: usize) -> (r: Result<(String, bool), String>)
    ensures
        zip_archive_bytes(*final(archive)) == zip_archive_bytes(*old(archive)),
        match r {
            Ok((n, d)) => zip_entry_info(zip_archive_bytes(*old(archive)), i as int) == Ok::<(Seq<char>, bool), Seq<char>>((n@, d))
                && d == (n@.len() > 0 && (n@.last() == '/' || n@.last() == '\\')),
            Err(e) => zip_entry_info(zip_archive_bytes(*old(archive)), i as int) == Err::<(Seq<char>, bool), Seq<char>>(e@),
        },
{
    let f = archive.by_index(i).map_err(|e| e.to_string())?;
    Ok((f.name().to_string(), f.is_dir()))
}

/// Trusted: calls `ZipArchive::by_index` and reads the entry with
/// `Read::read_to_end`; the outcome is named `zip_entry_data`.
#[verifier::external_body]
fn zip_entry_bytes(archive: &mut zip::ZipArchive<std::io::Cursor<Vec<u8>>>, i: usize) -> (r: Result<Vec<u8>, String>)
    ensures
        zip_archive_bytes(*final(archive)) == zip_archive_bytes(*old(archive)),
        match r {
            Ok(d) => zip_entry_data(zip_archive_bytes(*old(archive)), i as int) == Ok::<Seq<u8>, Seq<char>>(d@),
            Err(e) => zip_entry_data(zip_archive_bytes(*old(archive)), i as int) == Err::<Seq<u8>, Seq<char>>(e@),
        },
{
    let mut f = archive.by_index(i).map_err(|e| e.to_string())?;
    let mut buf: Vec<u8> = Vec::new();
    std::io::Read::read_to_end(&mut f, &mut buf).map_err(|e| e.to_string())?;
    Ok(buf)
}

/// The views of a list of optional strings.
pub open spec fn opt_texts(v: Seq<Option<String>>) -> Seq<Option<Seq<char>>> {
    v.map_values(|o: Option<String>| opt_text(o))
}

/// Trusted: calls `std::path::Path::components` and keeps the text of each
/// `Component::Normal`, `None` for the other variants; the result is named
/// `path_parts`.
#[verifier::external_body]
fn path_components(text: &str) -> (r: Vec<Option<String>>)
    ensures
        opt_texts(r@) == path_parts(text@),
{
    std::path::Path::new(text).components().map(|c| match c {
        std::path::Component::Normal(s) => Some(s.to_string_lossy().to_string()),
        _ => None,
    }).collect()
}

/// The plain names among the parts, in order.
pub open spec fn named_parts(p: Seq<Option<Seq<char>>>) -> Seq<Seq<char>>
    decreases p.len(),
{
    if p.len() == 0 {
        Seq::empty()
    } else {
        let prev = named_parts(p.drop_last());
        match p.last() {
            Some(s) => prev.push(s),
            None => prev,
        }
    }
}

/// The components of an archive entry's name.
fn entry_components(name: &str) -> (r: Vec<EntryComponent>)
    ensures
        normal_names(r@) == named_parts(path_parts(name@)),
{
    let parts = path_components(name);
    let n = parts.len();
    let mut out: Vec<EntryComponent> = Vec::new();
    let mut i: usize = 0;
    let mut rest = parts;
    let ghost all = rest@;
    while i < n
        invariant
            n == all.len(),
            i <= n,
            opt_texts(all) == path_parts(name@),
            rest@ == all.skip(i as int),
            normal_names(out@) == named_parts(opt_texts(all.take(i as int))),
        decreases n - i,
    {
        assert(rest@[0] == all[i as int]);
        let ghost before = out@;
        let part = rest.remove(0);
        assert(opt_texts(all.take(i + 1)).drop_last() =~= opt_texts(all.take(i as int)));
        assert(opt_texts(all.take(i + 1)).last() == opt_text(all[i as int]));
        match part {
            Some(s) => {
                out.push(EntryComponent::Normal(s));
                assert(out@.drop_last() =~= before);
                assert(normal_names(out@) == normal_names(before).push(all[i as int]->0@));
            },
            None => {
                out.push(EntryComponent::Other);
                assert(out@.drop_last() =~= before);
                assert(normal_names(out@) == normal_names(before));
            },
        }
        assert(rest@ =~= all.skip(i + 1));
        i = i + 1;
    }
    assert(all.take(n as int) == all);
    out
}

/// What one entry of an archive becomes.
pub enum ZipStep {
    /// A folder, at these names below the package folder.
    Directory(Vec<String>),
    /// A file, at these names below the package folder, with its bytes.
    File(Vec<String>, Vec<u8>),
    /// The unpacking stops with this message.
    Fail(String),
}

/// Opens an archive held in memory (`extract_zip`): the archive and its
/// number of entries, or the failure `无法解析压缩包: ..`.
pub fn open_zip(bytes: Vec<u8>) -> (r: Result<(zip::ZipArchive<std::io::Cursor<Vec<u8>>>, usize), String>)
    ensures
        match zip_opening(bytes@) {
            Err(e) => r is Err && r->Err_0@ == "无法解析压缩包: "@ + e,
            Ok(_) => r is Ok && zip_archive_bytes(r->Ok_0.0) == bytes@ && r->Ok_0.1 == zip_entry_count(
                bytes@,
            ),
        },
{
    match zip_open(bytes) {
        Ok(a) => {
            let n = zip_len(&a);
            Ok((a, n))
        },
        Err(e) => Err(concat("无法解析压缩包: ", e.as_str())),
    }
}

/// What entry `i` of an archive of `bytes` becomes: a failure when the entry
/// cannot be read or its name holds no plain name; else a folder for a
/// directory entry, or a file with the entry's bytes (a failure when they
/// cannot be read).  Only the plain names of the entry's path are kept, so
/// that nothing lands outside the package folder.
pub open spec fn entry_outcome(bytes: Seq<u8>, i: int, r: ZipStep) -> bool {
    match zip_entry_info(bytes, i) {
        Err(e) => r matches ZipStep::Fail(m) && m@ == "读取压缩包条目失败: "@ + e,
        Ok((name, is_dir)) => {
            let names = named_parts(path_parts(name));
            if names.len() == 0 {
                r matches ZipStep::Fail(m) && m@ == "无效的压缩包路径"@
            } else if is_dir {
                r matches ZipStep::Directory(p) && texts(p@) == names
            } else {
                match zip_entry_data(bytes, i) {
                    Err(e) => r matches ZipStep::Fail(m) && m@ == "读取压缩内容失败: "@ + e,
                    Ok(d) => r matches ZipStep::File(p, data) && texts(p@) == names && data@ == d,
                }
            }
        },
    }
}

/// What entry `i` of an opened archive becomes (one turn of `extract_zip`).
pub fn zip_entry_step(archive: &mut zip::ZipArchive<std::io::Cursor<Vec<u8>>>, i: usize) -> (r: ZipStep)
    ensures
        zip_archive_bytes(*final(archive)) == zip_archive_bytes(*old(archive)),
        entry_outcome(zip_archive_bytes(*old(archive)), i as int, r),
{
    let (name, is_dir) = match zip_entry(archive, i) {
        Ok(x) => x,
        Err(e) => {
            return ZipStep::Fail(concat("读取压缩包条目失败: ", e.as_str()));
        },
    };
    let comps = entry_components(name.as_str());
    let names = match sanitize_entry_path(comps) {
        Ok(n) => n,
        Err(m) => {
            return ZipStep::Fail(m);
        },
    };
    if is_dir {
        return ZipStep::Directory(names);
    }
    match zip_entry_bytes(archive, i) {
        Ok(d) => ZipStep::File(names, d),
        Err(e) => ZipStep::Fail(concat("读取压缩内容失败: ", e.as_str())),
    }
}

} // verus!
