//! Marking the emulator's Android system image (`system.vdi`) as the
//! overseas edition, and undoing that from the record kept beside it.
use vstd::prelude::*;

use crate::decimal::decimal;
use vstd::string::StringSliceAdditionalSpecFns;
use crate::download::unsigned_text;
use crate::paths::{path5, PathSpec};
use crate::text::{concat, owned, same_text};
use crate::mumu_info::{first_is, starts_with_char};

verus! {

/// The build-property block of the stock system image.
pub const OVERSEAS_ORIGINAL: &'static str = "####################################\n# from generate-common-build-props\n# These properties identify this partition image.\n####################################";

/// The same block with the overseas property added.
pub const OVERSEAS_REPLACEMENT: &'static str = "####################################\n# from generate-common-build-props\n# These properties identify this partition image.\n#####\nro.build.version.overseas=true";

/// The bytes searched for in the image.
pub open spec fn original_marker() -> Seq<u8> {
    OVERSEAS_ORIGINAL.spec_bytes()
}

/// The bytes written in their place.
pub open spec fn replacement_marker() -> Seq<u8> {
    OVERSEAS_REPLACEMENT.spec_bytes()
}

fn original_marker_bytes() -> (r: Vec<u8>)
    ensures
        r@ == original_marker(),
{
    vstd::slice::slice_to_vec(OVERSEAS_ORIGINAL.as_bytes())
}

fn replacement_marker_bytes() -> (r: Vec<u8>)
    ensures
        r@ == replacement_marker(),
{
    vstd::slice::slice_to_vec(OVERSEAS_REPLACEMENT.as_bytes())
}

// ---------------------------------------------------------------------------
// Digests and encodings
// ---------------------------------------------------------------------------

/// The MD5 digest of some bytes (what `md5::compute` returns).
pub uninterp spec fn md5_digest(data: Seq<u8>) -> Seq<u8>;

/// Trusted: calls `md5::compute` and returns the 16 digest bytes.  The
/// digest is named `md5_digest`; the crate's `Digest` holds 16 bytes.
#[verifier::external_body]
fn md5_bytes(data: &[u8]) -> (r: Vec<u8>)
    ensures
        r@ == md5_digest(data@),
        r@.len() == 16,
{
    md5::compute(data).0.to_vec()
}

/// The lowercase hex digit of a value below 16.
pub open spec fn hex_digit(v: nat) -> char {
    if v < 10 {
        (48 + v) as char
    } else {
        (87 + v) as char
    }
}

/// Two lowercase hex digits per byte, as `{:02x}` prints each byte.
pub open spec fn lower_hex(b: Seq<u8>) -> Seq<char>
    decreases b.len(),
{
    if b.len() == 0 {
        Seq::empty()
    } else {
        lower_hex(b.drop_last()) + seq![hex_digit((b.last() / 16) as nat), hex_digit((b.last() % 16) as nat)]
    }
}

fn hex_digit_exec(v: u8) -> (c: char)
    requires
        v < 16,
    ensures
        c == hex_digit(v as nat),
{
    if v < 10 {
        (48 + v) as char
    } else {
        (87 + v) as char
    }
}

/// The lowercase hex text of some bytes.
pub fn to_lower_hex(b: &[u8]) -> (r: String)
    ensures
        r@ == lower_hex(b@),
{
    let n = b.len();
    let mut s = String::new();
    for i in 0..n
        invariant
            n == b@.len(),
            s@ == lower_hex(b@.take(i as int)),
    {
        assert(b@.take(i + 1).drop_last() == b@.take(i as int));
        let x = b[i];
        crate::text::push_char(&mut s, hex_digit_exec(x / 16));
        crate::text::push_char(&mut s, hex_digit_exec(x % 16));
        assert(s@ =~= lower_hex(b@.take(i + 1)));
    }
    assert(b@.take(n as int) == b@);
    s
}

/// The MD5 of some bytes as 32 lowercase hex digits (`{:x}` of the digest).
pub fn md5_hex(data: &[u8]) -> (r: String)
    ensures
        r@ == lower_hex(md5_digest(data@)),
{
    let d = md5_bytes(data);
    to_lower_hex(d.as_slice())
}

/// The character of a 6-bit value in the standard Base64 alphabet
/// (`A`-`Z`, `a`-`z`, `0`-`9`, `+`, `/`).
pub open spec fn b64_char(v: int) -> char {
    if v < 26 {
        (65 + v) as char
    } else if v < 52 {
        (71 + v) as char
    } else if v < 62 {
        (v - 4) as char
    } else if v == 62 {
        '+'
    } else {
        '/'
    }
}

/// The standard Base64 text of some bytes, with `=` padding (what the
/// `base64` crate's `STANDARD` engine encodes): each group of three bytes
/// gives four characters; a last group of one or two bytes gives two or
/// three characters and the padding.
pub open spec fn base64_text(data: Seq<u8>) -> Seq<char>
    decreases data.len(),
{
    let x: int = if data.len() > 0 { data[0] as int } else { 0 };
    let y: int = if data.len() > 1 { data[1] as int } else { 0 };
    let z: int = if data.len() > 2 { data[2] as int } else { 0 };
    if data.len() == 0 {
        Seq::empty()
    } else if data.len() == 1 {
        seq![b64_char(x / 4), b64_char((x % 4) * 16), '=', '=']
    } else if data.len() == 2 {
        seq![b64_char(x / 4), b64_char((x % 4) * 16 + y / 16), b64_char((y % 16) * 4), '=']
    } else {
        seq![
            b64_char(x / 4),
            b64_char((x % 4) * 16 + y / 16),
            b64_char((y % 16) * 4 + z / 64),
            b64_char(z % 64),
        ] + base64_text(data.skip(3))
    }
}

/// What the `STANDARD` engine decodes from a text: the bytes, or the text of
/// the decode error.
pub uninterp spec fn base64_bytes(text: Seq<char>) -> Result<Seq<u8>, Seq<char>>;

/// Trusted: calls `Engine::encode` of `base64::engine::general_purpose::STANDARD`,
/// whose result is the padded standard Base64 text `base64_text`.
#[verifier::external_body]
fn base64_encode(data: &[u8]) -> (r: String)
    ensures
        r@ == base64_text(data@),
{
    base64::Engine::encode(&base64::engine::general_purpose::STANDARD, data)
}

/// Trusted: calls `Engine::decode` of `base64::engine::general_purpose::STANDARD`,
/// turning an error into its text.  The result is named `base64_bytes`;
/// decoding what the same engine encoded gives the bytes back.
#[verifier::external_body]
fn base64_decode(text: &str) -> (r: Result<Vec<u8>, String>)
    ensures
        match r {
            Ok(v) => base64_bytes(text@) == Ok::<Seq<u8>, Seq<char>>(v@),
            Err(e) => base64_bytes(text@) == Err::<Seq<u8>, Seq<char>>(e@),
        },
        forall|d: Seq<u8>| #[trigger] base64_text(d) == text@ ==> r is Ok && r->Ok_0@ == d,
{
    base64::Engine::decode(&base64::engine::general_purpose::STANDARD, text).map_err(|e| e.to_string())
}

// ---------------------------------------------------------------------------
// Patching
// ---------------------------------------------------------------------------

/// `n` occurs in `h` at `i`.
pub open spec fn bytes_at(h: Seq<u8>, n: Seq<u8>, i: int) -> bool {
    0 <= i && i + n.len() <= h.len() && h.subrange(i, i + n.len()) == n
}

/// The first index at which `n` occurs in `h`.
#[verifier::opaque]
pub open spec fn first_occurrence(h: Seq<u8>, n: Seq<u8>) -> Option<int> {
    if exists|i: int| bytes_at(h, n, i) {
        Some(choose|i: int| bytes_at(h, n, i) && forall|j: int| 0 <= j < i ==> !bytes_at(h, n, j))
    } else {
        None
    }
}

/// `c` with the `len` bytes at `start` replaced by `with`.
pub open spec fn splice(c: Seq<u8>, start: int, len: int, with: Seq<u8>) -> Seq<u8> {
    c.take(start) + with + c.skip(start + len)
}

proof fn lemma_first_occurrence(h: Seq<u8>, n: Seq<u8>, i: int)
    requires
        bytes_at(h, n, i),
        forall|j: int| 0 <= j < i ==> !bytes_at(h, n, j),
    ensures
        first_occurrence(h, n) == Some(i),
{
    reveal(first_occurrence);
    let k = choose|k: int| bytes_at(h, n, k) && forall|j: int| 0 <= j < k ==> !bytes_at(h, n, j);
    assert(bytes_at(h, n, k) && forall|j: int| 0 <= j < k ==> !bytes_at(h, n, j));
    if k < i {
        assert(!bytes_at(h, n, k));
    }
    if i < k {
        assert(!bytes_at(h, n, i));
    }
}

fn bytes_match_at(h: &[u8], n: &[u8], i: usize) -> (r: bool)
    ensures
        r == bytes_at(h@, n@, i as int),
{
    if i > h.len() || n.len() > h.len() - i {
        return false;
    }
    let m = n.len();
    for k in 0..m
        invariant
            m == n@.len(),
            i + m <= h@.len(),
            h@.len() == h.len(),
            forall|j: int| 0 <= j < k ==> h@[i + j] == n@[j],
    {
        if h[i + k] != n[k] {
            assert(h@.subrange(i as int, i + m)[k as int] != n@[k as int]);
            return false;
        }
    }
    assert(h@.subrange(i as int, i + m) =~= n@);
    true
}

/// The first index at which `n` occurs in `h`.
pub fn find_bytes(h: &[u8], n: &[u8]) -> (r: Option<usize>)
    ensures
        r matches Some(k) ==> bytes_at(h@, n@, k as int) && first_occurrence(h@, n@) == Some(k as int),
        r is None ==> first_occurrence(h@, n@) is None,
{
    reveal(first_occurrence);
    if n.len() > h.len() {
        assert(!exists|i: int| bytes_at(h@, n@, i));
        return None;
    }
    let last = h.len() - n.len();
    let mut i: usize = 0;
    loop
        invariant
            last + n@.len() == h@.len(),
            i <= last,
            forall|j: int| 0 <= j < i ==> !bytes_at(h@, n@, j),
        ensures
            forall|j: int| 0 <= j <= last ==> !bytes_at(h@, n@, j),
        decreases last - i,
    {
        if bytes_match_at(h, n, i) {
            proof {
                lemma_first_occurrence(h@, n@, i as int);
            }
            return Some(i);
        }
        if i >= last {
            break;
        }
        i = i + 1;
    }
    assert(!exists|j: int| bytes_at(h@, n@, j));
    None
}

fn splice_bytes(c: &[u8], start: usize, len: usize, with: &[u8]) -> (r: Vec<u8>)
    requires
        start + len <= c@.len(),
    ensures
        r@ == splice(c@, start as int, len as int, with@),
{
    let mut r: Vec<u8> = Vec::new();
    for i in 0..start
        invariant
            start + len <= c@.len(),
            r@ == c@.take(i as int),
    {
        r.push(c[i]);
        assert(c@.take(i + 1) == c@.take(i as int).push(c@[i as int]));
    }
    let w = with.len();
    for i in 0..w
        invariant
            w == with@.len(),
            r@ == c@.take(start as int) + with@.take(i as int),
    {
        r.push(with[i]);
        assert(with@.take(i + 1) == with@.take(i as int).push(with@[i as int]));
    }
    assert(with@.take(w as int) == with@);
    let n = c.len();
    let from = start + len;
    for i in from..n
        invariant
            from <= n,
            n == c@.len(),
            from == start + len,
            r@ == c@.take(start as int) + with@ + c@.subrange(from as int, i as int),
    {
        r.push(c[i]);
        assert(c@.subrange(from as int, i + 1) == c@.subrange(from as int, i as int).push(c@[i as int]));
    }
    assert(c@.subrange(from as int, n as int) == c@.skip(from as int));
    r
}

/// A marked image and what the record beside it keeps.
pub struct VdiPatch {
    pub start_pos: usize,
    pub new_content: Vec<u8>,
    pub original_data: String,
    pub md5_hash: String,
}

/// What patching `content` gives: an error when the `original` block is not
/// there; else the content with its first `original` block replaced, the
/// block's position, the removed bytes in Base64 and the MD5 of the new
/// content.
pub open spec fn patch_result(content: Seq<u8>, original: Seq<u8>, replacement: Seq<u8>, r: Result<VdiPatch, String>) -> bool {
    &&& first_occurrence(content, original) is None ==> r is Err && r->Err_0@ == "未找到匹配内容"@
    &&& first_occurrence(content, original) matches Some(i) ==> r is Ok && {
        let p = r->Ok_0;
        &&& p.start_pos == i
        &&& p.new_content@ == splice(content, i, original.len() as int, replacement)
        &&& p.original_data@ == base64_text(content.subrange(i, i + original.len()))
        &&& p.md5_hash@ == lower_hex(md5_digest(p.new_content@))
    }
}

/// What restoring `content` from a patch record gives: the Base64 text is
/// decoded, the content must have the recorded MD5, and the replacement
/// block at the recorded position must lie inside it; then the decoded
/// bytes take the block's place.
pub open spec fn restore_result(
    content: Seq<u8>,
    replacement: Seq<u8>,
    start_pos: usize,
    original_data: Seq<char>,
    md5_hash: Seq<char>,
    r: Result<Vec<u8>, String>,
) -> bool {
    let md5_ok = lower_hex(md5_digest(content)) == md5_hash;
    let in_bounds = start_pos < content.len() && start_pos + replacement.len() <= content.len();
    &&& base64_bytes(original_data) matches Err(e) ==> r is Err && r->Err_0@ == "解码原始字节失败: "@ + e
    &&& base64_bytes(original_data) is Ok && !md5_ok ==> r is Err && r->Err_0@ == "文件已被其他程序修改，无法还原"@
    &&& base64_bytes(original_data) is Ok && md5_ok && !in_bounds ==> r is Err && r->Err_0@
        == bad_position_text(start_pos as nat, content.len())
    &&& base64_bytes(original_data) is Ok && md5_ok && in_bounds ==> r is Ok && r->Ok_0@ == splice(
        content,
        start_pos as int,
        replacement.len() as int,
        base64_bytes(original_data)->Ok_0,
    )
    &&& forall|d: Seq<u8>|
        #[trigger] base64_text(d) == original_data && md5_ok && in_bounds ==> r is Ok && r->Ok_0@
            == splice(content, start_pos as int, replacement.len() as int, d)
}

/// Replaces the first `original` block of `content` by `replacement`: the
/// new content, where the block started, the removed bytes in Base64 and the
/// MD5 of the new content.  Fails when the block is not there.
pub fn patch_image(content: &[u8], original: &[u8], replacement: &[u8]) -> (r: Result<VdiPatch, String>)
    requires
        original@.len() > 0,
    ensures
        patch_result(content@, original@, replacement@, r),
{
    let pos = match find_bytes(content, original) {
        Some(p) => p,
        None => {
            return Err(owned("未找到匹配内容"));
        },
    };
    let clen = content.len();
    assert(pos + original@.len() <= clen);
    let end = pos + original.len();
    let mut segment: Vec<u8> = Vec::new();
    for i in pos..end
        invariant
            end == pos + original@.len(),
            end <= content@.len(),
            segment@ == content@.subrange(pos as int, i as int),
    {
        segment.push(content[i]);
        assert(content@.subrange(pos as int, i + 1) == content@.subrange(pos as int, i as int).push(
            content@[i as int],
        ));
    }
    let new_content = splice_bytes(content, pos, original.len(), replacement);
    let original_data = base64_encode(segment.as_slice());
    let md5_hash = md5_hex(new_content.as_slice());
    Ok(VdiPatch { start_pos: pos, new_content, original_data, md5_hash })
}

/// The failure text for a recorded position outside the image.
pub open spec fn bad_position_text(start: nat, len: nat) -> Seq<char> {
    "记录位置无效: 位置"@ + decimal(start) + " | 文件长度"@ + decimal(len)
}

/// Restores an image from the record of its patch: the Base64 text is
/// decoded, the image must still have the recorded MD5, and the replacement
/// block at the recorded position must lie inside it; then the block is put
/// back.
pub fn restore_image(
    content: &[u8],
    replacement: &[u8],
    start_pos: usize,
    original_data: &str,
    md5_hash: &str,
) -> (r: Result<Vec<u8>, String>)
    ensures
        restore_result(content@, replacement@, start_pos, original_data@, md5_hash@, r),
{
    let original = match base64_decode(original_data) {
        Ok(b) => b,
        Err(e) => {
            return Err(concat("解码原始字节失败: ", e.as_str()));
        },
    };
    let current = md5_hex(content);
    if !same_text(current.as_str(), md5_hash) {
        return Err(owned("文件已被其他程序修改，无法还原"));
    }
    if start_pos >= content.len() || replacement.len() > content.len() - start_pos {
        let a = unsigned_text(start_pos as u64);
        let b = unsigned_text(content.len() as u64);
        let mut m = owned("记录位置无效: 位置");
        m.append(a.as_str());
        m.append(" | 文件长度");
        m.append(b.as_str());
        return Err(m);
    }
    Ok(splice_bytes(content, start_pos, replacement.len(), original.as_slice()))
}

/// Marks a system image as the overseas edition.
pub fn patch_system_vdi(content: &[u8]) -> (r: Result<VdiPatch, String>)
    ensures
        patch_result(content@, original_marker(), replacement_marker(), r),
{
    let original = original_marker_bytes();
    let replacement = replacement_marker_bytes();
    proof {
        marker_lengths();
    }
    patch_image(content, original.as_slice(), replacement.as_slice())
}

/// Undoes the overseas marking of a system image from its record.
pub fn restore_system_vdi(content: &[u8], start_pos: usize, original_data: &str, md5_hash: &str) -> (r: Result<Vec<u8>, String>)
    ensures
        restore_result(content@, replacement_marker(), start_pos, original_data@, md5_hash@, r),
{
    let replacement = replacement_marker_bytes();
    restore_image(content, replacement.as_slice(), start_pos, original_data, md5_hash)
}

proof fn marker_lengths()
    ensures
        original_marker().len() > 0,
        replacement_marker().len() > 0,
{
    reveal_strlit("####################################\n# from generate-common-build-props\n# These properties identify this partition image.\n####################################");
    reveal_strlit("####################################\n# from generate-common-build-props\n# These properties identify this partition image.\n#####\nro.build.version.overseas=true");
    assert(OVERSEAS_ORIGINAL@.len() > 0);
    assert(OVERSEAS_REPLACEMENT@.len() > 0);
}

proof fn lemma_first_occurrence_at(h: Seq<u8>, n: Seq<u8>)
    requires
        first_occurrence(h, n) is Some,
    ensures
        bytes_at(h, n, first_occurrence(h, n)->0),
{
    reveal(first_occurrence);
    let k = choose|i: int| bytes_at(h, n, i);
    assert(bytes_at(h, n, k));
    lemma_exists_first(h, n, k);
}

proof fn lemma_exists_first(h: Seq<u8>, n: Seq<u8>, k: int)
    requires
        bytes_at(h, n, k),
    ensures
        exists|i: int| bytes_at(h, n, i) && forall|j: int| 0 <= j < i ==> !bytes_at(h, n, j),
    decreases k,
{
    if exists|j: int| 0 <= j < k && bytes_at(h, n, j) {
        let j = choose|j: int| 0 <= j < k && bytes_at(h, n, j);
        lemma_exists_first(h, n, j);
    } else {
        assert(bytes_at(h, n, k) && forall|j: int| 0 <= j < k ==> !bytes_at(h, n, j));
    }
}

/// Restoring an image from the record of its patch gives back exactly the
/// image as it was before the patch (for a non-empty replacement block).
pub proof fn law_restore_undoes_patch(
    content: Seq<u8>,
    original: Seq<u8>,
    replacement: Seq<u8>,
    patched: Result<VdiPatch, String>,
    restored: Result<Vec<u8>, String>,
)
    requires
        replacement.len() > 0,
        patch_result(content, original, replacement, patched),
        patched is Ok,
        restore_result(
            patched->Ok_0.new_content@,
            replacement,
            patched->Ok_0.start_pos,
            patched->Ok_0.original_data@,
            patched->Ok_0.md5_hash@,
            restored,
        ),
    ensures
        restored is Ok && restored->Ok_0@ == content,
{
    let p = patched->Ok_0;
    assert(first_occurrence(content, original) is Some);
    lemma_first_occurrence_at(content, original);
    let i = first_occurrence(content, original)->0;
    let seg = content.subrange(i, i + original.len());
    let new = p.new_content@;
    assert(new == content.take(i) + replacement + content.skip(i + original.len()));
    assert(new.len() == content.len() - original.len() + replacement.len());
    assert(base64_text(seg) == p.original_data@);
    assert(splice(new, i, replacement.len() as int, seg) =~= content);
}

/// Undoing the overseas marking of a system image from the record the
/// marking wrote gives back exactly the image as it was before.
pub proof fn law_overseas_marking_undone(
    content: Seq<u8>,
    patched: Result<VdiPatch, String>,
    restored: Result<Vec<u8>, String>,
)
    requires
        patch_result(content, original_marker(), replacement_marker(), patched),
        patched is Ok,
        restore_result(
            patched->Ok_0.new_content@,
            replacement_marker(),
            patched->Ok_0.start_pos,
            patched->Ok_0.original_data@,
            patched->Ok_0.md5_hash@,
            restored,
        ),
    ensures
        restored is Ok && restored->Ok_0@ == content,
{
    marker_lengths();
    law_restore_undoes_patch(content, original_marker(), replacement_marker(), patched, restored);
}

} // verus!
