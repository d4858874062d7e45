//! `freight package` and `freight installer`: archive names, the zip archive
//! written for Windows targets (stored entries, CRC-32), and the launcher
//! script that lets a bundled binary find its bundled libraries.

use vstd::prelude::*;
use crate::install::{
    file_name_of, file_name_of_exec, join_path, join_path_exec, path_segments, path_segments_exec,
    path_starts_with,
};
use crate::template::str_views;
use crate::text::{
    chars_of, concat, ends_with, eq_chars, eq_str, find, find_char_from, find_char_from_exec, find_from_exec,
    is_ws, lemma_find_b, lemma_find_char_from_b, lemma_trim_len_b, trim_start, owned, slice_copy, starts_with, starts_with_str, string_of,
    trim, trim_chars, trim_range,
};
use crate::quick_kind::strip_cr;

verus! {

broadcast use lemma_find_char_from_b, lemma_find_b, lemma_trim_len_b;

// ── Archive names ─────────────────────────────────────────────────────────────

/// `<name>-<version>-<arch>-<os>`, with `-installer` for an installer bundle.
pub open spec fn package_stem_spec(
    name: Seq<char>,
    version: Seq<char>,
    arch: Seq<char>,
    os: Seq<char>,
    installer: bool,
) -> Seq<char> {
    let s = name + "-"@ + version + "-"@ + arch + "-"@ + os;
    if installer {
        s + "-installer"@
    } else {
        s
    }
}

/// The archive's file name: a zip for Windows targets, else a gzipped tar.
pub open spec fn archive_name_spec(stem: Seq<char>, os: Seq<char>) -> Seq<char> {
    if os == "windows"@ {
        stem + ".zip"@
    } else {
        stem + ".tar.gz"@
    }
}

fn cat(a: &str, b: &str) -> (r: String)
    ensures
        r@ == a@ + b@,
{
    string_of(&concat(&chars_of(a), &chars_of(b)))
}

/// The stem of a package's archive and staging directory.
pub fn package_stem(name: &str, version: &str, arch: &str, os: &str, installer: bool) -> (r: String)
    ensures
        r@ == package_stem_spec(name@, version@, arch@, os@, installer),
{
    let mut s = cat(name, "-");
    s = cat(s.as_str(), version);
    s = cat(s.as_str(), "-");
    s = cat(s.as_str(), arch);
    s = cat(s.as_str(), "-");
    s = cat(s.as_str(), os);
    if installer {
        s = cat(s.as_str(), "-installer");
    }
    s
}

/// The file name of a package's archive.
pub fn archive_name(stem: &str, os: &str) -> (r: String)
    ensures
        r@ == archive_name_spec(stem@, os@),
{
    if eq_str(&chars_of(os), "windows") {
        cat(stem, ".zip")
    } else {
        cat(stem, ".tar.gz")
    }
}

/// The directory that packages are written to: `<project>/target/package`.
pub fn package_dir(project_dir: &str) -> (r: String)
    ensures
        r@ == join_path(join_path(project_dir@, "target"@), "package"@),
{
    join_path_exec(join_path_exec(project_dir, "target").as_str(), "package")
}

/// The arguments of the `tar` call that writes `archive` from `parent/stem`.
pub fn tar_args(archive: &str, parent: &str, stem: &str) -> (r: Vec<String>)
    ensures
        str_views(r@) == seq!["-czf"@, archive@, "-C"@, parent@, stem@],
{
    let mut v: Vec<String> = Vec::new();
    v.push(owned("-czf"));
    v.push(owned(archive));
    v.push(owned("-C"));
    v.push(owned(parent));
    v.push(owned(stem));
    assert(str_views(v@) =~= seq!["-czf"@, archive@, "-C"@, parent@, stem@]);
    v
}

/// The name of an archive entry: the file's path below the staging
/// directory, its components joined with `/`, beneath `stem/`.
pub open spec fn entry_name_spec(stem: Seq<char>, components: Seq<Seq<char>>) -> Seq<char> {
    stem + "/"@ + join_slash(components)
}

pub open spec fn join_slash(cs: Seq<Seq<char>>) -> Seq<char>
    decreases cs.len(),
{
    if cs.len() == 0 {
        seq![]
    } else if cs.len() == 1 {
        cs[0]
    } else {
        join_slash(cs.drop_last()) + "/"@ + cs.last()
    }
}

/// The name of an archive entry.
pub fn entry_name(stem: &str, components: &Vec<String>) -> (r: String)
    ensures
        r@ == entry_name_spec(stem@, str_views(components@)),
{
    let ghost cv = str_views(components@);
    let mut rel: Vec<char> = Vec::new();
    let mut i: usize = 0;
    assert(cv.take(0) =~= Seq::<Seq<char>>::empty());
    while i < components.len()
        invariant
            i <= components.len(),
            cv == str_views(components@),
            rel@ == join_slash(cv.take(i as int)),
        decreases components.len() - i,
    {
        assert(cv.take(i + 1).drop_last() =~= cv.take(i as int));
        assert(cv[i as int] == components@[i as int]@);
        if i == 0 {
            assert(cv.take(1) =~= seq![cv[0]]);
            rel = chars_of(components[i].as_str());
        } else {
            rel = concat(&concat(&rel, &chars_of("/")), &chars_of(components[i].as_str()));
        }
        i = i + 1;
    }
    assert(cv.take(i as int) =~= cv);
    string_of(&concat(&concat(&chars_of(stem), &chars_of("/")), &rel))
}

// ── CRC-32 ────────────────────────────────────────────────────────────────────

/// One bit step of the reflected CRC-32 (polynomial `0xedb88320`).
pub open spec fn crc_bit(c: u32) -> u32 {
    if c & 1 == 1 {
        (c >> 1) ^ 0xedb8_8320u32
    } else {
        c >> 1
    }
}

pub open spec fn crc_bits(c: u32, n: nat) -> u32
    decreases n,
{
    if n == 0 {
        c
    } else {
        crc_bits(crc_bit(c), (n - 1) as nat)
    }
}

/// The CRC register after `bs`, starting from `c`.
pub open spec fn crc_update(c: u32, bs: Seq<u8>) -> u32
    decreases bs.len(),
{
    if bs.len() == 0 {
        c
    } else {
        crc_bits(crc_update(c, bs.drop_last()) ^ (bs.last() as u32), 8)
    }
}

/// The CRC-32 of `bs` (as zip archives record it).
pub open spec fn crc32_spec(bs: Seq<u8>) -> u32 {
    !crc_update(0xffff_ffffu32, bs)
}

/// The CRC-32 of `bytes`.
pub fn crc32(bytes: &[u8]) -> (r: u32)
    ensures
        r == crc32_spec(bytes@),
{
    let mut crc: u32 = 0xffff_ffff;
    let mut i: usize = 0;
    assert(bytes@.take(0) =~= Seq::<u8>::empty());
    while i < bytes.len()
        invariant
            i <= bytes.len(),
            crc == crc_update(0xffff_ffffu32, bytes@.take(i as int)),
        decreases bytes.len() - i,
    {
        assert(bytes@.take(i + 1).drop_last() =~= bytes@.take(i as int));
        crc = crc ^ (bytes[i] as u32);
        let ghost start = crc;
        let mut k: u32 = 0;
        while k < 8
            invariant
                k <= 8,
                crc_bits(start, 8) == crc_bits(crc, (8 - k) as nat),
            decreases 8 - k,
        {
            crc = if crc & 1 == 1 {
                (crc >> 1) ^ 0xedb8_8320
            } else {
                crc >> 1
            };
            k = k + 1;
        }
        i = i + 1;
    }
    assert(bytes@.take(i as int) =~= bytes@);
    !crc
}


// ── Zip archives ──────────────────────────────────────────────────────────────

/// `n` as two little-endian bytes.
pub open spec fn le16(n: u16) -> Seq<u8> {
    seq![(n & 0xff) as u8, (n >> 8) as u8]
}

/// `n` as four little-endian bytes.
pub open spec fn le32(n: u32) -> Seq<u8> {
    seq![(n & 0xff) as u8, ((n >> 8) & 0xff) as u8, ((n >> 16) & 0xff) as u8, (n >> 24) as u8]
}

/// The local file header of a stored (uncompressed) entry, then its name and
/// data.
pub open spec fn local_record(name: Seq<u8>, data: Seq<u8>) -> Seq<u8> {
    le32(0x0403_4b50) + le16(20) + le16(0) + le16(0) + le16(0) + le16(0) + le32(crc32_spec(data))
        + le32(data.len() as u32) + le32(data.len() as u32) + le16(name.len() as u16) + le16(0)
        + name + data
}

/// The central directory record of an entry whose local header is at
/// `offset`.
pub open spec fn central_record(name: Seq<u8>, data: Seq<u8>, offset: u32) -> Seq<u8> {
    le32(0x0201_4b50) + le16(20) + le16(20) + le16(0) + le16(0) + le16(0) + le16(0) + le32(
        crc32_spec(data),
    ) + le32(data.len() as u32) + le32(data.len() as u32) + le16(name.len() as u16) + le16(0)
        + le16(0) + le16(0) + le16(0) + le32(0) + le32(offset) + name
}

/// The local records of all entries, in order.
pub open spec fn local_records(es: Seq<(Seq<u8>, Seq<u8>)>) -> Seq<u8>
    decreases es.len(),
{
    if es.len() == 0 {
        seq![]
    } else {
        local_records(es.drop_last()) + local_record(es.last().0, es.last().1)
    }
}

/// The central directory: one record per entry, each pointing at its local
/// record.
pub open spec fn central_records(es: Seq<(Seq<u8>, Seq<u8>)>) -> Seq<u8>
    decreases es.len(),
{
    if es.len() == 0 {
        seq![]
    } else {
        central_records(es.drop_last()) + central_record(
            es.last().0,
            es.last().1,
            local_records(es.drop_last()).len() as u32,
        )
    }
}

/// The end of central directory record.
pub open spec fn end_record(count: nat, size: nat, start: nat) -> Seq<u8> {
    le32(0x0605_4b50) + le16(0) + le16(0) + le16(count as u16) + le16(count as u16) + le32(
        size as u32,
    ) + le32(start as u32) + le16(0)
}

/// A zip archive of stored entries, in the given order.
pub open spec fn zip_layout(es: Seq<(Seq<u8>, Seq<u8>)>) -> Seq<u8> {
    local_records(es) + central_records(es) + end_record(
        es.len(),
        central_records(es).len(),
        local_records(es).len(),
    )
}

/// Byte-wise lexicographic order (the order of `str` and of `[u8]`): -1, 0
/// or 1.
pub open spec fn bytes_order(a: Seq<u8>, b: Seq<u8>) -> int
    decreases a.len(),
{
    if a.len() == 0 {
        if b.len() == 0 {
            0
        } else {
            -1
        }
    } else if b.len() == 0 {
        1
    } else if a[0] < b[0] {
        -1
    } else if a[0] > b[0] {
        1
    } else {
        bytes_order(a.drop_first(), b.drop_first())
    }
}

/// `e` inserted into `s` after every entry whose name is not greater.
pub open spec fn insert_entry(s: Seq<(Seq<u8>, Seq<u8>)>, e: (Seq<u8>, Seq<u8>)) -> Seq<
    (Seq<u8>, Seq<u8>),
>
    decreases s.len(),
{
    if s.len() == 0 {
        seq![e]
    } else if bytes_order(e.0, s.last().0) < 0 {
        insert_entry(s.drop_last(), e).push(s.last())
    } else {
        s.push(e)
    }
}

/// The entries sorted by name, entries with equal names kept in order (a
/// stable sort).
pub open spec fn sort_entries(es: Seq<(Seq<u8>, Seq<u8>)>) -> Seq<(Seq<u8>, Seq<u8>)>
    decreases es.len(),
{
    if es.len() == 0 {
        seq![]
    } else {
        insert_entry(sort_entries(es.drop_last()), es.last())
    }
}

pub open spec fn entry_views(v: Seq<(Vec<u8>, Vec<u8>)>) -> Seq<(Seq<u8>, Seq<u8>)> {
    v.map_values(|e: (Vec<u8>, Vec<u8>)| (e.0@, e.1@))
}

fn bytes_order_exec(a: &Vec<u8>, b: &Vec<u8>) -> (r: i8)
    ensures
        r as int == bytes_order(a@, b@),
{
    let mut i: usize = 0;
    assert(a@.skip(0) =~= a@);
    assert(b@.skip(0) =~= b@);
    while i < a.len() && i < b.len()
        invariant
            i <= a.len(),
            i <= b.len(),
            bytes_order(a@.skip(i as int), b@.skip(i as int)) == bytes_order(a@, b@),
        decreases a.len() - i,
    {
        if a[i] < b[i] {
            return -1;
        } else if a[i] > b[i] {
            return 1;
        }
        assert(a@.skip(i as int).drop_first() =~= a@.skip(i + 1));
        assert(b@.skip(i as int).drop_first() =~= b@.skip(i + 1));
        i = i + 1;
    }
    if i < a.len() {
        1
    } else if i < b.len() {
        -1
    } else {
        0
    }
}

proof fn lemma_insert_entry_at(s: Seq<(Seq<u8>, Seq<u8>)>, e: (Seq<u8>, Seq<u8>), i: int)
    requires
        0 <= i <= s.len(),
        forall|j: int| i <= j < s.len() ==> bytes_order(e.0, #[trigger] s[j].0) < 0,
        i > 0 ==> bytes_order(e.0, s[i - 1].0) >= 0,
    ensures
        insert_entry(s, e) == s.insert(i, e),
    decreases s.len(),
{
    if s.len() == 0 {
        assert(seq![e] =~= s.insert(0, e));
    } else if i == s.len() {
        assert(s.push(e) =~= s.insert(i, e));
    } else {
        let d = s.drop_last();
        assert forall|j: int| i <= j < d.len() implies bytes_order(e.0, #[trigger] d[j].0) < 0 by {
            assert(d[j] == s[j]);
        }
        if i > 0 {
            assert(d[i - 1] == s[i - 1]);
        }
        lemma_insert_entry_at(d, e, i);
        assert(d.insert(i, e).push(s.last()) =~= s.insert(i, e));
    }
}

/// Sorts archive entries by name, stably.
fn sort_entries_exec(es: Vec<(Vec<u8>, Vec<u8>)>) -> (r: Vec<(Vec<u8>, Vec<u8>)>)
    ensures
        entry_views(r@) == sort_entries(entry_views(es@)),
{
    let ghost ev = entry_views(es@);
    let mut out: Vec<(Vec<u8>, Vec<u8>)> = Vec::new();
    let mut rest = es;
    let ghost n = rest.len();
    assert(ev.take(0) =~= Seq::<(Seq<u8>, Seq<u8>)>::empty());
    assert(entry_views(out@) =~= Seq::<(Seq<u8>, Seq<u8>)>::empty());
    while rest.len() > 0
        invariant
            rest.len() <= n,
            n == ev.len(),
            entry_views(rest@) == ev.skip(n - rest.len()),
            entry_views(out@) == sort_entries(ev.take(n - rest.len())),
        decreases rest.len(),
    {
        let ghost k = n - rest.len();
        let ghost old_rest = rest@;
        assert(entry_views(old_rest)[0] == (old_rest[0].0@, old_rest[0].1@));
        assert(ev.skip(k)[0] == ev[k]);
        let e = rest.remove(0);
        assert(rest@ =~= old_rest.remove(0));
        assert forall|j: int| 0 <= j < rest.len() implies #[trigger] entry_views(rest@)[j]
            == ev.skip(k + 1)[j] by {
            assert(rest@[j] == old_rest[j + 1]);
            assert(entry_views(old_rest)[j + 1] == ev.skip(k)[j + 1]);
        }
        assert(entry_views(rest@) =~= ev.skip(k + 1));
        assert(ev.take(k + 1).drop_last() =~= ev.take(k));
        let ghost ov = entry_views(out@);
        let mut pos = out.len();
        while pos > 0 && bytes_order_exec(&e.0, &out[pos - 1].0) < 0
            invariant
                pos <= out.len(),
                ov == entry_views(out@),
                forall|j: int| pos <= j < out.len() ==> bytes_order(e.0@, #[trigger] ov[j].0) < 0,
            decreases pos,
        {
            assert(ov[pos - 1] == (out@[pos - 1].0@, out@[pos - 1].1@));
            pos = pos - 1;
        }
        if pos > 0 {
            assert(ov[pos - 1] == (out@[pos - 1].0@, out@[pos - 1].1@));
        }
        proof {
            lemma_insert_entry_at(ov, (e.0@, e.1@), pos as int);
        }
        let ghost evv = (e.0@, e.1@);
        out.insert(pos, e);
        assert(entry_views(out@) =~= ov.insert(pos as int, evv));
    }
    assert(ev.take(n as int) =~= ev);
    out
}

fn push_le16(v: &mut Vec<u8>, n: u16)
    ensures
        final(v)@ == old(v)@ + le16(n),
{
    v.push((n & 0xff) as u8);
    v.push((n >> 8) as u8);
}

fn push_le32(v: &mut Vec<u8>, n: u32)
    ensures
        final(v)@ == old(v)@ + le32(n),
{
    v.push((n & 0xff) as u8);
    v.push(((n >> 8) & 0xff) as u8);
    v.push(((n >> 16) & 0xff) as u8);
    v.push((n >> 24) as u8);
}

fn push_bytes(v: &mut Vec<u8>, b: &Vec<u8>)
    ensures
        final(v)@ == old(v)@ + b@,
{
    let ghost start = v@;
    let mut i: usize = 0;
    while i < b.len()
        invariant
            i <= b.len(),
            v@ == start + b@.take(i as int),
        decreases b.len() - i,
    {
        v.push(b[i]);
        assert(b@.take(i + 1) =~= b@.take(i as int).push(b@[i as int]));
        i = i + 1;
    }
    assert(b@.take(i as int) =~= b@);
}

fn push_local(v: &mut Vec<u8>, name: &Vec<u8>, data: &Vec<u8>)
    ensures
        final(v)@ == old(v)@ + local_record(name@, data@),
{
    let crc = crc32(data.as_slice());
    let len = data.len() as u32;
    let ghost start = v@;
    push_le32(v, 0x0403_4b50);
    push_le16(v, 20);
    push_le16(v, 0);
    push_le16(v, 0);
    push_le16(v, 0);
    push_le16(v, 0);
    push_le32(v, crc);
    push_le32(v, len);
    push_le32(v, len);
    push_le16(v, name.len() as u16);
    push_le16(v, 0);
    push_bytes(v, name);
    push_bytes(v, data);
    assert(v@ =~= start + local_record(name@, data@));
}

fn push_central(v: &mut Vec<u8>, name: &Vec<u8>, data: &Vec<u8>, offset: u32)
    ensures
        final(v)@ == old(v)@ + central_record(name@, data@, offset),
{
    let crc = crc32(data.as_slice());
    let len = data.len() as u32;
    let ghost start = v@;
    push_le32(v, 0x0201_4b50);
    push_le16(v, 20);
    push_le16(v, 20);
    push_le16(v, 0);
    push_le16(v, 0);
    push_le16(v, 0);
    push_le16(v, 0);
    push_le32(v, crc);
    push_le32(v, len);
    push_le32(v, len);
    push_le16(v, name.len() as u16);
    push_le16(v, 0);
    push_le16(v, 0);
    push_le16(v, 0);
    push_le16(v, 0);
    push_le32(v, 0);
    push_le32(v, offset);
    push_bytes(v, name);
    assert(v@ =~= start + central_record(name@, data@, offset));
}

/// A zip archive holding each `(name, data)` entry uncompressed, the entries
/// sorted by name (stably). Offsets and sizes are 32-bit, so the archive
/// must stay below 4 GiB.
pub fn zip_archive(entries: Vec<(Vec<u8>, Vec<u8>)>) -> (r: Vec<u8>)
    requires
        zip_layout(sort_entries(entry_views(entries@))).len() <= u32::MAX,
    ensures
        r@ == zip_layout(sort_entries(entry_views(entries@))),
{
    let files = sort_entries_exec(entries);
    let ghost es = entry_views(files@);
    proof {
        lemma_layout_parts(es);
    }
    let mut out: Vec<u8> = Vec::new();
    let mut i: usize = 0;
    assert(es.take(0) =~= Seq::<(Seq<u8>, Seq<u8>)>::empty());
    while i < files.len()
        invariant
            i <= files.len(),
            es == entry_views(files@),
            out@ == local_records(es.take(i as int)),
            local_records(es).len() <= u32::MAX,
            forall|j: int| 0 <= j <= es.len() ==> #[trigger] local_records(es.take(j)).len()
                <= local_records(es).len(),
        decreases files.len() - i,
    {
        assert(es.take(i + 1).drop_last() =~= es.take(i as int));
        assert(es[i as int] == (files@[i as int].0@, files@[i as int].1@));
        push_local(&mut out, &files[i].0, &files[i].1);
        i = i + 1;
    }
    assert(es.take(i as int) =~= es);
    let central_start = out.len();
    let mut c: Vec<u8> = Vec::new();
    let mut j: usize = 0;
    assert(es.take(0) =~= Seq::<(Seq<u8>, Seq<u8>)>::empty());
    while j < files.len()
        invariant
            j <= files.len(),
            es == entry_views(files@),
            c@ == central_records(es.take(j as int)),
            local_records(es).len() <= u32::MAX,
            forall|k: int| 0 <= k <= es.len() ==> #[trigger] local_records(es.take(k)).len()
                <= local_records(es).len(),
        decreases files.len() - j,
    {
        assert(es.take(j + 1).drop_last() =~= es.take(j as int));
        assert(es[j as int] == (files@[j as int].0@, files@[j as int].1@));
        let ghost pre = local_records(es.take(j as int));
        let off = local_len(&files, j);
        push_central(&mut c, &files[j].0, &files[j].1, off as u32);
        j = j + 1;
    }
    assert(es.take(j as int) =~= es);
    let central_size = c.len();
    push_bytes(&mut out, &c);
    let n = files.len();
    push_le32(&mut out, 0x0605_4b50);
    push_le16(&mut out, 0);
    push_le16(&mut out, 0);
    push_le16(&mut out, n as u16);
    push_le16(&mut out, n as u16);
    push_le32(&mut out, central_size as u32);
    push_le32(&mut out, central_start as u32);
    push_le16(&mut out, 0);
    assert(out@ =~= zip_layout(es));
    out
}

proof fn lemma_layout_parts(es: Seq<(Seq<u8>, Seq<u8>)>)
    ensures
        forall|j: int| 0 <= j <= es.len() ==> #[trigger] local_records(es.take(j)).len()
            <= local_records(es).len(),
    decreases es.len(),
{
    assert forall|j: int| 0 <= j <= es.len() implies #[trigger] local_records(es.take(j)).len()
        <= local_records(es).len() by {
        lemma_local_prefix(es, j);
    }
}

proof fn lemma_local_prefix(es: Seq<(Seq<u8>, Seq<u8>)>, j: int)
    requires
        0 <= j <= es.len(),
    ensures
        local_records(es.take(j)).len() <= local_records(es).len(),
    decreases es.len() - j,
{
    if j < es.len() {
        lemma_local_prefix(es, j + 1);
        assert(es.take(j + 1).drop_last() =~= es.take(j));
    } else {
        assert(es.take(j) =~= es);
    }
}

/// The length of the local records of the first `j` entries.
fn local_len(files: &Vec<(Vec<u8>, Vec<u8>)>, j: usize) -> (r: usize)
    requires
        j <= files.len(),
        local_records(entry_views(files@)).len() <= u32::MAX,
        forall|k: int|
            0 <= k <= files.len() ==> #[trigger] local_records(entry_views(files@).take(k)).len()
                <= local_records(entry_views(files@)).len(),
    ensures
        r == local_records(entry_views(files@).take(j as int)).len(),
{
    let ghost es = entry_views(files@);
    let mut total: usize = 0;
    let mut i: usize = 0;
    assert(es.take(0) =~= Seq::<(Seq<u8>, Seq<u8>)>::empty());
    while i < j
        invariant
            i <= j <= files.len(),
            es == entry_views(files@),
            total == local_records(es.take(i as int)).len(),
            local_records(es).len() <= u32::MAX,
            forall|k: int| 0 <= k <= files.len() ==> #[trigger] local_records(es.take(k)).len()
                <= local_records(es).len(),
        decreases j - i,
    {
        assert(es.take(i + 1).drop_last() =~= es.take(i as int));
        assert(es[i as int] == (files@[i as int].0@, files@[i as int].1@));
        assert(local_records(es.take(i + 1)).len() <= u32::MAX);
        total = total + 30 + files[i].0.len() + files[i].1.len();
        i = i + 1;
    }
    total
}


// ── Launcher script ───────────────────────────────────────────────────────────

/// `s` with every trailing `.exe` removed (`str::trim_end_matches(".exe")`).
pub open spec fn trim_exe(s: Seq<char>) -> Seq<char>
    decreases s.len(),
{
    if ends_with(s, ".exe"@) && s.len() >= 4 {
        trim_exe(s.subrange(0, s.len() - 4))
    } else {
        s
    }
}

/// The variable that lists library directories on the target OS.
pub open spec fn lib_path_var(os: Seq<char>) -> Seq<char> {
    if os == "macos"@ {
        "DYLD_LIBRARY_PATH"@
    } else {
        "LD_LIBRARY_PATH"@
    }
}

/// The launcher script: it puts the bundle's `lib/` first on the library
/// path and runs the bundled binary with the script's arguments.
pub open spec fn launcher_text(bin_name: Seq<char>, os: Seq<char>) -> Seq<char> {
    let v = lib_path_var(os);
    "#!/bin/sh\nDIR=\"$(cd \"$(dirname \"$0\")\" && pwd)\"\nexport "@ + v + "=\"$DIR/lib${"@ + v
        + ":+:${"@ + v + "}}\"\nexec \"$DIR/bin/"@ + bin_name + "\" \"$@\"\n"@
}

/// Where a launcher script goes and what it says: `<staging>/<binary name
/// without .exe>`.
pub fn launcher_script(staging: &str, bin_name: &str, os: &str) -> (r: (String, String))
    ensures
        r.0@ == join_path(staging@, trim_exe(bin_name@)),
        r.1@ == launcher_text(bin_name@, os@),
{
    let mut n = chars_of(bin_name);
    let exe = chars_of(".exe");
    while n.len() >= 4 && crate::text::eq_chars(&slice_copy(&n, n.len() - 4, n.len()), &exe)
        invariant
            trim_exe(n@) == trim_exe(bin_name@),
            exe@ == ".exe"@,
        decreases n.len(),
    {
        n = slice_copy(&n, 0, n.len() - 4);
    }
    proof {
        reveal_strlit(".exe");
    }
    assert(trim_exe(n@) == n@);
    let path = join_path_exec(staging, string_of(&n).as_str());
    let v = if eq_str(&chars_of(os), "macos") {
        chars_of("DYLD_LIBRARY_PATH")
    } else {
        chars_of("LD_LIBRARY_PATH")
    };
    let mut t = chars_of("#!/bin/sh\nDIR=\"$(cd \"$(dirname \"$0\")\" && pwd)\"\nexport ");
    t = concat(&t, &v);
    t = concat(&t, &chars_of("=\"$DIR/lib${"));
    t = concat(&t, &v);
    t = concat(&t, &chars_of(":+:${"));
    t = concat(&t, &v);
    t = concat(&t, &chars_of("}}\"\nexec \"$DIR/bin/"));
    t = concat(&t, &chars_of(bin_name));
    t = concat(&t, &chars_of("\" \"$@\"\n"));
    (path, string_of(&t))
}

// ── Shared-library dependencies ───────────────────────────────────────────────

/// `str::to_lowercase` of `s`.
pub uninterp spec fn lowercase(s: Seq<char>) -> Seq<char>;

/// `str::to_lowercase`: the Unicode lower-case mapping of every character.
#[verifier::external_body]
fn to_lowercase(s: &str) -> (r: String)
    ensures
        r@ == lowercase(s@),
{
    s.to_lowercase()
}

/// Whether the absolute path `base` begins `path` component by component
/// (see [`path_starts_with`]).
fn path_has_prefix(path: &str, base: &str) -> (r: bool)
    ensures
        r == path_starts_with(path@, base@),
{
    let pv = chars_of(path);
    if pv.len() == 0 || pv[0] != '/' {
        return false;
    }
    let pc = path_segments_exec(path);
    let bc = path_segments_exec(base);
    let ghost ps = pc@.map_values(|x: Vec<char>| x@);
    let ghost bs = bc@.map_values(|x: Vec<char>| x@);
    assert(ps.len() == pc@.len() && bs.len() == bc@.len());
    if bc.len() > pc.len() {
        return false;
    }
    let mut i: usize = 0;
    while i < bc.len()
        invariant
            i <= bc.len() <= pc.len(),
            ps == pc@.map_values(|x: Vec<char>| x@),
            bs == bc@.map_values(|x: Vec<char>| x@),
            ps == path_segments(path@),
            bs == path_segments(base@),
            path@.len() > 0 && path@[0] == '/',
            forall|j: int| 0 <= j < i ==> ps[j] == bs[j],
        decreases bc.len() - i,
    {
        if !eq_chars(&pc[i], &bc[i]) {
            assert(ps[i as int] != bs[i as int]);
            assert(ps.subrange(0, bs.len() as int)[i as int] == ps[i as int]);
            return false;
        }
        i = i + 1;
    }
    assert(ps.subrange(0, bs.len() as int) =~= bs);
    true
}

pub open spec fn linux_system_prefixes() -> Seq<Seq<char>> {
    seq![
        "libc.so"@,
        "libm.so"@,
        "libdl.so"@,
        "libpthread.so"@,
        "librt.so"@,
        "libresolv.so"@,
        "libutil.so"@,
        "libnss_"@,
        "libnsl.so"@,
        "libgcc_s.so"@,
        "ld-linux"@,
        "linux-vdso"@,
        "linux-gate"@,
    ]
}

pub open spec fn windows_system_prefixes() -> Seq<Seq<char>> {
    seq![
        "kernel32.dll"@,
        "user32.dll"@,
        "gdi32.dll"@,
        "ole32.dll"@,
        "oleaut32.dll"@,
        "ntdll.dll"@,
        "advapi32.dll"@,
        "shell32.dll"@,
        "shlwapi.dll"@,
        "ws2_32.dll"@,
        "msvcp"@,
        "vcruntime"@,
        "ucrtbase"@,
        "api-ms-win"@,
        "ext-ms-win"@,
    ]
}

pub open spec fn starts_with_any(name: Seq<char>, ps: Seq<Seq<char>>) -> bool {
    exists|i: int| 0 <= i < ps.len() && starts_with(name, #[trigger] ps[i])
}

/// A library that the target system provides and that is never bundled:
/// glibc and kernel-interface libraries on Linux, system frameworks and
/// `/usr/lib` dylibs on macOS, system DLLs on Windows.
pub open spec fn is_system_lib_spec(path: Seq<char>, os: Seq<char>) -> bool {
    let name = lowercase(file_name_of(path));
    if os == "linux"@ {
        starts_with_any(name, linux_system_prefixes())
    } else if os == "macos"@ {
        path_starts_with(path, "/usr/lib"@) || path_starts_with(path, "/System/"@)
            || path_starts_with(path, "/Library/Apple/"@)
    } else if os == "windows"@ {
        starts_with_any(name, windows_system_prefixes())
    } else {
        false
    }
}

fn starts_with_any_exec(name: &Vec<char>, ps: &Vec<&str>) -> (r: bool)
    ensures
        r == exists|i: int| 0 <= i < ps.len() && starts_with(name@, #[trigger] ps@[i]@),
{
    let mut i: usize = 0;
    while i < ps.len()
        invariant
            i <= ps.len(),
            forall|j: int| 0 <= j < i ==> !starts_with(name@, #[trigger] ps@[j]@),
        decreases ps.len() - i,
    {
        if starts_with_str(name, ps[i]) {
            return true;
        }
        i = i + 1;
    }
    false
}

/// Whether the library at `path` is one the target system provides.
pub fn is_system_lib(path: &str, os: &str) -> (r: bool)
    ensures
        r == is_system_lib_spec(path@, os@),
{
    let name = chars_of(to_lowercase(file_name_of_exec(path).as_str()).as_str());
    let o = chars_of(os);
    if eq_str(&o, "linux") {
        let ps: Vec<&str> = vec![
            "libc.so", "libm.so", "libdl.so", "libpthread.so", "librt.so", "libresolv.so",
            "libutil.so", "libnss_", "libnsl.so", "libgcc_s.so", "ld-linux", "linux-vdso",
            "linux-gate",
        ];
        let r = starts_with_any_exec(&name, &ps);
        proof {
            assert(ps@.map_values(|s: &str| s@) =~= linux_system_prefixes());
            if r {
                let i = choose|i: int| 0 <= i < ps.len() && starts_with(name@, #[trigger] ps@[i]@);
                assert(linux_system_prefixes()[i] == ps@[i]@);
            } else {
                assert forall|i: int| 0 <= i < linux_system_prefixes().len() implies !starts_with(
                    name@,
                    #[trigger] linux_system_prefixes()[i],
                ) by {
                    assert(linux_system_prefixes()[i] == ps@[i]@);
                }
            }
        }
        r
    } else if eq_str(&o, "macos") {
        path_has_prefix(path, "/usr/lib") || path_has_prefix(path, "/System/") || path_has_prefix(
            path,
            "/Library/Apple/",
        )
    } else if eq_str(&o, "windows") {
        let ps: Vec<&str> = vec![
            "kernel32.dll", "user32.dll", "gdi32.dll", "ole32.dll", "oleaut32.dll", "ntdll.dll",
            "advapi32.dll", "shell32.dll", "shlwapi.dll", "ws2_32.dll", "msvcp", "vcruntime",
            "ucrtbase", "api-ms-win", "ext-ms-win",
        ];
        let r = starts_with_any_exec(&name, &ps);
        proof {
            assert(ps@.map_values(|s: &str| s@) =~= windows_system_prefixes());
            if r {
                let i = choose|i: int| 0 <= i < ps.len() && starts_with(name@, #[trigger] ps@[i]@);
                assert(windows_system_prefixes()[i] == ps@[i]@);
            } else {
                assert forall|i: int| 0 <= i < windows_system_prefixes().len() implies !starts_with(
                    name@,
                    #[trigger] windows_system_prefixes()[i],
                ) by {
                    assert(windows_system_prefixes()[i] == ps@[i]@);
                }
            }
        }
        r
    } else {
        false
    }
}


// ── Tool output ───────────────────────────────────────────────────────────────

/// The lines of `s` as `str::lines` yields them.
pub open spec fn lines_of(s: Seq<char>) -> Seq<Seq<char>>
    decreases s.len(),
{
    if s.len() == 0 {
        seq![]
    } else {
        match find_char_from(s, '\n', 0) {
            Some(i) => seq![strip_cr(s.subrange(0, i))] + lines_of(s.subrange(i + 1, s.len() as int)),
            None => seq![s],
        }
    }
}

/// The lines of `s`.
pub fn lines_exec(s: &Vec<char>) -> (r: Vec<Vec<char>>)
    ensures
        crate::expr::views(r@) == lines_of(s@),
{
    let mut out: Vec<Vec<char>> = Vec::new();
    let mut start: usize = 0;
    assert(s@.subrange(0, s.len() as int) =~= s@);
    assert(crate::expr::views(out@) =~= Seq::<Seq<char>>::empty());
    while start < s.len()
        invariant
            start <= s.len(),
            crate::expr::views(out@) + lines_of(s@.subrange(start as int, s.len() as int))
                == lines_of(s@),
        decreases s.len() - start,
    {
        let rest = slice_copy(s, start, s.len());
        let ghost ov = crate::expr::views(out@);
        match find_char_from_exec(&rest, '\n', 0) {
            Some(i) => {
                let mut line = slice_copy(&rest, 0, i);
                if line.len() > 0 && line[line.len() - 1] == '\r' {
                    line = slice_copy(&line, 0, line.len() - 1);
                }
                assert(line@ == strip_cr(rest@.subrange(0, i as int)));
                let ghost lv = line@;
                out.push(line);
                assert(crate::expr::views(out@) =~= ov.push(lv));
                assert(rest@.subrange(i + 1, rest.len() as int) =~= s@.subrange(
                    start + i + 1,
                    s.len() as int,
                ));
                assert(seq![lv] + lines_of(rest@.subrange(i + 1, rest.len() as int)) == lines_of(
                    rest@,
                ));
                assert(ov.push(lv) + lines_of(s@.subrange(start + i + 1, s.len() as int)) =~= ov
                    + (seq![lv] + lines_of(rest@.subrange(i + 1, rest.len() as int))));
                start = start + i + 1;
            },
            None => {
                let ghost rv = rest@;
                out.push(rest);
                assert(crate::expr::views(out@) =~= ov.push(rv));
                assert(s@.subrange(s.len() as int, s.len() as int) =~= Seq::<char>::empty());
                assert(ov.push(rv) =~= ov + seq![rv]);
                start = s.len();
            },
        }
    }
    assert(s@.subrange(s.len() as int, s.len() as int) =~= Seq::<char>::empty());
    assert(crate::expr::views(out@) + Seq::<Seq<char>>::empty() =~= crate::expr::views(out@));
    out
}

/// Position of the first whitespace character of `t` at or after `i`.
pub open spec fn ws_pos(t: Seq<char>, i: int) -> int
    decreases t.len() - i,
{
    if i < 0 || i >= t.len() {
        t.len() as int
    } else if is_ws(t[i]) {
        i
    } else {
        ws_pos(t, i + 1)
    }
}

/// The first whitespace-separated word of `s` (`split_whitespace().next()`).
pub open spec fn first_word(s: Seq<char>) -> Option<Seq<char>> {
    let t = trim_start(s);
    if t.len() == 0 {
        None
    } else {
        Some(t.subrange(0, ws_pos(t, 0)))
    }
}

proof fn lemma_ws_pos(t: Seq<char>, i: int)
    requires
        0 <= i <= t.len(),
    ensures
        i <= ws_pos(t, i) <= t.len(),
    decreases t.len() - i,
{
    if i < t.len() && !is_ws(t[i]) {
        lemma_ws_pos(t, i + 1);
    }
}

fn first_word_exec(s: &Vec<char>) -> (r: Option<Vec<char>>)
    ensures
        crate::expr::opt_view(r) == first_word(s@),
{
    assert(s@.subrange(0, s.len() as int) =~= s@);
    let a = crate::text::trim_start_pos(s, 0, s.len());
    let t = slice_copy(s, a, s.len());
    if t.len() == 0 {
        return None;
    }
    let mut i: usize = 0;
    while i < t.len() && !crate::text::char_is_ws(t[i])
        invariant
            i <= t.len(),
            ws_pos(t@, i as int) == ws_pos(t@, 0),
        decreases t.len() - i,
    {
        i = i + 1;
    }
    Some(slice_copy(&t, 0, i))
}

/// The library path on one line of `ldd` output: the word after `=>` (unless
/// it is `not`, as in `not found`), or the line's first word when it is an
/// absolute path.
pub open spec fn ldd_line(line: Seq<char>) -> Option<Seq<char>> {
    let l = trim(line);
    match find(l, "=>"@) {
        Some(idx) => match first_word(trim(l.subrange(idx + 2, l.len() as int))) {
            Some(p) => if p == "not"@ {
                None
            } else {
                Some(p)
            },
            None => None,
        },
        None => match first_word(l) {
            Some(p) => if p.len() > 0 && p[0] == '/' {
                Some(p)
            } else {
                None
            },
            None => None,
        },
    }
}

/// The library paths that `ldd` output names, in order.
pub open spec fn ldd_paths(ls: Seq<Seq<char>>) -> Seq<Seq<char>>
    decreases ls.len(),
{
    if ls.len() == 0 {
        seq![]
    } else {
        match ldd_line(ls[0]) {
            Some(p) => seq![p] + ldd_paths(ls.drop_first()),
            None => ldd_paths(ls.drop_first()),
        }
    }
}

fn ldd_line_exec(line: &Vec<char>) -> (r: Option<Vec<char>>)
    ensures
        crate::expr::opt_view(r) == ldd_line(line@),
{
    let l = trim_chars(line);
    let arrow = chars_of("=>");
    proof {
        reveal_strlit("=>");
    }
    match find_from_exec(&l, &arrow, 0) {
        Some(idx) => {
            assert(idx + 2 <= l.len());
            match first_word_exec(&trim_range(&l, idx + 2, l.len())) {
                Some(p) => if eq_str(&p, "not") {
                    None
                } else {
                    Some(p)
                },
                None => None,
            }
        },
        None => match first_word_exec(&l) {
            Some(p) => if p.len() > 0 && p[0] == '/' {
                Some(p)
            } else {
                None
            },
            None => None,
        },
    }
}

/// The library paths named by `ldd`'s output `out`.
pub fn ldd_candidates(out: &str) -> (r: Vec<String>)
    ensures
        str_views(r@) == ldd_paths(lines_of(out@)),
{
    let ls = lines_exec(&chars_of(out));
    let ghost lv = crate::expr::views(ls@);
    let mut res: Vec<String> = Vec::new();
    let mut i: usize = 0;
    assert(lv.skip(0) =~= lv);
    assert(str_views(res@) =~= Seq::<Seq<char>>::empty());
    while i < ls.len()
        invariant
            i <= ls.len(),
            lv == crate::expr::views(ls@),
            str_views(res@) + ldd_paths(lv.skip(i as int)) == ldd_paths(lv),
        decreases ls.len() - i,
    {
        assert(lv.skip(i as int)[0] == ls@[i as int]@);
        assert(lv.skip(i as int).drop_first() =~= lv.skip(i + 1));
        let ghost before = str_views(res@);
        match ldd_line_exec(&ls[i]) {
            Some(p) => {
                let ghost pv = p@;
                res.push(string_of(&p));
                assert(str_views(res@) =~= before.push(pv));
                assert(before.push(pv) + ldd_paths(lv.skip(i + 1)) =~= before + (seq![pv]
                    + ldd_paths(lv.skip(i + 1))));
            },
            None => {},
        }
        i = i + 1;
    }
    assert(lv.skip(i as int) =~= Seq::<Seq<char>>::empty());
    assert(str_views(res@) + Seq::<Seq<char>>::empty() =~= str_views(res@));
    res
}

/// `s` up to its first space (`split(' ').next()`).
pub open spec fn before_space(s: Seq<char>) -> Seq<char> {
    match find_char_from(s, ' ', 0) {
        Some(i) => s.subrange(0, i),
        None => s,
    }
}

/// The absolute library paths that `otool -L` output names: the first word
/// of every line after the first.
pub open spec fn otool_paths(ls: Seq<Seq<char>>) -> Seq<Seq<char>>
    decreases ls.len(),
{
    if ls.len() == 0 {
        seq![]
    } else {
        let p = before_space(trim(ls[0]));
        if p.len() > 0 && p[0] == '/' {
            seq![p] + otool_paths(ls.drop_first())
        } else {
            otool_paths(ls.drop_first())
        }
    }
}

/// All lines but the first.
pub open spec fn after_first(ls: Seq<Seq<char>>) -> Seq<Seq<char>> {
    if ls.len() == 0 {
        ls
    } else {
        ls.skip(1)
    }
}

/// The absolute library paths named by `otool -L` output `out`.
pub fn otool_candidates(out: &str) -> (r: Vec<String>)
    ensures
        str_views(r@) == otool_paths(after_first(lines_of(out@))),
{
    let ls = lines_exec(&chars_of(out));
    let ghost lv = crate::expr::views(ls@);
    let mut res: Vec<String> = Vec::new();
    let mut i: usize = if ls.len() > 0 {
        1
    } else {
        0
    };
    assert(lv.skip(i as int) =~= after_first(lv));
    assert(str_views(res@) =~= Seq::<Seq<char>>::empty());
    while i < ls.len()
        invariant
            i <= ls.len(),
            lv == crate::expr::views(ls@),
            str_views(res@) + otool_paths(lv.skip(i as int)) == otool_paths(after_first(lv)),
        decreases ls.len() - i,
    {
        assert(lv.skip(i as int)[0] == ls@[i as int]@);
        assert(lv.skip(i as int).drop_first() =~= lv.skip(i + 1));
        let t = trim_chars(&ls[i]);
        let p = match find_char_from_exec(&t, ' ', 0) {
            Some(k) => slice_copy(&t, 0, k),
            None => t,
        };
        let ghost before = str_views(res@);
        if p.len() > 0 && p[0] == '/' {
            let ghost pv = p@;
            res.push(string_of(&p));
            assert(str_views(res@) =~= before.push(pv));
            assert(before.push(pv) + otool_paths(lv.skip(i + 1)) =~= before + (seq![pv]
                + otool_paths(lv.skip(i + 1))));
        }
        i = i + 1;
    }
    assert(lv.skip(i as int) =~= Seq::<Seq<char>>::empty());
    assert(str_views(res@) + Seq::<Seq<char>>::empty() =~= str_views(res@));
    res
}

/// The DLL names in the dependency section of `dumpbin /DEPENDENTS` output:
/// the lines after the one that announces the dependencies, up to the first
/// empty line, that end in `.dll` or `.DLL`.
pub open spec fn dumpbin_dlls(ls: Seq<Seq<char>>, in_section: bool) -> Seq<Seq<char>>
    decreases ls.len(),
{
    if ls.len() == 0 {
        seq![]
    } else {
        let t = trim(ls[0]);
        if find(t, "has the following dependencies"@) is Some {
            dumpbin_dlls(ls.drop_first(), true)
        } else if in_section {
            if t.len() == 0 {
                seq![]
            } else if ends_with(t, ".dll"@) || ends_with(t, ".DLL"@) {
                seq![t] + dumpbin_dlls(ls.drop_first(), true)
            } else {
                dumpbin_dlls(ls.drop_first(), true)
            }
        } else {
            dumpbin_dlls(ls.drop_first(), false)
        }
    }
}

fn ends_with_str(t: &Vec<char>, p: &str) -> (r: bool)
    ensures
        r == ends_with(t@, p@),
{
    let pv = chars_of(p);
    if pv.len() > t.len() {
        false
    } else {
        crate::text::eq_chars(&slice_copy(t, t.len() - pv.len(), t.len()), &pv)
    }
}

/// The DLL names listed by `dumpbin /DEPENDENTS` output `out`.
pub fn dumpbin_candidates(out: &str) -> (r: Vec<String>)
    ensures
        str_views(r@) == dumpbin_dlls(lines_of(out@), false),
{
    let ls = lines_exec(&chars_of(out));
    let ghost lv = crate::expr::views(ls@);
    let mut res: Vec<String> = Vec::new();
    let mut in_section = false;
    let mut i: usize = 0;
    let phrase = chars_of("has the following dependencies");
    assert(lv.skip(0) =~= lv);
    assert(str_views(res@) =~= Seq::<Seq<char>>::empty());
    while i < ls.len()
        invariant
            i <= ls.len(),
            lv == crate::expr::views(ls@),
            phrase@ == "has the following dependencies"@,
            lv == lines_of(out@),
            str_views(res@) + dumpbin_dlls(lv.skip(i as int), in_section) == dumpbin_dlls(lv, false),
        decreases ls.len() - i,
    {
        assert(lv.skip(i as int)[0] == ls@[i as int]@);
        assert(lv.skip(i as int).drop_first() =~= lv.skip(i + 1));
        let t = trim_chars(&ls[i]);
        let ghost before = str_views(res@);
        if find_from_exec(&t, &phrase, 0).is_some() {
            in_section = true;
        } else if in_section {
            if t.len() == 0 {
                assert(t@ == trim(lv.skip(i as int)[0]));
                assert(dumpbin_dlls(lv.skip(i as int), true) =~= Seq::<Seq<char>>::empty());
                assert(before + Seq::<Seq<char>>::empty() =~= before);
                return res;
            }
            if ends_with_str(&t, ".dll") || ends_with_str(&t, ".DLL") {
                let ghost tv = t@;
                res.push(string_of(&t));
                assert(str_views(res@) =~= before.push(tv));
                assert(before.push(tv) + dumpbin_dlls(lv.skip(i + 1), true) =~= before + (seq![tv]
                    + dumpbin_dlls(lv.skip(i + 1), true)));
            }
        }
        i = i + 1;
    }
    assert(lv.skip(i as int) =~= Seq::<Seq<char>>::empty());
    assert(str_views(res@) + Seq::<Seq<char>>::empty() =~= str_views(res@));
    res
}

/// The candidates worth bundling: those that exist and that the target
/// system does not provide itself.
pub open spec fn bundled_deps(cands: Seq<Seq<char>>, present: Seq<Seq<char>>, os: Seq<char>) -> Seq<
    Seq<char>,
> {
    cands.filter(|c: Seq<char>| present.contains(c) && !is_system_lib_spec(c, os))
}

/// The candidates worth bundling.
pub fn select_deps(cands: &Vec<String>, present: &Vec<String>, os: &str) -> (r: Vec<String>)
    ensures
        str_views(r@) == bundled_deps(str_views(cands@), str_views(present@), os@),
{
    let ghost cv = str_views(cands@);
    let ghost pv = str_views(present@);
    let mut res: Vec<String> = Vec::new();
    let mut i: usize = 0;
    assert(cv.take(0) =~= Seq::<Seq<char>>::empty());
    assert(str_views(res@) =~= Seq::<Seq<char>>::empty());
    while i < cands.len()
        invariant
            i <= cands.len(),
            cv == str_views(cands@),
            pv == str_views(present@),
            str_views(res@) == cv.take(i as int).filter(
                |c: Seq<char>| pv.contains(c) && !is_system_lib_spec(c, os@),
            ),
        decreases cands.len() - i,
    {
        assert(cv.take(i + 1).drop_last() =~= cv.take(i as int));
        assert(cv[i as int] == cands@[i as int]@);
        let keep = listed(present, &cands[i]) && !is_system_lib(cands[i].as_str(), os);
        if keep {
            let ghost before = str_views(res@);
            res.push(owned(cands[i].as_str()));
            assert(str_views(res@) =~= before.push(cv[i as int]));
        }
        proof {
            reveal(Seq::filter);
            assert(cv.take(i + 1).last() == cv[i as int]);
        }
        i = i + 1;
    }
    assert(cv.take(i as int) =~= cv);
    res
}

fn listed(v: &Vec<String>, p: &String) -> (r: bool)
    ensures
        r == str_views(v@).contains(p@),
{
    let pc = chars_of(p.as_str());
    let mut i: usize = 0;
    while i < v.len()
        invariant
            i <= v.len(),
            pc@ == p@,
            forall|j: int| 0 <= j < i ==> #[trigger] str_views(v@)[j] != p@,
        decreases v.len() - i,
    {
        if eq_str(&pc, v[i].as_str()) {
            assert(str_views(v@)[i as int] == p@);
            return true;
        }
        i = i + 1;
    }
    false
}

/// Where a bundled library goes: beside the binary on Windows (the DLL
/// search order finds it there), else in the bundle's `lib/`.
pub fn dep_destination(bin_dir: &str, lib_dir: &str, os: &str, dep: &str) -> (r: String)
    ensures
        r@ == join_path(
            if os@ == "windows"@ {
                bin_dir@
            } else {
                lib_dir@
            },
            file_name_of(dep@),
        ),
{
    let f = file_name_of_exec(dep);
    if eq_str(&chars_of(os), "windows") {
        join_path_exec(bin_dir, f.as_str())
    } else {
        join_path_exec(lib_dir, f.as_str())
    }
}

/// The name a bundled dylib is referred to by once the binary is rewritten
/// to find it in the bundle: `@executable_path/../lib/<file name>`; `None`
/// for a file without the `dylib` extension.
pub open spec fn rpath_name(lib: Seq<char>) -> Option<Seq<char>> {
    let f = file_name_of(lib);
    match crate::text::rfind_char(f, '.') {
        Some(i) => if i > 0 && f.subrange(i + 1, f.len() as int) == "dylib"@ {
            Some("@executable_path/../lib/"@ + f)
        } else {
            None
        },
        None => None,
    }
}

/// The bundled name of a dylib (see [`rpath_name`]).
pub fn rpath_name_exec(lib: &str) -> (r: Option<String>)
    ensures
        match r {
            Some(s) => rpath_name(lib@) == Some(s@),
            None => rpath_name(lib@) is None,
        },
{
    let f = chars_of(file_name_of_exec(lib).as_str());
    let mut n = f.len();
    while n > 0 && f[n - 1] != '.'
        invariant
            n <= f.len(),
            forall|j: int| n <= j < f.len() ==> #[trigger] f@[j] != '.',
        decreases n,
    {
        n = n - 1;
    }
    proof {
        lemma_rfind_dot(f@, n as int);
    }
    if n > 1 && eq_str(&slice_copy(&f, n, f.len()), "dylib") {
        Some(string_of(&concat(&chars_of("@executable_path/../lib/"), &f)))
    } else {
        None
    }
}

proof fn lemma_rfind_dot(t: Seq<char>, n: int)
    requires
        0 <= n <= t.len(),
        forall|j: int| n <= j < t.len() ==> #[trigger] t[j] != '.',
        n > 0 ==> t[n - 1] == '.',
    ensures
        n > 0 ==> crate::text::rfind_char(t, '.') == Some(n - 1),
        n == 0 ==> crate::text::rfind_char(t, '.') is None,
    decreases t.len(),
{
    if t.len() > 0 && n < t.len() {
        let d = t.subrange(0, t.len() - 1);
        assert forall|j: int| n <= j < d.len() implies #[trigger] d[j] != '.' by {
            assert(d[j] == t[j]);
        }
        if n > 0 {
            assert(d[n - 1] == t[n - 1]);
        }
        lemma_rfind_dot(d, n);
    }
}

} // verus!
