//! Archive extraction planning. The two archive decoders run behind
//! trusted wrappers that hand back the full entry list; everything that
//! decides — format dispatch by suffix, destination paths, per-entry
//! progress, path safety, and finding the worker executable — is verified
//! here. Writing the planned entries to disk happens outside.

use vstd::prelude::*;
use crate::errors::CoreError;
use crate::locate::{join_path, join_path_spec, split_sep, split_sep_chars, worker_exe_name};
use crate::scan::copy_range;
use crate::text::{chars_eq, contains_chars, contains_seq, ends_with_chars, ends_with_seq,
    find_sub, find_sub_chars, lemma_find_sub_from, matches_at, str_to_chars};
use vstd::arithmetic::div_mod::{lemma_div_is_ordered, lemma_div_multiples_vanish};
use std::io::{Cursor, Read};
use flate2::read::GzDecoder;
use tar::Archive;
use zip::ZipArchive;

verus! {

/// One entry of an archive, as the decoder lists it.
pub struct ArchiveEntry {
    pub path: String,
    pub is_dir: bool,
    pub data: Vec<u8>,
}

pub ghost struct EntryModel {
    pub path: Seq<char>,
    pub is_dir: bool,
    pub data: Seq<u8>,
}

impl View for ArchiveEntry {
    type V = EntryModel;

    open spec fn view(&self) -> EntryModel {
        EntryModel { path: self.path@, is_dir: self.is_dir, data: self.data@ }
    }
}

pub open spec fn views_of_entries(s: Seq<ArchiveEntry>) -> Seq<EntryModel> {
    Seq::new(s.len(), |i: int| s[i]@)
}

pub open spec fn entry_tuples(s: Seq<ArchiveEntry>) -> Seq<(Seq<char>, bool, Seq<u8>)> {
    Seq::new(s.len(), |i: int| (s[i].path@, s[i].is_dir, s[i].data@))
}

pub open spec fn models_of_tuples(ts: Seq<(Seq<char>, bool, Seq<u8>)>) -> Seq<EntryModel> {
    Seq::new(ts.len(), |i: int| EntryModel { path: ts[i].0, is_dir: ts[i].1, data: ts[i].2 })
}

/// What a gzip-compressed tarball holds, as a function of its bytes alone;
/// nothing when the bytes are not such an archive.
pub uninterp spec fn tar_gz_entries_of(bytes: Seq<u8>) -> Option<Seq<(Seq<char>, bool, Seq<u8>)>>;

/// What a zip archive holds, as a function of its bytes alone; nothing
/// when the bytes are not such an archive.
pub uninterp spec fn zip_entries_of(bytes: Seq<u8>) -> Option<Seq<(Seq<char>, bool, Seq<u8>)>>;

/// Relies on flate2's `GzDecoder` and tar's `Archive`: decoding is a pure
/// function of the archive bytes, yielding each entry's path, kind and
/// contents, and a malformed archive yields nothing. Entry paths pass
/// through the platform's path decoding, so for the rare archive whose
/// entry names are not UTF-8 the listed path is a function of the bytes
/// only per platform.
#[verifier::external_body]
fn read_tar_gz(bytes: &Vec<u8>) -> (r: Option<Vec<ArchiveEntry>>)
    ensures
        r matches Some(v) ==> tar_gz_entries_of(bytes@) == Some(entry_tuples(v@)),
        r is None ==> tar_gz_entries_of(bytes@) is None,
{
    let mut ar = Archive::new(GzDecoder::new(Cursor::new(bytes.as_slice())));
    let mut out: Vec<ArchiveEntry> = Vec::new();
    for ent in ar.entries().ok()? {
        let mut ent = ent.ok()?;
        let path = ent.path().ok()?.to_string_lossy().into_owned();
        let is_dir = ent.header().entry_type().is_dir();
        let mut data: Vec<u8> = Vec::new();
        ent.read_to_end(&mut data).ok()?;
        out.push(ArchiveEntry { path, is_dir, data });
    }
    Some(out)
}

/// Relies on the zip crate's `ZipArchive`: decoding is a pure function of
/// the archive bytes, yielding each entry's name, kind and contents, and a
/// malformed archive yields nothing.
#[verifier::external_body]
fn read_zip(bytes: &Vec<u8>) -> (r: Option<Vec<ArchiveEntry>>)
    ensures
        r matches Some(v) ==> zip_entries_of(bytes@) == Some(entry_tuples(v@)),
        r is None ==> zip_entries_of(bytes@) is None,
{
    let mut ar = ZipArchive::new(Cursor::new(bytes.as_slice())).ok()?;
    let mut out: Vec<ArchiveEntry> = Vec::new();
    for i in 0..ar.len() {
        let mut f = ar.by_index(i).ok()?;
        let path = f.name().to_string();
        let is_dir = f.is_dir();
        let mut data: Vec<u8> = Vec::new();
        if !is_dir {
            f.read_to_end(&mut data).ok()?;
        }
        out.push(ArchiveEntry { path, is_dir, data });
    }
    Some(out)
}

/// The two supported archive formats.
#[derive(Clone, Copy, PartialEq, Eq, Structural, Debug)]
pub enum ArchiveKind {
    TarGz,
    Zip,
}

/// Dispatch on the filename suffix; anything else is unsupported.
pub open spec fn classify_spec(filename: Seq<char>) -> Option<ArchiveKind> {
    if ends_with_seq(filename, ".tar.gz"@) || ends_with_seq(filename, ".tgz"@) {
        Some(ArchiveKind::TarGz)
    } else if ends_with_seq(filename, ".zip"@) {
        Some(ArchiveKind::Zip)
    } else {
        None
    }
}

pub fn classify_archive(filename: &str) -> (r: Option<ArchiveKind>)
    ensures
        r == classify_spec(filename@),
{
    let fv = str_to_chars(filename);
    let targz = str_to_chars(".tar.gz");
    let tgz = str_to_chars(".tgz");
    let zipx = str_to_chars(".zip");
    if ends_with_chars(&fv, &targz) || ends_with_chars(&fv, &tgz) {
        Some(ArchiveKind::TarGz)
    } else if ends_with_chars(&fv, &zipx) {
        Some(ArchiveKind::Zip)
    } else {
        None
    }
}

/// What an archive of the given kind holds.
pub open spec fn archive_entries_of(kind: ArchiveKind, bytes: Seq<u8>) -> Option<
    Seq<(Seq<char>, bool, Seq<u8>)>,
> {
    match kind {
        ArchiveKind::TarGz => tar_gz_entries_of(bytes),
        ArchiveKind::Zip => zip_entries_of(bytes),
    }
}

pub fn read_archive_entries(kind: ArchiveKind, bytes: &Vec<u8>) -> (r: Result<
    Vec<ArchiveEntry>,
    CoreError,
>)
    ensures
        r matches Ok(v) ==> archive_entries_of(kind, bytes@) == Some(entry_tuples(v@)),
        r matches Err(e) ==> e == CoreError::ArchiveReadFailed && archive_entries_of(kind, bytes@)
            is None,
{
    let raw = match kind {
        ArchiveKind::TarGz => read_tar_gz(bytes),
        ArchiveKind::Zip => read_zip(bytes),
    };
    match raw {
        Some(v) => Ok(v),
        None => Err(CoreError::ArchiveReadFailed),
    }
}

/// The file name after the last slash.
pub open spec fn base_name(p: Seq<char>) -> Seq<char>
    decreases p.len(),
{
    let k = find_sub(p, seq!['/']);
    if k < 0 || k + 1 > p.len() {
        p
    } else {
        base_name(p.skip(k + 1))
    }
}

pub fn base_name_chars(p: &Vec<char>) -> (r: Vec<char>)
    ensures
        r@ == base_name(p@),
    decreases p@.len(),
{
    let n = p.len();
    let mut slash: Vec<char> = Vec::new();
    slash.push('/');
    assert(slash@ =~= seq!['/']);
    let found = find_sub_chars(p, &slash);
    match found {
        None => copy_range(p, 0, n),
        Some(k) => {
            proof {
                lemma_find_sub_from(p@, slash@, 0);
                assert(matches_at(p@, slash@, k as int));
                assert(k + 1 <= p@.len());
            }
            let rest = copy_range(p, k + 1, n);
            assert(rest@ =~= p@.skip(k + 1));
            base_name_chars(&rest)
        },
    }
}

/// A path that is safe to join under the install directory: non-empty,
/// relative, free of NUL characters, and without any `..` component.
pub open spec fn safe_rel_path(p: Seq<char>) -> bool {
    p.len() > 0 && p[0] != '/' && !contains_seq(p, seq!['\0']) && (forall|i: int|
        0 <= i < split_sep(p, '/').len() ==> #[trigger] split_sep(p, '/')[i] != ".."@)
}

pub fn is_safe_rel_path(p: &Vec<char>) -> (r: bool)
    ensures
        r == safe_rel_path(p@),
{
    if p.len() == 0 {
        return false;
    }
    if p[0] == '/' {
        return false;
    }
    let mut nul: Vec<char> = Vec::new();
    nul.push('\0');
    assert(nul@ =~= seq!['\0']);
    if contains_chars(p, &nul) {
        return false;
    }
    let comps = split_sep_chars(p, '/');
    let dotdot = str_to_chars("..");
    let mut i: usize = 0;
    while i < comps.len()
        invariant
            i <= comps@.len(),
            comps@.len() == split_sep(p@, '/').len(),
            forall|q: int| 0 <= q < comps@.len() ==> comps@[q]@ == split_sep(p@, '/')[q],
            dotdot@ == ".."@,
            forall|q: int| 0 <= q < i ==> #[trigger] split_sep(p@, '/')[q] != ".."@,
        decreases comps@.len() - i,
    {
        if chars_eq(&comps[i], &dotdot) {
            assert(split_sep(p@, '/')[i as int] == ".."@);
            return false;
        }
        i = i + 1;
    }
    true
}

/// A tar entry that is the worker executable: a file whose base name is
/// the worker's file name.
pub open spec fn tar_exe_match(m: EntryModel) -> bool {
    !m.is_dir && base_name(m.path) == worker_exe_name()
}

/// A zip entry that is the worker executable: a safe file entry whose name
/// ends with the worker's file name.
pub open spec fn zip_exe_match(m: EntryModel) -> bool {
    safe_rel_path(m.path) && !m.is_dir && ends_with_seq(m.path, worker_exe_name())
}

/// The last tar entry before `upto` that is the worker executable, or -1.
pub open spec fn tar_exe_index_upto(e: Seq<EntryModel>, upto: int) -> int
    decreases upto,
{
    if upto <= 0 {
        -1
    } else if tar_exe_match(e[upto - 1]) {
        upto - 1
    } else {
        tar_exe_index_upto(e, upto - 1)
    }
}

/// The last zip entry before `upto` that is the worker executable, or -1.
pub open spec fn zip_exe_index_upto(e: Seq<EntryModel>, upto: int) -> int
    decreases upto,
{
    if upto <= 0 {
        -1
    } else if zip_exe_match(e[upto - 1]) {
        upto - 1
    } else {
        zip_exe_index_upto(e, upto - 1)
    }
}

/// The percentage reported after entry `j` of `total` is done.
pub open spec fn progress_spec(j: int, total: int) -> int {
    ((j + 1) * 100) / total
}

/// Per-entry progress never decreases along the entries.
pub proof fn lemma_progress_monotone(j1: int, j2: int, total: int)
    requires
        0 <= j1 <= j2,
        0 < total,
    ensures
        progress_spec(j1, total) <= progress_spec(j2, total),
{
    lemma_div_is_ordered((j1 + 1) * 100, (j2 + 1) * 100, total);
}

/// One planned write of the extraction: entry `index` of the archive goes
/// to `dest`, and afterwards `progress` percent is done.
pub struct PlannedWrite {
    pub dest: String,
    pub is_dir: bool,
    pub index: usize,
    pub progress: u64,
}

pub ghost struct PlannedWriteModel {
    pub dest: Seq<char>,
    pub is_dir: bool,
    pub index: int,
    pub progress: int,
}

impl View for PlannedWrite {
    type V = PlannedWriteModel;

    open spec fn view(&self) -> PlannedWriteModel {
        PlannedWriteModel {
            dest: self.dest@,
            is_dir: self.is_dir,
            index: self.index as int,
            progress: self.progress as int,
        }
    }
}

pub open spec fn write_model(m: EntryModel, j: int, total: int, dir: Seq<char>) -> PlannedWriteModel {
    PlannedWriteModel {
        dest: join_path_spec(dir, m.path),
        is_dir: m.is_dir,
        index: j,
        progress: progress_spec(j, total),
    }
}

/// The zip writes from position `j` on: exactly the safe entries, in
/// archive order, each under its original index.
pub open spec fn zip_writes_from(e: Seq<EntryModel>, dir: Seq<char>, total: int, j: int) -> Seq<
    PlannedWriteModel,
>
    decreases e.len() - j,
{
    if j < 0 || j >= e.len() {
        Seq::empty()
    } else if safe_rel_path(e[j].path) {
        seq![write_model(e[j], j, total, dir)] + zip_writes_from(e, dir, total, j + 1)
    } else {
        zip_writes_from(e, dir, total, j + 1)
    }
}

/// The whole extraction, planned: every write in order, and which entry is
/// the worker executable.
pub struct ExtractionPlan {
    pub writes: Vec<PlannedWrite>,
    pub exe_index: usize,
    pub exe_path: String,
}

fn entry_progress(j: usize, n: usize) -> (r: u64)
    requires
        j < n,
    ensures
        r as int == progress_spec(j as int, n as int),
        r <= 100,
{
    let p128 = ((j as u128) + 1) * 100 / (n as u128);
    proof {
        lemma_div_is_ordered((j as int + 1) * 100, (n as int) * 100, n as int);
        lemma_div_multiples_vanish(100, n as int);
    }
    p128 as u64
}

/// Plan a tarball extraction: every entry is written below the install
/// directory, and the result path is the last file entry whose base name
/// is the worker's; an archive without one is rejected.
pub fn plan_tar_extraction(entries: &Vec<ArchiveEntry>, install_dir: &str) -> (r: Result<
    ExtractionPlan,
    CoreError,
>)
    ensures
        ({
            let e = views_of_entries(entries@);
            let exe = tar_exe_index_upto(e, e.len() as int);
            match r {
                Ok(plan) => exe >= 0 && plan.exe_index as int == exe && plan.exe_path@
                    == join_path_spec(install_dir@, e[exe].path) && plan.writes@.len() == e.len()
                    && forall|q: int|
                    0 <= q < e.len() ==> plan.writes@[q]@ == write_model(
                        e[q],
                        q,
                        e.len() as int,
                        install_dir@,
                    ),
                Err(err) => err == CoreError::ExecutableNotFoundInArchive && exe == -1,
            }
        }),
{
    let ghost e = views_of_entries(entries@);
    let n = entries.len();
    let mut writes: Vec<PlannedWrite> = Vec::new();
    let mut exe_opt: Option<usize> = None;
    let nodepass = str_to_chars("nodepass.exe");
    let mut j: usize = 0;
    while j < n
        invariant
            e == views_of_entries(entries@),
            n == entries@.len(),
            e.len() == n,
            nodepass@ == "nodepass.exe"@,
            j <= n,
            writes@.len() == j,
            forall|q: int|
                0 <= q < j ==> writes@[q]@ == write_model(e[q], q, n as int, install_dir@),
            (match exe_opt {
                Some(x) => 0 <= x < j && x as int == tar_exe_index_upto(e, j as int),
                None => tar_exe_index_upto(e, j as int) == -1,
            }),
        decreases n - j,
    {
        let dest = join_path(install_dir, entries[j].path.as_str());
        let progress = entry_progress(j, n);
        writes.push(PlannedWrite { dest, is_dir: entries[j].is_dir, index: j, progress });
        let pv = str_to_chars(entries[j].path.as_str());
        let bn = base_name_chars(&pv);
        if !entries[j].is_dir && chars_eq(&bn, &nodepass) {
            assert(tar_exe_match(e[j as int]));
            exe_opt = Some(j);
        } else {
            assert(!tar_exe_match(e[j as int]));
        }
        j = j + 1;
    }
    match exe_opt {
        Some(i) => {
            let exe_path = join_path(install_dir, entries[i].path.as_str());
            Ok(ExtractionPlan { writes, exe_index: i, exe_path })
        },
        None => Err(CoreError::ExecutableNotFoundInArchive),
    }
}

/// Plan a zip extraction: exactly the safe entries are written below the
/// install directory, and the result path is the last safe file entry
/// whose name ends with the worker's; an archive without one is rejected.
pub fn plan_zip_extraction(entries: &Vec<ArchiveEntry>, install_dir: &str) -> (r: Result<
    ExtractionPlan,
    CoreError,
>)
    ensures
        ({
            let e = views_of_entries(entries@);
            let exe = zip_exe_index_upto(e, e.len() as int);
            let ws = zip_writes_from(e, install_dir@, e.len() as int, 0);
            match r {
                Ok(plan) => exe >= 0 && plan.exe_index as int == exe && plan.exe_path@
                    == join_path_spec(install_dir@, e[exe].path) && plan.writes@.len() == ws.len()
                    && forall|q: int| 0 <= q < ws.len() ==> plan.writes@[q]@ == ws[q],
                Err(err) => err == CoreError::ExecutableNotFoundInArchive && exe == -1,
            }
        }),
{
    let ghost e = views_of_entries(entries@);
    let n = entries.len();
    let mut writes: Vec<PlannedWrite> = Vec::new();
    let mut exe_opt: Option<usize> = None;
    let nodepass = str_to_chars("nodepass.exe");
    let ghost ws_all = zip_writes_from(e, install_dir@, n as int, 0);
    let ghost mut done: Seq<PlannedWriteModel> = Seq::empty();
    proof {
        assert(done + zip_writes_from(e, install_dir@, n as int, 0) =~= ws_all);
    }
    let mut j: usize = 0;
    while j < n
        invariant
            e == views_of_entries(entries@),
            n == entries@.len(),
            e.len() == n,
            nodepass@ == "nodepass.exe"@,
            ws_all == zip_writes_from(e, install_dir@, n as int, 0),
            j <= n,
            done + zip_writes_from(e, install_dir@, n as int, j as int) == ws_all,
            writes@.len() == done.len(),
            forall|q: int| 0 <= q < done.len() ==> writes@[q]@ == done[q],
            (match exe_opt {
                Some(x) => 0 <= x < j && x as int == zip_exe_index_upto(e, j as int),
                None => zip_exe_index_upto(e, j as int) == -1,
            }),
        decreases n - j,
    {
        let pv = str_to_chars(entries[j].path.as_str());
        let safe = is_safe_rel_path(&pv);
        if safe {
            let dest = join_path(install_dir, entries[j].path.as_str());
            let progress = entry_progress(j, n);
            writes.push(PlannedWrite { dest, is_dir: entries[j].is_dir, index: j, progress });
            proof {
                let w = write_model(e[j as int], j as int, n as int, install_dir@);
                assert(zip_writes_from(e, install_dir@, n as int, j as int) == seq![w]
                    + zip_writes_from(e, install_dir@, n as int, j + 1));
                assert((done + (seq![w] + zip_writes_from(e, install_dir@, n as int, j + 1)))
                    =~= ((done.push(w)) + zip_writes_from(e, install_dir@, n as int, j + 1)));
                done = done.push(w);
            }
        }
        if safe && !entries[j].is_dir && ends_with_chars(&pv, &nodepass) {
            assert(zip_exe_match(e[j as int]));
            exe_opt = Some(j);
        } else {
            assert(!zip_exe_match(e[j as int]));
        }
        j = j + 1;
    }
    proof {
        assert(zip_writes_from(e, install_dir@, n as int, n as int) =~= Seq::<
            PlannedWriteModel,
        >::empty());
        assert(done + Seq::<PlannedWriteModel>::empty() =~= done);
        assert(done == ws_all);
    }
    match exe_opt {
        Some(i) => {
            let exe_path = join_path(install_dir, entries[i].path.as_str());
            Ok(ExtractionPlan { writes, exe_index: i, exe_path })
        },
        None => Err(CoreError::ExecutableNotFoundInArchive),
    }
}

/// Plan the extraction of a downloaded archive: dispatch on the filename
/// suffix, decode the entries, and plan the writes and the executable's
/// path. Unsupported suffixes, undecodable archives, and archives without
/// the worker executable each fail with their own error.
pub fn plan_archive_extraction(filename: &str, bytes: &Vec<u8>, install_dir: &str) -> (r: Result<
    ExtractionPlan,
    CoreError,
>)
    ensures
        classify_spec(filename@) is None ==> (r matches Err(e) && e
            == CoreError::UnsupportedArchiveFormat),
        ({
            classify_spec(filename@) matches Some(kind) ==> match archive_entries_of(
                kind,
                bytes@,
            ) {
                None => r matches Err(e) && e == CoreError::ArchiveReadFailed,
                Some(ts) => {
                    let e = models_of_tuples(ts);
                    match kind {
                        ArchiveKind::TarGz => {
                            let exe = tar_exe_index_upto(e, e.len() as int);
                            match r {
                                Ok(plan) => exe >= 0 && plan.exe_index as int == exe
                                    && plan.exe_path@ == join_path_spec(install_dir@, e[exe].path)
                                    && plan.writes@.len() == e.len() && forall|q: int|
                                    0 <= q < e.len() ==> plan.writes@[q]@ == write_model(
                                        e[q],
                                        q,
                                        e.len() as int,
                                        install_dir@,
                                    ),
                                Err(err) => err == CoreError::ExecutableNotFoundInArchive && exe
                                    == -1,
                            }
                        },
                        ArchiveKind::Zip => {
                            let exe = zip_exe_index_upto(e, e.len() as int);
                            let ws = zip_writes_from(e, install_dir@, e.len() as int, 0);
                            match r {
                                Ok(plan) => exe >= 0 && plan.exe_index as int == exe
                                    && plan.exe_path@ == join_path_spec(install_dir@, e[exe].path)
                                    && plan.writes@.len() == ws.len() && forall|q: int|
                                    0 <= q < ws.len() ==> plan.writes@[q]@ == ws[q],
                                Err(err) => err == CoreError::ExecutableNotFoundInArchive && exe
                                    == -1,
                            }
                        },
                    }
                },
            }
        }),
{
    let kind = match classify_archive(filename) {
        Some(k) => k,
        None => {
            return Err(CoreError::UnsupportedArchiveFormat);
        },
    };
    let entries = match read_archive_entries(kind, bytes) {
        Ok(v) => v,
        Err(e) => {
            return Err(e);
        },
    };
    proof {
        let ts = entry_tuples(entries@);
        assert(models_of_tuples(ts) =~= views_of_entries(entries@));
    }
    match kind {
        ArchiveKind::TarGz => plan_tar_extraction(&entries, install_dir),
        ArchiveKind::Zip => plan_zip_extraction(&entries, install_dir),
    }
}

} // verus!
