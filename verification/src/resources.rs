//! Discovery of the toolkit's resource directories and planning of the
//! recursive copy into the distribution tree.
//!
//! The build leaves one marker file per toolkit subcrate in its output
//! directory, named `makepad-<subcrate>.path` and holding the subcrate's
//! install path on a single line. From the marker files this module
//! derives, purely on strings, which directories to copy and where each
//! file of them lands; the caller reads the directory listing and file
//! contents and performs the writes.

use crate::error::Error;
use crate::text::join_path;
use crate::text::join_path_spec;
use crate::text::push_char;
use crate::text::str_eq;
use crate::text::trim_marker_content;
use crate::text::trimmed;
use vstd::prelude::*;
use vstd::string::StrSliceExecFns;
use vstd::string::StringExecFns;

verus! {

/// A directory entry of the build-output directory, as the caller read
/// it: the file's name and its content.
pub struct MarkerFile {
    pub name: String,
    pub content: String,
}

/// The mathematical view of a marker file.
pub ghost struct MarkerFileView {
    pub name: Seq<char>,
    pub content: Seq<char>,
}

impl View for MarkerFile {
    type V = MarkerFileView;

    open spec fn view(&self) -> MarkerFileView {
        MarkerFileView { name: self.name@, content: self.content@ }
    }
}

/// One discovered resource location: the destination directory name
/// derived from the subcrate, and the subcrate's install path.
pub struct ResourceEntry {
    pub dir_name: String,
    pub source_root: String,
}

/// The mathematical view of a resource entry.
pub ghost struct ResourceEntryView {
    pub dir_name: Seq<char>,
    pub source_root: Seq<char>,
}

impl View for ResourceEntry {
    type V = ResourceEntryView;

    open spec fn view(&self) -> ResourceEntryView {
        ResourceEntryView { dir_name: self.dir_name@, source_root: self.source_root@ }
    }
}

/// Whether a file name follows the marker convention
/// `makepad-<subcrate>.path`.
pub open spec fn is_marker_filename(name: Seq<char>) -> bool {
    &&& name.len() >= "makepad-"@.len() + ".path"@.len()
    &&& name.subrange(0, "makepad-"@.len() as int) == "makepad-"@
    &&& name.subrange(name.len() - ".path"@.len(), name.len() as int) == ".path"@
}

/// The subcrate identifier between the marker prefix and suffix.
pub open spec fn marker_subcrate(name: Seq<char>) -> Seq<char>
    recommends
        is_marker_filename(name),
{
    name.subrange("makepad-"@.len() as int, name.len() - ".path"@.len())
}

/// Every separator turned into an underscore, as directory names derived
/// from subcrate identifiers are written.
pub open spec fn dash_to_underscore(s: Seq<char>) -> Seq<char> {
    s.map_values(|c: char| if c == '-' { '_' } else { c })
}

/// The entry a marker file yields: the destination directory name
/// `makepad_<subcrate>` (separators replaced), and the recorded install
/// path, trimmed.
pub open spec fn entry_of_marker(m: MarkerFileView) -> ResourceEntryView {
    ResourceEntryView {
        dir_name: "makepad_"@ + dash_to_underscore(marker_subcrate(m.name)),
        source_root: trimmed(m.content),
    }
}

/// The entries that a directory listing yields, in order: one per file
/// whose name follows the marker convention.
pub open spec fn resource_entries_spec(files: Seq<MarkerFileView>) -> Seq<ResourceEntryView>
    decreases files.len(),
{
    if files.len() == 0 {
        Seq::empty()
    } else {
        let rest = resource_entries_spec(files.drop_last());
        if is_marker_filename(files.last().name) {
            rest.push(entry_of_marker(files.last()))
        } else {
            rest
        }
    }
}

/// The views of a vector of marker files.
pub open spec fn marker_views(files: Seq<MarkerFile>) -> Seq<MarkerFileView> {
    files.map_values(|m: MarkerFile| m@)
}

/// The views of a vector of resource entries.
pub open spec fn entry_views(entries: Seq<ResourceEntry>) -> Seq<ResourceEntryView> {
    entries.map_values(|e: ResourceEntry| e@)
}

/// Extracts the subcrate identifier from a marker file name, or nothing
/// when the name does not follow the `makepad-<subcrate>.path` convention.
pub fn parse_marker_filename(name: &str) -> (r: Option<String>)
    ensures
        r is Some <==> is_marker_filename(name@),
        r is Some ==> r->0@ == marker_subcrate(name@),
{
    proof {
        reveal_strlit("makepad-");
        reveal_strlit(".path");
        assert("makepad-"@.len() == 8);
        assert(".path"@.len() == 5);
    }
    let n = name.unicode_len();
    if n < 13 {
        return None;
    }
    let prefix = name.substring_char(0, 8);
    if !str_eq(prefix, "makepad-") {
        return None;
    }
    let suffix = name.substring_char(n - 5, n);
    if !str_eq(suffix, ".path") {
        return None;
    }
    let subcrate = name.substring_char(8, n - 5);
    Some(subcrate.to_owned())
}

/// Derives the destination directory name for a subcrate:
/// `makepad_<subcrate>`, with separators replaced by underscores.
pub fn resource_dir_name(subcrate: &str) -> (r: String)
    ensures
        r@ == "makepad_"@ + dash_to_underscore(subcrate@),
{
    let mut out = String::from_str("makepad_");
    let n = subcrate.unicode_len();
    let mut i: usize = 0;
    while i < n
        invariant
            i <= n,
            n == subcrate@.len(),
            out@ == "makepad_"@ + dash_to_underscore(subcrate@.subrange(0, i as int)),
        decreases n - i,
    {
        let c = subcrate.get_char(i);
        if c == '-' {
            push_char(&mut out, '_');
        } else {
            push_char(&mut out, c);
        }
        proof {
            assert(dash_to_underscore(subcrate@.subrange(0, i + 1)) =~= dash_to_underscore(
                subcrate@.subrange(0, i as int),
            ).push(if subcrate@[i as int] == '-' {
                '_'
            } else {
                subcrate@[i as int]
            }));
        }
        i = i + 1;
    }
    proof {
        assert(subcrate@.subrange(0, n as int) =~= subcrate@);
    }
    out
}

/// Turns a directory listing into the resource entries it yields: one per
/// marker file, in the listing's order, with the destination name derived
/// from the subcrate and the install path read from the content.
pub fn collect_resource_entries(files: &Vec<MarkerFile>) -> (r: Vec<ResourceEntry>)
    ensures
        entry_views(r@) == resource_entries_spec(marker_views(files@)),
{
    let mut out: Vec<ResourceEntry> = Vec::new();
    let mut i: usize = 0;
    while i < files.len()
        invariant
            i <= files@.len(),
            entry_views(out@) == resource_entries_spec(marker_views(files@.subrange(0, i as int))),
        decreases files@.len() - i,
    {
        let file = &files[i];
        proof {
            assert(marker_views(files@.subrange(0, i + 1)).drop_last() =~= marker_views(
                files@.subrange(0, i as int),
            ));
            assert(marker_views(files@.subrange(0, i + 1)).last() == files@[i as int]@);
        }
        match parse_marker_filename(file.name.as_str()) {
            Some(subcrate) => {
                let dir_name = resource_dir_name(subcrate.as_str());
                let source_root = trim_marker_content(file.content.as_str());
                let entry = ResourceEntry { dir_name, source_root };
                proof {
                    assert(entry@ == entry_of_marker(files@[i as int]@));
                }
                out.push(entry);
                proof {
                    assert(entry_views(out@) =~= resource_entries_spec(
                        marker_views(files@.subrange(0, i + 1)),
                    ));
                }
            },
            None => {
                proof {
                    assert(entry_views(out@) =~= resource_entries_spec(
                        marker_views(files@.subrange(0, i + 1)),
                    ));
                }
            },
        }
        i = i + 1;
    }
    proof {
        assert(files@.subrange(0, files@.len() as int) =~= files@);
    }
    out
}

/// One planned recursive copy: the `resources` subdirectory under a
/// discovered install path, and the matching destination under the
/// distribution tree.
pub struct CopyJob {
    pub source: String,
    pub dest: String,
}

/// The mathematical view of a copy job.
pub ghost struct CopyJobView {
    pub source: Seq<char>,
    pub dest: Seq<char>,
}

impl View for CopyJob {
    type V = CopyJobView;

    open spec fn view(&self) -> CopyJobView {
        CopyJobView { source: self.source@, dest: self.dest@ }
    }
}

/// The copy job an entry yields under a given distribution root.
pub open spec fn job_of_entry(dist_root: Seq<char>, e: ResourceEntryView) -> CopyJobView {
    CopyJobView {
        source: join_path_spec(e.source_root, "resources"@),
        dest: join_path_spec(join_path_spec(dist_root, e.dir_name), "resources"@),
    }
}

/// Plans one copy job per discovered entry, or fails with `NotFound` when
/// there is no entry at all — nothing to copy means a broken or
/// non-participating build, and no destination may be created.
pub fn plan_resource_copies(dist_resources_root: &str, entries: &Vec<ResourceEntry>) -> (r: Result<
    Vec<CopyJob>,
    Error,
>)
    ensures
        r is Ok <==> entries@.len() > 0,
        r is Err ==> r->Err_0 == Error::NotFound,
        r is Ok ==> r->Ok_0@.len() == entries@.len(),
        r is Ok ==> forall|i: int|
            0 <= i < entries@.len() ==> (#[trigger] r->Ok_0@[i])@ == job_of_entry(
                dist_resources_root@,
                entries@[i]@,
            ),
{
    if entries.len() == 0 {
        return Err(Error::NotFound);
    }
    let mut jobs: Vec<CopyJob> = Vec::new();
    let mut i: usize = 0;
    while i < entries.len()
        invariant
            i <= entries@.len(),
            jobs@.len() == i,
            forall|k: int|
                0 <= k < i ==> (#[trigger] jobs@[k])@ == job_of_entry(
                    dist_resources_root@,
                    entries@[k]@,
                ),
        decreases entries@.len() - i,
    {
        let entry = &entries[i];
        let source = join_path(entry.source_root.as_str(), "resources");
        let below_root = join_path(dist_resources_root, entry.dir_name.as_str());
        let dest = join_path(below_root.as_str(), "resources");
        jobs.push(CopyJob { source, dest });
        i = i + 1;
    }
    Ok(jobs)
}

/// A file found under a job's source directory: its path relative to that
/// directory, and its content.
pub struct SourceFile {
    pub rel_path: String,
    pub content: Vec<u8>,
}

/// A file the copy must produce: its full destination path, and the same
/// content as its source.
pub struct PlannedFile {
    pub dest_path: String,
    pub content: Vec<u8>,
}

fn copy_bytes(v: &Vec<u8>) -> (r: Vec<u8>)
    ensures
        r@ == v@,
{
    let mut out: Vec<u8> = Vec::new();
    let mut i: usize = 0;
    while i < v.len()
        invariant
            i <= v@.len(),
            out@ == v@.subrange(0, i as int),
        decreases v@.len() - i,
    {
        out.push(v[i]);
        proof {
            assert(out@ =~= v@.subrange(0, i + 1));
        }
        i = i + 1;
    }
    proof {
        assert(v@.subrange(0, v@.len() as int) =~= v@);
    }
    out
}

/// Plans the file writes for one copy job. A listing of the source's
/// files yields one planned file each, with the relative path preserved
/// below the destination and the content unchanged; no listing — the
/// source has no `resources` subdirectory — yields no writes and no
/// error, since a subcrate may legitimately ship no resources.
pub fn files_for_job(job: &CopyJob, source_listing: &Option<Vec<SourceFile>>) -> (r: Vec<
    PlannedFile,
>)
    ensures
        *source_listing is None ==> r@.len() == 0,
        *source_listing is Some ==> r@.len() == (*source_listing)->0@.len(),
        *source_listing is Some ==> forall|i: int|
            0 <= i < (*source_listing)->0@.len() ==> (#[trigger] r@[i]).dest_path@
                == join_path_spec(job.dest@, (*source_listing)->0@[i].rel_path@) && r@[i].content@
                == (*source_listing)->0@[i].content@,
{
    let mut out: Vec<PlannedFile> = Vec::new();
    match source_listing {
        None => out,
        Some(listing) => {
            let mut i: usize = 0;
            while i < listing.len()
                invariant
                    i <= listing@.len(),
                    out@.len() == i,
                    forall|k: int|
                        0 <= k < i ==> (#[trigger] out@[k]).dest_path@ == join_path_spec(
                            job.dest@,
                            listing@[k].rel_path@,
                        ) && out@[k].content@ == listing@[k].content@,
                decreases listing@.len() - i,
            {
                let file = &listing[i];
                let dest_path = join_path(job.dest.as_str(), file.rel_path.as_str());
                let content = copy_bytes(&file.content);
                out.push(PlannedFile { dest_path, content });
                i = i + 1;
            }
            out
        },
    }
}

} // verus!
