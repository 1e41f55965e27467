//! The import pipeline: derive the destination from the archive's stem,
//! short-circuit when it already exists, and otherwise plan the extraction
//! of every member into it.
//!
//! The shell drives the pipeline and performs the filesystem work: it opens
//! the archive file, stats the destination, creates the directory, and
//! writes the planned items, feeding each outcome back in as a plain value.
//! Every decision between those steps is made here.

use vstd::prelude::*;
use vstd::string::StringExecFns;
use crate::archive::{entries_of, entry_count, open_archive, read_entry};
use crate::errors::ImportError;
use crate::members::{is_safe_member_path, member_is_safe};
use crate::paths::{derive_destination, destination_of, has_stem, join_path, joined};

verus! {

/// An import whose destination is derived but whose archive is not yet
/// opened: all the existence short-circuit ever needs.
pub struct PendingImport {
    pub archive_path: String,
    pub destination: String,
}

/// An import past its opening step: the archive's bytes are in hand.
pub struct PreparedImport {
    pub archive_path: String,
    pub destination: String,
    pub archive_bytes: Vec<u8>,
}

/// Where the pipeline stands after the destination's existence is known.
pub enum ImportStage {
    /// The destination already exists: the import is complete as it stands,
    /// and the archive is never opened or consulted.
    Finished { destination: String },
    /// The destination is missing: the archive must be opened, the
    /// destination created and extracted into.
    NeedsExtraction { pending: PendingImport },
}

/// An import whose destination directory has been created and whose archive
/// container opened.
pub struct OpenedImport {
    pub destination: String,
    pub archive: zip::ZipArchive<std::io::Cursor<Vec<u8>>>,
}

/// One entry the shell must materialize: a directory to create, or a file
/// to write with the given bytes.
pub struct ExtractItem {
    pub path: String,
    pub data: Vec<u8>,
    pub is_dir: bool,
}

/// Everything a successful planning step yields: the destination and the
/// items to materialize beneath it.
pub struct ExtractionPlan {
    pub destination: String,
    pub items: Vec<ExtractItem>,
}

/// Idempotency short-circuit, decided from the archive path, the storage
/// root, and the destination's existence alone: once the destination exists,
/// the import is finished with that same path, whether or not the archive
/// can still be opened — the archive plays no part in this decision.
pub fn resolve_destination(
    archive_path: &str,
    storage_root: &str,
    destination_exists: bool,
) -> (r: ImportStage)
    requires
        has_stem(archive_path@),
    ensures
        destination_exists ==> (r matches ImportStage::Finished { destination } && destination@
            == destination_of(archive_path@, storage_root@)),
        !destination_exists ==> (r matches ImportStage::NeedsExtraction { pending }
            && pending.archive_path@ == archive_path@ && pending.destination@ == destination_of(
            archive_path@,
            storage_root@,
        )),
{
    let destination = derive_destination(archive_path, storage_root).unwrap();
    if destination_exists {
        ImportStage::Finished { destination }
    } else {
        ImportStage::NeedsExtraction {
            pending: PendingImport { archive_path: String::from_str(archive_path), destination },
        }
    }
}

/// Opening step, reached only when the destination was missing: turns the
/// outcome of reading the archive file into either a prepared import, or the
/// open failure.
pub fn prepare_import(pending: PendingImport, opened: Result<Vec<u8>, String>) -> (r: Result<
    PreparedImport,
    ImportError,
>)
    ensures
        opened matches Err(c) ==> r matches Err(e) && (e matches ImportError::OpenFailed {
            path,
            cause,
        } && path@ == pending.archive_path@ && cause@ == c@),
        opened matches Ok(bytes) ==> r matches Ok(p) && p.archive_path@ == pending.archive_path@
            && p.destination@ == pending.destination@ && p.archive_bytes@ == bytes@,
{
    match opened {
        Ok(bytes) => Ok(
            PreparedImport {
                archive_path: pending.archive_path,
                destination: pending.destination,
                archive_bytes: bytes,
            },
        ),
        Err(cause) => Err(ImportError::OpenFailed { path: pending.archive_path, cause }),
    }
}

/// Creation and container-opening step: turns the outcome of creating the
/// destination directory into either an import with its archive open, the
/// creation failure, or the container failure — and the container failure
/// comes exactly when the bytes do not parse as an archive.
pub fn open_import_archive(prepared: PreparedImport, created: Result<(), String>) -> (r: Result<
    OpenedImport,
    ImportError,
>)
    ensures
        created matches Err(c) ==> r matches Err(e) && (e matches ImportError::CreateDirFailed {
            path,
            cause,
        } && path@ == prepared.destination@ && cause@ == c@),
        created is Ok ==> match r {
            Ok(o) => o.destination@ == prepared.destination@,
            Err(e) => e matches ImportError::ArchiveOpenFailed { path, cause } && path@
                == prepared.archive_path@,
        },
        created is Ok ==> (r is Ok <==> crate::archive::opens_as_archive(
            prepared.archive_bytes@,
        )),
{
    match created {
        Ok(_) => match open_archive(prepared.archive_bytes) {
            Ok(archive) => Ok(OpenedImport { destination: prepared.destination, archive }),
            Err(cause) => Err(
                ImportError::ArchiveOpenFailed { path: prepared.archive_path, cause },
            ),
        },
        Err(cause) => Err(ImportError::CreateDirFailed { path: prepared.destination, cause }),
    }
}

/// Extraction planning: walks every member of the open archive, rejects any
/// member path that could escape the destination, and stages the rest.
///
/// On success the plan lists exactly the archive's members, in order, each
/// safe, placed under the destination, and carrying the member's bytes. Any
/// archive holding an unsafe member path is rejected, and every rejection is
/// an extraction failure.
pub fn plan_extraction(opened: OpenedImport) -> (r: Result<ExtractionPlan, ImportError>)
    ensures
        r matches Ok(plan) ==> {
            &&& plan.destination@ == opened.destination@
            &&& plan.items@.len() == entries_of(opened.archive).len()
            &&& forall|j: int|
                0 <= j < plan.items@.len() ==> member_is_safe(
                    #[trigger] entries_of(opened.archive)[j].0,
                )
            &&& forall|j: int|
                0 <= j < plan.items@.len() ==> (#[trigger] plan.items@[j]).path@ == joined(
                    opened.destination@,
                    entries_of(opened.archive)[j].0,
                ) && plan.items@[j].data@ == entries_of(opened.archive)[j].1
                    && plan.items@[j].is_dir == entries_of(opened.archive)[j].2
        },
        r matches Err(e) ==> e matches ImportError::ExtractionFailed { .. },
        (exists|j: int|
            0 <= j < entries_of(opened.archive).len() && !member_is_safe(
                #[trigger] entries_of(opened.archive)[j].0,
            )) ==> r is Err,
        crate::archive::members_readable(opened.archive) && (forall|j: int|
            0 <= j < entries_of(opened.archive).len() ==> member_is_safe(
                #[trigger] entries_of(opened.archive)[j].0,
            )) ==> r is Ok,
{
    let OpenedImport { destination, mut archive } = opened;
    proof {
        assert(entries_of(archive) == entries_of(opened.archive));
    }
    let ghost es = entries_of(archive);
    let ghost dest_view = destination@;
    let n = entry_count(&archive);
    let mut items: Vec<ExtractItem> = Vec::new();
    let mut i: usize = 0;
    while i < n
        invariant
            i <= n,
            n == es.len(),
            es == entries_of(opened.archive),
            entries_of(archive) == es,
            crate::archive::members_readable(archive) == crate::archive::members_readable(
                opened.archive,
            ),
            destination@ == dest_view,
            items@.len() == i,
            forall|j: int| 0 <= j < i ==> member_is_safe(#[trigger] es[j].0),
            forall|j: int|
                0 <= j < i ==> (#[trigger] items@[j]).path@ == joined(dest_view, es[j].0)
                    && items@[j].data@ == es[j].1 && items@[j].is_dir == es[j].2,
        decreases n - i,
    {
        let entry = match read_entry(&mut archive, i) {
            Ok(entry) => entry,
            Err(cause) => {
                return Err(ImportError::ExtractionFailed { cause });
            },
        };
        if !is_safe_member_path(entry.name.as_str()) {
            proof {
                assert(!member_is_safe(entries_of(opened.archive)[i as int].0));
            }
            return Err(
                ImportError::ExtractionFailed {
                    cause: crate::errors::with_ctx(
                        "member path escapes the destination",
                        entry.name.as_str(),
                    ),
                },
            );
        }
        let path = join_path(destination.as_str(), entry.name.as_str());
        items.push(ExtractItem { path, data: entry.data, is_dir: entry.is_dir });
        i = i + 1;
    }
    Ok(ExtractionPlan { destination, items })
}

/// Path-traversal rejection, end to end: any member path a successful plan
/// stages under a derived destination stays inside it. The destination is a
/// prefix of the staged path, followed by exactly one separator, and the
/// member part carries no parent-directory segment to climb back out with.
pub proof fn lemma_plan_items_stay_inside(
    archive_path: Seq<char>,
    storage_root: Seq<char>,
    member: Seq<char>,
)
    requires
        has_stem(archive_path),
        member_is_safe(member),
    ensures
        joined(destination_of(archive_path, storage_root), member).subrange(
            0,
            destination_of(archive_path, storage_root).len() as int,
        ) == destination_of(archive_path, storage_root),
        joined(destination_of(archive_path, storage_root), member)[destination_of(
            archive_path,
            storage_root,
        ).len() as int] == '/',
        !crate::members::has_parent_segment(member),
{
    crate::paths::lemma_destination_well_formed(archive_path, storage_root);
    crate::members::lemma_safe_member_stays_inside(
        destination_of(archive_path, storage_root),
        member,
    );
}

/// Idempotency of the derived destination: any two imports of the same
/// archive path into the same storage root name the same destination, so
/// a re-import resolves to the path the first import produced. Together
/// with `resolve_destination`, whose contract finishes an import whose
/// destination exists before any archive work, re-importing an already
/// staged item is a no-op that returns the same path.
pub proof fn lemma_import_idempotent(
    archive_path: Seq<char>,
    storage_root: Seq<char>,
    first: Seq<char>,
    second: Seq<char>,
)
    requires
        first == destination_of(archive_path, storage_root),
        second == destination_of(archive_path, storage_root),
    ensures
        first == second,
{
}

} // verus!

