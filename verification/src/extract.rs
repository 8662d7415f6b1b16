//! Unpacking the bundled archive into the application's data directory.
//!
//! The extraction is a conversation. [`Extraction::advance`] takes the
//! caller's [`Reply`] to the last [`Request`] and returns the next request:
//! look whether something exists, remove or create a directory, load the
//! bundle, write an entry, write the version marker. The caller touches the
//! file system; the order of the steps, the reading of the archive and the
//! wording of every failure are decided here.
//!
//! Paths are the caller's. A request names an entry by its path relative to
//! the server directory; a reply reports the path it concerns as the caller
//! displays it.

use vstd::prelude::*;
use vstd::string::*;
use crate::archive::archive_len;
use crate::archive::classify_entry;
use crate::archive::entry_at;
use crate::archive::entry_enclosed_name;
use crate::archive::entry_is_dir;
use crate::archive::entry_read_to_end;
use crate::archive::ends_in_separator;
use crate::archive::open_archive;
use crate::archive::archive_source;
use crate::archive::zip_entry_content;
use crate::archive::zip_entry_name;
use crate::archive::zip_entry_opens;
use crate::archive::zip_len;
use crate::archive::zip_opens;
use crate::archive::EntryHeader;
use crate::archive::EntryKind;
use crate::errors::ExtractionError;
use crate::text::optional_text;
use crate::version::extraction_needed;

verus! {

/// How far the extraction has come: which request is waiting for its reply.
#[derive(Clone, Copy, PartialEq, Eq, Debug, Structural)]
pub enum Phase {
    /// Nothing was asked yet.
    Idle,
    /// Asked whether the bundle exists.
    ProbingBundle,
    /// Asked whether a server directory exists.
    ProbingServerDir,
    /// Asked to remove the old server directory.
    Cleaning,
    /// Asked to create the server directory.
    CreatingServerDir,
    /// Asked for the bundle's bytes.
    Loading,
    /// Asked to create the directory of a directory entry.
    CreatingDir,
    /// Asked to write the file of a file entry.
    WritingFile,
    /// Asked to write the version marker.
    Marking,
    /// The extraction has succeeded.
    Done,
    /// The extraction has failed.
    Failed,
}

/// What the extraction asks the caller to do.
pub enum Request {
    /// Report whether the bundle exists in the resource directory.
    ProbeBundle,
    /// Report whether the server directory exists.
    ProbeServerDir,
    /// Remove the server directory and everything below it.
    RemoveServerDir,
    /// Create the server directory, with its missing parents.
    CreateServerDir,
    /// Open the bundle and read it into memory.
    LoadBundle,
    /// Create the directory `name` below the server directory, with its
    /// missing parents.
    CreateDir { name: String },
    /// Create the missing parents of `name` below the server directory, then
    /// the file itself, and write `contents` to it.
    WriteFile { name: String, contents: Vec<u8> },
    /// Write `version` to the version marker. The extraction succeeds
    /// whether or not this works.
    WriteMarker { version: String },
    /// The extraction has succeeded: nothing is left to do.
    Succeed,
    /// The extraction has failed with this error: nothing is left to do.
    Fail(ExtractionError),
    /// Nothing to do: the extraction is over, or the reply did not fit the
    /// request it came for.
    Nothing,
}

/// What the caller reports. `path` is the path concerned as the caller
/// displays it, `cause` an error in words.
pub enum Reply {
    /// Begin.
    Start,
    /// What was probed exists.
    Exists { path: String },
    /// What was probed does not exist.
    Missing { path: String },
    /// The request was carried out.
    Done { path: String },
    /// The request failed. For a file entry: its content could not be
    /// written.
    Failed { path: String, cause: String },
    /// For a file entry: the parent directory `path` could not be created.
    ParentFailed { path: String, cause: String },
    /// For a file entry: the file could not be created.
    CreateFailed { path: String, cause: String },
    /// The bundle was opened but could not be read to its end.
    ReadFailed { path: String, cause: String },
    /// The bundle's bytes.
    Loaded { bytes: Vec<u8> },
}

/// One extraction of the bundle, for the application version it was made
/// with.
pub struct Extraction {
    phase: Phase,
    version: String,
    archive: Option<zip::ZipArchive<std::io::Cursor<Vec<u8>>>>,
    entries: usize,
    position: usize,
    fault: Option<String>,
}

/// Whether `request` is the failure of the extraction with `expected`.
pub open spec fn fails_with(request: Request, expected: ExtractionError) -> bool {
    request matches Request::Fail(error) && error.same(expected)
}

/// Whether the extraction went from `pre` to `post` by entering `phase`,
/// with the archive, its entries and the position in them as they were.
pub open spec fn goes(pre: Extraction, post: Extraction, phase: Phase) -> bool {
    &&& post.phase() == phase
    &&& post.source() == pre.source()
    &&& post.entries() == pre.entries()
    &&& post.position() == pre.position()
}

/// What follows when the next entry of the archive made of `source` is due.
///
/// Once all `entries` are unpacked, the marker is written. An entry that the
/// archive does not hand out ends the extraction as unreadable, and so does,
/// as invalid, one whose name the platform's path rules do not take as
/// enclosed. Any other entry is asked for under its recorded name: as a
/// directory if the name ends in a separator, else as a file with its
/// content, which is the entry's whole content unless a fault is put on
/// record.
pub open spec fn entry_turn(
    source: Seq<u8>,
    position: int,
    entries: int,
    version: Seq<char>,
    post: Extraction,
    request: Request,
) -> bool {
    &&& post.source() == source
    &&& post.entries() == entries
    &&& if position >= entries {
        &&& request matches Request::WriteMarker { version: written }
        &&& written@ == version
        &&& post.phase() == Phase::Marking
        &&& post.position() == position
    } else if !zip_entry_opens(source, position) {
        &&& request matches Request::Fail(ExtractionError::EntryUnreadable { index, .. })
        &&& index == position
        &&& post.phase() == Phase::Failed
        &&& post.position() == position
    } else if request is Fail {
        &&& request == Request::Fail(ExtractionError::InvalidEntryName)
        &&& post.phase() == Phase::Failed
        &&& post.position() == position
    } else if ends_in_separator(zip_entry_name(source, position)) {
        &&& request matches Request::CreateDir { name }
        &&& name@ == zip_entry_name(source, position)
        &&& post.phase() == Phase::CreatingDir
        &&& post.position() == position + 1
    } else {
        &&& request matches Request::WriteFile { name, contents }
        &&& name@ == zip_entry_name(source, position)
        &&& post.fault() is None ==> contents@ == zip_entry_content(source, position)
        &&& post.phase() == Phase::WritingFile
        &&& post.position() == position + 1
    }
}

/// Whether the extraction may go from `pre` to `post` and ask `request` when
/// it is told `reply`.
///
/// The bundle is probed first and its absence is a failure. An existing
/// server directory is removed before anything is created. Then the server
/// directory is created, the bundle loaded (a bundle that cannot be opened
/// and one that cannot be read fail in different words) and opened as an
/// archive, and its entries are
/// unpacked in their order, each after the one before it was written, as
/// [`entry_turn`] says. The bundle is an archive exactly when the archive
/// reader opens it. The first failure, the caller's or the archive's, ends
/// the extraction. After
/// the last entry the marker is written, and the extraction succeeds even if
/// that write fails. A reply that does not fit changes nothing.
#[verifier::opaque]
pub open spec fn step_allowed(
    pre: Extraction,
    reply: Reply,
    post: Extraction,
    request: Request,
) -> bool {
    &&& post.version() == pre.version()
    &&& match (pre.phase(), reply) {
        (Phase::Idle, Reply::Start) => request is ProbeBundle && goes(
            pre,
            post,
            Phase::ProbingBundle,
        ),
        (Phase::ProbingBundle, Reply::Exists { .. }) => request is ProbeServerDir && goes(
            pre,
            post,
            Phase::ProbingServerDir,
        ),
        (Phase::ProbingBundle, Reply::Missing { path }) => fails_with(
            request,
            ExtractionError::BundleMissing { path },
        ) && goes(pre, post, Phase::Failed),
        (Phase::ProbingServerDir, Reply::Exists { .. }) => request is RemoveServerDir
            && goes(pre, post, Phase::Cleaning),
        (Phase::ProbingServerDir, Reply::Missing { .. }) => request is CreateServerDir
            && goes(pre, post, Phase::CreatingServerDir),
        (Phase::Cleaning, Reply::Done { .. }) => request is CreateServerDir && goes(
            pre,
            post,
            Phase::CreatingServerDir,
        ),
        (Phase::Cleaning, Reply::Failed { cause, .. }) => fails_with(
            request,
            ExtractionError::CleanFailed { cause },
        ) && goes(pre, post, Phase::Failed),
        (Phase::CreatingServerDir, Reply::Done { .. }) => request is LoadBundle && goes(
            pre,
            post,
            Phase::Loading,
        ),
        (Phase::CreatingServerDir, Reply::Failed { cause, .. }) => fails_with(
            request,
            ExtractionError::CreateServerDirFailed { cause },
        ) && goes(pre, post, Phase::Failed),
        (Phase::Loading, Reply::Loaded { bytes }) => if zip_opens(bytes@) {
            entry_turn(bytes@, 0, zip_len(bytes@) as int, pre.version(), post, request)
        } else {
            request matches Request::Fail(ExtractionError::ArchiveUnreadable { .. }) && goes(
                pre,
                post,
                Phase::Failed,
            )
        },
        (Phase::Loading, Reply::Failed { cause, .. }) => fails_with(
            request,
            ExtractionError::OpenFailed { cause },
        ) && goes(pre, post, Phase::Failed),
        (Phase::Loading, Reply::ReadFailed { cause, .. }) => fails_with(
            request,
            ExtractionError::ArchiveUnreadable { cause },
        ) && goes(pre, post, Phase::Failed),
        (Phase::CreatingDir, Reply::Done { .. }) => entry_turn(
            pre.source(),
            pre.position() as int,
            pre.entries() as int,
            pre.version(),
            post,
            request,
        ),
        (Phase::CreatingDir, Reply::Failed { path, cause }) => fails_with(
            request,
            ExtractionError::CreateDirFailed { path, cause },
        ) && goes(pre, post, Phase::Failed),
        (Phase::WritingFile, Reply::Done { path }) => match pre.fault() {
            Some(cause) => request matches Request::Fail(
                ExtractionError::WriteFailed { path: p, cause: c },
            ) && p@ == path@ && c@ == cause && goes(pre, post, Phase::Failed),
            None => entry_turn(
                pre.source(),
                pre.position() as int,
                pre.entries() as int,
                pre.version(),
                post,
                request,
            ),
        },
        (Phase::WritingFile, Reply::Failed { path, cause }) => fails_with(
            request,
            ExtractionError::WriteFailed { path, cause },
        ) && goes(pre, post, Phase::Failed),
        (Phase::WritingFile, Reply::ParentFailed { path, cause }) => fails_with(
            request,
            ExtractionError::CreateParentFailed { path, cause },
        ) && goes(pre, post, Phase::Failed),
        (Phase::WritingFile, Reply::CreateFailed { path, cause }) => fails_with(
            request,
            ExtractionError::CreateFileFailed { path, cause },
        ) && goes(pre, post, Phase::Failed),
        (Phase::Marking, Reply::Done { .. }) => request is Succeed && goes(
            pre,
            post,
            Phase::Done,
        ),
        (Phase::Marking, Reply::Failed { .. }) => request is Succeed && goes(
            pre,
            post,
            Phase::Done,
        ),
        _ => request is Nothing && post == pre,
    }
}

/// The request that an entry of kind `kind` gives: a directory is created
/// and a file written with `contents` under the entry's name, and a
/// rejected entry fails the extraction with its error.
pub fn entry_request(kind: EntryKind, contents: Vec<u8>) -> (request: Request)
    ensures
        match kind {
            EntryKind::Directory { name } => request == (Request::CreateDir { name }),
            EntryKind::File { name } => request == (Request::WriteFile { name, contents }),
            EntryKind::Rejected(error) => request == Request::Fail(error),
        },
{
    match kind {
        EntryKind::Directory { name } => Request::CreateDir { name },
        EntryKind::File { name } => Request::WriteFile { name, contents },
        EntryKind::Rejected(error) => Request::Fail(error),
    }
}

impl Extraction {
    /// The phase the extraction is in.
    pub closed spec fn phase(self) -> Phase {
        self.phase
    }

    /// The application version that the marker will hold.
    pub closed spec fn version(self) -> Seq<char> {
        self.version@
    }

    /// The number of entries in the opened archive.
    pub closed spec fn entries(self) -> usize {
        self.entries
    }

    /// The index of the next entry to unpack.
    pub closed spec fn position(self) -> usize {
        self.position
    }

    /// Why the content of the file entry being written is incomplete, if it
    /// is: the error that stopped the reading.
    pub closed spec fn fault(self) -> Option<Seq<char>> {
        optional_text(self.fault)
    }

    /// The bytes of the opened archive; empty while none is open.
    pub closed spec fn source(self) -> Seq<u8> {
        match self.archive {
            Some(archive) => archive_source(archive),
            None => Seq::empty(),
        }
    }

    /// The extraction's invariant: while entries are unpacked, the archive
    /// is open. [`Extraction::new`] establishes it and
    /// [`Extraction::advance`] keeps it.
    pub closed spec fn wf(self) -> bool {
        self.phase == Phase::CreatingDir || self.phase == Phase::WritingFile
            ==> self.archive is Some
    }

    /// A new extraction for application version `version`.
    pub fn new(version: String) -> (extraction: Extraction)
        ensures
            extraction.wf(),
            extraction.phase() == Phase::Idle,
            extraction.version() == version@,
    {
        Extraction {
            phase: Phase::Idle,
            version,
            archive: None,
            entries: 0,
            position: 0,
            fault: None,
        }
    }

    /// Whether the extraction is over, in success or in failure.
    pub fn is_over(&self) -> (over: bool)
        ensures
            over == (self.phase() == Phase::Done || self.phase() == Phase::Failed),
    {
        self.phase == Phase::Done || self.phase == Phase::Failed
    }

    /// Whether the extraction has succeeded.
    pub fn has_succeeded(&self) -> (succeeded: bool)
        ensures
            succeeded == (self.phase() == Phase::Done),
    {
        self.phase == Phase::Done
    }

    /// Ends the extraction with `error`.
    fn fail(&mut self, error: ExtractionError) -> (request: Request)
        ensures
            request == Request::Fail(error),
            final(self).phase() == Phase::Failed,
            final(self).version() == old(self).version(),
            final(self).source() == old(self).source(),
            final(self).entries() == old(self).entries(),
            final(self).position() == old(self).position(),
            final(self).wf(),
    {
        self.phase = Phase::Failed;
        self.fault = None;
        Request::Fail(error)
    }

    /// Turns to the next entry of the open archive, or to the marker when
    /// all entries are unpacked.
    fn next_entry(&mut self) -> (request: Request)
        requires
            old(self).archive is Some,
        ensures
            final(self).wf(),
            final(self).version() == old(self).version(),
            entry_turn(
                old(self).source(),
                old(self).position() as int,
                old(self).entries() as int,
                old(self).version(),
                *final(self),
                request,
            ),
    {
        if self.position >= self.entries {
            self.phase = Phase::Marking;
            return Request::WriteMarker { version: self.version.clone() };
        }
        let index: usize = self.position;
        let mut contents: Vec<u8> = Vec::new();
        let mut fault: Option<String> = None;
        let kind = match &mut self.archive {
            Some(archive) => match entry_at(archive, index) {
                Ok(entry) => {
                    let header = EntryHeader {
                        enclosed_name: entry_enclosed_name(&entry),
                        is_dir: entry_is_dir(&entry),
                    };
                    let kind = classify_entry(index, Ok(header));
                    if let EntryKind::File { .. } = &kind {
                        if let Some(error) = entry_read_to_end(entry, &mut contents) {
                            fault = Some(error.to_string());
                        }
                    }
                    kind
                },
                Err(error) => classify_entry(index, Err(error.to_string())),
            },
            None => vstd::pervasive::unreached(),
        };
        match &kind {
            EntryKind::Rejected(_) => {
                self.phase = Phase::Failed;
                self.fault = None;
            },
            EntryKind::Directory { .. } => {
                self.phase = Phase::CreatingDir;
                self.position = index + 1;
            },
            EntryKind::File { .. } => {
                self.fault = fault;
                self.phase = Phase::WritingFile;
                self.position = index + 1;
            },
        }
        entry_request(kind, contents)
    }

    /// Takes the caller's reply to the last request and returns the next
    /// request.
    pub fn advance(&mut self, reply: Reply) -> (request: Request)
        requires
            old(self).wf(),
        ensures
            final(self).wf(),
            step_allowed(*old(self), reply, *final(self), request),
    {
        proof {
            reveal(step_allowed);
        }
        match self.phase {
            Phase::Idle => match reply {
                Reply::Start => {
                    self.phase = Phase::ProbingBundle;
                    Request::ProbeBundle
                },
                _ => Request::Nothing,
            },
            Phase::ProbingBundle => match reply {
                Reply::Exists { .. } => {
                    self.phase = Phase::ProbingServerDir;
                    Request::ProbeServerDir
                },
                Reply::Missing { path } => self.fail(ExtractionError::BundleMissing { path }),
                _ => Request::Nothing,
            },
            Phase::ProbingServerDir => match reply {
                Reply::Exists { .. } => {
                    self.phase = Phase::Cleaning;
                    Request::RemoveServerDir
                },
                Reply::Missing { .. } => {
                    self.phase = Phase::CreatingServerDir;
                    Request::CreateServerDir
                },
                _ => Request::Nothing,
            },
            Phase::Cleaning => match reply {
                Reply::Done { .. } => {
                    self.phase = Phase::CreatingServerDir;
                    Request::CreateServerDir
                },
                Reply::Failed { cause, .. } => self.fail(ExtractionError::CleanFailed { cause }),
                _ => Request::Nothing,
            },
            Phase::CreatingServerDir => match reply {
                Reply::Done { .. } => {
                    self.phase = Phase::Loading;
                    Request::LoadBundle
                },
                Reply::Failed { cause, .. } => self.fail(
                    ExtractionError::CreateServerDirFailed { cause },
                ),
                _ => Request::Nothing,
            },
            Phase::Loading => match reply {
                Reply::Loaded { bytes } => match open_archive(bytes) {
                    Ok(archive) => {
                        self.entries = archive_len(&archive);
                        self.archive = Some(archive);
                        self.position = 0;
                        self.next_entry()
                    },
                    Err(error) => self.fail(
                        ExtractionError::ArchiveUnreadable { cause: error.to_string() },
                    ),
                },
                Reply::Failed { cause, .. } => self.fail(ExtractionError::OpenFailed { cause }),
                Reply::ReadFailed { cause, .. } => self.fail(
                    ExtractionError::ArchiveUnreadable { cause },
                ),
                _ => Request::Nothing,
            },
            Phase::CreatingDir => match reply {
                Reply::Done { .. } => self.next_entry(),
                Reply::Failed { path, cause } => self.fail(
                    ExtractionError::CreateDirFailed { path, cause },
                ),
                _ => Request::Nothing,
            },
            Phase::WritingFile => match reply {
                Reply::Done { path } => match self.fault.take() {
                    Some(cause) => self.fail(ExtractionError::WriteFailed { path, cause }),
                    None => self.next_entry(),
                },
                Reply::Failed { path, cause } => self.fail(
                    ExtractionError::WriteFailed { path, cause },
                ),
                Reply::ParentFailed { path, cause } => self.fail(
                    ExtractionError::CreateParentFailed { path, cause },
                ),
                Reply::CreateFailed { path, cause } => self.fail(
                    ExtractionError::CreateFileFailed { path, cause },
                ),
                _ => Request::Nothing,
            },
            Phase::Marking => match reply {
                Reply::Done { .. } | Reply::Failed { .. } => {
                    self.phase = Phase::Done;
                    Request::Succeed
                },
                _ => Request::Nothing,
            },
            Phase::Done | Phase::Failed => Request::Nothing,
        }
    }
}

/// One exchange of an extraction: the reply it was told, the request it
/// answered with, and the extraction before and after.
pub struct Turn {
    pub before: Extraction,
    pub reply: Reply,
    pub after: Extraction,
    pub request: Request,
}

/// Whether `turns` is the record of one extraction from its beginning: it
/// starts idle, every exchange is one that [`Extraction::advance`] allows, and
/// each exchange starts where the one before it ended.
pub open spec fn is_run(turns: Seq<Turn>) -> bool {
    &&& turns.len() > 0 ==> turns[0].before.phase() == Phase::Idle
    &&& forall|i: int|
        0 <= i < turns.len() ==> step_allowed(
            (#[trigger] turns[i]).before,
            turns[i].reply,
            turns[i].after,
            turns[i].request,
        )
    &&& forall|i: int, j: int|
        0 <= i && j == i + 1 && j < turns.len() ==> (#[trigger] turns[j]).before == (
        #[trigger] turns[i]).after
}

/// Whether `request` asks to create or write something in the application's
/// data directory.
pub open spec fn writes(request: Request) -> bool {
    request is CreateServerDir || request is CreateDir || request is WriteFile
        || request is WriteMarker
}

/// Whether this exchange established that no server directory of an earlier
/// extraction is left: the caller reported that there is none, or that it
/// was removed.
pub open spec fn clears(turn: Turn) -> bool {
    ||| turn.before.phase() == Phase::ProbingServerDir && turn.reply is Missing
    ||| turn.before.phase() == Phase::Cleaning && turn.reply is Done
}

/// The phases that are reached only once the old server directory is gone.
pub open spec fn past_clearing(phase: Phase) -> bool {
    phase == Phase::CreatingServerDir || phase == Phase::Loading || phase == Phase::CreatingDir
        || phase == Phase::WritingFile || phase == Phase::Marking || phase == Phase::Done
}

/// Nothing is created or written before the old server directory is gone:
/// in every extraction, a request that creates or writes comes in or after an
/// exchange in which the caller reported the server directory absent or
/// removed. So no file of an earlier version survives next to the new tree.
pub proof fn lemma_writes_follow_clearing(turns: Seq<Turn>, j: int)
    requires
        is_run(turns),
        0 <= j < turns.len(),
        writes(turns[j].request),
    ensures
        exists|i: int| 0 <= i <= j && clears(#[trigger] turns[i]),
{
    lemma_clearing_precedes(turns, j);
}

/// Once an extraction has asked to fail or to succeed, it asks for nothing
/// more: no entry is written after a rejected one.
pub proof fn lemma_nothing_after_the_end(turns: Seq<Turn>, i: int, j: int)
    requires
        is_run(turns),
        0 <= i < j < turns.len(),
        turns[i].request is Fail || turns[i].request is Succeed,
    ensures
        turns[j].request is Nothing,
        turns[j].after == turns[i].after,
    decreases j - i,
{
    let end = turns[i];
    assert(step_allowed(end.before, end.reply, end.after, end.request));
    lemma_step(end.before, end.reply, end.after, end.request);
    if j > i + 1 {
        lemma_nothing_after_the_end(turns, i, j - 1);
    }
    let last = turns[j];
    assert(last.before == turns[j - 1].after);
    assert(step_allowed(last.before, last.reply, last.after, last.request));
    lemma_step(last.before, last.reply, last.after, last.request);
}

/// The request that rejects an entry's name writes nothing and leaves the
/// extraction failed.
pub proof fn lemma_invalid_name_stops(turn: Turn)
    requires
        step_allowed(turn.before, turn.reply, turn.after, turn.request),
        turn.request == Request::Fail(ExtractionError::InvalidEntryName),
    ensures
        !writes(turn.request),
        turn.after.phase() == Phase::Failed,
{
    lemma_step(turn.before, turn.reply, turn.after, turn.request);
}

/// The marker that an extraction asks to write holds the version that the
/// extraction was made for. So once it is written, the version gate of the
/// same version asks for another extraction exactly when the entry point is
/// missing.
pub proof fn lemma_marker_satisfies_gate(turns: Seq<Turn>, j: int, entry_point_present: bool)
    requires
        is_run(turns),
        0 <= j < turns.len(),
        turns[j].request is WriteMarker,
    ensures
        turns[j].request->WriteMarker_version@ == turns[0].before.version(),
        extraction_needed(
            entry_point_present,
            Some(turns[j].request->WriteMarker_version@),
            turns[0].before.version(),
        ) == !entry_point_present,
{
    lemma_version_is_kept(turns, j);
    let turn = turns[j];
    assert(step_allowed(turn.before, turn.reply, turn.after, turn.request));
    lemma_step(turn.before, turn.reply, turn.after, turn.request);
}

/// An extraction succeeds only after it has asked to write the marker,
/// which it asks only when every entry of the archive is unpacked.
pub proof fn lemma_success_follows_marker(turns: Seq<Turn>, j: int)
    requires
        is_run(turns),
        0 <= j < turns.len(),
        turns[j].request is Succeed,
    ensures
        exists|i: int|
            0 <= i < j && (#[trigger] turns[i]).request is WriteMarker && turns[i].after.position()
                >= turns[i].after.entries(),
{
    let turn = turns[j];
    assert(step_allowed(turn.before, turn.reply, turn.after, turn.request));
    lemma_step(turn.before, turn.reply, turn.after, turn.request);
    assert(turn.before.phase() == Phase::Marking);
    assert(j > 0);
    assert(turn.before == turns[j - 1].after);
    lemma_marking_is_asked(turns, j - 1);
}

/// What one exchange settles, whatever the archive holds: the version is
/// kept; a failure leaves the extraction failed and a success, which only
/// the reply for the marker brings, leaves it done; after that nothing
/// moves; nothing is created or written before the old server directory is
/// gone; and the marker holds the version and is asked for only when no
/// entry is left.
pub proof fn lemma_step(pre: Extraction, reply: Reply, post: Extraction, request: Request)
    requires
        step_allowed(pre, reply, post, request),
    ensures
        post.version() == pre.version(),
        request is Fail ==> post.phase() == Phase::Failed,
        request is Succeed ==> post.phase() == Phase::Done && pre.phase() == Phase::Marking,
        pre.phase() == Phase::Done || pre.phase() == Phase::Failed ==> request is Nothing && post
            == pre,
        request is Nothing ==> post == pre,
        writes(request) ==> past_clearing(post.phase()),
        past_clearing(post.phase()) && !past_clearing(pre.phase()) ==> clears(
            Turn { before: pre, reply, after: post, request },
        ),
        request matches Request::WriteMarker { version } ==> version@ == pre.version()
            && post.phase() == Phase::Marking && post.position() >= post.entries(),
        post.phase() == Phase::Marking && !(request is WriteMarker) ==> request is Nothing,
{
    reveal(step_allowed);
    match pre.phase() {
        Phase::Idle => {},
        Phase::ProbingBundle => {},
        Phase::ProbingServerDir => {},
        Phase::Cleaning => {},
        Phase::CreatingServerDir => {},
        Phase::Loading => {},
        Phase::CreatingDir => {},
        Phase::WritingFile => {},
        Phase::Marking => {},
        Phase::Done => {},
        Phase::Failed => {},
    }
}

/// The number of requests for an entry, directory or file, among the first
/// `k` exchanges.
pub open spec fn entry_requests(turns: Seq<Turn>, k: int) -> int
    decreases k,
{
    if k <= 0 {
        0
    } else if turns[k - 1].request is CreateDir || turns[k - 1].request is WriteFile {
        entry_requests(turns, k - 1) + 1
    } else {
        entry_requests(turns, k - 1)
    }
}

/// The marker is written only when the whole archive is unpacked: by the
/// time an extraction asks for it, it has asked for as many entries as the
/// archive reader counts in the bundle, one request for each.
pub proof fn lemma_marker_follows_every_entry(turns: Seq<Turn>, j: int)
    requires
        is_run(turns),
        0 <= j < turns.len(),
        turns[j].request is WriteMarker,
    ensures
        entry_requests(turns, j) == turns[j].after.entries(),
        entry_requests(turns, j) == zip_len(turns[j].after.source()),
{
    lemma_entries_are_counted(turns, j);
}

/// Every request for an entry names the next entry of the bundle in its
/// order, none skipped: the request that follows `n` earlier ones carries
/// the name recorded for entry `n`, asks for a directory exactly when that
/// name ends in a separator, and for a file carries the entry's whole
/// content unless a fault is put on record.
pub proof fn lemma_requests_follow_the_archive(turns: Seq<Turn>, j: int)
    requires
        is_run(turns),
        0 <= j < turns.len(),
        turns[j].request is CreateDir || turns[j].request is WriteFile,
    ensures
        ({
            let source = turns[j].after.source();
            let n = entry_requests(turns, j);
            &&& n < zip_len(source)
            &&& zip_entry_opens(source, n)
            &&& turns[j].request is CreateDir <==> ends_in_separator(zip_entry_name(source, n))
            &&& turns[j].request matches Request::CreateDir { name } ==> name@ == zip_entry_name(
                source,
                n,
            )
            &&& turns[j].request matches Request::WriteFile { name, contents } ==> {
                &&& name@ == zip_entry_name(source, n)
                &&& turns[j].after.fault() is None ==> contents@ == zip_entry_content(source, n)
            }
        }),
{
    let turn = turns[j];
    assert(step_allowed(turn.before, turn.reply, turn.after, turn.request));
    if j > 0 {
        lemma_entries_are_counted(turns, j - 1);
        assert(turn.before == turns[j - 1].after);
    } else {
        assert(entry_requests(turns, 0) == 0);
    }
    lemma_count_step(
        turn.before,
        turn.reply,
        turn.after,
        turn.request,
        entry_requests(turns, j),
    );
}

/// The archive that is unpacked is the bundle that the caller loaded: while
/// entries are unpacked, the archive's bytes are those of an earlier reply
/// to the request for the bundle, and the archive reader has opened them.
pub proof fn lemma_archive_is_the_bundle(turns: Seq<Turn>, k: int)
    requires
        is_run(turns),
        0 <= k < turns.len(),
        unpacking(turns[k].after.phase()),
    ensures
        exists|i: int| 0 <= i <= k && loads(#[trigger] turns[i], turns[k].after.source()),
    decreases k,
{
    let turn = turns[k];
    assert(step_allowed(turn.before, turn.reply, turn.after, turn.request));
    if !loads(turn, turn.after.source()) {
        lemma_count_step(turn.before, turn.reply, turn.after, turn.request, 0);
        assert(unpacking(turn.before.phase()));
        assert(k > 0);
        assert(turn.before == turns[k - 1].after);
        lemma_archive_is_the_bundle(turns, k - 1);
        let i = choose|i: int|
            0 <= i <= k - 1 && loads(#[trigger] turns[i], turns[k - 1].after.source());
        assert(0 <= i <= k && loads(turns[i], turn.after.source()));
    }
}

/// Whether this exchange loaded `source` as the bundle: the caller handed
/// over these bytes and the archive reader opened them.
pub open spec fn loads(turn: Turn, source: Seq<u8>) -> bool {
    &&& turn.before.phase() == Phase::Loading
    &&& turn.reply matches Reply::Loaded { bytes }
    &&& bytes@ == source
    &&& zip_opens(source)
}

/// Whether `n` requests for an entry fit the state `x`: before the bundle is
/// loaded there are none, and while it is unpacked `n` is the position in
/// an archive of as many entries as the archive reader counts.
pub open spec fn counted(x: Extraction, n: int) -> bool {
    &&& before_unpacking(x.phase()) ==> n == 0
    &&& unpacking(x.phase()) ==> {
        &&& n == x.position()
        &&& x.position() <= x.entries()
        &&& x.entries() == zip_len(x.source())
    }
}

/// Whether `request` asks for an entry, directory or file.
pub open spec fn asks_entry(request: Request) -> bool {
    request is CreateDir || request is WriteFile
}

/// One exchange keeps the count of entry requests in step with the
/// extraction, and ties what it asks for to the archive.
proof fn lemma_count_step(
    pre: Extraction,
    reply: Reply,
    post: Extraction,
    request: Request,
    n: int,
)
    requires
        step_allowed(pre, reply, post, request),
    ensures
        counted(pre, n) ==> counted(post, if asks_entry(request) {
            n + 1
        } else {
            n
        }),
        counted(pre, n) && request is WriteMarker ==> n == post.entries() && n == zip_len(
            post.source(),
        ),
        counted(pre, n) && asks_entry(request) ==> {
            &&& n < zip_len(post.source())
            &&& zip_entry_opens(post.source(), n)
            &&& request is CreateDir <==> ends_in_separator(zip_entry_name(post.source(), n))
            &&& request matches Request::CreateDir { name } ==> name@ == zip_entry_name(
                post.source(),
                n,
            )
            &&& request matches Request::WriteFile { name, contents } ==> {
                &&& name@ == zip_entry_name(post.source(), n)
                &&& post.fault() is None ==> contents@ == zip_entry_content(post.source(), n)
            }
        },
        unpacking(post.phase()) ==> loads(
            Turn { before: pre, reply, after: post, request },
            post.source(),
        ) || (unpacking(pre.phase()) && post.source() == pre.source()),
{
    reveal(step_allowed);
    match pre.phase() {
        Phase::Idle => {},
        Phase::ProbingBundle => {},
        Phase::ProbingServerDir => {},
        Phase::Cleaning => {},
        Phase::CreatingServerDir => {},
        Phase::Loading => {
            lemma_loading_step(pre, reply, post, request);
        },
        Phase::CreatingDir => {
            lemma_unpacking_step(pre, reply, post, request);
        },
        Phase::WritingFile => {
            lemma_unpacking_step(pre, reply, post, request);
        },
        Phase::Marking => {},
        Phase::Done => {},
        Phase::Failed => {},
    }
}

/// The exchange that answers the request for the bundle.
proof fn lemma_loading_step(pre: Extraction, reply: Reply, post: Extraction, request: Request)
    requires
        step_allowed(pre, reply, post, request),
        pre.phase() == Phase::Loading,
    ensures
        unpacking(post.phase()) ==> loads(
            Turn { before: pre, reply, after: post, request },
            post.source(),
        ) && post.entries() == zip_len(post.source()),
        post.phase() == Phase::Marking ==> post.position() == 0 && post.entries() == 0,
        asks_entry(request) ==> follows_archive(post, request, 0),
        !asks_entry(request) && unpacking(post.phase()) ==> request is WriteMarker,
        !unpacking(post.phase()) ==> post.phase() == Phase::Failed || post.phase()
            == Phase::Loading,
        !unpacking(post.phase()) ==> !asks_entry(request) && !(request is WriteMarker),
{
    reveal(step_allowed);
}

/// An exchange while entries are unpacked.
proof fn lemma_unpacking_step(pre: Extraction, reply: Reply, post: Extraction, request: Request)
    requires
        step_allowed(pre, reply, post, request),
        pre.phase() == Phase::CreatingDir || pre.phase() == Phase::WritingFile,
    ensures
        post.source() == pre.source(),
        post.entries() == pre.entries(),
        asks_entry(request) ==> follows_archive(post, request, pre.position() as int)
            && pre.position() < pre.entries(),
        !asks_entry(request) ==> post.position() == pre.position(),
        request is WriteMarker ==> post.phase() == Phase::Marking && pre.position()
            >= pre.entries(),
        !asks_entry(request) && !(request is WriteMarker) ==> !unpacking(post.phase())
            || post.phase() == pre.phase(),
{
    reveal(step_allowed);
}

/// Whether `request`, an entry request that left the extraction in `post`,
/// is the one for entry `index` of the open archive.
pub open spec fn follows_archive(post: Extraction, request: Request, index: int) -> bool {
    &&& unpacking(post.phase())
    &&& post.position() == index + 1
    &&& zip_entry_opens(post.source(), index)
    &&& request is CreateDir <==> ends_in_separator(zip_entry_name(post.source(), index))
    &&& request matches Request::CreateDir { name } ==> name@ == zip_entry_name(
        post.source(),
        index,
    )
    &&& request matches Request::WriteFile { name, contents } ==> {
        &&& name@ == zip_entry_name(post.source(), index)
        &&& post.fault() is None ==> contents@ == zip_entry_content(post.source(), index)
    }
}

/// While an archive is being unpacked, the position in it is the number of
/// entries asked for so far.
proof fn lemma_entries_are_counted(turns: Seq<Turn>, k: int)
    requires
        is_run(turns),
        0 <= k < turns.len(),
    ensures
        counted(turns[k].before, entry_requests(turns, k)),
        counted(turns[k].after, entry_requests(turns, k + 1)),
        turns[k].request is WriteMarker ==> entry_requests(turns, k) == turns[k].after.entries()
            && entry_requests(turns, k) == zip_len(turns[k].after.source()),
    decreases k,
{
    let turn = turns[k];
    assert(step_allowed(turn.before, turn.reply, turn.after, turn.request));
    if k > 0 {
        lemma_entries_are_counted(turns, k - 1);
        assert(turn.before == turns[k - 1].after);
    } else {
        assert(entry_requests(turns, 0) == 0);
    }
    lemma_count_step(
        turn.before,
        turn.reply,
        turn.after,
        turn.request,
        entry_requests(turns, k),
    );
}

/// The phases before the first entry is asked for.
pub open spec fn before_unpacking(phase: Phase) -> bool {
    phase == Phase::Idle || phase == Phase::ProbingBundle || phase == Phase::ProbingServerDir
        || phase == Phase::Cleaning || phase == Phase::CreatingServerDir || phase
        == Phase::Loading
}

/// The phases in which entries are being unpacked or the marker written.
pub open spec fn unpacking(phase: Phase) -> bool {
    phase == Phase::CreatingDir || phase == Phase::WritingFile || phase == Phase::Marking
}

proof fn lemma_version_is_kept(turns: Seq<Turn>, k: int)
    requires
        is_run(turns),
        0 <= k < turns.len(),
    ensures
        turns[k].before.version() == turns[0].before.version(),
        turns[k].after.version() == turns[0].before.version(),
    decreases k,
{
    let turn = turns[k];
    assert(step_allowed(turn.before, turn.reply, turn.after, turn.request));
    lemma_step(turn.before, turn.reply, turn.after, turn.request);
    if k > 0 {
        lemma_version_is_kept(turns, k - 1);
        assert(turn.before == turns[k - 1].after);
    }
}

proof fn lemma_marking_is_asked(turns: Seq<Turn>, k: int)
    requires
        is_run(turns),
        0 <= k < turns.len(),
        turns[k].after.phase() == Phase::Marking,
    ensures
        exists|i: int|
            0 <= i <= k && (#[trigger] turns[i]).request is WriteMarker && turns[i].after.position()
                >= turns[i].after.entries(),
    decreases k,
{
    let turn = turns[k];
    assert(step_allowed(turn.before, turn.reply, turn.after, turn.request));
    lemma_step(turn.before, turn.reply, turn.after, turn.request);
    if !(turn.request is WriteMarker) {
        assert(turn.after == turn.before);
        assert(k > 0);
        assert(turn.before == turns[k - 1].after);
        lemma_marking_is_asked(turns, k - 1);
        let i = choose|i: int|
            0 <= i <= k - 1 && (#[trigger] turns[i]).request is WriteMarker
                && turns[i].after.position() >= turns[i].after.entries();
        assert(0 <= i <= k && turns[i].request is WriteMarker);
    }
}

proof fn lemma_clearing_precedes(turns: Seq<Turn>, k: int)
    requires
        is_run(turns),
        0 <= k < turns.len(),
    ensures
        past_clearing(turns[k].after.phase()) ==> exists|i: int|
            0 <= i <= k && clears(#[trigger] turns[i]),
        writes(turns[k].request) ==> past_clearing(turns[k].after.phase()),
    decreases k,
{
    let turn = turns[k];
    assert(step_allowed(turn.before, turn.reply, turn.after, turn.request));
    lemma_step(turn.before, turn.reply, turn.after, turn.request);
    if past_clearing(turn.after.phase()) {
        if clears(turn) {
        } else {
            assert(past_clearing(turn.before.phase()));
            assert(k > 0);
            assert(turn.before == turns[k - 1].after);
            lemma_clearing_precedes(turns, k - 1);
            let i = choose|i: int| 0 <= i <= k - 1 && clears(#[trigger] turns[i]);
            assert(0 <= i <= k && clears(turns[i]));
        }
    }
}

} // verus!
