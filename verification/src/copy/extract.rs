//! Taking the one file out of an archive that was copied from a container.

use std::path::{Path, PathBuf};

use tokio_tar::Header;

use vstd::prelude::*;

use crate::copy::archive::{entry_type_of, header_bytes, EntryType};
use crate::copy::path::{is_shown_as, path_buf_bytes, path_bytes, shown_path, shows_path};

verus! {

/// Declares the standard library's `io::Error`.
#[verifier::external_type_specification]
#[verifier::external_body]
pub struct ExIoError(std::io::Error);

/// Outcome of extracting data that was copied from a container.
#[derive(Debug, PartialEq, Eq)]
pub enum CopyFromOutcome {
    /// A single file was extracted to the provided host path.
    File(PathBuf),
    /// A directory tree was unpacked into the provided host path.
    Directory(PathBuf),
}

impl Clone for CopyFromOutcome {
    fn clone(&self) -> (res: Self)
        ensures
            res is File <==> self is File,
            path_buf_bytes(res.destination()) == path_buf_bytes(self.destination()),
    {
        match self {
            CopyFromOutcome::File(path) => CopyFromOutcome::File(path.clone()),
            CopyFromOutcome::Directory(path) => CopyFromOutcome::Directory(path.clone()),
        }
    }
}

impl CopyFromOutcome {
    /// The path that received the copied contents.
    pub open spec fn destination(&self) -> PathBuf {
        match self {
            CopyFromOutcome::File(path) => *path,
            CopyFromOutcome::Directory(path) => *path,
        }
    }

    /// Returns a borrowed view of the path that received the copied contents.
    pub fn path(&self) -> (res: &Path)
        ensures
            path_bytes(res) == path_buf_bytes(self.destination()),
    {
        match self {
            CopyFromOutcome::File(path) => path.as_path(),
            CopyFromOutcome::Directory(path) => path.as_path(),
        }
    }

    /// Consumes the outcome and yields the owned destination path.
    pub fn into_path(self) -> (res: PathBuf)
        ensures
            res == self.destination(),
    {
        match self {
            CopyFromOutcome::File(path) => path,
            CopyFromOutcome::Directory(path) => path,
        }
    }
}

/// Errors that can occur while materializing data copied from a container.
#[derive(Debug)]
pub enum CopyFromContainerError {
    /// Reading the archive or writing the file failed.
    Io(std::io::Error),
    /// The archive holds no regular file.
    EmptyArchive { destination: PathBuf },
    /// The archive holds more than one regular file.
    MultipleRegularFiles { destination: PathBuf },
    /// The archive holds an entry that is no part of a single file, or is that of a directory.
    UnsupportedEntryType { destination: PathBuf, entry_type: EntryType },
}

impl From<std::io::Error> for CopyFromContainerError {
    fn from(err: std::io::Error) -> (res: Self) {
        CopyFromContainerError::Io(err)
    }
}

impl vstd::std_specs::convert::FromSpecImpl<std::io::Error> for CopyFromContainerError {
    open spec fn obeys_from_spec() -> bool {
        true
    }

    open spec fn from_spec(err: std::io::Error) -> Self {
        CopyFromContainerError::Io(err)
    }
}

/// Standard library's `Display` of an `io::Error`. The text depends on the operating system, so
/// nothing is said of it.
#[verifier::external_body]
fn io_error_text(err: &std::io::Error) -> (res: String) {
    err.to_string()
}

/// The message of a failure to read or write, where `error` is what the system says of it.
pub open spec fn io_failure(error: Seq<char>) -> Seq<char> {
    "io failed with error: "@ + error
}

/// Writes the message of a failure to read or write.
pub fn io_failure_message(error: &str) -> (res: String)
    ensures
        res@ == io_failure(error@),
{
    String::from("io failed with error: ").concat(error)
}

/// Whether `text` is what the system says of `err`.
pub closed spec fn says_of(err: &std::io::Error, text: Seq<char>) -> bool {
    exists|error: String| #[trigger] call_ensures(io_error_text, (err,), error) && text == error@
}

/// Whether `message` is that of a failure to read or write with `err`.
pub open spec fn is_io_failure(err: &std::io::Error, message: Seq<char>) -> bool {
    exists|error: Seq<char>| says_of(err, error) && message == #[trigger] io_failure(error)
}

/// Writes the message of a failure to read or write with `err`.
pub fn io_failure_of(err: &std::io::Error) -> (res: String)
    ensures
        is_io_failure(err, res@),
{
    let error = io_error_text(err);
    let res = io_failure_message(&error);
    assert(says_of(err, error@) && res@ == io_failure(error@));
    res
}

impl CopyFromContainerError {
    /// The message of the error, where `shown` is the text of the destination, or what the system
    /// says of a failure to read or write.
    pub open spec fn text(&self, shown: Seq<char>) -> Seq<char> {
        match self {
            CopyFromContainerError::Io(_) => io_failure(shown),
            CopyFromContainerError::EmptyArchive { .. } =>
                "archive did not contain any regular files; cannot write to "@ + shown,
            CopyFromContainerError::MultipleRegularFiles { .. } =>
                "archive contains multiple regular files; cannot write to single-file destination "@
                    + shown,
            CopyFromContainerError::UnsupportedEntryType { entry_type, .. } =>
                "archive entry type '"@ + entry_type.name()
                    + "' is not supported for single-file destination "@ + shown,
        }
    }

    /// Whether `shown` is a text of the destination that the error names, or what the system says
    /// of a failure to read or write.
    pub open spec fn shows_detail(&self, shown: Seq<char>) -> bool {
        match self {
            CopyFromContainerError::Io(err) => says_of(err, shown),
            CopyFromContainerError::EmptyArchive { destination } => {
                &&& is_shown_as(destination, shown)
                &&& shows_path(shown, path_buf_bytes(*destination))
            },
            CopyFromContainerError::MultipleRegularFiles { destination } => {
                &&& is_shown_as(destination, shown)
                &&& shows_path(shown, path_buf_bytes(*destination))
            },
            CopyFromContainerError::UnsupportedEntryType { destination, .. } => {
                &&& is_shown_as(destination, shown)
                &&& shows_path(shown, path_buf_bytes(*destination))
            },
        }
    }

    /// Writes the message of the error.
    pub fn message(&self) -> (res: String)
        ensures
            exists|shown: Seq<char>|
                self.shows_detail(shown) && res@ == #[trigger] self.text(shown),
    {
        match self {
            CopyFromContainerError::Io(err) => {
                let res = io_failure_of(err);
                proof {
                    let shown = choose|error: Seq<char>|
                        says_of(err, error) && res@ == #[trigger] io_failure(error);
                    assert(self.shows_detail(shown) && res@ == self.text(shown));
                }
                res
            },
            CopyFromContainerError::EmptyArchive { destination } => {
                let shown = shown_path(destination);
                let res = String::from(
                    "archive did not contain any regular files; cannot write to ",
                ).concat(&shown);
                assert(res@ == self.text(shown@));
                res
            },
            CopyFromContainerError::MultipleRegularFiles { destination } => {
                let shown = shown_path(destination);
                let res = String::from(
                    "archive contains multiple regular files; cannot write to single-file destination ",
                ).concat(&shown);
                assert(res@ == self.text(shown@));
                res
            },
            CopyFromContainerError::UnsupportedEntryType { destination, entry_type } => {
                let shown = shown_path(destination);
                let res = String::from("archive entry type '").concat(&entry_type.text()).concat(
                    "' is not supported for single-file destination ",
                ).concat(&shown);
                assert(res@ == self.text(shown@));
                res
            },
        }
    }
}

/// Whether an entry of this type holds the contents of a file.
pub open spec fn is_regular(entry_type: EntryType) -> bool {
    entry_type == EntryType::Regular || entry_type == EntryType::Continuous
}

/// Whether an entry of this type says something of another entry, or nothing that a single file
/// needs, and may stand beside it.
pub open spec fn is_annotation(entry_type: EntryType) -> bool {
    ||| entry_type == EntryType::GNULongName
    ||| entry_type == EntryType::GNULongLink
    ||| entry_type == EntryType::XGlobalHeader
    ||| entry_type == EntryType::XHeader
    ||| entry_type == EntryType::GNUSparse
}

/// Whether an entry of this type is passed over where it is met.
pub open spec fn is_passed_over(entry_type: EntryType) -> bool {
    entry_type == EntryType::Directory || is_annotation(entry_type)
}

/// What is to be done with an entry of the archive.
#[derive(Debug, Clone, Copy, PartialEq, Eq, Structural)]
pub enum EntryAction {
    /// Write its contents to the destination.
    Write,
    /// Pass it over.
    Skip,
}

/// How far the extraction of the one file of an archive has come.
#[derive(Debug)]
pub struct SingleFileExtraction {
    destination: PathBuf,
    file_written: bool,
    directory_met: bool,
}

/// Whether `res` is what becomes of an entry of the given type that `before` meets.
pub open spec fn decided(
    before: SingleFileExtraction,
    entry_type: EntryType,
    res: Result<(SingleFileExtraction, EntryAction), CopyFromContainerError>,
) -> bool {
    if is_regular(entry_type) {
        if before.file_written() {
            res == Err::<(SingleFileExtraction, EntryAction), _>(
                CopyFromContainerError::MultipleRegularFiles { destination: before.destination() },
            )
        } else {
            &&& res matches Ok((next, action))
            &&& action == EntryAction::Write
            &&& next.file_written()
            &&& next.directory_met() == before.directory_met()
            &&& next.destination() == before.destination()
        }
    } else if is_passed_over(entry_type) {
        &&& res matches Ok((next, action))
        &&& action == EntryAction::Skip
        &&& next.file_written() == before.file_written()
        &&& next.directory_met() == (before.directory_met() || entry_type == EntryType::Directory)
        &&& next.destination() == before.destination()
    } else {
        res == Err::<(SingleFileExtraction, EntryAction), _>(
            CopyFromContainerError::UnsupportedEntryType {
                destination: before.destination(),
                entry_type,
            },
        )
    }
}

impl SingleFileExtraction {
    /// Where the file is written to.
    pub closed spec fn destination(&self) -> PathBuf {
        self.destination
    }

    /// Whether a file was met.
    pub closed spec fn file_written(&self) -> bool {
        self.file_written
    }

    /// Whether a directory was met: the archive is then that of a directory.
    pub closed spec fn directory_met(&self) -> bool {
        self.directory_met
    }

    /// The state before the first entry.
    pub fn new(destination: PathBuf) -> (res: Self)
        ensures
            res.destination() == destination,
            !res.file_written(),
            !res.directory_met(),
    {
        SingleFileExtraction { destination, file_written: false, directory_met: false }
    }

    /// Decides what to do with an entry of the given type: the first regular file is written, a
    /// second one refused, as is every entry that is no part of a single file. A directory is
    /// passed over, but not forgotten.
    pub fn entry_of_type(self, entry_type: EntryType) -> (res: Result<
        (Self, EntryAction),
        CopyFromContainerError,
    >)
        ensures
            decided(self, entry_type, res),
    {
        let regular = match entry_type {
            EntryType::Regular => true,
            EntryType::Continuous => true,
            _ => false,
        };
        if regular {
            if self.file_written {
                return Err(
                    CopyFromContainerError::MultipleRegularFiles { destination: self.destination },
                );
            }
            return Ok(
                (
                    SingleFileExtraction {
                        destination: self.destination,
                        file_written: true,
                        directory_met: self.directory_met,
                    },
                    EntryAction::Write,
                ),
            );
        }
        match entry_type {
            EntryType::Directory => Ok(
                (
                    SingleFileExtraction {
                        destination: self.destination,
                        file_written: self.file_written,
                        directory_met: true,
                    },
                    EntryAction::Skip,
                ),
            ),
            EntryType::GNULongName
            | EntryType::GNULongLink
            | EntryType::XGlobalHeader
            | EntryType::XHeader
            | EntryType::GNUSparse => Ok((self, EntryAction::Skip)),
            _ => Err(
                CopyFromContainerError::UnsupportedEntryType {
                    destination: self.destination,
                    entry_type,
                },
            ),
        }
    }

    /// Decides what to do with the entry of `header`.
    pub fn entry(self, header: &Header) -> (res: Result<
        (Self, EntryAction),
        CopyFromContainerError,
    >)
        ensures
            decided(self, entry_type_of(header_bytes(*header)[156]), res),
    {
        self.entry_of_type(EntryType::of_header(header))
    }

    /// Ends the extraction after the last entry. A file that came with a directory was not what
    /// was asked for, so that it does not count.
    pub fn finish(self) -> (res: Result<CopyFromOutcome, CopyFromContainerError>)
        ensures
            self.file_written() && self.directory_met() ==> res == Err::<CopyFromOutcome, _>(
                CopyFromContainerError::UnsupportedEntryType {
                    destination: self.destination(),
                    entry_type: EntryType::Directory,
                },
            ),
            self.file_written() && !self.directory_met() ==> res == Ok::<_, CopyFromContainerError>(
                CopyFromOutcome::File(self.destination()),
            ),
            !self.file_written() ==> res == Err::<CopyFromOutcome, _>(
                CopyFromContainerError::EmptyArchive { destination: self.destination() },
            ),
    {
        if !self.file_written {
            return Err(CopyFromContainerError::EmptyArchive { destination: self.destination });
        }
        if self.directory_met {
            return Err(
                CopyFromContainerError::UnsupportedEntryType {
                    destination: self.destination,
                    entry_type: EntryType::Directory,
                },
            );
        }
        Ok(CopyFromOutcome::File(self.destination))
    }
}

/// What the extraction of an archive comes to.
pub enum Verdict {
    File,
    Empty,
    Multiple,
    Unsupported(EntryType),
}

/// What an archive comes to whose remaining entries have the given types.
pub open spec fn verdict(
    file_written: bool,
    directory_met: bool,
    types: Seq<EntryType>,
) -> Verdict
    decreases types.len(),
{
    if types.len() == 0 {
        if !file_written {
            Verdict::Empty
        } else if directory_met {
            Verdict::Unsupported(EntryType::Directory)
        } else {
            Verdict::File
        }
    } else if is_regular(types[0]) {
        if file_written {
            Verdict::Multiple
        } else {
            verdict(true, directory_met, types.drop_first())
        }
    } else if is_passed_over(types[0]) {
        verdict(
            file_written,
            directory_met || types[0] == EntryType::Directory,
            types.drop_first(),
        )
    } else {
        Verdict::Unsupported(types[0])
    }
}

/// The error that an archive ends with.
pub open spec fn verdict_error(destination: PathBuf, verdict: Verdict) -> Option<
    CopyFromContainerError,
> {
    match verdict {
        Verdict::File => None,
        Verdict::Empty => Some(CopyFromContainerError::EmptyArchive { destination }),
        Verdict::Multiple => Some(CopyFromContainerError::MultipleRegularFiles { destination }),
        Verdict::Unsupported(entry_type) => Some(
            CopyFromContainerError::UnsupportedEntryType { destination, entry_type },
        ),
    }
}

/// Going through an archive entry by entry comes to what the archive as a whole comes to: a step
/// that goes on leaves the verdict to the entries that are left, and one that ends gives it.
pub proof fn law_entries_decide_the_archive(
    before: SingleFileExtraction,
    types: Seq<EntryType>,
    res: Result<(SingleFileExtraction, EntryAction), CopyFromContainerError>,
)
    requires
        types.len() > 0,
        decided(before, types[0], res),
    ensures
        match res {
            Ok((next, _)) => {
                &&& next.destination() == before.destination()
                &&& verdict(before.file_written(), before.directory_met(), types) == verdict(
                    next.file_written(),
                    next.directory_met(),
                    types.drop_first(),
                )
            },
            Err(err) => verdict_error(
                before.destination(),
                verdict(before.file_written(), before.directory_met(), types),
            ) == Some(err),
        },
{
}

/// How many of the entries hold the contents of a file.
pub open spec fn regular_count(types: Seq<EntryType>) -> nat {
    types.filter(|t: EntryType| is_regular(t)).len()
}

/// Whether an entry of this type belongs in an archive of a single file.
pub open spec fn fits_single_file(entry_type: EntryType) -> bool {
    is_regular(entry_type) || is_annotation(entry_type)
}

/// An archive yields its file exactly when it holds one regular file and, beside it, only entries
/// that annotate others: neither a directory nor anything unsupported.
pub proof fn law_exactly_one_regular_file(types: Seq<EntryType>)
    ensures
        verdict(false, false, types) == Verdict::File <==> regular_count(types) == 1 && forall|
            i: int,
        |
            0 <= i < types.len() ==> fits_single_file(#[trigger] types[i]),
{
    lemma_verdict(false, false, types);
}

/// An archive of a directory is refused, whatever else it holds.
pub proof fn law_directory_is_refused(destination: PathBuf, types: Seq<EntryType>)
    requires
        types.contains(EntryType::Directory),
    ensures
        verdict(false, false, types) != Verdict::File,
        verdict_error(destination, verdict(false, false, types)) is Some,
{
    lemma_verdict(false, false, types);
    let i = choose|i: int| 0 <= i < types.len() && types[i] == EntryType::Directory;
    assert(!fits_single_file(types[i]));
}

/// Where every entry is a regular file or annotates one, the number of regular files decides: none
/// makes the archive empty, one is the file that it yields, and more of them are refused.
pub proof fn law_number_of_files_decides(types: Seq<EntryType>)
    requires
        forall|i: int| 0 <= i < types.len() ==> fits_single_file(#[trigger] types[i]),
    ensures
        verdict(false, false, types) == (if regular_count(types) == 0 {
            Verdict::Empty
        } else if regular_count(types) == 1 {
            Verdict::File
        } else {
            Verdict::Multiple
        }),
{
    lemma_fitting_verdict(false, types);
}

/// An archive without a regular file and without unsupported entries is empty, be it without any
/// entry or with directories only.
pub proof fn law_no_regular_file_is_empty(types: Seq<EntryType>)
    ensures
        verdict(false, false, types) == Verdict::Empty <==> forall|i: int|
            0 <= i < types.len() ==> is_passed_over(#[trigger] types[i]),
{
    lemma_empty_verdict(false, types);
}

proof fn lemma_empty_verdict(directory_met: bool, types: Seq<EntryType>)
    ensures
        verdict(false, directory_met, types) == Verdict::Empty <==> forall|i: int|
            0 <= i < types.len() ==> is_passed_over(#[trigger] types[i]),
    decreases types.len(),
{
    if types.len() > 0 {
        let rest = types.drop_first();
        lemma_empty_verdict(directory_met, rest);
        lemma_empty_verdict(true, rest);
        lemma_after_file_not_empty(directory_met, rest);
        assert(forall|i: int| 0 <= i < rest.len() ==> #[trigger] rest[i] == types[i + 1]);
        if is_passed_over(types[0]) && (forall|i: int|
            0 <= i < rest.len() ==> is_passed_over(#[trigger] rest[i])) {
            assert forall|i: int| 0 <= i < types.len() implies is_passed_over(
                #[trigger] types[i],
            ) by {
                if i > 0 {
                    assert(rest[i - 1] == types[i]);
                }
            }
        }
    }
}

proof fn lemma_after_file_not_empty(directory_met: bool, types: Seq<EntryType>)
    ensures
        verdict(true, directory_met, types) != Verdict::Empty,
    decreases types.len(),
{
    if types.len() > 0 {
        lemma_after_file_not_empty(directory_met, types.drop_first());
        lemma_after_file_not_empty(true, types.drop_first());
    }
}

proof fn lemma_fitting_verdict(file_written: bool, types: Seq<EntryType>)
    requires
        forall|i: int| 0 <= i < types.len() ==> fits_single_file(#[trigger] types[i]),
    ensures
        ({
            let met = regular_count(types) + if file_written { 1nat } else { 0nat };
            verdict(file_written, false, types) == (if met == 0 {
                Verdict::Empty
            } else if met == 1 {
                Verdict::File
            } else {
                Verdict::Multiple
            })
        }),
    decreases types.len(),
{
    if types.len() == 0 {
        reveal(Seq::filter);
    } else {
        let rest = types.drop_first();
        lemma_count_first(types);
        assert(forall|i: int| 0 <= i < rest.len() ==> #[trigger] rest[i] == types[i + 1]);
        lemma_fitting_verdict(file_written, rest);
        lemma_fitting_verdict(true, rest);
    }
}

proof fn lemma_count_first(types: Seq<EntryType>)
    requires
        types.len() > 0,
    ensures
        regular_count(types) == regular_count(types.drop_first()) + if is_regular(types[0]) {
            1nat
        } else {
            0nat
        },
{
    let regular = |t: EntryType| is_regular(t);
    let rest = types.drop_first();
    assert(types =~= seq![types[0]] + rest);
    Seq::filter_distributes_over_add(seq![types[0]], rest, regular);
    assert(seq![types[0]].filter(regular).len() == (if is_regular(types[0]) {
        1nat
    } else {
        0nat
    })) by {
        reveal_with_fuel(Seq::filter, 2);
        assert(seq![types[0]].drop_last() =~= Seq::empty());
    }
}

proof fn lemma_verdict(file_written: bool, directory_met: bool, types: Seq<EntryType>)
    ensures
        verdict(file_written, directory_met, types) == Verdict::File <==> !directory_met
            && regular_count(types) == (if file_written {
            0nat
        } else {
            1nat
        }) && forall|i: int| 0 <= i < types.len() ==> fits_single_file(#[trigger] types[i]),
    decreases types.len(),
{
    if types.len() == 0 {
        reveal(Seq::filter);
    } else {
        let rest = types.drop_first();
        lemma_count_first(types);
        assert(forall|i: int| 0 <= i < rest.len() ==> #[trigger] rest[i] == types[i + 1]);
        let fine = forall|i: int| 0 <= i < types.len() ==> fits_single_file(#[trigger] types[i]);
        let rest_fine = forall|i: int| 0 <= i < rest.len() ==> fits_single_file(#[trigger] rest[i]);
        assert(fine <==> rest_fine && fits_single_file(types[0])) by {
            if rest_fine && fits_single_file(types[0]) {
                assert forall|i: int| 0 <= i < types.len() implies fits_single_file(
                    #[trigger] types[i],
                ) by {
                    if i > 0 {
                        assert(rest[i - 1] == types[i]);
                    }
                }
            }
        }
        lemma_verdict(file_written, directory_met, rest);
        lemma_verdict(file_written, true, rest);
        lemma_verdict(true, directory_met, rest);
    }
}

/// What becomes of an entry, whatever was met before: the first regular or contiguous file is
/// written and any further one refused, directories and annotations are passed over and only
/// directories are remembered, and every other entry is refused with its type named.
pub proof fn law_entries_are_written_passed_over_or_refused(
    before: SingleFileExtraction,
    entry_type: EntryType,
    res: Result<(SingleFileExtraction, EntryAction), CopyFromContainerError>,
    header: &Header,
    of_header: Result<(SingleFileExtraction, EntryAction), CopyFromContainerError>,
)
    requires
        call_ensures(SingleFileExtraction::entry_of_type, (before, entry_type), res),
        call_ensures(SingleFileExtraction::entry, (before, header), of_header),
    ensures
        entry_type is Regular || entry_type is Continuous ==> {
            &&& !before.file_written() ==> (res matches Ok((next, EntryAction::Write))
                && next.file_written() && next.directory_met() == before.directory_met()
                && next.destination() == before.destination())
            &&& before.file_written() ==> res == Err::<(SingleFileExtraction, EntryAction), _>(
                CopyFromContainerError::MultipleRegularFiles { destination: before.destination() },
            )
        },
        entry_type is Directory || entry_type is GNULongName || entry_type is GNULongLink
            || entry_type is XGlobalHeader || entry_type is XHeader || entry_type is GNUSparse ==> (
        res matches Ok((next, EntryAction::Skip)) && next.file_written() == before.file_written()
            && (next.directory_met() <==> before.directory_met() || entry_type is Directory)
            && next.destination() == before.destination()),
        entry_type is Link || entry_type is Symlink || entry_type is Char || entry_type is Block
            || entry_type is Fifo || entry_type is Other ==> res == Err::<
            (SingleFileExtraction, EntryAction),
            _,
        >(
            CopyFromContainerError::UnsupportedEntryType {
                destination: before.destination(),
                entry_type,
            },
        ),
        header_bytes(*header)[156] == 48 || header_bytes(*header)[156] == 0 ==> {
            &&& !before.file_written() ==> (of_header matches Ok((next, EntryAction::Write))
                && next.file_written())
            &&& before.file_written() ==> (of_header matches Err(
                CopyFromContainerError::MultipleRegularFiles { .. },
            ))
        },
        header_bytes(*header)[156] == 53 ==> (of_header matches Ok((next, EntryAction::Skip))
            && next.directory_met()),
        header_bytes(*header)[156] == 50 ==> of_header is Err,
{
}

/// What an extraction comes to rests on what was met: a file without a directory is the outcome, at
/// the destination; a file that came with a directory and an archive without a file are refused.
pub proof fn law_extraction_ends_as_it_went(
    destination: PathBuf,
    fresh: SingleFileExtraction,
    extraction: SingleFileExtraction,
    res: Result<CopyFromOutcome, CopyFromContainerError>,
)
    requires
        call_ensures(SingleFileExtraction::new, (destination,), fresh),
        call_ensures(SingleFileExtraction::finish, (extraction,), res),
    ensures
        fresh.destination() == destination && !fresh.file_written() && !fresh.directory_met(),
        res is Ok <==> extraction.file_written() && !extraction.directory_met(),
        res matches Ok(outcome) ==> outcome == CopyFromOutcome::File(extraction.destination()),
        !extraction.file_written() ==> res == Err::<CopyFromOutcome, _>(
            CopyFromContainerError::EmptyArchive { destination: extraction.destination() },
        ),
        extraction.file_written() && extraction.directory_met() ==> res == Err::<
            CopyFromOutcome,
            _,
        >(
            CopyFromContainerError::UnsupportedEntryType {
                destination: extraction.destination(),
                entry_type: EntryType::Directory,
            },
        ),
{
}

/// Whether `extractions` go through an archive whose entries have the given types, one after the
/// other.
pub open spec fn goes_through(
    extractions: Seq<SingleFileExtraction>,
    types: Seq<EntryType>,
) -> bool {
    &&& extractions.len() == types.len() + 1
    &&& forall|i: int|
        0 <= i < types.len() ==> exists|action: EntryAction| #[trigger]
            call_ensures(
                SingleFileExtraction::entry_of_type,
                (extractions[i], #[trigger] types[i]),
                Ok((extractions[i + 1], action)),
            )
}

/// Whether a file was met is whether one of the entries was one, and likewise for directories; the
/// destination stays what it was.
pub proof fn law_extraction_knows_what_it_met(
    extractions: Seq<SingleFileExtraction>,
    types: Seq<EntryType>,
    n: nat,
)
    requires
        goes_through(extractions, types),
        n <= types.len(),
        !extractions[0].file_written(),
        !extractions[0].directory_met(),
    ensures
        extractions[n as int].destination() == extractions[0].destination(),
        extractions[n as int].file_written() <==> exists|i: int|
            0 <= i < n && ((#[trigger] types[i]) is Regular || types[i] is Continuous),
        extractions[n as int].directory_met() <==> exists|i: int|
            0 <= i < n && (#[trigger] types[i]) is Directory,
    decreases n,
{
    if n > 0 {
        law_extraction_knows_what_it_met(extractions, types, (n - 1) as nat);
        let last = types[n - 1];
        let before = extractions[n - 1];
        let action = choose|action: EntryAction| #[trigger]
            call_ensures(
                SingleFileExtraction::entry_of_type,
                (before, last),
                Ok((extractions[n - 1 + 1], action)),
            );
        assert(decided(before, last, Ok((extractions[n as int], action))));
        if extractions[n as int].file_written() && !before.file_written() {
            assert(last is Regular || last is Continuous);
        }
        if extractions[n as int].directory_met() && !before.directory_met() {
            assert(last is Directory);
        }
    }
}

/// The path of an outcome is the one that it holds, borrowed, owned or copied.
pub proof fn law_outcomes_give_their_path(
    held: PathBuf,
    outcome: CopyFromOutcome,
    path: &Path,
    owned: PathBuf,
    copied: CopyFromOutcome,
)
    requires
        outcome == CopyFromOutcome::File(held) || outcome == CopyFromOutcome::Directory(held),
        call_ensures(CopyFromOutcome::path, (&outcome,), path),
        call_ensures(CopyFromOutcome::into_path, (outcome,), owned),
        call_ensures(<CopyFromOutcome as Clone>::clone, (&outcome,), copied),
    ensures
        path_bytes(path) == path_buf_bytes(held),
        owned == held,
        outcome is File ==> (copied matches CopyFromOutcome::File(same) && path_buf_bytes(same)
            == path_buf_bytes(held)),
        outcome is Directory ==> (copied matches CopyFromOutcome::Directory(same)
            && path_buf_bytes(same) == path_buf_bytes(held)),
{
}

/// Every error says what was wrong with the archive and, where it is about one, for which
/// destination; a failure to read or write says what the system says of it.
pub proof fn law_copy_errors_name_their_cause(
    err: &CopyFromContainerError,
    message: String,
    error: &str,
    written: String,
)
    requires
        call_ensures(CopyFromContainerError::message, (err,), message),
        call_ensures(io_failure_message, (error,), written),
    ensures
        written@ == "io failed with error: "@ + error@,
        err matches CopyFromContainerError::Io(io) ==> exists|shown: Seq<char>| #[trigger]
            says_of(io, shown) && message@ == "io failed with error: "@ + shown,
        err matches CopyFromContainerError::EmptyArchive { destination } ==> exists|shown: Seq<char>|
            #[trigger] is_shown_as(destination, shown) && message@
                == "archive did not contain any regular files; cannot write to "@ + shown,
        err matches CopyFromContainerError::MultipleRegularFiles { destination } ==> exists|
            shown: Seq<char>,
        | #[trigger]
            is_shown_as(destination, shown) && message@
                == "archive contains multiple regular files; cannot write to single-file destination "@
                + shown,
        err matches CopyFromContainerError::UnsupportedEntryType { destination, entry_type }
            ==> exists|shown: Seq<char>| #[trigger]
            is_shown_as(destination, shown) && message@ == "archive entry type '"@
                + entry_type.name() + "' is not supported for single-file destination "@ + shown,
{
    let shown = choose|shown: Seq<char>|
        err.shows_detail(shown) && message@ == #[trigger] err.text(shown);
    assert(err.shows_detail(shown));
}

/// The message of a failure to read or write ends with what the system says of that very failure.
proof fn law_io_failures_end_with_their_cause(err: &std::io::Error, message: String)
    requires
        call_ensures(io_failure_of, (err,), message),
    ensures
        exists|error: String| #[trigger]
            call_ensures(io_error_text, (err,), error) && message@ == "io failed with error: "@
                + error@,
{
    let shown = choose|error: Seq<char>|
        says_of(err, error) && message@ == #[trigger] io_failure(error);
    let error = choose|error: String| #[trigger]
        call_ensures(io_error_text, (err,), error) && shown == error@;
    assert(message@ == "io failed with error: "@ + error@);
}

} // verus!
