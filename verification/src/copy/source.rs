//! What is copied into a container, and how it is packed.

use std::path::{Path, PathBuf};

use tokio_tar::Header;

use vstd::prelude::*;

use crate::copy::archive::{
    data_header, entry_type_of, header_bytes, law_data_header_is_a_regular_file,
    lemma_data_header_reads_back, make_data_header, says_data_of,
};
use crate::copy::extract::{
    decided, io_failure, io_failure_of, is_io_failure, says_of, CopyFromContainerError, EntryAction,
    SingleFileExtraction,
};
use crate::copy::path::{path_buf_bytes, path_bytes};
use crate::text::{
    law_stripping_is_thorough, lemma_strip_repeated, repeated, strip_all_leading, strip_leading,
};

verus! {

/// Where the contents of a copy come from.
#[derive(Debug)]
pub enum CopyDataSource {
    /// A file or a directory of the host.
    File(PathBuf),
    /// Bytes in memory.
    Data(Vec<u8>),
}

/// Whether two sources have the same contents.
pub open spec fn same_source(a: CopyDataSource, b: CopyDataSource) -> bool {
    match (a, b) {
        (CopyDataSource::File(a), CopyDataSource::File(b)) => path_buf_bytes(a) == path_buf_bytes(b),
        (CopyDataSource::Data(a), CopyDataSource::Data(b)) => a@ == b@,
        _ => false,
    }
}

impl Clone for CopyDataSource {
    fn clone(&self) -> (res: Self)
        ensures
            same_source(res, *self),
    {
        match self {
            CopyDataSource::File(path) => CopyDataSource::File(path.clone()),
            CopyDataSource::Data(data) => CopyDataSource::Data(data.clone()),
        }
    }
}

impl From<&Path> for CopyDataSource {
    fn from(value: &Path) -> (res: Self)
        ensures
            res matches CopyDataSource::File(path) && path_buf_bytes(path) == path_bytes(value),
    {
        CopyDataSource::File(value.to_path_buf())
    }
}

impl vstd::std_specs::convert::FromSpecImpl<&Path> for CopyDataSource {
    open spec fn obeys_from_spec() -> bool {
        false
    }

    open spec fn from_spec(value: &Path) -> Self {
        arbitrary()
    }
}

impl From<PathBuf> for CopyDataSource {
    fn from(value: PathBuf) -> (res: Self) {
        CopyDataSource::File(value)
    }
}

impl vstd::std_specs::convert::FromSpecImpl<PathBuf> for CopyDataSource {
    open spec fn obeys_from_spec() -> bool {
        true
    }

    open spec fn from_spec(value: PathBuf) -> Self {
        CopyDataSource::File(value)
    }
}

impl From<Vec<u8>> for CopyDataSource {
    fn from(value: Vec<u8>) -> (res: Self) {
        CopyDataSource::Data(value)
    }
}

impl vstd::std_specs::convert::FromSpecImpl<Vec<u8>> for CopyDataSource {
    open spec fn obeys_from_spec() -> bool {
        true
    }

    open spec fn from_spec(value: Vec<u8>) -> Self {
        CopyDataSource::Data(value)
    }
}

/// Errors that can occur while packing what is copied into a container.
#[derive(Debug)]
pub enum CopyToContainerError {
    /// Reading the source or writing the archive failed.
    IoError(std::io::Error),
    /// A path has no name.
    PathNameError(String),
}

impl CopyToContainerError {
    /// Writes the message of the error.
    pub fn message(&self) -> (res: String)
        ensures
            match self {
                CopyToContainerError::IoError(err) => is_io_failure(err, res@),
                CopyToContainerError::PathNameError(name) => res@
                    == "failed to get the path name: "@ + name@,
            },
    {
        match self {
            CopyToContainerError::IoError(err) => io_failure_of(err),
            CopyToContainerError::PathNameError(name) => String::from(
                "failed to get the path name: ",
            ).concat(name),
        }
    }
}

/// Takes the leading slashes off a path, which archives do not take.
pub fn make_path_relative(path: &str) -> (res: String)
    ensures
        res@ == strip_leading(path@, "/"@),
{
    strip_all_leading(path, "/").to_owned()
}

/// One thing to add to an archive.
pub enum AppendStep<'a> {
    /// A file or a directory of the host, under a path of the archive.
    Source { path: String, source: &'a PathBuf },
    /// Bytes in memory, under a path of the archive.
    Data { path: String, header: Header, data: &'a Vec<u8> },
}

/// Whether `step` adds the contents of `source` under `target`.
pub open spec fn appends(step: AppendStep<'_>, source: CopyDataSource, target: Seq<char>) -> bool {
    match (step, source) {
        (AppendStep::Source { path, source: from }, CopyDataSource::File(file)) => {
            &&& path@ == strip_leading(target, "/"@)
            &&& *from == file
        },
        (AppendStep::Data { path, header, data }, CopyDataSource::Data(bytes)) => {
            &&& path@ == strip_leading(target, "/"@)
            &&& header_bytes(header) == data_header(bytes@.len() as u64)
            &&& *data == bytes
        },
        _ => false,
    }
}

/// How a file or directory of the host is added.
#[derive(Debug, Clone, Copy, PartialEq, Eq, Structural)]
pub enum FileAppend {
    /// With everything below it.
    DirectoryTree,
    /// As one file.
    SingleFile,
}

/// Decides how a path of the host is added, from whether it is a directory.
pub fn append_tar_file(is_dir: bool) -> (res: FileAppend)
    ensures
        res == (if is_dir {
            FileAppend::DirectoryTree
        } else {
            FileAppend::SingleFile
        }),
{
    if is_dir {
        FileAppend::DirectoryTree
    } else {
        FileAppend::SingleFile
    }
}

/// Prepares bytes to be added to an archive.
pub fn append_tar_bytes<'a>(data: &'a Vec<u8>, target_path: &str) -> (res: AppendStep<'a>)
    ensures
        appends(res, CopyDataSource::Data(*data), target_path@),
{
    AppendStep::Data {
        path: make_path_relative(target_path),
        header: make_data_header(data.len() as u64),
        data,
    }
}

impl CopyDataSource {
    /// Prepares the contents to be added to an archive.
    pub fn append_tar<'a>(&'a self, target_path: &str) -> (res: AppendStep<'a>)
        ensures
            appends(res, *self, target_path@),
    {
        match self {
            CopyDataSource::File(source) => AppendStep::Source {
                path: make_path_relative(target_path),
                source,
            },
            CopyDataSource::Data(data) => append_tar_bytes(data, target_path),
        }
    }
}

/// One thing to copy into a container.
#[derive(Debug)]
pub struct CopyToContainer {
    target: String,
    source: CopyDataSource,
}

impl Clone for CopyToContainer {
    fn clone(&self) -> (res: Self)
        ensures
            res.target() == self.target(),
            same_source(res.source(), self.source()),
    {
        CopyToContainer { target: self.target.clone(), source: self.source.clone() }
    }
}

impl CopyToContainer {
    /// The path inside the container.
    pub closed spec fn target(&self) -> Seq<char> {
        self.target@
    }

    /// Where the contents come from.
    pub closed spec fn source(&self) -> CopyDataSource {
        self.source
    }

    /// The copy of `source` to `target`.
    pub fn new<S: Into<CopyDataSource>, T: Into<String>>(source: S, target: T) -> (res: Self)
        ensures
            call_ensures(S::into, (source,), res.source()),
            exists|text: String|
                res.target() == text@ && #[trigger] call_ensures(T::into, (target,), text),
    {
        let source: CopyDataSource = source.into();
        let target: String = target.into();
        CopyToContainer { target, source }
    }

    /// Prepares the copy to be added to an archive.
    pub fn append_tar<'a>(&'a self) -> (res: AppendStep<'a>)
        ensures
            appends(res, self.source(), self.target()),
    {
        self.source.append_tar(&self.target)
    }

    /// What the archive of this copy alone is made of.
    pub fn tar<'a>(&'a self) -> (res: Vec<AppendStep<'a>>)
        ensures
            res@.len() == 1,
            appends(res@[0], self.source(), self.target()),
    {
        let mut steps: Vec<AppendStep<'a>> = Vec::new();
        steps.push(self.append_tar());
        steps
    }
}

/// Things to copy into a container together.
#[derive(Debug)]
pub struct CopyToContainerCollection(Vec<CopyToContainer>);

impl Clone for CopyToContainerCollection {
    fn clone(&self) -> (res: Self)
        ensures
            res.entries().len() == self.entries().len(),
            forall|i: int|
                #![trigger res.entries()[i]]
                0 <= i < self.entries().len() ==> {
                    &&& res.entries()[i].target() == self.entries()[i].target()
                    &&& same_source(res.entries()[i].source(), self.entries()[i].source())
                },
    {
        CopyToContainerCollection(self.0.clone())
    }
}

impl CopyToContainerCollection {
    /// The copies, in their order.
    pub closed spec fn entries(&self) -> Seq<CopyToContainer> {
        self.0@
    }

    /// The given copies.
    pub fn new(collection: Vec<CopyToContainer>) -> (res: Self)
        ensures
            res.entries() == collection@,
    {
        CopyToContainerCollection(collection)
    }

    /// Adds a copy behind the others.
    pub fn add(&mut self, entry: CopyToContainer)
        ensures
            final(self).entries() == old(self).entries().push(entry),
    {
        self.0.push(entry);
    }

    /// What the archive of the copies is made of: each of them, in their order.
    pub fn tar<'a>(&'a self) -> (res: Vec<AppendStep<'a>>)
        ensures
            res@.len() == self.entries().len(),
            forall|i: int|
                #![trigger res@[i]]
                0 <= i < res@.len() ==> appends(
                    res@[i],
                    self.entries()[i].source(),
                    self.entries()[i].target(),
                ),
    {
        let mut steps: Vec<AppendStep<'a>> = Vec::new();
        let mut i: usize = 0;
        while i < self.0.len()
            invariant
                i <= self.0@.len(),
                steps@.len() == i,
                forall|j: int|
                    #![trigger steps@[j]]
                    0 <= j < i ==> appends(steps@[j], self.0@[j].source(), self.0@[j].target()),
            decreases self.0@.len() - i,
        {
            steps.push(self.0[i].append_tar());
            i = i + 1;
        }
        steps
    }
}

/// Paths in archives are relative: the path that a target is packed under starts with no slash, a
/// target that starts with none is packed under itself, and slashes in front of a target make no
/// difference.
pub proof fn law_archive_paths_are_relative(target: Seq<char>)
    ensures
        strip_leading(target, "/"@).len() > 0 ==> strip_leading(target, "/"@)[0] != '/',
        target.len() == 0 || target[0] != '/' ==> strip_leading(target, "/"@) == target,
        strip_leading("/"@ + target, "/"@) == strip_leading(target, "/"@),
{
    reveal_strlit("/");
    law_stripping_is_thorough(target, "/"@);
    let left = strip_leading(target, "/"@);
    if left.len() > 0 && left[0] == '/' {
        assert("/"@.is_prefix_of(left)) by {
            assert("/"@ =~= left.subrange(0, 1));
        }
    }
    if "/"@.is_prefix_of(target) {
        assert(target[0] == target.subrange(0, 1)[0]);
    }
    assert(("/"@ + target).skip(1) =~= target);
    assert("/"@.is_prefix_of("/"@ + target)) by {
        assert("/"@ =~= ("/"@ + target).subrange(0, 1));
    }
}

/// What is packed from data is found again: an extraction that has not met a file yet takes the
/// entry of a packed copy of data for its file, and the entry holds just that data.
pub proof fn law_packed_data_is_extracted(
    step: AppendStep<'_>,
    bytes: Vec<u8>,
    target: Seq<char>,
    before: SingleFileExtraction,
    res: Result<(SingleFileExtraction, EntryAction), CopyFromContainerError>,
)
    requires
        appends(step, CopyDataSource::Data(bytes), target),
        !before.file_written(),
        decided(before, entry_type_of(header_bytes(step->header)[156]), res),
    ensures
        step->data@ == bytes@,
        res matches Ok((next, action)) && action == EntryAction::Write && next.file_written()
            && next.directory_met() == before.directory_met() && next.destination()
            == before.destination(),
{
    law_data_header_is_a_regular_file(bytes@.len() as u64);
}

/// A second file made of data is refused: an extraction that has met its file ends with an error
/// at the entry of a packed copy of data.
pub proof fn law_second_file_is_refused(
    step: AppendStep<'_>,
    bytes: Vec<u8>,
    target: Seq<char>,
    before: SingleFileExtraction,
    res: Result<(SingleFileExtraction, EntryAction), CopyFromContainerError>,
)
    requires
        appends(step, CopyDataSource::Data(bytes), target),
        before.file_written(),
        decided(before, entry_type_of(header_bytes(step->header)[156]), res),
    ensures
        res == Err::<(SingleFileExtraction, EntryAction), _>(
            CopyFromContainerError::MultipleRegularFiles { destination: before.destination() },
        ),
{
    law_data_header_is_a_regular_file(bytes@.len() as u64);
}

/// Whether `step` adds `source` under the path that `target` leads to once its leading slashes are
/// off: a file of the host as it is, and data as a regular file of its size that holds it.
pub open spec fn adds(step: AppendStep<'_>, source: CopyDataSource, path: Seq<char>) -> bool {
    match source {
        CopyDataSource::File(file) => {
            &&& step matches AppendStep::Source { path: under, source: from }
            &&& under@ == path
            &&& *from == file
        },
        CopyDataSource::Data(bytes) => {
            &&& step matches AppendStep::Data { path: under, header, data }
            &&& under@ == path
            &&& data@ == bytes@
            &&& says_data_of(header_bytes(header), bytes.len() as u64)
        },
    }
}

/// Everything that is copied is added under its target without leading slashes, be it alone or with
/// others, and then in their order: files of the host as they are, and data as a regular file whose
/// header tells its size.
pub proof fn law_copies_are_added_under_their_target(
    slashes: nat,
    path: Seq<char>,
    target: &str,
    relative: String,
    source: &CopyDataSource,
    step: AppendStep<'_>,
    data: &Vec<u8>,
    data_step: AppendStep<'_>,
    copy: &CopyToContainer,
    copy_step: AppendStep<'_>,
    alone: Vec<AppendStep<'_>>,
    copies: &CopyToContainerCollection,
    together: Vec<AppendStep<'_>>,
    i: int,
)
    requires
        !"/"@.is_prefix_of(path),
        target@ == repeated("/"@, slashes) + path,
        call_ensures(make_path_relative, (target,), relative),
        call_ensures(CopyDataSource::append_tar, (source, target), step),
        call_ensures(append_tar_bytes, (data, target), data_step),
        copy.target() == target@,
        call_ensures(CopyToContainer::append_tar, (copy,), copy_step),
        call_ensures(CopyToContainer::tar, (copy,), alone),
        0 <= i < copies.entries().len(),
        copies.entries()[i].target() == target@,
        call_ensures(CopyToContainerCollection::tar, (copies,), together),
    ensures
        relative@ == path,
        adds(step, *source, path),
        adds(data_step, CopyDataSource::Data(*data), path),
        adds(copy_step, copy.source(), path),
        alone@.len() == 1,
        adds(alone@[0], copy.source(), path),
        together@.len() == copies.entries().len(),
        adds(together@[i], copies.entries()[i].source(), path),
{
    reveal_strlit("/");
    lemma_strip_repeated("/"@, slashes, path);
    lemma_adds(step, *source, target@, path);
    lemma_adds(data_step, CopyDataSource::Data(*data), target@, path);
    lemma_adds(copy_step, copy.source(), target@, path);
    lemma_adds(alone@[0], copy.source(), target@, path);
    lemma_adds(together@[i], copies.entries()[i].source(), target@, path);
}

proof fn lemma_adds(
    step: AppendStep<'_>,
    source: CopyDataSource,
    target: Seq<char>,
    path: Seq<char>,
)
    requires
        appends(step, source, target),
        strip_leading(target, "/"@) == path,
    ensures
        adds(step, source, path),
{
    if let CopyDataSource::Data(bytes) = source {
        assert(bytes.len() as u64 == bytes@.len() as u64);
        lemma_data_header_reads_back(bytes@.len() as u64);
    }
}

/// A copy takes its source and its target as they are given, a collection its copies, and one that
/// is added comes last.
pub proof fn law_copies_are_kept_as_given(
    path: PathBuf,
    from_path: CopyDataSource,
    borrowed: &Path,
    from_borrowed: CopyDataSource,
    bytes: Vec<u8>,
    from_bytes: CopyDataSource,
    target: &str,
    copy: CopyToContainer,
    given: Vec<CopyToContainer>,
    collection: CopyToContainerCollection,
)
    requires
        call_ensures(<CopyDataSource as From<PathBuf>>::from, (path,), from_path),
        call_ensures(<CopyDataSource as From<&Path>>::from, (borrowed,), from_borrowed),
        call_ensures(<CopyDataSource as From<Vec<u8>>>::from, (bytes,), from_bytes),
        call_ensures(CopyToContainer::new::<Vec<u8>, &str>, (bytes, target), copy),
        call_ensures(CopyToContainerCollection::new, (given,), collection),
    ensures
        from_path == CopyDataSource::File(path),
        from_borrowed matches CopyDataSource::File(owned) && path_buf_bytes(owned) == path_bytes(
            borrowed,
        ),
        from_bytes == CopyDataSource::Data(bytes),
        copy.source() == CopyDataSource::Data(bytes),
        copy.target() == target@,
        collection.entries() == given@,
        forall|changed: &mut CopyToContainerCollection| #[trigger]
            call_ensures(CopyToContainerCollection::add, (changed, copy), ()) ==> final(
                changed).entries() == (*changed).entries().push(copy),
{
}

/// A clone copies the same contents to the same target.
pub proof fn law_clones_copy_the_same(
    source: &CopyDataSource,
    cloned_source: CopyDataSource,
    copy: &CopyToContainer,
    cloned: CopyToContainer,
    copies: &CopyToContainerCollection,
    cloned_all: CopyToContainerCollection,
    i: int,
)
    requires
        call_ensures(<CopyDataSource as Clone>::clone, (source,), cloned_source),
        call_ensures(<CopyToContainer as Clone>::clone, (copy,), cloned),
        call_ensures(<CopyToContainerCollection as Clone>::clone, (copies,), cloned_all),
        0 <= i < copies.entries().len(),
    ensures
        source matches CopyDataSource::File(path) ==> (cloned_source matches CopyDataSource::File(
            same,
        ) && path_buf_bytes(same) == path_buf_bytes(*path)),
        source matches CopyDataSource::Data(bytes) ==> (cloned_source matches CopyDataSource::Data(
            same,
        ) && same@ == bytes@),
        cloned.target() == copy.target(),
        copy.source() matches CopyDataSource::Data(bytes) ==> (cloned.source()
            matches CopyDataSource::Data(same) && same@ == bytes@),
        copy.source() matches CopyDataSource::File(path) ==> (cloned.source()
            matches CopyDataSource::File(same) && path_buf_bytes(same) == path_buf_bytes(path)),
        cloned_all.entries().len() == copies.entries().len(),
        cloned_all.entries()[i].target() == copies.entries()[i].target(),
        copies.entries()[i].source() matches CopyDataSource::Data(bytes) ==> (
        cloned_all.entries()[i].source() matches CopyDataSource::Data(same) && same@ == bytes@),
{
}

/// A directory of the host is added with everything below it, anything else as one file; and an
/// error says what the system says of it, or which path has no name.
pub proof fn law_directories_are_added_whole(
    is_dir: bool,
    how: FileAppend,
    err: &CopyToContainerError,
    message: String,
)
    requires
        call_ensures(append_tar_file, (is_dir,), how),
        call_ensures(CopyToContainerError::message, (err,), message),
    ensures
        how is DirectoryTree <==> is_dir,
        err matches CopyToContainerError::PathNameError(name) ==> message@
            == "failed to get the path name: "@ + name@,
        err matches CopyToContainerError::IoError(io) ==> exists|shown: Seq<char>| #[trigger]
            says_of(io, shown) && message@ == "io failed with error: "@ + shown,
{
    if let CopyToContainerError::IoError(io) = err {
        let shown = choose|error: Seq<char>|
            says_of(io, error) && message@ == #[trigger] io_failure(error);
        assert(says_of(io, shown));
    }
}

} // verus!
