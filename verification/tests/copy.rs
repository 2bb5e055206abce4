use std::io;
use std::path::{Path, PathBuf};

use futures::stream;
use tempfile::tempdir;
use testcontainers::copy::archive::{make_data_header, EntryType};
use testcontainers::copy::extract::{
    CopyFromContainerError, CopyFromOutcome, EntryAction, SingleFileExtraction,
};
use testcontainers::copy::path::{directory_for, directory_to_create};
use testcontainers::copy::source::{
    append_tar_file, make_path_relative, AppendStep, CopyDataSource, CopyToContainer,
    CopyToContainerCollection, CopyToContainerError, FileAppend,
};
use tokio::fs;
use tokio::io::AsyncReadExt;
use tokio::runtime::{Builder, Runtime};
use tokio_stream::StreamExt;
use tokio_util::io::StreamReader;

fn runtime() -> Runtime {
    Builder::new_current_thread().enable_all().build().unwrap()
}

async fn pack(steps: Vec<AppendStep<'_>>) -> Result<bytes::Bytes, CopyToContainerError> {
    let mut ar = tokio_tar::Builder::new(Vec::new());
    for step in steps {
        match step {
            AppendStep::Source { path, source } => {
                let meta = fs::metadata(source).await.map_err(CopyToContainerError::IoError)?;
                match append_tar_file(meta.is_dir()) {
                    FileAppend::DirectoryTree => ar
                        .append_dir_all(path, source)
                        .await
                        .map_err(CopyToContainerError::IoError)?,
                    FileAppend::SingleFile => {
                        let mut file =
                            fs::File::open(source).await.map_err(CopyToContainerError::IoError)?;
                        ar.append_file(path, &mut file)
                            .await
                            .map_err(CopyToContainerError::IoError)?
                    }
                }
            }
            AppendStep::Data { path, mut header, data } => ar
                .append_data(&mut header, path, data.as_slice())
                .await
                .map_err(CopyToContainerError::IoError)?,
        }
    }
    let bytes = ar.into_inner().await.map_err(CopyToContainerError::IoError)?;
    Ok(bytes::Bytes::from(bytes))
}

async fn unpack(
    bytes: bytes::Bytes,
    destination: PathBuf,
) -> Result<CopyFromOutcome, CopyFromContainerError> {
    let stream = stream::once(async move { Ok::<bytes::Bytes, io::Error>(bytes) });
    let reader = StreamReader::new(Box::pin(stream));
    let mut archive = tokio_tar::Archive::new(reader);
    let mut entries = archive.entries()?;
    let target = destination.clone();
    let mut extraction = SingleFileExtraction::new(destination);
    while let Some(entry) = entries.next().await {
        let mut entry = entry?;
        let (next, action) = extraction.entry(entry.header())?;
        extraction = next;
        if action == EntryAction::Write {
            let mut contents = Vec::new();
            entry.read_to_end(&mut contents).await?;
            if let Some(dir) = directory_for(&target) {
                fs::create_dir_all(dir).await?;
            }
            fs::write(&target, contents).await?;
        }
    }
    extraction.finish()
}

async fn paths_of(bytes: bytes::Bytes) -> Vec<(PathBuf, u64, u32, u8)> {
    let mut archive = tokio_tar::Archive::new(bytes.as_ref());
    let mut entries = archive.entries().unwrap();
    let mut found = Vec::new();
    while let Some(entry) = entries.next().await {
        let entry = entry.unwrap();
        let header = entry.header();
        found.push((
            entry.path().unwrap().into_owned(),
            header.size().unwrap(),
            header.mode().unwrap(),
            header.entry_type().as_byte(),
        ));
    }
    found
}

#[test]
fn copytocontainer_tar_file_success() {
    runtime().block_on(async {
        let temp_dir = tempdir().unwrap();
        let file_path = temp_dir.path().join("file.txt");
        fs::write(&file_path, "TEST\n").await.unwrap();

        let copy_to_container = CopyToContainer::new(file_path, "file.txt");
        let result = pack(copy_to_container.tar()).await;

        assert!(result.is_ok());
        let bytes = result.unwrap();
        assert!(!bytes.is_empty());
    });
}

#[test]
fn copytocontainer_tar_data_success() {
    runtime().block_on(async {
        let data = vec![1, 2, 3, 4, 5];
        let copy_to_container = CopyToContainer::new(data, "data.bin");
        let result = pack(copy_to_container.tar()).await;

        assert!(result.is_ok());
        let bytes = result.unwrap();
        assert!(!bytes.is_empty());
    });
}

#[test]
fn copytocontainer_tar_file_not_found() {
    runtime().block_on(async {
        let temp_dir = tempdir().unwrap();
        let non_existent_file_path = temp_dir.path().join("non_existent_file.txt");

        let copy_to_container = CopyToContainer::new(non_existent_file_path, "file.txt");
        let result = pack(copy_to_container.tar()).await;

        assert!(result.is_err());
        if let Err(CopyToContainerError::IoError(err)) = result {
            assert_eq!(err.kind(), io::ErrorKind::NotFound);
        } else {
            panic!("Expected IoError");
        }
    });
}

#[test]
fn copytocontainercollection_tar_file_and_data() {
    runtime().block_on(async {
        let temp_dir = tempdir().unwrap();
        let file_path = temp_dir.path().join("file.txt");
        fs::write(&file_path, "TEST\n").await.unwrap();

        let copy_to_container_collection = CopyToContainerCollection::new(vec![
            CopyToContainer::new(file_path, "file.txt"),
            CopyToContainer::new(vec![1, 2, 3, 4, 5], "data.bin"),
        ]);

        let result = pack(copy_to_container_collection.tar()).await;

        assert!(result.is_ok());
        let bytes = result.unwrap();
        assert!(!bytes.is_empty());
    });
}

#[test]
fn copy_from_stream_write_to_file_success() {
    runtime().block_on(async {
        let data = b"hello world".to_vec();
        let copy_to_container = CopyToContainer::new(data.clone(), "payload.txt");
        let bytes = pack(copy_to_container.tar()).await.unwrap();

        let temp_dir = tempdir().unwrap();
        let destination = temp_dir.path().join("out.txt");

        let outcome = unpack(bytes, destination.clone()).await.unwrap();
        assert!(matches!(outcome, CopyFromOutcome::File(ref path) if path == &destination));

        let written = fs::read(&destination).await.unwrap();
        assert_eq!(written, data);
    });
}

#[test]
fn copy_from_stream_rejects_multiple_files() {
    runtime().block_on(async {
        let collection = CopyToContainerCollection::new(vec![
            CopyToContainer::new(vec![1u8], "dir/file1.txt"),
            CopyToContainer::new(vec![2u8], "dir/file2.txt"),
        ]);
        let bytes = pack(collection.tar()).await.unwrap();

        let temp_dir = tempdir().unwrap();
        let destination = temp_dir.path().join("out.txt");

        let err = unpack(bytes, destination.clone()).await.unwrap_err();
        match err {
            CopyFromContainerError::MultipleRegularFiles { destination: dest } => {
                assert_eq!(dest, destination);
            }
            other => panic!("expected MultipleRegularFiles error, got {other:?}"),
        }
    });
}

#[test]
fn extraction_creates_missing_parents() {
    runtime().block_on(async {
        let copy = CopyToContainer::new(b"42\n".to_vec(), "/tmp/result.txt");
        let bytes = pack(copy.tar()).await.unwrap();
        let temp_dir = tempdir().unwrap();
        let destination = temp_dir.path().join("deep").join("down").join("result.txt");
        let outcome = unpack(bytes, destination.clone()).await.unwrap();
        assert_eq!(outcome.path(), destination.as_path());
        assert_eq!(fs::read_to_string(&destination).await.unwrap(), "42\n");
    });
}

#[test]
fn directories_alone_are_an_empty_archive() {
    runtime().block_on(async {
        let temp_dir = tempdir().unwrap();
        let source = temp_dir.path().join("assets");
        fs::create_dir_all(source.join("nested")).await.unwrap();
        let copy = CopyToContainer::new(source, "/opt/app/assets");
        let bytes = pack(copy.tar()).await.unwrap();
        let destination = temp_dir.path().join("out.txt");
        match unpack(bytes, destination.clone()).await {
            Err(CopyFromContainerError::EmptyArchive { destination: dest }) => {
                assert_eq!(dest, destination)
            }
            other => panic!("expected EmptyArchive, got {other:?}"),
        }
    });
}

#[test]
fn nested_directories_are_preserved() {
    runtime().block_on(async {
        let temp_dir = tempdir().unwrap();
        let source = temp_dir.path().join("assets");
        fs::create_dir_all(source.join("nested")).await.unwrap();
        fs::write(source.join("nested").join("a.txt"), "a").await.unwrap();
        let copy = CopyToContainer::new(source.as_path(), "/opt/app/assets");
        let found = paths_of(pack(copy.tar()).await.unwrap()).await;
        assert!(found.iter().any(|(path, size, _, kind)| {
            path == Path::new("opt/app/assets/nested/a.txt") && *size == 1 && *kind == b'0'
        }));
    });
}

#[test]
fn data_entries_carry_size_mode_and_relative_path() {
    runtime().block_on(async {
        let mut collection = CopyToContainerCollection::new(vec![CopyToContainer::new(
            vec![7u8; 1000],
            "//opt/app/config.yaml",
        )]);
        collection.add(CopyToContainer::new(Vec::<u8>::new(), String::from("empty")));
        let found = paths_of(pack(collection.tar()).await.unwrap()).await;
        assert_eq!(
            found,
            vec![
                (PathBuf::from("opt/app/config.yaml"), 1000, 0o644, b'0'),
                (PathBuf::from("empty"), 0, 0o644, b'0'),
            ]
        );
    });
}

#[test]
fn data_header_has_the_documented_bytes() {
    let header = make_data_header(11);
    let bytes = header.as_bytes();
    assert_eq!(&bytes[0..100], &[0u8; 100][..]);
    assert_eq!(&bytes[100..108], b"0000644\0");
    assert_eq!(&bytes[108..124], &[0u8; 16][..]);
    assert_eq!(&bytes[124..136], b"00000000013\0");
    assert_eq!(&bytes[136..148], b"00000000000\0");
    let mut sum: u32 = 8 * 32;
    for (i, byte) in bytes.iter().enumerate() {
        if !(148..156).contains(&i) {
            sum += u32::from(*byte);
        }
    }
    assert_eq!(&bytes[148..156], format!("{:07o}\0", sum).as_bytes());
    assert_eq!(&bytes[156..257], &[0u8; 101][..]);
    assert_eq!(&bytes[257..265], b"ustar  \0");
    assert_eq!(&bytes[265..512], &[0u8; 247][..]);
    assert_eq!(EntryType::of_header(&header), EntryType::Regular);
}

#[test]
fn large_sizes_are_written_in_binary() {
    let limit = make_data_header(0x1_ffff_ffff);
    assert_eq!(&limit.as_bytes()[124..136], b"77777777777\0");
    let beyond = make_data_header(0x2_0000_0005);
    assert_eq!(&beyond.as_bytes()[124..136], &[0x80, 0, 0, 0, 0, 0, 0, 2, 0, 0, 0, 5]);
    assert_eq!(beyond.size().unwrap(), 0x2_0000_0005);
}

#[test]
fn entry_types_follow_the_type_byte() {
    let expected = [
        (0u8, EntryType::Regular),
        (b'0', EntryType::Regular),
        (b'1', EntryType::Link),
        (b'2', EntryType::Symlink),
        (b'3', EntryType::Char),
        (b'4', EntryType::Block),
        (b'5', EntryType::Directory),
        (b'6', EntryType::Fifo),
        (b'7', EntryType::Continuous),
        (b'L', EntryType::GNULongName),
        (b'K', EntryType::GNULongLink),
        (b'S', EntryType::GNUSparse),
        (b'g', EntryType::XGlobalHeader),
        (b'x', EntryType::XHeader),
        (b'Z', EntryType::Other(b'Z')),
    ];
    for (byte, entry_type) in expected {
        let mut header = tokio_tar::Header::new_gnu();
        header.as_mut_bytes()[156] = byte;
        assert_eq!(EntryType::of_header(&header), entry_type);
        assert_eq!(EntryType::from_byte(byte), entry_type);
    }
}

#[test]
fn every_entry_type_is_written_skipped_or_refused() {
    let written = [EntryType::Regular, EntryType::Continuous];
    let skipped = [
        EntryType::Directory,
        EntryType::GNULongName,
        EntryType::GNULongLink,
        EntryType::XGlobalHeader,
        EntryType::XHeader,
        EntryType::GNUSparse,
    ];
    let refused = [
        EntryType::Link,
        EntryType::Symlink,
        EntryType::Char,
        EntryType::Block,
        EntryType::Fifo,
        EntryType::Other(9),
    ];
    for entry_type in written {
        let (next, action) = SingleFileExtraction::new(PathBuf::from("out"))
            .entry_of_type(entry_type)
            .unwrap();
        assert_eq!(action, EntryAction::Write);
        assert_eq!(next.finish().unwrap(), CopyFromOutcome::File(PathBuf::from("out")));
    }
    for entry_type in skipped {
        let (next, action) = SingleFileExtraction::new(PathBuf::from("out"))
            .entry_of_type(entry_type)
            .unwrap();
        assert_eq!(action, EntryAction::Skip);
        assert!(matches!(next.finish(), Err(CopyFromContainerError::EmptyArchive { .. })));
    }
    for entry_type in refused {
        match SingleFileExtraction::new(PathBuf::from("out")).entry_of_type(entry_type) {
            Err(CopyFromContainerError::UnsupportedEntryType { destination, entry_type: met }) => {
                assert_eq!(destination, PathBuf::from("out"));
                assert_eq!(met, entry_type);
            }
            other => panic!("expected UnsupportedEntryType, got {other:?}"),
        }
    }
}

#[test]
fn the_number_of_files_decides() {
    let run = |types: &[EntryType]| {
        let mut extraction = SingleFileExtraction::new(PathBuf::from("out"));
        for entry_type in types {
            extraction = extraction.entry_of_type(*entry_type)?.0;
        }
        extraction.finish()
    };
    assert!(matches!(run(&[]), Err(CopyFromContainerError::EmptyArchive { .. })));
    assert_eq!(
        run(&[EntryType::XHeader, EntryType::Regular, EntryType::GNULongName]).unwrap(),
        CopyFromOutcome::File(PathBuf::from("out"))
    );
    assert!(matches!(
        run(&[EntryType::Regular, EntryType::Directory, EntryType::Continuous]),
        Err(CopyFromContainerError::MultipleRegularFiles { .. })
    ));
    assert!(matches!(
        run(&[EntryType::Regular, EntryType::Symlink, EntryType::Regular]),
        Err(CopyFromContainerError::UnsupportedEntryType { entry_type: EntryType::Symlink, .. })
    ));
}

#[test]
fn archives_of_directories_are_refused() {
    let run = |types: &[EntryType]| {
        let mut extraction = SingleFileExtraction::new(PathBuf::from("out"));
        for entry_type in types {
            extraction = extraction.entry_of_type(*entry_type)?.0;
        }
        extraction.finish()
    };
    for types in [
        [EntryType::Directory, EntryType::Regular],
        [EntryType::Regular, EntryType::Directory],
    ] {
        match run(&types) {
            Err(CopyFromContainerError::UnsupportedEntryType { destination, entry_type }) => {
                assert_eq!(destination, PathBuf::from("out"));
                assert_eq!(entry_type, EntryType::Directory);
            }
            other => panic!("expected UnsupportedEntryType, got {other:?}"),
        }
    }
    assert!(matches!(
        run(&[EntryType::Directory, EntryType::XHeader]),
        Err(CopyFromContainerError::EmptyArchive { .. })
    ));
}

#[test]
fn a_directory_with_one_file_is_refused() {
    runtime().block_on(async {
        let temp_dir = tempdir().unwrap();
        let source = temp_dir.path().join("d");
        fs::create_dir_all(&source).await.unwrap();
        fs::write(source.join("f.txt"), "x").await.unwrap();
        let bytes = pack(CopyToContainer::new(source, "d").tar()).await.unwrap();
        let destination = temp_dir.path().join("out.txt");
        assert!(matches!(
            unpack(bytes, destination).await,
            Err(CopyFromContainerError::UnsupportedEntryType {
                entry_type: EntryType::Directory,
                ..
            })
        ));
    });
}

#[test]
fn copy_errors_have_their_messages() {
    let destination = || PathBuf::from("/tmp/r\u{e9}sultat 1.txt");
    assert_eq!(
        CopyFromContainerError::EmptyArchive { destination: destination() }.message(),
        "archive did not contain any regular files; cannot write to /tmp/r\u{e9}sultat 1.txt"
    );
    assert_eq!(
        CopyFromContainerError::MultipleRegularFiles { destination: destination() }.message(),
        "archive contains multiple regular files; cannot write to single-file destination /tmp/r\u{e9}sultat 1.txt"
    );
    let unsupported = |entry_type: EntryType| {
        CopyFromContainerError::UnsupportedEntryType { destination: PathBuf::from("out"), entry_type }
            .message()
    };
    assert_eq!(
        unsupported(EntryType::Symlink),
        "archive entry type 'Symlink' is not supported for single-file destination out"
    );
    assert_eq!(
        unsupported(EntryType::Other(200)),
        "archive entry type 'Other(200)' is not supported for single-file destination out"
    );
    let broken = || io::Error::new(io::ErrorKind::Other, "broken");
    assert_eq!(CopyFromContainerError::Io(broken()).message(), "io failed with error: broken");
    assert_eq!(CopyToContainerError::IoError(broken()).message(), "io failed with error: broken");
    assert_eq!(
        CopyToContainerError::PathNameError("..".to_string()).message(),
        "failed to get the path name: .."
    );
}

#[test]
fn entry_types_are_named_as_the_archive_library_names_them() {
    for byte in 0..=255u8 {
        let mut header = tokio_tar::Header::new_gnu();
        header.as_mut_bytes()[156] = byte;
        assert_eq!(EntryType::of_header(&header).text(), format!("{:?}", header.entry_type()));
    }
}

#[test]
fn io_errors_are_wrapped() {
    let err = CopyFromContainerError::from(io::Error::new(io::ErrorKind::Other, "broken"));
    assert!(matches!(err, CopyFromContainerError::Io(inner) if inner.to_string() == "broken"));
}

#[test]
fn targets_are_made_relative() {
    assert_eq!(make_path_relative("/etc/hosts"), "etc/hosts");
    assert_eq!(make_path_relative("///etc//hosts/"), "etc//hosts/");
    assert_eq!(make_path_relative("etc/hosts"), "etc/hosts");
    assert_eq!(make_path_relative("/"), "");
    assert_eq!(make_path_relative(""), "");
    assert_eq!(make_path_relative("./a"), "./a");
    assert_eq!(make_path_relative("/\u{e9}t\u{e9}"), "\u{e9}t\u{e9}");
}

#[test]
fn sources_come_from_paths_and_bytes() {
    assert!(matches!(
        CopyDataSource::from(Path::new("a/b")),
        CopyDataSource::File(path) if path == PathBuf::from("a/b")
    ));
    assert!(matches!(
        CopyDataSource::from(PathBuf::from("a/b")),
        CopyDataSource::File(path) if path == PathBuf::from("a/b")
    ));
    assert!(matches!(
        CopyDataSource::from(vec![1u8, 2]),
        CopyDataSource::Data(data) if data == vec![1, 2]
    ));
}

#[test]
fn collections_keep_their_order_when_cloned() {
    let collection = CopyToContainerCollection::new(vec![
        CopyToContainer::new(PathBuf::from("host/file"), "/first"),
        CopyToContainer::new(vec![5u8], "second"),
    ]);
    let copy = collection.clone();
    let steps = copy.tar();
    assert_eq!(steps.len(), 2);
    assert!(matches!(
        &steps[0],
        AppendStep::Source { path, source } if path == "first" && *source == &PathBuf::from("host/file")
    ));
    assert!(matches!(
        &steps[1],
        AppendStep::Data { path, data, .. } if path == "second" && **data == vec![5u8]
    ));
}

#[test]
fn outcomes_give_their_path() {
    let file = CopyFromOutcome::File(PathBuf::from("/tmp/out.txt"));
    assert_eq!(file.path(), Path::new("/tmp/out.txt"));
    assert_eq!(file.clone(), file);
    assert_eq!(file.into_path(), PathBuf::from("/tmp/out.txt"));
    let directory = CopyFromOutcome::Directory(PathBuf::from("/tmp/out"));
    assert_eq!(directory.path(), Path::new("/tmp/out"));
    assert_eq!(directory.clone(), directory);
    assert_eq!(directory.into_path(), PathBuf::from("/tmp/out"));
}

#[test]
fn only_meaningful_directories_are_created() {
    assert_eq!(directory_for(&PathBuf::from("a/b/c.txt")), Some(PathBuf::from("a/b")));
    assert_eq!(directory_for(&PathBuf::from("/a-b/.c_1/..d")), Some(PathBuf::from("/a-b/.c_1")));
    assert_eq!(
        directory_for(&PathBuf::from("/mes r\u{e9}sultats/un fichier")),
        Some(PathBuf::from("/mes r\u{e9}sultats"))
    );
    assert_eq!(directory_for(&PathBuf::from("/c.txt")), Some(PathBuf::from("/")));
    assert_eq!(directory_for(&PathBuf::from("c.txt")), None);
    assert_eq!(directory_for(&PathBuf::from("")), None);
    assert_eq!(directory_for(&PathBuf::from("/")), None);
    assert_eq!(directory_for(&PathBuf::from("../out.txt")), Some(PathBuf::from("..")));
    assert_eq!(directory_to_create(None), None);
    assert_eq!(directory_to_create(Some(PathBuf::from(""))), None);
    assert_eq!(directory_to_create(Some(PathBuf::from("a"))), Some(PathBuf::from("a")));
}
