use dias::storage::boxable::{BoxableDir, BoxableFile};
use dias::storage::memory::file_sys::{FileSystem, MemoryFile, Shared};
use dias::storage::memory::readers_writers::{StorageReader, StorageWriter};
use dias::storage::{
    Dir, File, IoError, MemoryStorage, ParentDir, Storage, WritableDir, WritableFile,
    WritableParentDir,
};

fn read_all_text<F: File<ReadText = StorageReader>>(file: &F) -> String {
    let mut reader = file.read_text().unwrap();
    String::from_utf8(reader.read_to_end()).unwrap()
}

fn write_all_text<F: WritableFile<WriteText = StorageWriter>>(file: &mut F, text: &str) {
    let mut writer = file.write_text().unwrap();
    writer.write(text.as_bytes()).unwrap();
    writer.flush().unwrap();
}

fn text_file(mut storage: MemoryStorage) {
    let text = "hello world";

    let mut file = storage.writable_data().unwrap().writable_file("test");
    write_all_text(&mut file, text);
    assert!(file.file_exists().unwrap());
    assert_eq!(read_all_text(&file), text);

    let file = storage.data().unwrap().file("test");
    assert!(file.file_exists().unwrap());
    assert_eq!(read_all_text(&file), text);

    let mut file = storage.writable_data().unwrap().writable_file("test");
    assert!(file.file_exists().unwrap());
    file.remove().unwrap();
    assert!(!file.file_exists().unwrap());
    let file = storage.data().unwrap().file("test");
    assert!(!file.file_exists().unwrap());
}

fn binary_file(mut storage: MemoryStorage) {
    let text = "hello world";

    let mut file = storage.writable_data().unwrap().writable_file("test");
    write_all_text(&mut file, text);
    assert!(file.file_exists().unwrap());
    assert_eq!(read_all_text(&file), text);

    let file = storage.data().unwrap().file("test");
    assert!(file.file_exists().unwrap());
    assert_eq!(read_all_text(&file), text);

    let mut file = storage.writable_data().unwrap().writable_file("test");
    assert!(file.file_exists().unwrap());
    file.remove().unwrap();
    assert!(!file.file_exists().unwrap());
    let file = storage.data().unwrap().file("test");
    assert!(!file.file_exists().unwrap());
}

fn file_uniqueness(mut storage: MemoryStorage) {
    let to_check = vec![
        (storage.writable_data().unwrap(), "data", "one", "a"),
        (storage.writable_data().unwrap(), "data", "one", "b"),
        (storage.writable_data().unwrap(), "data", "two", "a"),
        (storage.writable_data().unwrap(), "data", "two", "b"),
        (storage.writable_config().unwrap(), "config", "one", "a"),
        (storage.writable_config().unwrap(), "config", "one", "b"),
        (storage.writable_config().unwrap(), "config", "two", "a"),
        (storage.writable_config().unwrap(), "config", "two", "b"),
        (storage.writable_cache().unwrap(), "cache", "one", "a"),
        (storage.writable_cache().unwrap(), "cache", "one", "b"),
        (storage.writable_cache().unwrap(), "cache", "two", "a"),
        (storage.writable_cache().unwrap(), "cache", "two", "b"),
    ];

    for (outer_dir, outer_dir_name, inner_dir_name, file_name) in to_check.iter() {
        let value = format!("contents {} {} {}", outer_dir_name, inner_dir_name, file_name);
        let mut file = outer_dir.subdir(inner_dir_name).into_writable_leaf().writable_file(file_name);
        write_all_text(&mut file, &value);
    }

    for (outer_dir, outer_dir_name, inner_dir_name, file_name) in to_check.iter() {
        let value = format!("contents {} {} {}", outer_dir_name, inner_dir_name, file_name);
        let file = outer_dir.subdir(inner_dir_name).file(file_name);
        assert_eq!(read_all_text(&file), value);
    }
}

#[test]
fn storage_text_file() {
    text_file(MemoryStorage::new());
}

#[test]
fn storage_binary_file() {
    binary_file(MemoryStorage::new());
}

#[test]
fn storage_file_uniqueness() {
    file_uniqueness(MemoryStorage::new());
}

#[test]
fn boxable_boxability() {
    // Files and directories can be stored, which for practical purposes requires boxing.
    type BoxedFile = Box<dyn File<ReadText = StorageReader, ReadBinary = StorageReader>>;
    type BoxedDir = Box<dyn Dir<File = BoxableFile<dias::storage::memory::storage::File<dias::storage::memory::storage::ReadOnly>>>>;
    let mut storage = MemoryStorage::default();
    let d0: BoxedDir = Box::new(BoxableDir::from(storage.data().unwrap()));
    let mut d1 = Box::new(BoxableDir::from(storage.writable_data().unwrap()));
    let _: BoxedFile = Box::new(BoxableFile::from(storage.data().unwrap().file("test")));
    let _ = Box::new(BoxableFile::from(
        storage.writable_data().unwrap().writable_file("test"),
    ));
    let _ = d0.file("test");
    let _ = d1.writable_file("test");
}

#[test]
fn adapter_gives_the_same_results() {
    let mut storage = MemoryStorage::new();
    let mut dir = BoxableDir::from(storage.writable_data().unwrap());
    let mut file = dir.writable_file("test");
    assert!(!file.file_exists().unwrap());
    write_all_text(&mut file, "hello world");
    assert!(file.file_exists().unwrap());
    let plain = storage.data().unwrap().file("test");
    assert_eq!(read_all_text(&plain), "hello world");
    let boxed = BoxableDir::from(storage.data().unwrap()).file("test");
    assert_eq!(read_all_text(&boxed), "hello world");
    file.remove().unwrap();
    assert!(!file.file_exists().unwrap());
    assert!(!plain.file_exists().unwrap());
    assert!(!boxed.file_exists().unwrap());
    assert!(matches!(boxed.read_text(), Err(IoError::NotFound)));
}

#[test]
fn missing_file_is_not_found() {
    let storage = MemoryStorage::new();
    let file = storage.config().unwrap().subdir("x").file("nothing");
    assert!(!file.file_exists().unwrap());
    assert!(matches!(file.read_text(), Err(IoError::NotFound)));
    assert!(matches!(file.read_binary(), Err(IoError::NotFound)));
}

#[test]
fn exists_only_after_a_flush() {
    let mut storage = MemoryStorage::new();
    let mut file = storage.writable_cache().unwrap().writable_file("f");
    assert!(!file.file_exists().unwrap());
    let mut writer = file.write_binary().unwrap();
    writer.write(b"abc").unwrap();
    assert!(!file.file_exists().unwrap());
    assert!(matches!(file.read_binary(), Err(IoError::NotFound)));
    writer.flush().unwrap();
    assert!(file.file_exists().unwrap());
    assert_eq!(file.read_binary().unwrap().read_to_end(), b"abc".to_vec());
}

#[test]
fn flushing_again_keeps_the_contents() {
    let mut storage = MemoryStorage::new();
    let mut file = storage.writable_data().unwrap().writable_file("f");
    let mut writer = file.write_text().unwrap();
    writer.write(b"hello").unwrap();
    writer.flush().unwrap();
    writer.flush().unwrap();
    assert_eq!(read_all_text(&file), "hello");
    writer.write(b" world").unwrap();
    writer.flush().unwrap();
    assert_eq!(read_all_text(&file), "hello world");
    drop(writer);
    assert_eq!(read_all_text(&file), "hello world");
}

#[test]
fn a_writer_opened_before_removal_stores_again() {
    let mut storage = MemoryStorage::new();
    let mut file = storage.writable_data().unwrap().writable_file("f");
    let mut writer = file.write_text().unwrap();
    writer.write(b"x").unwrap();
    writer.flush().unwrap();
    file.remove().unwrap();
    assert!(!file.file_exists().unwrap());
    writer.flush().unwrap();
    assert_eq!(read_all_text(&file), "x");
}

#[test]
fn removing_twice_succeeds() {
    let mut storage = MemoryStorage::new();
    let mut file = storage.writable_data().unwrap().writable_file("twice");
    write_all_text(&mut file, "x");
    assert!(file.remove().is_ok());
    assert!(file.remove().is_ok());
    assert!(!file.file_exists().unwrap());
    let mut never = storage.writable_data().unwrap().writable_file("never");
    assert!(never.remove().is_ok());
}

#[test]
fn readers_see_whole_old_or_whole_new_contents() {
    let mut storage = MemoryStorage::new();
    let mut file = storage.writable_data().unwrap().writable_file("big");
    let old: Vec<u8> = vec![1; 10000];
    let new: Vec<u8> = vec![2; 20000];
    let mut writer = file.write_binary().unwrap();
    writer.write(&old).unwrap();
    writer.flush().unwrap();

    let mut writer = file.write_binary().unwrap();
    writer.write(&new[..5000]).unwrap();
    let mut before = file.read_binary().unwrap();
    writer.write(&new[5000..]).unwrap();
    assert_eq!(file.read_binary().unwrap().read_to_end(), old);
    writer.flush().unwrap();
    assert_eq!(before.read_to_end(), old);
    assert_eq!(file.read_binary().unwrap().read_to_end(), new);
}

#[test]
fn subdirectories_and_leaves_address_the_same_files() {
    let mut storage = MemoryStorage::new();
    let mut parent = storage.writable_config().unwrap();
    let mut leaf = parent.writable_subdir("a").writable_subdir("b").into_writable_leaf();
    write_all_text(&mut leaf.writable_file("f"), "deep");
    let read = storage.config().unwrap().subdir("a").subdir("b").into_leaf().file("f");
    assert_eq!(read_all_text(&read), "deep");
    let other = storage.config().unwrap().subdir("a").file("b/f");
    assert_eq!(read_all_text(&other), "deep");
    let elsewhere = storage.data().unwrap().subdir("a").subdir("b").file("f");
    assert!(!elsewhere.file_exists().unwrap());
}

#[test]
fn clones_share_files() {
    let storage = MemoryStorage::new();
    let mut copy = storage.clone();
    write_all_text(&mut copy.writable_data().unwrap().writable_file("s"), "shared");
    assert_eq!(read_all_text(&storage.data().unwrap().file("s")), "shared");
    assert!(!MemoryStorage::new().data().unwrap().file("s").file_exists().unwrap());
}

#[test]
fn reader_reads_in_pieces() {
    let mut file = MemoryFile::new();
    file.replace(b"abcdefg");
    let mut reader = StorageReader::from_file(&file);
    let mut buf = [0u8; 3];
    assert_eq!(reader.read(&mut buf).unwrap(), 3);
    assert_eq!(&buf, b"abc");
    assert_eq!(reader.read(&mut buf).unwrap(), 3);
    assert_eq!(&buf, b"def");
    assert_eq!(reader.read(&mut buf).unwrap(), 1);
    assert_eq!(&buf, b"gef");
    assert_eq!(reader.read(&mut buf).unwrap(), 0);
    assert_eq!(reader.read_to_end(), Vec::<u8>::new());
}

#[test]
fn writer_replaces_contents_on_flush_only() {
    let fs = Shared::new(FileSystem::new());
    let key = "data/w".to_string();
    let mut writer = StorageWriter::new(fs.clone(), key.clone()).unwrap();
    assert_eq!(writer.write(b"hello").unwrap(), 5);
    assert!(matches!(StorageReader::new(&fs, &key), Err(IoError::NotFound)));
    writer.flush().unwrap();
    let mut before = StorageReader::new(&fs, &key).unwrap();
    assert_eq!(StorageReader::new(&fs, &key).unwrap().read_to_end(), b"hello".to_vec());
    writer.write(b"bye").unwrap();
    assert_eq!(StorageReader::new(&fs, &key).unwrap().read_to_end(), b"hello".to_vec());
    writer.flush().unwrap();
    assert_eq!(StorageReader::new(&fs, &key).unwrap().read_to_end(), b"hellobye".to_vec());
    assert_eq!(before.read_to_end(), b"hello".to_vec());
}

#[test]
fn store_replaces_whole_contents() {
    let mut fs = FileSystem::new();
    let key = "cache/s".to_string();
    fs.store(&key, b"first");
    fs.store(&key, b"2nd");
    assert_eq!(fs.get(&key).unwrap(), b"2nd".to_vec());
    let mut reader = StorageReader::from_file_system(&fs, &key).unwrap();
    assert_eq!(reader.read_to_end(), b"2nd".to_vec());
}

#[test]
fn file_system_keys() {
    let mut fs = FileSystem::new();
    let key = "data/test".to_string();
    assert!(!fs.file_exists(&key));
    assert!(matches!(fs.get(&key), Err(IoError::NotFound)));
    assert_eq!(fs.get_or_create(&key).unwrap(), Vec::<u8>::new());
    assert!(fs.file_exists(&key));
    fs.store(&key, b"x");
    assert_eq!(fs.get_or_create(&key).unwrap(), b"x".to_vec());
    assert_eq!(fs.get(&key).unwrap(), b"x".to_vec());
    assert!(fs.remove(&key).is_ok());
    assert!(!fs.file_exists(&key));
    assert!(fs.remove(&key).is_ok());
    assert!(!fs.file_exists(&"data/other".to_string()));
    assert!(matches!(StorageReader::from_file_system(&fs, &key), Err(IoError::NotFound)));
}

#[test]
fn binary_bytes_round_trip() {
    let mut storage = MemoryStorage::new();
    let bytes: Vec<u8> = vec![0, 1, 2, 255, 254, 0x80, b'h', b'i'];

    let mut file = storage.writable_data().unwrap().writable_file("test");
    let mut writer = file.write_binary().unwrap();
    writer.write(&bytes[..3]).unwrap();
    writer.write(&bytes[3..]).unwrap();
    writer.flush().unwrap();
    assert!(file.file_exists().unwrap());
    assert_eq!(file.read_binary().unwrap().read_to_end(), bytes);

    let file = storage.data().unwrap().file("test");
    assert_eq!(file.read_binary().unwrap().read_to_end(), bytes);
}
