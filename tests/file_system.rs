use caliga_bootloader::filesystem::{read_fully, FileSystem, OpenFileError};
use caliga_bootloader::memory_fs::MemoryFileSystem;

fn sample() -> MemoryFileSystem {
    let mut fs = MemoryFileSystem::new(16);
    fs.add_file("/a", vec![10, 20, 30, 40, 50]);
    fs.add_file("boot/kernel", vec![1, 2, 3]);
    fs
}

#[test]
fn too_long_path_is_refused_without_device_access() {
    let mut fs = sample();
    let before = fs.device_accesses();
    let result = fs.open_file("/this/path/is/far/too/long");
    assert!(matches!(result, Err(OpenFileError::PathTooLong)));
    assert_eq!(fs.device_accesses(), before);
    assert_eq!(before, 0);
}

#[test]
fn path_of_exactly_the_maximum_is_looked_up() {
    let mut fs = MemoryFileSystem::new(4);
    let result = fs.open_file("/abc");
    assert!(matches!(result, Err(OpenFileError::FileNotFound)));
    assert_eq!(fs.device_accesses(), 1);
}

#[test]
fn missing_file_is_not_found() {
    let mut fs = sample();
    assert!(matches!(fs.open_file("/b"), Err(OpenFileError::FileNotFound)));
    assert!(matches!(fs.open_file(""), Err(OpenFileError::FileNotFound)));
}

#[test]
fn open_read_size_close_round_trip() {
    let mut fs = sample();
    let mut d = fs.open_file("/a").ok().unwrap();
    let size = fs.get_size(&mut d);
    assert_eq!(size, 5);
    let mut buf = [0u8; 3];
    let n = fs.read_file(&mut d, &mut buf, 3);
    assert_eq!(n, 3);
    assert_eq!(buf, [10, 20, 30]);
    assert_eq!(fs.get_size(&mut d), size);
    let n = fs.read_file(&mut d, &mut buf, 3);
    assert_eq!(n, 2);
    assert_eq!(&buf[..2], &[40, 50]);
    assert_eq!(fs.read_file(&mut d, &mut buf, 3), 0);
    assert_eq!(fs.get_size(&mut d), size);
    fs.close_file(d);
}

#[test]
fn relative_and_absolute_paths_name_the_same_file() {
    let mut fs = sample();
    let mut rel = fs.open_file("a").ok().unwrap();
    let mut abs = fs.open_file("/boot/kernel").ok().unwrap();
    assert_eq!(fs.get_size(&mut rel), 5);
    assert_eq!(fs.get_size(&mut abs), 3);
    fs.close_file(rel);
    fs.close_file(abs);
}

#[test]
fn seek_moves_the_cursor() {
    let mut fs = sample();
    let mut d = fs.open_file("/a").ok().unwrap();
    fs.seek_file(&mut d, 4);
    let mut buf = [0u8; 4];
    assert_eq!(fs.read_file(&mut d, &mut buf, 4), 1);
    assert_eq!(buf[0], 50);
    fs.seek_file(&mut d, 100);
    assert_eq!(fs.read_file(&mut d, &mut buf, 4), 0);
    fs.seek_file(&mut d, 1);
    assert_eq!(fs.read_file(&mut d, &mut buf, 2), 2);
    assert_eq!(&buf[..2], &[20, 30]);
    fs.close_file(d);
}

#[test]
fn zero_count_read_transfers_nothing() {
    let mut fs = sample();
    let mut d = fs.open_file("/a").ok().unwrap();
    let mut buf = [9u8; 2];
    assert_eq!(fs.read_file(&mut d, &mut buf, 0), 0);
    assert_eq!(buf, [9, 9]);
    fs.close_file(d);
}

#[test]
fn reads_and_lookups_count_device_accesses() {
    let mut fs = sample();
    let mut d = fs.open_file("/a").ok().unwrap();
    assert_eq!(fs.device_accesses(), 1);
    let mut buf = [0u8; 1];
    fs.read_file(&mut d, &mut buf, 1);
    assert_eq!(fs.device_accesses(), 2);
    fs.close_file(d);
}

#[test]
fn every_error_kind_is_distinct() {
    let all = [
        OpenFileError::PathTooLong,
        OpenFileError::ComponentTooLong,
        OpenFileError::InvalidCharset,
        OpenFileError::FileNotFound,
        OpenFileError::DeviceError,
        OpenFileError::AccessDenied,
        OpenFileError::FileSystemCorrupted,
        OpenFileError::DirectoryNotFound,
        OpenFileError::IsFile,
        OpenFileError::IsDirectory,
    ];
    for i in 0..all.len() {
        for j in 0..all.len() {
            assert_eq!(all[i] == all[j], i == j);
        }
    }
}

#[test]
fn stored_path_opens_its_first_entry() {
    let mut fs = MemoryFileSystem::new(16);
    fs.add_file("/a", vec![1]);
    fs.add_file("a", vec![2, 2]);
    let mut d = fs.open_file("/a").ok().unwrap();
    assert_eq!(fs.get_size(&mut d), 1);
    assert_eq!(fs.device_accesses(), 1);
    fs.close_file(d);
}

#[test]
fn closing_one_descriptor_keeps_the_others() {
    let mut fs = sample();
    let mut first = fs.open_file("/a").ok().unwrap();
    let second = fs.open_file("/a").ok().unwrap();
    let mut buf = [0u8; 2];
    fs.read_file(&mut first, &mut buf, 2);
    fs.close_file(second);
    assert_eq!(fs.read_file(&mut first, &mut buf, 2), 2);
    assert_eq!(buf, [30, 40]);
    fs.close_file(first);
}

#[test]
fn read_count_is_the_smaller_of_request_and_rest() {
    let mut fs = sample();
    let mut d = fs.open_file("/boot/kernel").ok().unwrap();
    let mut buf = [0u8; 8];
    assert_eq!(fs.read_file(&mut d, &mut buf, 8), 3);
    assert_eq!(&buf[..3], &[1, 2, 3]);
    fs.seek_file(&mut d, 3);
    assert_eq!(fs.read_file(&mut d, &mut buf, 8), 0);
    fs.close_file(d);
}

#[test]
fn size_is_constant_across_many_reads() {
    let mut fs = sample();
    let mut d = fs.open_file("/a").ok().unwrap();
    let size = fs.get_size(&mut d);
    let mut buf = [0u8; 1];
    for _ in 0..7 {
        fs.read_file(&mut d, &mut buf, 1);
        assert_eq!(fs.get_size(&mut d), size);
    }
    fs.close_file(d);
}

#[test]
fn read_fully_stops_at_end_of_file() {
    let mut fs = sample();
    let mut d = fs.open_file("/a").ok().unwrap();
    fs.seek_file(&mut d, 1);
    let mut buf = [0u8; 8];
    assert_eq!(read_fully(&mut fs, &mut d, &mut buf), 4);
    assert_eq!(&buf[..4], &[20, 30, 40, 50]);
    assert_eq!(fs.get_size(&mut d), 5);
    assert_eq!(read_fully(&mut fs, &mut d, &mut buf), 0);
    fs.close_file(d);
}

#[test]
fn read_fully_stops_when_buffer_is_full() {
    let mut fs = sample();
    let mut d = fs.open_file("/a").ok().unwrap();
    let mut buf = [0u8; 2];
    assert_eq!(read_fully(&mut fs, &mut d, &mut buf), 2);
    assert_eq!(buf, [10, 20]);
    assert_eq!(read_fully(&mut fs, &mut d, &mut buf), 2);
    assert_eq!(buf, [30, 40]);
    fs.close_file(d);
}
