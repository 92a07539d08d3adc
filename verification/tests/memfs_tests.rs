use nrfs::io::S_IRWXU;
use nrfs::{FileInfo, FileSystem, FileSystemError, MemFS};

fn two_files() -> MemFS {
    let mut fs = MemFS::default();
    assert_eq!(fs.create("a", 0o700), Ok(2));
    assert_eq!(fs.create("a", 0o700), Err(FileSystemError::AlreadyPresent));
    assert_eq!(fs.create("b", 0o700), Ok(3));
    fs
}

#[test]
fn create_numbers_files_from_two() {
    let mut fs = MemFS::default();
    assert_eq!(fs.create("a", S_IRWXU), Ok(2));
    assert_eq!(fs.create("a", S_IRWXU), Err(FileSystemError::AlreadyPresent));
    assert_eq!(fs.create("b", S_IRWXU), Ok(3));
}

#[test]
fn root_is_there_from_the_start() {
    let fs = MemFS::default();
    assert_eq!(fs.lookup("/").map(|id| *id), Some(1));
    assert_eq!(fs.file_info(1), FileInfo { fsize: 0, ftype: 1 });
    assert!(fs.lookup("a").is_none());
}

#[test]
fn create_on_root_name_is_refused() {
    let mut fs = MemFS::default();
    assert_eq!(fs.create("/", 0o700), Err(FileSystemError::AlreadyPresent));
    assert_eq!(fs.create("x", 0o700), Ok(2));
}

#[test]
fn write_then_read_gives_the_bytes_back() {
    let mut fs = two_files();
    assert_eq!(fs.write(2, &[0x41, 0x42, 0x43], 0), Ok(3));
    assert_eq!(fs.file_info(2), FileInfo { fsize: 3, ftype: 2 });
    let mut buf = [0u8; 3];
    assert_eq!(fs.read(2, &mut buf, 0), Ok(3));
    assert_eq!(buf, [0x41, 0x42, 0x43]);
    assert_eq!(fs.read(2, &mut buf, 3), Err(FileSystemError::InvalidOffset));
}

#[test]
fn rename_moves_the_number_and_deletes_the_target() {
    let mut fs = two_files();
    assert_eq!(fs.rename("a", "b"), Ok(true));
    assert!(fs.lookup("a").is_none());
    assert_eq!(fs.lookup("b").map(|id| *id), Some(2));
    assert_eq!(fs.write(3, &[1], 0), Err(FileSystemError::InvalidFile));
    let mut buf = [0u8; 1];
    assert_eq!(fs.read(3, &mut buf, 0), Err(FileSystemError::InvalidFile));
}

#[test]
fn delete_waits_for_observers() {
    let mut fs = two_files();
    let held = fs.lookup("a");
    assert_eq!(fs.delete("a"), Err(FileSystemError::PermissionError));
    assert_eq!(fs.lookup("a").map(|id| *id), Some(2));
    drop(held);
    assert_eq!(fs.delete("a"), Ok(true));
    assert!(fs.lookup("a").is_none());
    assert_eq!(fs.delete("a"), Err(FileSystemError::InvalidFile));
}

#[test]
fn write_behind_the_end_fills_the_gap_with_zeros() {
    let mut fs = two_files();
    assert_eq!(fs.write(2, &[0, 0, 0, 0, 0, 0, 0, 0], 4), Ok(8));
    assert_eq!(fs.file_info(2).fsize, 12);
    let mut buf = [7u8; 4];
    assert_eq!(fs.read(2, &mut buf, 0), Ok(4));
    assert_eq!(buf, [0, 0, 0, 0]);
}

#[test]
fn gap_is_zero_and_written_bytes_follow() {
    let mut fs = two_files();
    assert_eq!(fs.write(2, &[9, 8], 3), Ok(2));
    let mut buf = [7u8; 8];
    assert_eq!(fs.read(2, &mut buf, 0), Ok(5));
    assert_eq!(buf, [0, 0, 0, 9, 8, 7, 7, 7]);
}

#[test]
fn truncate_of_root_is_a_permission_error() {
    let mut fs = MemFS::default();
    assert_eq!(fs.truncate("/"), Err(FileSystemError::PermissionError));
}

#[test]
fn truncate_twice_leaves_size_zero() {
    let mut fs = two_files();
    assert_eq!(fs.write(2, &[1, 2, 3, 4], 0), Ok(4));
    assert_eq!(fs.truncate("a"), Ok(true));
    assert_eq!(fs.file_info(2).fsize, 0);
    assert_eq!(fs.truncate("a"), Ok(true));
    assert_eq!(fs.file_info(2).fsize, 0);
    assert_eq!(fs.truncate("nobody"), Err(FileSystemError::InvalidFile));
}

#[test]
fn create_then_delete_leaves_no_name() {
    let mut fs = MemFS::default();
    let id = fs.create("p", 0o700).unwrap();
    assert_eq!(fs.lookup("p").map(|h| *h), Some(id));
    assert_eq!(fs.delete("p"), Ok(true));
    assert!(fs.lookup("p").is_none());
    assert_eq!(fs.write(id, &[1], 0), Err(FileSystemError::InvalidFile));
}

#[test]
fn failed_create_uses_no_number() {
    let mut fs = MemFS::default();
    assert_eq!(fs.create("a", 0o700), Ok(2));
    assert_eq!(fs.create("a", 0o700), Err(FileSystemError::AlreadyPresent));
    assert_eq!(fs.create("a", 0o700), Err(FileSystemError::AlreadyPresent));
    assert_eq!(fs.create("b", 0o700), Ok(3));
    assert_eq!(fs.delete("b"), Ok(true));
    assert_eq!(fs.create("b", 0o700), Ok(4));
}

#[test]
fn rename_to_a_free_name_keeps_the_number() {
    let mut fs = MemFS::default();
    let id = fs.create("draft", 0o700).unwrap();
    assert_eq!(fs.write(id, &[5, 6], 0), Ok(2));
    assert_eq!(fs.rename("draft", "final"), Ok(true));
    assert_eq!(fs.lookup("final").map(|h| *h), Some(id));
    assert!(fs.lookup("draft").is_none());
    assert_eq!(fs.file_info(id), FileInfo { fsize: 2, ftype: 2 });
    assert_eq!(fs.rename("draft", "other"), Err(FileSystemError::InvalidFile));
}

#[test]
fn rename_onto_an_observed_name_is_refused() {
    let mut fs = two_files();
    let held = fs.lookup("b");
    assert_eq!(fs.rename("a", "b"), Err(FileSystemError::PermissionError));
    assert_eq!(fs.lookup("a").map(|h| *h), Some(2));
    assert_eq!(fs.lookup("b").map(|h| *h), Some(3));
    drop(held);
    assert_eq!(fs.rename("a", "b"), Ok(true));
    assert_eq!(fs.lookup("b").map(|h| *h), Some(2));
}

#[test]
fn observed_variants_follow_the_given_count() {
    let mut fs = two_files();
    assert_eq!(fs.delete_observed("a", 2), Err(FileSystemError::PermissionError));
    assert_eq!(fs.delete_observed("a", 0), Err(FileSystemError::PermissionError));
    assert_eq!(fs.delete_observed("zz", 1), Err(FileSystemError::InvalidFile));
    assert_eq!(fs.rename_observed("a", "b", 2), Err(FileSystemError::PermissionError));
    assert_eq!(fs.rename_observed("a", "b", 1), Ok(true));
    assert_eq!(fs.delete_observed("b", 1), Ok(true));
    assert!(fs.lookup("b").is_none());
}

#[test]
fn modes_decide_what_a_file_allows() {
    let mut fs = MemFS::default();
    let ro = fs.create("ro", 0o400).unwrap();
    let wo = fs.create("wo", 0o200).unwrap();
    let mut buf = [0u8; 2];
    assert_eq!(fs.write(ro, &[1, 2], 0), Err(FileSystemError::PermissionError));
    assert_eq!(fs.truncate("ro"), Err(FileSystemError::PermissionError));
    assert_eq!(fs.read(ro, &mut buf, 0), Err(FileSystemError::InvalidOffset));
    assert_eq!(fs.write(wo, &[1, 2], 0), Ok(2));
    assert_eq!(fs.read(wo, &mut buf, 0), Err(FileSystemError::PermissionError));
    assert_eq!(fs.truncate("wo"), Ok(true));
    assert_eq!(fs.write(1, &[1], 0), Err(FileSystemError::PermissionError));
    assert_eq!(fs.read(1, &mut buf, 0), Err(FileSystemError::PermissionError));
}

#[test]
fn read_reports_offsets_behind_the_end() {
    let mut fs = two_files();
    assert_eq!(fs.write(2, &[1, 2, 3], 0), Ok(3));
    let mut buf = [0u8; 2];
    assert_eq!(fs.read(2, &mut buf, 4), Err(FileSystemError::InvalidOffset));
    assert_eq!(fs.read(2, &mut buf, 3), Err(FileSystemError::InvalidOffset));
    assert_eq!(fs.read(2, &mut buf, 2), Ok(1));
    assert_eq!(buf, [3, 0]);
    let mut none: [u8; 0] = [];
    assert_eq!(fs.read(2, &mut none, 0), Err(FileSystemError::InvalidOffset));
}

#[test]
fn write_whose_end_does_not_fit_is_out_of_memory() {
    let mut fs = two_files();
    assert_eq!(fs.write(2, &[1, 2], usize::MAX), Err(FileSystemError::OutOfMemory));
    assert_eq!(fs.file_info(2).fsize, 0);
}

#[test]
fn rename_to_itself_changes_nothing() {
    let mut fs = two_files();
    assert_eq!(fs.write(2, &[4, 5], 0), Ok(2));
    assert_eq!(fs.rename("zz", "zz"), Err(FileSystemError::InvalidFile));
    let held = fs.lookup("a");
    assert_eq!(fs.rename("a", "a"), Err(FileSystemError::PermissionError));
    assert_eq!(fs.rename_observed("a", "a", 2), Err(FileSystemError::PermissionError));
    assert_eq!(fs.lookup("a").map(|h| *h), Some(2));
    drop(held);
    assert_eq!(fs.rename("a", "a"), Ok(true));
    assert_eq!(fs.lookup("a").map(|h| *h), Some(2));
    assert_eq!(fs.file_info(2), FileInfo { fsize: 2, ftype: 2 });
    assert_eq!(fs.lookup("b").map(|h| *h), Some(3));
    assert!(fs.contains(2));
    assert!(fs.contains(1));
    assert!(!fs.contains(9));
    assert_eq!(fs.root(), ("/", 1));
}

#[test]
fn names_always_lead_to_live_numbers() {
    let mut fs = two_files();
    let names = ["/", "a", "b", "c", "d"];
    assert_eq!(fs.create("c", 0o700), Ok(4));
    assert_eq!(fs.rename("c", "d"), Ok(true));
    assert_eq!(fs.delete("b"), Ok(true));
    assert_eq!(fs.write(2, &[1, 2, 3], 5), Ok(3));
    assert_eq!(fs.truncate("a"), Ok(true));
    assert_eq!(fs.rename("a", "d"), Ok(true));
    let mut live = 0;
    for name in names {
        if let Some(id) = fs.lookup(name) {
            assert!(fs.contains(*id));
            live += 1;
        }
    }
    assert_eq!(live, 2);
    assert_eq!(fs.lookup("d").map(|h| *h), Some(2));
    assert!(!fs.contains(3));
    assert!(!fs.contains(4));
}

#[test]
fn root_stays_through_every_call() {
    let mut fs = two_files();
    assert_eq!(fs.write(2, &[1], 0), Ok(1));
    assert_eq!(fs.write(1, &[1], 0), Err(FileSystemError::PermissionError));
    assert_eq!(fs.truncate("a"), Ok(true));
    assert_eq!(fs.rename("a", "b"), Ok(true));
    assert_eq!(fs.rename("b", "/"), Err(FileSystemError::PermissionError));
    assert_eq!(fs.delete("/"), Err(FileSystemError::PermissionError));
    assert_eq!(fs.delete("b"), Ok(true));
    assert_eq!(fs.truncate("/"), Err(FileSystemError::PermissionError));
    assert_eq!(fs.lookup("/").map(|h| *h), Some(1));
    assert_eq!(fs.file_info(1), FileInfo { fsize: 0, ftype: 1 });
}

#[test]
fn root_stays_when_its_deletion_is_asked() {
    let mut fs = MemFS::default();
    assert_eq!(fs.delete("/"), Err(FileSystemError::PermissionError));
    assert_eq!(fs.delete_observed("/", 1), Err(FileSystemError::PermissionError));
    assert_eq!(fs.lookup("/").map(|h| *h), Some(1));
    assert!(fs.contains(1));
    assert_eq!(fs.file_info(1), FileInfo { fsize: 0, ftype: 1 });
    assert_eq!(fs.create("/", 0o700), Err(FileSystemError::AlreadyPresent));
}

#[test]
fn root_is_neither_renamed_nor_renamed_onto() {
    let mut fs = MemFS::default();
    assert_eq!(fs.create("a", 0o700), Ok(2));
    assert_eq!(fs.rename("/", "x"), Err(FileSystemError::PermissionError));
    assert_eq!(fs.rename("a", "/"), Err(FileSystemError::PermissionError));
    assert_eq!(fs.rename_observed("a", "/", 1), Err(FileSystemError::PermissionError));
    assert_eq!(fs.rename("/", "/"), Err(FileSystemError::PermissionError));
    assert_eq!(fs.rename("nobody", "/"), Err(FileSystemError::InvalidFile));
    assert_eq!(fs.lookup("/").map(|h| *h), Some(1));
    assert_eq!(fs.file_info(1), FileInfo { fsize: 0, ftype: 1 });
    assert_eq!(fs.lookup("a").map(|h| *h), Some(2));
    assert!(fs.lookup("x").is_none());
}
