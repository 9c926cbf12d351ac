use guestfs::error::{Error, ErrorRecord};
use guestfs::guestfs::ffi_utils::NativeSequence;
use guestfs::guestfs::types::{
    DirEntList, Free, GuestDirEntry, LvmLv, LvmPv, LvmVg, NativeResource, Release, Stat,
};
use guestfs::guestfs::{Call, GuestFs, LastError, Operation, Teardown};

const HANDLE: usize = 0x7f00_1000;

fn open() -> GuestFs {
    GuestFs::new(HANDLE).unwrap()
}

fn quiet() -> LastError {
    LastError { message: None, errno: 0 }
}

fn failure(message: &[u8], errno: i32) -> LastError {
    LastError { message: Some(message.to_vec()), errno }
}

fn call(operation: Operation, arguments: &[&[u8]]) -> (Operation, Vec<Vec<u8>>) {
    (operation, arguments.iter().map(|a| a.to_vec()).collect())
}

fn seen(call: &Call) -> (Operation, Vec<Vec<u8>>) {
    (call.operation(), call.arguments().clone())
}

fn parts(r: Result<Call, Error>) -> Result<(Operation, Vec<Vec<u8>>), Error> {
    r.map(|call| seen(&call))
}

fn engine_error(status: i32, message: &str, errno: i32) -> Error {
    Error::GuestFsError(ErrorRecord::new(status, String::from(message), errno))
}

#[test]
fn session_opens_on_a_handle() {
    let session = open();
    assert_eq!(session.handle(), HANDLE);
    assert!(!session.is_shut_down());
}

#[test]
fn null_handle_opens_no_session() {
    assert_eq!(
        GuestFs::new(0),
        Err(engine_error(0, "handle creation failed", 0))
    );
}

#[test]
fn status_zero_is_success() {
    assert_eq!(open().wrap_error(0, &failure(b"stale message\0", 5)), Ok(()));
}

#[test]
fn other_status_is_an_engine_error() {
    let session = open();
    let last = failure(b"mount: /dev/sda1: no such device\0", 19);
    assert_eq!(
        session.wrap_error(-1, &last),
        Err(engine_error(-1, "mount: /dev/sda1: no such device", 19))
    );
    assert_eq!(
        session.wrap_error(7, &last),
        Err(engine_error(7, "mount: /dev/sda1: no such device", 19))
    );
}

#[test]
fn engine_error_without_message_has_an_empty_one() {
    assert_eq!(open().parse_error(-1, &quiet()), engine_error(-1, "", 0));
}

#[test]
fn engine_message_that_is_not_text_is_made_readable() {
    assert_eq!(
        open().parse_error(-1, &failure(b"bad \xff name\0", 22)),
        engine_error(-1, "bad \u{fffd} name", 22)
    );
}

#[test]
fn error_number_is_read_from_the_note() {
    assert_eq!(open().last_error_number(&failure(b"x\0", 13)), 13);
}

#[test]
fn record_does_not_follow_the_engine() {
    let session = open();
    let mut last = failure(b"first\0", 1);
    let e = session.parse_error(-1, &last);
    last.message = Some(b"second\0".to_vec());
    last.errno = 2;
    assert_eq!(e, engine_error(-1, "first", 1));
}

#[test]
fn mount_passes_both_paths() {
    let mut session = open();
    assert_eq!(
        parts(session.mount("/dev/sda1", "/")),
        Ok(call(Operation::Mount, &[b"/dev/sda1\0", b"/\0"]))
    );
}

#[test]
fn each_operation_passes_its_arguments() {
    let mut s = open();
    assert_eq!(parts(s.add_drive("disk.img")), Ok(call(Operation::AddDrive, &[b"disk.img\0"])));
    assert_eq!(
        parts(s.add_drive_ro("disk.img")),
        Ok(call(Operation::AddDriveRo, &[b"disk.img\0"]))
    );
    assert_eq!(parts(s.umount("/")), Ok(call(Operation::Umount, &[b"/\0"])));
    assert_eq!(parts(s.touch("/tmp/x")), Ok(call(Operation::Touch, &[b"/tmp/x\0"])));
    assert_eq!(parts(s.mkdir("/tmp/d")), Ok(call(Operation::Mkdir, &[b"/tmp/d\0"])));
    assert_eq!(parts(s.ln_s("/a", "/b")), Ok(call(Operation::LnS, &[b"/a\0", b"/b\0"])));
    assert_eq!(parts(s.list_partitions()), Ok(call(Operation::ListPartitions, &[])));
    assert_eq!(parts(s.list_filesystems()), Ok(call(Operation::ListFilesystems, &[])));
    assert_eq!(parts(s.cat("/etc/hosts")), Ok(call(Operation::Cat, &[b"/etc/hosts\0"])));
    assert_eq!(
        parts(s.read_file("/etc/hosts")),
        Ok(call(Operation::ReadFile, &[b"/etc/hosts\0"]))
    );
    assert_eq!(
        parts(s.read_lines("/etc/hosts")),
        Ok(call(Operation::ReadLines, &[b"/etc/hosts\0"]))
    );
    assert_eq!(parts(s.readdir("/etc")), Ok(call(Operation::Readdir, &[b"/etc\0"])));
    assert_eq!(
        parts(s.download("/etc/hosts", "/tmp/hosts")),
        Ok(call(Operation::Download, &[b"/etc/hosts\0", b"/tmp/hosts\0"]))
    );
    assert_eq!(
        parts(s.acl_get_file("/f", "access")),
        Ok(call(Operation::AclGetFile, &[b"/f\0", b"access\0"]))
    );
    assert_eq!(
        parts(s.acl_set_file("/f", "default", "u::rwx")),
        Ok(call(Operation::AclSetFile, &[b"/f\0", b"default\0", b"u::rwx\0"]))
    );
    assert_eq!(
        parts(s.aug_clear("/files/etc/hosts")),
        Ok(call(Operation::AugClear, &[b"/files/etc/hosts\0"]))
    );
    assert_eq!(parts(s.aug_close()), Ok(call(Operation::AugClose, &[])));
    assert_eq!(s, open());
}

#[test]
fn argument_with_zero_byte_gives_no_call() {
    let mut session = open();
    assert_eq!(session.touch("/tmp\0/x"), Err(Error::NulError(4)));
    assert_eq!(session.mount("/dev/sda1", "\0"), Err(Error::NulError(0)));
    assert_eq!(session.acl_set_file("/f", "access", "u::\0rwx"), Err(Error::NulError(3)));
}

#[test]
fn first_bad_argument_is_the_one_reported() {
    let mut session = open();
    assert_eq!(session.mount("ab\0", "\0"), Err(Error::NulError(2)));
    assert_eq!(session.acl_set_file("/f", "a\0", "\0"), Err(Error::NulError(1)));
}

#[test]
fn shutdown_is_asked_once() {
    let mut session = open();
    assert_eq!(session.shutdown().as_ref().map(seen), Some(call(Operation::Shutdown, &[])));
    assert!(session.is_shut_down());
    assert_eq!(session.shutdown(), None);
    assert_eq!(session.shutdown(), None);
    assert!(session.is_shut_down());
    assert_eq!(session.handle(), HANDLE);
}

#[test]
fn close_shuts_down_first() {
    assert_eq!(open().close(), Teardown { shutdown: true, handle: HANDLE });
}

#[test]
fn close_after_shutdown_only_releases() {
    let mut session = open();
    let _ = session.shutdown();
    assert_eq!(session.close(), Teardown { shutdown: false, handle: HANDLE });
}

#[test]
fn null_array_is_a_failure_not_an_empty_list() {
    let session = open();
    let last = failure(b"list_filesystems: call launch before using this function\0", 22);
    assert_eq!(
        session.wrap_strings(None, &last),
        Err(engine_error(22, "list_filesystems: call launch before using this function", 22))
    );
    let mut empty = NativeSequence::new();
    empty.push(None);
    assert_eq!(session.wrap_strings(Some(empty), &last), Ok(Vec::new()));
}

#[test]
fn array_of_strings_becomes_texts() {
    let mut array = NativeSequence::new();
    array.push(Some(b"/dev/sda1\0".to_vec()));
    array.push(Some(b"ext4\0".to_vec()));
    array.push(None);
    assert_eq!(
        open().wrap_strings(Some(array), &quiet()),
        Ok(vec![String::from("/dev/sda1"), String::from("ext4")])
    );
}

#[test]
fn array_with_invalid_string_is_an_encoding_error() {
    let mut array = NativeSequence::new();
    array.push(Some(b"\xc3\x28\0".to_vec()));
    array.push(None);
    assert_eq!(open().wrap_strings(Some(array), &quiet()), Err(Error::Utf8Error(0)));
}

#[test]
fn string_answer_becomes_text() {
    let session = open();
    assert_eq!(
        session.wrap_string(Some(b"user::rwx,group::r--,other::r--\0".to_vec()), &quiet()),
        Ok(String::from("user::rwx,group::r--,other::r--"))
    );
    assert_eq!(
        session.wrap_string(None, &failure(b"acl_get_file: no such file\0", 2)),
        Err(engine_error(2, "acl_get_file: no such file", 2))
    );
    assert_eq!(
        session.wrap_string(Some(b"user\xff\0".to_vec()), &quiet()),
        Err(Error::Utf8Error(4))
    );
}

#[test]
fn characters_become_bytes_with_the_same_bits() {
    let array =
        NativeSequence::from_slots(vec![Some(104i8), Some(105), Some(-1), Some(-128), None]);
    assert_eq!(open().wrap_chars(Some(array), &quiet()), Ok(vec![104u8, 105, 255, 128]));
}

#[test]
fn empty_file_reads_as_no_bytes() {
    let array: NativeSequence<i8> = NativeSequence::from_slots(vec![None]);
    assert_eq!(open().wrap_chars(Some(array), &quiet()), Ok(Vec::new()));
}

#[test]
fn null_characters_are_a_failure() {
    assert_eq!(
        open().wrap_chars(None, &failure(b"cat: no such file\0", 2)),
        Err(engine_error(2, "cat: no such file", 2))
    );
}

#[test]
fn buffer_comes_back_as_it_is() {
    let session = open();
    assert_eq!(session.wrap_buffer(Some(vec![1i8, 0, -3, 0]), &quiet()), Ok(vec![1i8, 0, -3, 0]));
    assert_eq!(session.wrap_buffer(Some(Vec::new()), &quiet()), Ok(Vec::new()));
    assert_eq!(
        session.wrap_buffer(None, &failure(b"read_file: denied\0", 13)),
        Err(engine_error(13, "read_file: denied", 13))
    );
}

#[test]
fn entries_come_with_their_release() {
    let session = open();
    let mut list = session.wrap_entries(0x5000, &quiet()).unwrap();
    assert_eq!(list.address(), 0x5000);
    assert_eq!(list.release(), Release::DirentList);
    assert_eq!(list.free(), Some(Free { release: Release::DirentList, address: 0x5000 }));
    assert_eq!(
        session.wrap_entries(0, &failure(b"readdir: not a directory\0", 20)),
        Err(engine_error(20, "readdir: not a directory", 20))
    );
}

#[test]
fn resource_is_released_once() {
    let mut stat = NativeResource::new(Release::Stat, 0x9000).unwrap();
    assert!(!stat.is_released());
    assert_eq!(stat.free(), Some(Free { release: Release::Stat, address: 0x9000 }));
    assert!(stat.is_released());
    assert_eq!(stat.free(), None);
    assert_eq!(stat.free(), None);
    assert_eq!(stat.address(), 0x9000);
}

#[test]
fn null_is_no_resource() {
    for release in [
        Release::DirentList,
        Release::Stat,
        Release::LvmLv,
        Release::LvmVg,
        Release::LvmPv,
        Release::Dirent,
        Release::Memory,
    ] {
        assert_eq!(NativeResource::new(release, 0), None);
        let mut resource = NativeResource::new(release, 8).unwrap();
        assert_eq!(resource.free(), Some(Free { release, address: 8 }));
    }
}

#[test]
fn every_argument_of_a_call_is_a_c_string() {
    let mut session = open();
    let calls = [
        session.list_partitions().unwrap(),
        session.touch("").unwrap(),
        session.mount("/dev/sda1", "").unwrap(),
        session.acl_set_file("日本", "default", "u::rwx").unwrap(),
    ];
    for call in calls {
        assert_eq!(call.arguments().len(), call.operation().arity());
        for argument in call.arguments() {
            assert_eq!(argument.iter().position(|b| *b == 0), Some(argument.len() - 1));
        }
    }
}

#[test]
fn each_operation_takes_its_number_of_texts() {
    assert_eq!(Operation::Shutdown.arity(), 0);
    assert_eq!(Operation::ListPartitions.arity(), 0);
    assert_eq!(Operation::ListFilesystems.arity(), 0);
    assert_eq!(Operation::AugClose.arity(), 0);
    assert_eq!(Operation::AddDrive.arity(), 1);
    assert_eq!(Operation::AddDriveRo.arity(), 1);
    assert_eq!(Operation::Umount.arity(), 1);
    assert_eq!(Operation::Touch.arity(), 1);
    assert_eq!(Operation::Cat.arity(), 1);
    assert_eq!(Operation::ReadFile.arity(), 1);
    assert_eq!(Operation::ReadLines.arity(), 1);
    assert_eq!(Operation::Mkdir.arity(), 1);
    assert_eq!(Operation::Readdir.arity(), 1);
    assert_eq!(Operation::AugClear.arity(), 1);
    assert_eq!(Operation::Mount.arity(), 2);
    assert_eq!(Operation::LnS.arity(), 2);
    assert_eq!(Operation::Download.arity(), 2);
    assert_eq!(Operation::AclGetFile.arity(), 2);
    assert_eq!(Operation::AclSetFile.arity(), 3);
}

#[test]
fn each_kind_of_record_has_its_owner() {
    let mut owners = [
        DirEntList::new(Release::DirentList, 0x10).unwrap(),
        Stat::new(Release::Stat, 0x20).unwrap(),
        LvmLv::new(Release::LvmLv, 0x30).unwrap(),
        LvmVg::new(Release::LvmVg, 0x40).unwrap(),
        LvmPv::new(Release::LvmPv, 0x50).unwrap(),
        GuestDirEntry::new(Release::Dirent, 0x60).unwrap(),
    ];
    let mut plans = Vec::new();
    for owner in owners.iter_mut() {
        plans.push(owner.free());
        assert_eq!(owner.free(), None);
    }
    assert_eq!(
        plans,
        vec![
            Some(Free { release: Release::DirentList, address: 0x10 }),
            Some(Free { release: Release::Stat, address: 0x20 }),
            Some(Free { release: Release::LvmLv, address: 0x30 }),
            Some(Free { release: Release::LvmVg, address: 0x40 }),
            Some(Free { release: Release::LvmPv, address: 0x50 }),
            Some(Free { release: Release::Dirent, address: 0x60 }),
        ]
    );
}
