use std::path::Path;

use replicate::{
    exe, exe_path, file_name, join_path, platform_from_sysname, u64_to_decimal, virtual_self_path,
    IoError, Platform, Replicate, REPLICA_MODE,
};

/// Reads everything the descriptor offers and closes it.
fn read_all_and_close(fd: i32) -> Vec<u8> {
    let mut out = Vec::new();
    let mut buf = vec![0u8; 8192];
    loop {
        let n = nix::unistd::read(fd, &mut buf).expect("read failed");
        if n == 0 {
            break;
        }
        out.extend_from_slice(&buf[..n]);
    }
    nix::unistd::close(fd).expect("close failed");
    out
}

/// Reads a library source stream to its end and closes it.
fn drain_source(mut src: replicate::SourceFd) -> Vec<u8> {
    let mut out = Vec::new();
    let mut buf = vec![0u8; 8192];
    loop {
        let n = src.read_into(&mut buf).expect("read failed");
        if n == 0 {
            break;
        }
        out.extend_from_slice(&buf[..n]);
    }
    src.close();
    out
}

fn open_read(path: &str) -> i32 {
    nix::fcntl::open(
        path,
        nix::fcntl::OFlag::O_RDONLY,
        nix::sys::stat::Mode::empty(),
    )
    .expect("open failed")
}

#[test]
fn create_replicate() {
    let copy = Replicate::new().expect("Failed to copy program");
    println!("Created new copy: {}", copy.path());

    let name = Path::new(copy.path().as_str())
        .file_name()
        .and_then(|n| n.to_str())
        .expect("Failed to copy program");

    // Verify the name starts with "replicate"
    assert!(name.starts_with("replicate"));
}

#[test]
fn create_replicate_with_same_name() {
    let copy = Replicate::same_name().expect("Failed to copy program");
    println!("Created new copy: {}", copy.path());

    let name = Path::new(copy.path().as_str())
        .file_name()
        .and_then(|n| n.to_str())
        .expect("Failed to copy program");

    // Verify the name equals the running binary's own filename
    let target = nix::fcntl::readlink("/proc/self/exe").expect("readlink failed");
    let target = target.to_string_lossy().into_owned();
    let own_name = Path::new(&target)
        .file_name()
        .and_then(|n| n.to_str())
        .expect("self path has a name");
    assert_eq!(name, own_name);
}

#[test]
fn test_that_files_are_cleared_up() {
    let path_str = {
        let copy = Replicate::new().expect("Failed to copy program");
        println!("My copy's path is {}", copy.path());
        copy.parent().clone()
    }; // The copy should be cleaned up here

    // Verify that the temporary directory is deleted
    assert!(
        !Path::new(&path_str).exists(),
        "Temporary directory still exists"
    );
}

#[test]
fn randomized_name_has_prefix_and_length() {
    let copy = Replicate::new().expect("Failed to copy program");
    let name = copy.name().clone();
    assert!(name.starts_with("replicate_"));
    assert_eq!(name.len(), "replicate_".len() + 5);
    assert!(name
        .chars()
        .skip("replicate_".len())
        .all(|c| c.is_ascii_alphanumeric()));
    // The copy is readable.
    let fd = open_read(copy.path().as_str());
    let bytes = read_all_and_close(fd);
    assert!(!bytes.is_empty());
}

#[test]
fn named_copy_matches_self_name() {
    let copy = Replicate::same_name().expect("Failed to copy program");
    let target = nix::fcntl::readlink("/proc/self/exe").expect("readlink failed");
    let target = target.to_string_lossy().into_owned();
    let expected = Path::new(&target)
        .file_name()
        .and_then(|n| n.to_str())
        .expect("self path has a name")
        .to_string();
    assert_eq!(copy.name().as_str(), expected.as_str());
}

#[test]
fn named_copy_is_cleared_up() {
    let (dir, path) = {
        let copy = Replicate::same_name().expect("Failed to copy program");
        assert!(Path::new(copy.path().as_str()).exists());
        (copy.parent().clone(), copy.path().clone())
    };
    assert!(!Path::new(&path).exists(), "Copy still exists");
    assert!(!Path::new(&dir).exists(), "Temporary directory still exists");
}

#[test]
fn copy_contents_match_self() {
    let copy = Replicate::new().expect("Failed to copy program");
    let self_bytes = drain_source(exe().expect("Failed to open self"));
    let copy_fd = open_read(copy.path().as_str());
    let copy_bytes = read_all_and_close(copy_fd);
    assert!(!self_bytes.is_empty());
    assert_eq!(self_bytes, copy_bytes);
}

#[test]
fn named_copy_contents_match_self() {
    let copy = Replicate::same_name().expect("Failed to copy program");
    let self_bytes = drain_source(exe().expect("Failed to open self"));
    let copy_fd = open_read(copy.path().as_str());
    let copy_bytes = read_all_and_close(copy_fd);
    assert_eq!(self_bytes, copy_bytes);
}

#[test]
fn copy_is_executable() {
    let copy = Replicate::new().expect("Failed to copy program");
    let st = nix::sys::stat::stat(copy.path().as_str()).expect("stat failed");
    assert_eq!(st.st_mode & 0o7777, REPLICA_MODE);
    assert_eq!(st.st_mode & 0o111, 0o111);
}

#[test]
fn named_copy_is_executable() {
    let copy = Replicate::same_name().expect("Failed to copy program");
    let st = nix::sys::stat::stat(copy.path().as_str()).expect("stat failed");
    assert_eq!(st.st_mode & 0o111, 0o111);
}

#[test]
fn two_replicas_are_isolated() {
    let first = Replicate::new().expect("Failed to copy program");
    let second = Replicate::new().expect("Failed to copy program");
    assert_ne!(first.parent().as_str(), second.parent().as_str());
    assert_ne!(first.path().as_str(), second.path().as_str());
    assert!(Path::new(first.parent().as_str()).is_dir());
    assert!(Path::new(second.parent().as_str()).is_dir());
    let kept_dir = second.parent().clone();
    let kept_path = second.path().clone();
    drop(first);
    // Destroying one handle does not affect the other's files.
    assert!(Path::new(&kept_dir).is_dir());
    assert!(Path::new(&kept_path).exists());
}

#[test]
fn location_is_inside_directory() {
    let copy = Replicate::new().expect("Failed to copy program");
    let dir = copy.parent().clone();
    let path = copy.path().clone();
    assert!(path.starts_with(&format!("{}/", dir)));
    assert!(path.len() > dir.len() + 1);
}

#[test]
fn new_from_copies_the_resolved_path() {
    let copy = Replicate::new_from("/proc/self/exe").expect("Failed to copy program");
    assert!(copy.name().starts_with("replicate_"));
    let self_bytes = drain_source(exe().expect("Failed to open self"));
    let copy_fd = open_read(copy.path().as_str());
    let copy_bytes = read_all_and_close(copy_fd);
    assert_eq!(self_bytes, copy_bytes);
}

#[test]
fn missing_source_is_not_found() {
    assert!(matches!(
        Replicate::new_from("/no/such/binary/anywhere"),
        Err(IoError::NotFound)
    ));
    assert!(matches!(
        Replicate::same_name_from("/no/such/binary/anywhere"),
        Err(IoError::NotFound)
    ));
}

#[test]
fn same_name_rejects_paths_without_filename() {
    assert!(matches!(
        Replicate::same_name_from(""),
        Err(IoError::InvalidInput)
    ));
    assert!(matches!(
        Replicate::same_name_from("/"),
        Err(IoError::InvalidInput)
    ));
    assert!(matches!(
        Replicate::same_name_from("/some/dir/"),
        Err(IoError::InvalidInput)
    ));
}

#[test]
fn file_name_extracts_final_component() {
    assert_eq!(file_name("/proc/self/exe").unwrap(), "exe");
    assert_eq!(file_name("plain").unwrap(), "plain");
    assert_eq!(file_name(""), None);
    assert_eq!(file_name("/"), None);
    assert_eq!(file_name("/trailing/"), None);
}

#[test]
fn join_path_inserts_separator() {
    assert_eq!(join_path("/tmp/work", "app"), "/tmp/work/app");
    assert_eq!(join_path("", "app"), "/app");
}

#[test]
fn decimal_formatting_is_exact() {
    assert_eq!(u64_to_decimal(0), "0");
    assert_eq!(u64_to_decimal(7), "7");
    assert_eq!(u64_to_decimal(105), "105");
    assert_eq!(u64_to_decimal(u64::MAX), "18446744073709551615");
}

#[test]
fn platform_table_is_exact() {
    assert_eq!(platform_from_sysname("Linux"), Platform::Linux);
    assert_eq!(platform_from_sysname("DragonFly"), Platform::DragonFly);
    assert_eq!(platform_from_sysname("NetBSD"), Platform::NetBsd);
    assert_eq!(platform_from_sysname("SunOS"), Platform::Solaris);
    assert_eq!(platform_from_sysname("Darwin"), Platform::Other);

    assert_eq!(
        virtual_self_path(Platform::Linux, 1).unwrap(),
        "/proc/self/exe"
    );
    assert_eq!(
        virtual_self_path(Platform::Android, 1).unwrap(),
        "/proc/self/exe"
    );
    assert_eq!(
        virtual_self_path(Platform::DragonFly, 1).unwrap(),
        "/proc/curproc/file"
    );
    assert_eq!(
        virtual_self_path(Platform::NetBsd, 1).unwrap(),
        "/proc/curproc/exe"
    );
    assert_eq!(
        virtual_self_path(Platform::Solaris, 1234).unwrap(),
        "/proc/1234/path/a.out"
    );
    assert_eq!(virtual_self_path(Platform::Other, 1), None);
}

#[test]
fn exe_path_resolves_on_this_platform() {
    // The suite runs on a Linux-family kernel, whose strategy is the fixed
    // virtual path.
    let p = exe_path().expect("no strategy for this platform");
    assert_eq!(p, "/proc/self/exe");
    let bytes = drain_source(exe().expect("Failed to open self"));
    assert!(!bytes.is_empty());
}
