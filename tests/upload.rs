use file_probe::port::{first_port, next_port, port_or};
use file_probe::upload::{field_role, FieldRole, Upload};

#[test]
fn field_roles_by_exact_name() {
    assert_eq!(field_role("file"), FieldRole::FileData);
    assert_eq!(field_role("filePath"), FieldRole::TargetPath);
    assert_eq!(field_role("filepath"), FieldRole::Ignored);
    assert_eq!(field_role("File"), FieldRole::Ignored);
    assert_eq!(field_role(""), FieldRole::Ignored);
}

#[test]
fn upload_keeps_bytes_verbatim() {
    let mut up = Upload::new();
    up.add_file_chunk(b"a,b\n");
    up.set_target(b"/tmp/x.csv");
    up.add_file_chunk(&[0u8, 255, 10]);
    let (path, bytes) = up.finish().expect("a path was given");
    assert_eq!(path, "/tmp/x.csv");
    assert_eq!(bytes, vec![b'a', b',', b'b', b'\n', 0, 255, 10]);
}

#[test]
fn upload_without_path_is_refused() {
    let mut up = Upload::new();
    up.add_file_chunk(b"data");
    assert!(up.finish().is_none());
}

#[test]
fn upload_without_file_part_is_refused() {
    let mut up = Upload::new();
    up.set_target(b"/tmp/a.csv");
    assert!(up.finish().is_none());
}

#[test]
fn later_path_replaces_earlier() {
    let mut up = Upload::new();
    up.set_target(b"/tmp/a.csv");
    up.add_file_chunk(b"x");
    up.set_target(b"/tmp/b.csv");
    let (path, bytes) = up.finish().expect("both parts were given");
    assert_eq!(path, "/tmp/b.csv");
    assert_eq!(bytes, b"x".to_vec());
}

#[test]
fn empty_file_part_is_accepted() {
    let mut up = Upload::new();
    up.begin_file();
    up.set_target(b"/tmp/empty.csv");
    let (path, bytes) = up.finish().expect("both parts were given");
    assert_eq!(path, "/tmp/empty.csv");
    assert!(bytes.is_empty());
}

#[test]
fn invalid_utf8_path_is_replaced_lossily() {
    let mut up = Upload::new();
    up.set_target(&[b'/', b't', 0xff, b'x']);
    up.begin_file();
    let (path, _) = up.finish().expect("a path was given");
    assert_eq!(path, "/t\u{FFFD}x");
}

#[test]
fn port_search_steps() {
    assert_eq!(first_port(54321, 54421), Some(54321));
    assert_eq!(first_port(10, 9), None);
    assert_eq!(first_port(7, 7), Some(7));
    assert_eq!(next_port(54321, 54421), Some(54322));
    assert_eq!(next_port(54421, 54421), None);
    assert_eq!(next_port(65535, 65535), None);
    assert_eq!(port_or(Some(54400), 54321), 54400);
    assert_eq!(port_or(None, 54321), 54321);
}
