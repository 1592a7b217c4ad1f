use xenomorph::container::{ar_parse, tar_parse};

#[test]
fn test_ar_parse_lists_members() {
    let mut builder = ar::Builder::new(vec![]);
    builder
        .append(&ar::Header::new(b"first".to_vec(), 3), &b"abc"[..])
        .unwrap();
    builder
        .append(&ar::Header::new(b"second.txt".to_vec(), 4), &b"wxyz"[..])
        .unwrap();
    let bytes = builder.into_inner().unwrap();

    let members = ar_parse(&bytes).unwrap();
    assert_eq!(members.len(), 2);
    assert_eq!(members[0].name, b"first".to_vec());
    assert_eq!(members[0].data, b"abc".to_vec());
    assert_eq!(members[1].name, b"second.txt".to_vec());
    assert_eq!(members[1].data, b"wxyz".to_vec());
}

#[test]
fn test_ar_parse_rejects_garbage() {
    assert!(ar_parse(&b"not an archive at all".to_vec()).is_none());
}

#[test]
fn test_tar_parse_lists_entries() {
    let mut builder = tar::Builder::new(vec![]);
    let mut header = tar::Header::new_gnu();
    header.set_size(5);
    header.set_mode(0o644);
    header.set_cksum();
    builder.append_data(&mut header, "dir/file.txt", &b"hello"[..]).unwrap();
    let mut header = tar::Header::new_gnu();
    header.set_size(0);
    header.set_mode(0o755);
    header.set_entry_type(tar::EntryType::Directory);
    header.set_cksum();
    builder.append_data(&mut header, "dir", &b""[..]).unwrap();
    let bytes = builder.into_inner().unwrap();

    let entries = tar_parse(&bytes).unwrap();
    assert_eq!(entries.len(), 2);
    assert_eq!(entries[0].name, b"dir/file.txt".to_vec());
    assert_eq!(entries[0].mode, Some(0o644));
    assert_eq!(entries[0].data, b"hello".to_vec());
    assert_eq!(entries[1].name, b"dir".to_vec());
    assert_eq!(entries[1].mode, Some(0o755));
    assert_eq!(entries[1].typeflag, b'5');
}

#[test]
fn test_tar_parse_rejects_short_stream() {
    assert!(tar_parse(&vec![1u8; 100]).is_none());
}
