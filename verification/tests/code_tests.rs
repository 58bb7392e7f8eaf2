use bytes::Bytes;
use fastly_php_runtime::archive::{copy_whole, hello_world_if_empty, PharStore, SourceBuffer};
use fastly_php_runtime::code::{stdin_fsizer, stdin_reader, CodeReaderHandle, ReaderHandle, Runtime};

#[test]
fn reader_serves_source_in_chunks() {
    let mut handle = ReaderHandle::default();
    assert_eq!(handle.size(), 0);
    handle.init(Bytes::from_static(b"<?php echo 1;"));
    assert_eq!(handle.size(), 13);
    let mut buf = [0u8; 5];
    assert_eq!(handle.read(&mut buf).unwrap(), 5);
    assert_eq!(&buf, b"<?php");
    assert_eq!(handle.read(&mut buf).unwrap(), 5);
    assert_eq!(&buf, b" echo");
    let mut rest = [9u8; 8];
    assert_eq!(handle.read(&mut rest).unwrap(), 3);
    assert_eq!(&rest, b" 1;\x09\x09\x09\x09\x09");
    assert_eq!(handle.read(&mut rest).unwrap(), 0);
    assert_eq!(handle.size(), 13);
}

#[test]
fn stdin_reader_reads_nothing_into_empty_buffer() {
    let mut handle = ReaderHandle::default();
    handle.init(Bytes::from_static(b"abc"));
    let mut empty: [u8; 0] = [];
    assert_eq!(stdin_reader(&mut handle, &mut empty), 0);
    let mut buf = [0u8; 2];
    assert_eq!(stdin_reader(&mut handle, &mut buf), 2);
    assert_eq!(&buf, b"ab");
    assert_eq!(stdin_reader(&mut handle, &mut buf), 1);
    assert_eq!(&buf, b"cb");
    assert_eq!(stdin_fsizer(&handle), 3);
}

#[test]
fn code_reader_reads_loaded_source() {
    let mut reader = CodeReaderHandle::load(Bytes::from(b"hello world".to_vec()));
    assert_eq!(reader.size(), 11);
    let mut buf = [0u8; 6];
    assert_eq!(reader.read(&mut buf).unwrap(), 6);
    assert_eq!(&buf, b"hello ");
    assert_eq!(reader.read(&mut buf).unwrap(), 5);
    assert_eq!(&buf[..5], b"world");
    assert_eq!(reader.size(), 11);
}

#[test]
fn runtime_hands_over_loaded_code_once() {
    let mut runtime = Runtime::new();
    assert!(!runtime.has_code());
    runtime.load(Bytes::from_static(b"<?php"));
    assert!(runtime.has_code());
    runtime.load(Bytes::from_static(b"<?php echo 2;"));
    let code = runtime.take_code();
    assert_eq!(&code[..], b"<?php echo 2;");
    assert!(!runtime.has_code());
}

#[test]
fn phar_store_copies_whole_script() {
    let mut store = PharStore::new();
    let mut buf = [7u8; 10];
    assert_eq!(store.read_into(&mut buf), -1);
    store.store_from_bytes(Bytes::from_static(b"<?php 1;"));
    assert_eq!(store.fsize(), 7);
    let mut short = [7u8; 4];
    assert_eq!(store.read_into(&mut short), -1);
    assert_eq!(short, [7u8; 4]);
    assert_eq!(store.read_into(&mut buf), 8);
    assert_eq!(&buf, b"<?php 1;\x07\x07");
}

#[test]
fn hello_world_script_is_stored() {
    let mut store = PharStore::new();
    store.store_from_bytes(Bytes::from_static(b"x"));
    hello_world_if_empty(&mut store);
    let mut buf = [0u8; 64];
    let n = store.read_into(&mut buf);
    assert_eq!(n, 28);
    assert_eq!(&buf[..28], b"<?php echo 'Hello, world!'; ");
    assert_eq!(store.fsize(), 27);
}

#[test]
fn source_buffer_reads_whole_source() {
    let source = SourceBuffer::new(Bytes::from_static(b"<?php"));
    assert_eq!(source.stdin_fsizer(), 5);
    let mut empty: [u8; 0] = [];
    assert_eq!(source.stdin_reader(&mut empty), 0);
    let mut buf = [1u8; 7];
    assert_eq!(source.stdin_reader(&mut buf), 5);
    assert_eq!(&buf, b"<?php\x01\x01");
}

#[test]
fn copy_whole_leaves_tail() {
    let mut dst = [0u8; 4];
    copy_whole(b"ab", &mut dst);
    assert_eq!(dst, [b'a', b'b', 0, 0]);
}
