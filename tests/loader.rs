use async_filemanager::{FileLoadFuture, FilePoll, LoadError, OneShot, Received, ShotPoll};
use std::io::{Error, ErrorKind};

fn utf8(_path: String, bytes: Vec<u8>) -> Result<String, std::string::FromUtf8Error> {
    String::from_utf8(bytes)
}

#[test]
fn it_works() {
    let mut l = FileLoadFuture::<Error>::new(String::from("benches/benchfiles/s01"));
    let tx = match l.poll_step(utf8) {
        FilePoll::Dispatch(tx) => tx,
        _ => panic!("the first poll dispatches"),
    };
    tx.send(Ok(b"\r\ntest\r\n".to_vec())).unwrap();
    match l.poll_step(utf8) {
        FilePoll::Ready(Ok(f)) => assert_eq!(f.as_str(), "\r\ntest\r\n"),
        _ => panic!("the bytes were sent"),
    }
}

#[test]
fn poll_before_the_worker_reports_is_pending() {
    let mut l = FileLoadFuture::<Error>::new(String::from("a"));
    let tx = match l.poll_step(utf8) {
        FilePoll::Dispatch(tx) => tx,
        _ => panic!(),
    };
    assert!(matches!(l.poll_step(utf8), FilePoll::Pending));
    assert!(matches!(l.poll_step(utf8), FilePoll::Pending));
    tx.send(Ok(b"x".to_vec())).unwrap();
    assert!(matches!(l.poll_step(utf8), FilePoll::Ready(Ok(_))));
}

#[test]
fn vanished_worker_is_a_broken_pipe() {
    let mut l = FileLoadFuture::<Error>::new(String::from("a"));
    match l.poll_step(utf8) {
        FilePoll::Dispatch(tx) => drop(tx),
        _ => panic!(),
    }
    match l.poll_step(utf8) {
        FilePoll::Ready(Err(e)) => assert!(matches!(*e, LoadError::BrokenPipe)),
        _ => panic!("the channel is closed"),
    }
}

#[test]
fn read_error_is_passed_on() {
    let mut l = FileLoadFuture::<Error>::new(String::from("missing"));
    let tx = match l.poll_step(utf8) {
        FilePoll::Dispatch(tx) => tx,
        _ => panic!(),
    };
    tx.send(Err(Error::new(ErrorKind::NotFound, "gone"))).unwrap();
    match l.poll_step(utf8) {
        FilePoll::Ready(Err(e)) => match &*e {
            LoadError::Read(io) => assert_eq!(io.kind(), ErrorKind::NotFound),
            _ => panic!("a read error"),
        },
        _ => panic!(),
    }
}

#[test]
fn failed_conversion_is_invalid_data() {
    let mut l = FileLoadFuture::<Error>::new(String::from("a"));
    let tx = match l.poll_step(utf8) {
        FilePoll::Dispatch(tx) => tx,
        _ => panic!(),
    };
    tx.send(Ok(vec![0xff, 0xfe])).unwrap();
    match l.poll_step(utf8) {
        FilePoll::Ready(Err(e)) => assert!(matches!(*e, LoadError::InvalidData)),
        _ => panic!(),
    }
}

#[test]
fn conversion_sees_the_path() {
    let mut l = FileLoadFuture::<Error>::new(String::from("dir/file.txt"));
    assert_eq!(l.path().as_str(), "dir/file.txt");
    let with_path = |p: String, b: Vec<u8>| -> Result<(String, usize), ()> { Ok((p, b.len())) };
    let tx = match l.poll_step(with_path) {
        FilePoll::Dispatch(tx) => tx,
        _ => panic!(),
    };
    tx.send(Ok(vec![1, 2, 3])).unwrap();
    match l.poll_step(with_path) {
        FilePoll::Ready(Ok(v)) => assert_eq!(*v, (String::from("dir/file.txt"), 3)),
        _ => panic!(),
    }
}

#[test]
fn resolve_maps_each_receive() {
    let l = FileLoadFuture::<Error>::new(String::from("p"));
    assert!(matches!(l.resolve(Received::Empty, utf8), FilePoll::Pending));
    match l.resolve(Received::Message(Ok(b"ok".to_vec())), utf8) {
        FilePoll::Ready(Ok(v)) => assert_eq!(v.as_str(), "ok"),
        _ => panic!(),
    }
    match l.resolve::<String, _, _>(Received::Disconnected, utf8) {
        FilePoll::Ready(Err(e)) => assert!(matches!(*e, LoadError::BrokenPipe)),
        _ => panic!(),
    }
}

#[test]
fn one_shot_dispatches_once() {
    let mut s = OneShot::<u32>::new();
    let tx = match s.poll_step() {
        ShotPoll::Dispatch(tx) => tx,
        _ => panic!(),
    };
    assert!(matches!(s.poll_step(), ShotPoll::Pending));
    tx.send(7).unwrap();
    assert!(matches!(s.poll_step(), ShotPoll::Ready(Received::Message(7))));
}
