use async_filemanager::{AsyncFileManager, AsyncGpuManager, FileLoadFuture, FilePoll, Identifier, LoadError, LoadStatus, ResourceCache, StatusKind};
use std::cell::{Cell, RefCell};
use std::io::{Error, ErrorKind};
use std::rc::Rc;
use std::sync::Arc;

type Outcome = Option<Result<Arc<String>, Arc<LoadError<Error>>>>;
type Handle = Rc<RefCell<Outcome>>;

fn poll(h: &Handle) -> Outcome {
    h.borrow().clone()
}

/// Requests `key` and, when the cache asks for it, records the load that
/// `make` starts; returns whether a load was started.
fn request(cache: &mut ResourceCache<Handle, String, LoadError<Error>>, key: Identifier, make: impl FnOnce() -> Handle) -> bool {
    if cache.load(&key, &poll) {
        cache.begin(key, make());
        true
    } else {
        false
    }
}

fn path(p: &str) -> Identifier {
    Identifier::Path(String::from(p))
}

#[test]
fn filemanager_manager() {
    let path = "benches/benchfiles/s01";
    let mut manager = AsyncFileManager::<Handle, String, Error>::new();
    let handle: Handle = Rc::new(RefCell::new(None));
    let h = handle.clone();
    assert!(manager.load(path, &poll));
    manager.begin(path, h);
    match manager.get(path, &poll) {
        LoadStatus::Loading(f) => {
            *f.borrow_mut() = Some(Ok(Arc::new(String::from("\r\ntest\r\n"))));
        }
        _ => panic!(),
    }
    match manager.get(path, &poll) {
        LoadStatus::Loaded(f) => assert_eq!(f.as_str(), "\r\ntest\r\n"),
        _ => panic!(),
    }
    assert!(!manager.load(path, &poll));
    match manager.get(path, &poll) {
        LoadStatus::Loaded(f) => assert_eq!(f.as_str(), "\r\ntest\r\n"),
        _ => panic!(),
    }
}

#[test]
fn never_requested_keys_are_not_loading() {
    let mut cache = ResourceCache::<Handle, String, LoadError<Error>>::new();
    assert_eq!(cache.status(&path("a"), &poll), StatusKind::NotLoading);
    assert_eq!(cache.status(&Identifier::Index(3), &poll), StatusKind::NotLoading);
    request(&mut cache, path("a"), || Rc::new(RefCell::new(None)));
    assert_eq!(cache.status(&path("b"), &poll), StatusKind::NotLoading);
    assert!(matches!(cache.get(&Identifier::Index(0), &poll), LoadStatus::NotLoading));
}

#[test]
fn second_load_before_resolution_starts_nothing() {
    let mut cache = ResourceCache::<Handle, String, LoadError<Error>>::new();
    let starts = Cell::new(0u32);
    let start = || {
        starts.set(starts.get() + 1);
        Rc::new(RefCell::new(None))
    };
    assert!(request(&mut cache, path("k"), start));
    let start = || {
        starts.set(starts.get() + 1);
        Rc::new(RefCell::new(None))
    };
    assert!(!request(&mut cache, path("k"), start));
    assert_eq!(starts.get(), 1);
    assert_eq!(cache.status(&path("k"), &poll), StatusKind::Loading);
}

#[test]
fn repeated_get_hands_out_the_same_value() {
    let mut cache = ResourceCache::<Handle, String, LoadError<Error>>::new();
    let handle: Handle = Rc::new(RefCell::new(None));
    let h = handle.clone();
    request(&mut cache, path("k"), move || h);
    *handle.borrow_mut() = Some(Ok(Arc::new(String::from("v"))));
    let first = match cache.get(&path("k"), &poll) {
        LoadStatus::Loaded(v) => v,
        _ => panic!(),
    };
    *handle.borrow_mut() = Some(Ok(Arc::new(String::from("other"))));
    let second = match cache.get(&path("k"), &poll) {
        LoadStatus::Loaded(v) => v,
        _ => panic!(),
    };
    assert!(Arc::ptr_eq(&first, &second));
    assert_eq!(second.as_str(), "v");
}

#[test]
fn concurrent_loads_share_one_read() {
    let reads = Cell::new(0u32);
    let mut cache = ResourceCache::<Handle, String, LoadError<Error>>::new();
    let handle: Handle = Rc::new(RefCell::new(None));
    for _ in 0..2 {
        let h = handle.clone();
        request(&mut cache, path("fixture"), || {
            reads.set(reads.get() + 1);
            h
        });
    }
    *handle.borrow_mut() = Some(Ok(Arc::new(String::from("\r\ntest\r\n"))));
    let a = match cache.get(&path("fixture"), &poll) {
        LoadStatus::Loaded(v) => v,
        _ => panic!(),
    };
    let b = match cache.get(&path("fixture"), &poll) {
        LoadStatus::Loaded(v) => v,
        _ => panic!(),
    };
    assert!(Arc::ptr_eq(&a, &b));
    assert_eq!(a.as_str(), "\r\ntest\r\n");
    assert_eq!(reads.get(), 1);
}

#[test]
fn fixture_bytes_round_trip() {
    let mut fut = FileLoadFuture::<Error>::new(String::from("fixture"));
    let convert = |_p: String, b: Vec<u8>| String::from_utf8(b);
    let tx = match fut.poll_step(convert) {
        FilePoll::Dispatch(tx) => tx,
        _ => panic!(),
    };
    tx.send(Ok(b"\r\ntest\r\n".to_vec())).unwrap();
    let out = match fut.poll_step(convert) {
        FilePoll::Ready(r) => r,
        _ => panic!(),
    };
    let mut cache = ResourceCache::<Handle, String, LoadError<Error>>::new();
    let handle: Handle = Rc::new(RefCell::new(None));
    let h = handle.clone();
    request(&mut cache, path("fixture"), move || h);
    *handle.borrow_mut() = Some(out);
    match cache.get(&path("fixture"), &poll) {
        LoadStatus::Loaded(v) => assert_eq!(v.as_str(), "\r\ntest\r\n"),
        _ => panic!(),
    }
}

#[test]
fn failed_read_is_an_error_for_good() {
    let mut cache = ResourceCache::<Handle, String, LoadError<Error>>::new();
    let handle: Handle = Rc::new(RefCell::new(None));
    let h = handle.clone();
    request(&mut cache, path("missing"), move || h);
    *handle.borrow_mut() = Some(Err(Arc::new(LoadError::Read(Error::new(ErrorKind::NotFound, "gone")))));
    assert_eq!(cache.status(&path("missing"), &poll), StatusKind::Error);
    for _ in 0..3 {
        match cache.get(&path("missing"), &poll) {
            LoadStatus::Error(e) => assert!(matches!(*e, LoadError::Read(_))),
            _ => panic!("never loaded"),
        }
    }
    assert!(!request(&mut cache, path("missing"), || panic!("failed keys are not retried")));
    assert_eq!(cache.status(&path("missing"), &poll), StatusKind::Error);
}

#[test]
fn remove_after_resolution_hands_out_the_value_once() {
    let mut cache = ResourceCache::<Handle, String, LoadError<Error>>::new();
    let handle: Handle = Rc::new(RefCell::new(None));
    let h = handle.clone();
    request(&mut cache, path("p"), move || h);
    *handle.borrow_mut() = Some(Ok(Arc::new(String::from("v"))));
    let got = cache.remove(&path("p"), &poll);
    assert_eq!(got.as_deref().map(|s| s.as_str()), Some("v"));
    assert!(matches!(cache.get(&path("p"), &poll), LoadStatus::NotLoading));
    assert!(cache.remove(&path("p"), &poll).is_none());
}

#[test]
fn remove_leaves_a_load_in_flight() {
    let mut cache = ResourceCache::<Handle, String, LoadError<Error>>::new();
    request(&mut cache, path("p"), || Rc::new(RefCell::new(None)));
    assert!(cache.remove(&path("p"), &poll).is_none());
    assert_eq!(cache.status(&path("p"), &poll), StatusKind::Loading);
}

#[test]
fn remove_clears_a_failure() {
    let mut cache = ResourceCache::<Handle, String, LoadError<Error>>::new();
    request(&mut cache, path("p"), || Rc::new(RefCell::new(Some(Err(Arc::new(LoadError::BrokenPipe))))));
    assert_eq!(cache.status(&path("p"), &poll), StatusKind::Error);
    assert!(cache.remove(&path("p"), &poll).is_none());
    assert_eq!(cache.status(&path("p"), &poll), StatusKind::NotLoading);
    assert!(request(&mut cache, path("p"), || Rc::new(RefCell::new(None))));
}

#[test]
fn update_settles_every_finished_load() {
    let mut cache = ResourceCache::<Handle, String, LoadError<Error>>::new();
    let a: Handle = Rc::new(RefCell::new(None));
    let b: Handle = Rc::new(RefCell::new(None));
    let (ha, hb) = (a.clone(), b.clone());
    request(&mut cache, path("a"), move || ha);
    request(&mut cache, Identifier::Index(1), move || hb);
    *a.borrow_mut() = Some(Ok(Arc::new(String::from("A"))));
    *b.borrow_mut() = Some(Err(Arc::new(LoadError::InvalidData)));
    cache.update(&poll);
    *a.borrow_mut() = None;
    *b.borrow_mut() = None;
    assert_eq!(cache.status(&path("a"), &poll), StatusKind::Loaded);
    assert_eq!(cache.status(&Identifier::Index(1), &poll), StatusKind::Error);
}

#[test]
fn status_equality_compares_phases_and_error_kinds() {
    type S = LoadStatus<(), u8, LoadError<ErrorKind>>;
    let a: S = LoadStatus::Loaded(Arc::new(1));
    let b: S = LoadStatus::Loaded(Arc::new(2));
    let c: S = LoadStatus::NotLoading;
    assert!(a == b);
    assert!(a != c);
    assert!(S::Loading(()) == S::Loading(()));
    let invalid: S = LoadStatus::Error(Arc::new(LoadError::InvalidData));
    let pipe: S = LoadStatus::Error(Arc::new(LoadError::BrokenPipe));
    let read_invalid: S = LoadStatus::Error(Arc::new(LoadError::Read(ErrorKind::InvalidData)));
    let read_missing: S = LoadStatus::Error(Arc::new(LoadError::Read(ErrorKind::NotFound)));
    assert!(invalid != pipe);
    assert!(invalid == read_invalid);
    assert!(read_invalid != read_missing);
    assert!(pipe == S::Error(Arc::new(LoadError::Read(ErrorKind::BrokenPipe))));
    assert!(invalid != c);
    assert_eq!(c.kind(), StatusKind::NotLoading);
    assert_eq!(invalid.kind(), StatusKind::Error);
    assert_eq!(LoadError::<ErrorKind>::BrokenPipe.kind(), ErrorKind::BrokenPipe);
    assert_eq!(LoadError::Read(ErrorKind::NotFound).kind(), ErrorKind::NotFound);
}

#[test]
fn gpumanager_manager() {
    type GpuOutcome = Option<Result<Arc<wgpu::Texture>, Arc<LoadError<Error>>>>;
    type GpuHandle = Rc<RefCell<GpuOutcome>>;
    let gpoll = |h: &GpuHandle| -> GpuOutcome { h.borrow().clone() };
    let mut gpumngr = AsyncGpuManager::<GpuHandle, Error>::new();
    let id: Identifier = String::from("small_scream.png").into();
    let handle: GpuHandle = Rc::new(RefCell::new(None));
    let h = handle.clone();
    assert!(gpumngr.load(&id, &gpoll));
    gpumngr.begin(id.clone(), h);
    assert!(matches!(gpumngr.get(&id, &gpoll), LoadStatus::Loading(_)));
    assert!(!gpumngr.load(&id, &gpoll));
    *handle.borrow_mut() = Some(Err(Arc::new(LoadError::BrokenPipe)));
    match gpumngr.get(&id, &gpoll) {
        LoadStatus::Error(e) => assert!(matches!(*e, LoadError::BrokenPipe)),
        _ => panic!(),
    }
    assert!(gpumngr.remove(&id, &gpoll).is_none());
    assert_eq!(gpumngr.status(&id, &gpoll), StatusKind::NotLoading);
}
