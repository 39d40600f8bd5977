use filedesc::{check_ret, Capability, FileDesc, OsError, Syscall};

const EBADF: i32 = libc::EBADF;

/// One open descriptor of the stand-in kernel.
#[derive(Clone, Copy, Debug, PartialEq, Eq)]
struct Entry {
    object: u32,
    flags: i32,
}

/// A stand-in for the kernel's descriptor table, with or without the atomic
/// duplication.
struct Kernel {
    table: Vec<Option<Entry>>,
    atomic: bool,
    log: Vec<Syscall>,
}

impl Kernel {
    fn with_standard_streams(atomic: bool) -> Kernel {
        let table = (0..3).map(|object| Some(Entry { object, flags: 0 })).collect();
        Kernel { table, atomic, log: Vec::new() }
    }

    fn entry(&self, fd: i32) -> Result<Entry, OsError> {
        usize::try_from(fd)
            .ok()
            .and_then(|index| self.table.get(index).copied().flatten())
            .ok_or(OsError::from_raw_os_error(EBADF))
    }

    fn place(&mut self, entry: Entry, min: i32) -> Result<i32, OsError> {
        let min = usize::try_from(min).map_err(|_| OsError::from_raw_os_error(libc::EINVAL))?;
        let mut index = min;
        while index < self.table.len() && self.table[index].is_some() {
            index += 1;
        }
        if index >= self.table.len() {
            self.table.resize(index + 1, None);
        }
        self.table[index] = Some(entry);
        Ok(index as i32)
    }

    fn perform(&mut self, request: Syscall) -> Result<i32, OsError> {
        self.log.push(request);
        match request {
            Syscall::DuplicateCloseOnExec { fd, min } => {
                if !self.atomic {
                    return Err(OsError::from_raw_os_error(libc::EINVAL));
                }
                let entry = self.entry(fd)?;
                self.place(Entry { object: entry.object, flags: libc::FD_CLOEXEC }, min)
            }
            Syscall::Duplicate { fd, min } => {
                let entry = self.entry(fd)?;
                self.place(Entry { object: entry.object, flags: 0 }, min)
            }
            Syscall::GetFlags { fd } => Ok(self.entry(fd)?.flags),
            Syscall::SetFlags { fd, flags } => {
                let entry = self.entry(fd)?;
                self.table[fd as usize] = Some(Entry { object: entry.object, flags });
                Ok(0)
            }
            Syscall::Close { fd } => {
                self.entry(fd)?;
                self.table[fd as usize] = None;
                Ok(0)
            }
        }
    }

    fn duplicate_raw_fd(&mut self, fd: i32, capability: &mut Capability) -> Result<FileDesc, OsError> {
        let mut protocol = FileDesc::duplicate_raw_fd(fd, *capability);
        while let Some(request) = protocol.request() {
            protocol = protocol.advance(self.perform(request));
            *capability = protocol.capability();
        }
        protocol.finish().unwrap()
    }

    fn duplicate(&mut self, handle: &FileDesc, capability: &mut Capability) -> Result<FileDesc, OsError> {
        let mut protocol = handle.duplicate(*capability);
        while let Some(request) = protocol.request() {
            protocol = protocol.advance(self.perform(request));
            *capability = protocol.capability();
        }
        protocol.finish().unwrap()
    }

    fn get_close_on_exec(&mut self, handle: &FileDesc) -> Result<bool, OsError> {
        let reply = self.perform(handle.get_close_on_exec());
        FileDesc::get_close_on_exec_reply(reply)
    }

    fn set_close_on_exec(&mut self, handle: &FileDesc, close_on_exec: bool) -> Result<(), OsError> {
        let reply = self.perform(handle.set_close_on_exec(close_on_exec));
        FileDesc::set_close_on_exec_reply(reply)
    }

    fn drop_handle(&mut self, handle: FileDesc) {
        if let Some(request) = handle.on_drop() {
            let _ = self.perform(request);
        }
    }

    fn is_open(&self, fd: i32) -> bool {
        self.entry(fd).is_ok()
    }
}

#[test]
fn test_get_close_on_exec() {
    let mut kernel = Kernel::with_standard_streams(true);
    let mut capability = Capability::new();
    let fd = kernel.duplicate_raw_fd(2i32, &mut capability).unwrap();
    assert!(matches!(kernel.get_close_on_exec(&fd), Ok(true)));
    assert!(matches!(kernel.set_close_on_exec(&fd, false), Ok(())));
    assert!(matches!(kernel.get_close_on_exec(&fd), Ok(false)));
    assert!(matches!(kernel.duplicate(&fd, &mut capability), Ok(_)));
}

#[test]
fn constants_are_those_of_libc() {
    let handle = FileDesc::from_fd(3);
    assert_eq!(handle.set_close_on_exec(true), Syscall::SetFlags { fd: 3, flags: libc::FD_CLOEXEC });
    assert_eq!(FileDesc::get_close_on_exec_reply(Ok(libc::FD_CLOEXEC)), Ok(true));
    assert_eq!(
        FileDesc::duplicate_raw_fd(3, Capability::Unsupported).advance(Ok(4)).request(),
        Some(Syscall::SetFlags { fd: 4, flags: libc::FD_CLOEXEC })
    );
    assert!(OsError::from_raw_os_error(libc::EINVAL).is_unsupported());
    assert!(!OsError::from_raw_os_error(libc::EBADF).is_unsupported());
    assert!(!OsError::from_raw_os_error(0).is_unsupported());
}

#[test]
fn failed_call_gives_the_last_os_error() {
    let missing = std::path::Path::new("/nonexistent/filedesc/none").read_link();
    let reply = check_ret(-1);
    assert!(missing.is_err());
    assert_eq!(reply, Err(OsError::from_raw_os_error(libc::ENOENT)));

    let no_link = std::path::Path::new("/").read_link();
    let error = check_ret(-1).unwrap_err();
    assert!(no_link.is_err());
    assert_eq!(error.raw_os_error(), Some(libc::EINVAL));
    assert!(error.is_unsupported());
}

#[test]
fn released_descriptor_stays_open() {
    let mut kernel = Kernel::with_standard_streams(true);
    let mut handle = kernel.duplicate_raw_fd(2, &mut Capability::new()).unwrap();
    let raw = handle.release();
    kernel.drop_handle(handle);
    assert!(kernel.is_open(raw));
    assert!(!kernel.log.contains(&Syscall::Close { fd: raw }));
}

#[test]
fn consumed_handle_leaves_descriptor_open() {
    let mut kernel = Kernel::with_standard_streams(true);
    let raw = kernel.duplicate_raw_fd(2, &mut Capability::new()).unwrap().into_raw_fd();
    assert_eq!(raw, 3);
    assert!(kernel.is_open(raw));
}

#[test]
fn dropped_handle_closes_descriptor() {
    let mut kernel = Kernel::with_standard_streams(true);
    let handle = kernel.duplicate_raw_fd(2, &mut Capability::new()).unwrap();
    let raw = handle.as_raw_fd();
    assert!(kernel.is_open(raw));
    kernel.drop_handle(handle);
    assert!(!kernel.is_open(raw));
    assert_eq!(kernel.perform(Syscall::GetFlags { fd: raw }), Err(OsError::from_raw_os_error(EBADF)));
}

#[test]
fn duplicate_is_new_and_marked_on_both_paths() {
    for atomic in [false, true] {
        for capability in [Capability::Untested, Capability::Unsupported] {
            let mut kernel = Kernel::with_standard_streams(atomic);
            let source = FileDesc::from_fd(1);
            let copy = kernel.duplicate(&source, &mut capability.clone()).unwrap();
            assert_eq!(copy.as_raw_fd(), 3);
            assert_ne!(copy.as_raw_fd(), source.as_raw_fd());
            assert_eq!(kernel.get_close_on_exec(&copy), Ok(true));
            assert_eq!(kernel.entry(3).unwrap().object, kernel.entry(1).unwrap().object);
            assert_eq!(kernel.entry(1), Ok(Entry { object: 1, flags: 0 }));
        }
    }
}

#[test]
fn paths_taken_by_the_protocol() {
    let atomic = Syscall::DuplicateCloseOnExec { fd: 0, min: 0 };
    let plain = Syscall::Duplicate { fd: 0, min: 0 };
    let mark = Syscall::SetFlags { fd: 3, flags: 1 };

    let mut kernel = Kernel::with_standard_streams(true);
    let mut capability = Capability::Untested;
    kernel.duplicate_raw_fd(0, &mut capability).unwrap();
    assert_eq!(kernel.log, vec![atomic]);
    assert_eq!(capability, Capability::Untested);

    let mut kernel = Kernel::with_standard_streams(false);
    let mut capability = Capability::Untested;
    kernel.duplicate_raw_fd(0, &mut capability).unwrap();
    assert_eq!(kernel.log, vec![atomic, plain, mark]);
    assert_eq!(capability, Capability::Unsupported);

    let mut kernel = Kernel::with_standard_streams(true);
    let mut capability = Capability::new();
    kernel.duplicate_raw_fd(0, &mut capability).unwrap();
    assert_eq!(kernel.log, vec![plain, mark]);
    assert_eq!(capability, Capability::Unsupported);
}

#[test]
fn rejection_is_remembered_across_duplications() {
    let mut kernel = Kernel::with_standard_streams(false);
    let mut capability = Capability::Untested;
    let first = kernel.duplicate_raw_fd(0, &mut capability).unwrap();
    let second = kernel.duplicate_raw_fd(1, &mut capability).unwrap();
    let third = kernel.duplicate(&first, &mut capability).unwrap();
    assert_eq!(capability, Capability::Unsupported);
    let probes = kernel
        .log
        .iter()
        .filter(|request| matches!(request, Syscall::DuplicateCloseOnExec { .. }))
        .count();
    assert_eq!(probes, 1);
    for handle in [&first, &second, &third] {
        assert_eq!(kernel.get_close_on_exec(handle), Ok(true));
    }
    assert_eq!((first.as_raw_fd(), second.as_raw_fd(), third.as_raw_fd()), (3, 4, 5));
}

#[test]
fn interleaved_duplications_share_the_flag() {
    let flag = std::sync::atomic::AtomicBool::new(true);
    let relaxed = std::sync::atomic::Ordering::Relaxed;
    let mut kernel = Kernel::with_standard_streams(false);
    let mut left = FileDesc::duplicate_raw_fd(0, Capability::from_flag(flag.load(relaxed)));
    let mut right = FileDesc::duplicate_raw_fd(1, Capability::from_flag(flag.load(relaxed)));
    while left.request().is_some() || right.request().is_some() {
        for protocol in [&mut left, &mut right] {
            if let Some(request) = protocol.request() {
                let next = protocol.advance(kernel.perform(request));
                if next.capability() != protocol.capability() {
                    flag.store(next.capability().try_atomic(), relaxed);
                }
                *protocol = next;
            }
        }
    }
    assert!(!flag.load(relaxed));
    let left = left.finish().unwrap().unwrap();
    let right = right.finish().unwrap().unwrap();
    assert_ne!(left.as_raw_fd(), right.as_raw_fd());
    assert_eq!(kernel.get_close_on_exec(&left), Ok(true));
    assert_eq!(kernel.get_close_on_exec(&right), Ok(true));
    let later = FileDesc::duplicate_raw_fd(2, Capability::from_flag(flag.load(relaxed)));
    assert_eq!(later.request(), Some(Syscall::Duplicate { fd: 2, min: 0 }));
}

#[test]
fn flag_round_trip() {
    let mut kernel = Kernel::with_standard_streams(true);
    let handle = kernel.duplicate_raw_fd(2, &mut Capability::new()).unwrap();
    assert_eq!(kernel.set_close_on_exec(&handle, false), Ok(()));
    assert_eq!(kernel.get_close_on_exec(&handle), Ok(false));
    assert_eq!(kernel.set_close_on_exec(&handle, true), Ok(()));
    assert_eq!(kernel.get_close_on_exec(&handle), Ok(true));
}

#[test]
fn flag_is_per_descriptor() {
    let mut kernel = Kernel::with_standard_streams(true);
    let mut capability = Capability::new();
    let stderr = FileDesc::from_fd(2);
    let first = kernel.duplicate(&stderr, &mut capability).unwrap();
    assert_eq!(kernel.get_close_on_exec(&first), Ok(true));
    assert_eq!(kernel.set_close_on_exec(&first, false), Ok(()));
    assert_eq!(kernel.get_close_on_exec(&first), Ok(false));
    let second = kernel.duplicate(&stderr, &mut capability).unwrap();
    assert_eq!(kernel.get_close_on_exec(&second), Ok(true));
    assert_eq!(kernel.get_close_on_exec(&first), Ok(false));
    assert_eq!(kernel.get_close_on_exec(&stderr), Ok(false));
}

#[test]
fn invalid_descriptor_gives_the_os_error() {
    for capability in [Capability::Untested, Capability::Unsupported] {
        let mut kernel = Kernel::with_standard_streams(true);
        let outcome = kernel.duplicate_raw_fd(-1, &mut capability.clone());
        assert_eq!(outcome.unwrap_err(), OsError::from_raw_os_error(EBADF));
        assert_eq!(kernel.table.len(), 3);
    }
    let mut kernel = Kernel::with_standard_streams(true);
    let closed = kernel.duplicate_raw_fd(2, &mut Capability::new()).unwrap();
    let raw = closed.as_raw_fd();
    kernel.drop_handle(closed);
    let outcome = kernel.duplicate_raw_fd(raw, &mut Capability::new());
    assert_eq!(outcome.unwrap_err(), OsError::from_raw_os_error(EBADF));
    let stale = FileDesc::from_fd(raw);
    assert_eq!(kernel.get_close_on_exec(&stale), Err(OsError::from_raw_os_error(EBADF)));
    assert_eq!(kernel.set_close_on_exec(&stale, true), Err(OsError::from_raw_os_error(EBADF)));
}

#[test]
fn descriptor_is_not_leaked_when_marking_fails() {
    let mut kernel = Kernel::with_standard_streams(true);
    let refused = OsError::from_raw_os_error(libc::EPERM);
    let mut protocol = FileDesc::duplicate_raw_fd(2, Capability::Unsupported);
    while let Some(request) = protocol.request() {
        let reply = match request {
            Syscall::SetFlags { .. } => Err(refused),
            other => kernel.perform(other),
        };
        protocol = protocol.advance(reply);
    }
    assert_eq!(protocol.finish().unwrap().unwrap_err(), refused);
    assert_eq!(kernel.log, vec![Syscall::Duplicate { fd: 2, min: 0 }, Syscall::Close { fd: 3 }]);
    assert!(!kernel.is_open(3));
    assert!(kernel.is_open(2));
}
