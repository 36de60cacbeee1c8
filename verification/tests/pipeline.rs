use win_proc_enum::builder::{get_procs_names, Action, Event, SnapshotBuilder};
use win_proc_enum::error::SnapError;
use win_proc_enum::reply::{ModulesReply, NameReply, PidsReply};

fn pids_event(pids: &[u32]) -> Event {
    let mut buf = vec![0u32; 1024];
    buf[..pids.len()].copy_from_slice(pids);
    Event::PidsEnumerated(PidsReply {
        ok: true,
        os_error: 0,
        bytes_written: (pids.len() * 4) as u32,
        pids: buf,
    })
}

fn modules_event(modules: &[u64]) -> Event {
    let mut buf = vec![0u64; 1024];
    buf[..modules.len()].copy_from_slice(modules);
    Event::ModulesEnumerated(ModulesReply {
        ok: true,
        os_error: 0,
        bytes_written: (modules.len() * 8) as u32,
        modules: buf,
    })
}

fn name_event(text: &[u8]) -> Event {
    let mut buf = vec![0u8; 256];
    buf[..text.len()].copy_from_slice(text);
    Event::NameResolved(NameReply {
        chars_written: text.len() as u32,
        os_error: 0,
        buf,
    })
}

#[test]
fn fatal_enumeration_failure_aborts_without_opening() {
    let mut b = SnapshotBuilder::new();
    let ev = Event::PidsEnumerated(PidsReply {
        ok: false,
        os_error: 5,
        bytes_written: 0,
        pids: vec![0; 1024],
    });
    assert!(b.accepts_event(&ev));
    // the pipeline completes at once: no open, no resolve is ever asked for
    assert_eq!(b.step(&ev), Action::Complete);
    assert_eq!(b.open_count(), 0);
    assert_eq!(b.close_count(), 0);
    assert!(b.is_finished());
    match b.result() {
        Err(SnapError::OsEnumerationFailed(code)) => assert_eq!(code, 5),
        other => panic!("expected the fatal enumeration error, got {:?}", other),
    }
}

#[test]
fn skip_path_keeps_only_resolvable_processes() {
    let events = vec![
        pids_event(&[10, 20]),
        // pid 10: the open fails and the pid is skipped silently
        Event::ProcessOpened { raw_handle: 0 },
        // pid 20: open succeeds, one module, resolvable name
        Event::ProcessOpened { raw_handle: 0x40 },
        modules_event(&[0x4000]),
        name_event(b"explorer.exe"),
        Event::HandleClosed,
    ];
    let snapshot = get_procs_names(&events).unwrap().unwrap();
    assert_eq!(snapshot.len(), 1);
    assert_eq!(snapshot[0].pid, 20);
    assert_eq!(snapshot[0].name, "explorer.exe");
}

#[test]
fn builder_announces_each_call_in_order() {
    let mut b = SnapshotBuilder::new();
    assert_eq!(b.step(&pids_event(&[10, 20])), Action::OpenProcess { pid: 10 });
    assert_eq!(
        b.step(&Event::ProcessOpened { raw_handle: 0 }),
        Action::OpenProcess { pid: 20 }
    );
    assert_eq!(
        b.step(&Event::ProcessOpened { raw_handle: 0x40 }),
        Action::EnumerateModules { handle: 0x40 }
    );
    assert_eq!(
        b.step(&modules_event(&[0x4000])),
        Action::ResolveBaseName { handle: 0x40, module: 0x4000 }
    );
    assert_eq!(
        b.step(&name_event(b"explorer.exe")),
        Action::CloseHandle { handle: 0x40 }
    );
    assert_eq!(b.step(&Event::HandleClosed), Action::Complete);
    // every opened handle was closed again, one at a time
    assert_eq!(b.open_count(), 1);
    assert_eq!(b.close_count(), 1);
}

#[test]
fn handles_balance_even_when_resolution_fails() {
    let events = vec![
        pids_event(&[7, 8]),
        // pid 7: opens, but reports no modules -> skipped, handle closed
        Event::ProcessOpened { raw_handle: 0x11 },
        Event::ModulesEnumerated(ModulesReply {
            ok: false,
            os_error: 6,
            bytes_written: 0,
            modules: vec![0; 1024],
        }),
        Event::HandleClosed,
        // pid 8: opens, module found, but zero name bytes -> skipped too
        Event::ProcessOpened { raw_handle: 0x12 },
        modules_event(&[0x5000]),
        Event::NameResolved(NameReply { chars_written: 0, os_error: 2, buf: vec![0; 256] }),
        Event::HandleClosed,
    ];
    let mut b = SnapshotBuilder::new();
    for ev in &events {
        assert!(b.accepts_event(ev));
        b.step(ev);
    }
    assert!(b.is_finished());
    assert_eq!(b.open_count(), 2);
    assert_eq!(b.close_count(), 2);
    let snapshot = b.result().unwrap();
    assert!(snapshot.is_empty());
}

#[test]
fn empty_pid_list_is_an_empty_snapshot() {
    let events = vec![pids_event(&[])];
    let snapshot = get_procs_names(&events).unwrap().unwrap();
    assert!(snapshot.is_empty());
}

#[test]
fn truncated_name_is_exactly_the_reported_bytes() {
    let events = vec![
        pids_event(&[33]),
        Event::ProcessOpened { raw_handle: 0x21 },
        modules_event(&[0x6000]),
        // five bytes reported into the 256-byte buffer holding "abc\0\0..."
        name_event(b"abc\0\0"),
        Event::HandleClosed,
    ];
    let snapshot = get_procs_names(&events).unwrap().unwrap();
    assert_eq!(snapshot.len(), 1);
    assert_eq!(snapshot[0].name.chars().count(), 5);
    assert_eq!(snapshot[0].name, "abc\u{0}\u{0}");
}

#[test]
fn replaying_the_same_replies_yields_the_same_snapshot() {
    let make_events = || {
        vec![
            pids_event(&[10, 20]),
            Event::ProcessOpened { raw_handle: 0 },
            Event::ProcessOpened { raw_handle: 0x40 },
            modules_event(&[0x4000]),
            name_event(b"explorer.exe"),
            Event::HandleClosed,
        ]
    };
    let first = get_procs_names(&make_events()).unwrap().unwrap();
    let second = get_procs_names(&make_events()).unwrap().unwrap();
    let first_pids: Vec<u32> = first.iter().map(|p| p.pid).collect();
    let second_pids: Vec<u32> = second.iter().map(|p| p.pid).collect();
    assert_eq!(first_pids, second_pids);
    let first_names: Vec<&str> = first.iter().map(|p| p.name.as_str()).collect();
    let second_names: Vec<&str> = second.iter().map(|p| p.name.as_str()).collect();
    assert_eq!(first_names, second_names);
}

#[test]
fn unfinished_replies_yield_no_snapshot() {
    let events = vec![pids_event(&[10]), Event::ProcessOpened { raw_handle: 0x40 }];
    assert!(get_procs_names(&events).is_none());
}

#[test]
fn replies_out_of_turn_are_ignored() {
    let events = vec![Event::HandleClosed, pids_event(&[])];
    let snapshot = get_procs_names(&events).unwrap().unwrap();
    assert!(snapshot.is_empty());
}
