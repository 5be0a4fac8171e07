use tsu::session::{Action, FileError, Message, Session};
use tsu::window_state::{
    default_size, LiveWindow, Point, Size, Window, WindowEvent, MIN_HEIGHT, MIN_WIDTH,
};

#[test]
fn session_starts_loading_and_clean() {
    let s = Session::new();
    assert!(s.file.is_none());
    assert!(s.word_wrap);
    assert!(s.is_loading);
    assert!(!s.is_dirty);
}

#[test]
fn edits_mark_the_session_dirty() {
    let mut s = Session::new();
    assert_eq!(s.update(Message::ActionPerformed { is_edit: false }), Action::ApplyEdit);
    assert!(!s.is_dirty);
    assert_eq!(s.update(Message::ActionPerformed { is_edit: true }), Action::ApplyEdit);
    assert!(s.is_dirty);
    s.update(Message::ActionPerformed { is_edit: false });
    assert!(s.is_dirty, "dirty flag must stick");
}

#[test]
fn open_is_refused_while_loading() {
    let mut s = Session::new();
    assert!(s.is_loading);
    assert_eq!(s.update(Message::OpenFile), Action::Idle);
    assert_eq!(s.update(Message::SaveFile), Action::Idle);
    assert_eq!(s.update(Message::NewFile), Action::Idle);
}

#[test]
fn open_save_flow_adopts_paths() {
    let mut s = Session::new();
    s.update(Message::FileOpened(Err(FileError::DialogClosed)));
    assert!(!s.is_loading);

    assert_eq!(s.update(Message::OpenFile), Action::OpenFileDialog);
    assert!(s.is_loading);
    s.update(Message::FileOpened(Ok(String::from("/tmp/a.txt"))));
    assert_eq!(s.file.as_deref(), Some("/tmp/a.txt"));
    assert!(!s.is_loading);
    assert!(!s.is_dirty);

    s.update(Message::ActionPerformed { is_edit: true });
    assert!(s.is_dirty);
    assert_eq!(s.update(Message::SaveFile), Action::SaveContent);
    s.update(Message::FileSaved(Ok(String::from("/tmp/b.txt"))));
    assert_eq!(s.file.as_deref(), Some("/tmp/b.txt"));
    assert!(!s.is_dirty);
}

#[test]
fn failed_save_keeps_dirty_flag() {
    let mut s = Session::new();
    s.update(Message::FileOpened(Ok(String::from("/tmp/a.txt"))));
    s.update(Message::ActionPerformed { is_edit: true });
    s.update(Message::SaveFile);
    s.update(Message::FileSaved(Err(FileError::Io(String::from("denied")))));
    assert!(s.is_dirty);
    assert!(!s.is_loading);
    assert_eq!(s.file.as_deref(), Some("/tmp/a.txt"));
}

#[test]
fn new_file_clears_the_path() {
    let mut s = Session::new();
    s.update(Message::FileOpened(Ok(String::from("/tmp/a.txt"))));
    assert_eq!(s.update(Message::NewFile), Action::ResetContent);
    assert!(s.file.is_none());
}

#[test]
fn small_window_is_clamped_to_minimum() {
    let w = Window { position: None, size: Size { width: 100, height: 2000 } };
    let r = w.sanitized();
    assert_eq!(r.size, Size { width: MIN_WIDTH, height: 2000 });

    let w = Window { position: None, size: Size { width: 1, height: 1 } };
    let r = w.sanitized();
    assert_eq!(r.size, Size { width: 426, height: 420 });
    assert!(r.size.width >= MIN_WIDTH && r.size.height >= MIN_HEIGHT);
}

#[test]
fn large_window_is_left_alone() {
    let w = Window {
        position: Some(Point { x: 10, y: 20 }),
        size: Size { width: 1920, height: 1080 },
    };
    let r = w.sanitized();
    assert_eq!(r.size, Size { width: 1920, height: 1080 });
    assert_eq!(r.position, Some(Point { x: 10, y: 20 }));
}

#[test]
fn offscreen_position_is_dropped() {
    let w = Window {
        position: Some(Point { x: -5, y: 20 }),
        size: Size { width: 800, height: 600 },
    };
    assert_eq!(w.sanitized().position, None);
    let w = Window {
        position: Some(Point { x: 5, y: -1 }),
        size: Size { width: 800, height: 600 },
    };
    assert_eq!(w.sanitized().position, None);
    let w = Window {
        position: Some(Point { x: 0, y: 0 }),
        size: Size { width: 800, height: 600 },
    };
    assert_eq!(w.sanitized().position, Some(Point { x: 0, y: 0 }));
}

#[test]
fn default_window_opens_at_default_size() {
    let w = Window::default();
    assert_eq!(w.size, default_size());
    assert_eq!(w.size, Size { width: 1024, height: 768 });
    assert!(w.position.is_none());
}

#[test]
fn live_window_tracks_events() {
    let mut w = LiveWindow::new(1);
    assert!(!w.apply(WindowEvent::Moved(Point { x: 3, y: 4 })));
    assert_eq!(w.position, Some(Point { x: 3, y: 4 }));
    assert!(!w.apply(WindowEvent::Resized(Size { width: 640, height: 480 })));
    assert_eq!(w.size, Size { width: 640, height: 480 });
    assert!(!w.apply(WindowEvent::Focused));
    assert!(w.focused);
    assert!(!w.apply(WindowEvent::Unfocused));
    assert!(!w.focused);
    assert!(!w.apply(WindowEvent::Opened {
        position: Some(Point { x: 1, y: 1 }),
        size: Size { width: 500, height: 500 },
    }));
    assert_eq!(w.position, Some(Point { x: 1, y: 1 }));
    assert!(w.apply(WindowEvent::CloseRequested), "close must request exit");
}
