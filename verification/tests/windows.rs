//! Window handles and what is known of a window.

use mochi::model::{Window, WindowId};

#[test]
fn window_id_round_trips() {
    let id = WindowId::from(0x1234_isize);
    assert_eq!(id.get(), 0x1234);
    assert_eq!(isize::from(id), 0x1234);
    assert_eq!(id.to_string(), "0x1234");
}

#[test]
fn builders_fill_the_cache() {
    let w = Window::new(7)
        .with_title("README.md - Code")
        .with_exe("Code.exe")
        .with_class("Chrome_WidgetWin_1")
        .with_path(r"C:\Program Files\Code\Code.exe");
    assert_eq!(w.id, WindowId(7));
    let info = w.info();
    assert_eq!(info.exe, "Code.exe");
    assert_eq!(info.class, "Chrome_WidgetWin_1");
    assert_eq!(info.title, "README.md - Code");
    assert!(info.path.ends_with("Code.exe"));
}

