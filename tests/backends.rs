use std::cell::Cell;
use std::rc::Rc;

use clipboard_switch::clipboard::Clipboard;
use clipboard_switch::command::WlCommandClipboard;
use clipboard_switch::error::ClipError;
use clipboard_switch::generic::{ArClipboard, TextRead, TextWrite};
use clipboard_switch::hybrid::HybridClipboard;
use clipboard_switch::wlr::{PasteOutcome, PublishOutcome, WlrClipboard};
use clipboard_switch::registry::HandleRegistry;
use clipboard_switch::x11::{AccessState, X11Clipboard};

#[test]
fn native_get_absence_is_empty_text() {
    let c = WlrClipboard::new("wayland-1".to_string());
    assert_eq!(c.finish_get(PasteOutcome::NoSeats), Ok(String::new()));
    assert_eq!(c.finish_get(PasteOutcome::ClipboardEmpty), Ok(String::new()));
    assert_eq!(c.finish_get(PasteOutcome::NoMimeType), Ok(String::new()));
}

#[test]
fn native_get_decodes_lossily() {
    let c = WlrClipboard::new("wayland-1".to_string());
    let got = c.finish_get(PasteOutcome::Contents(vec![b'h', b'i', 0xff]));
    assert_eq!(got, Ok("hi\u{FFFD}".to_string()));
    let got = c.finish_get(PasteOutcome::Contents("héllo".as_bytes().to_vec()));
    assert_eq!(got, Ok("héllo".to_string()));
}

#[test]
fn native_get_other_failures_propagate() {
    let c = WlrClipboard::new("wayland-1".to_string());
    assert_eq!(
        c.finish_get(PasteOutcome::ReadFailed("broken pipe".to_string())),
        Err(ClipError::Io("broken pipe".to_string()))
    );
    assert_eq!(
        c.finish_get(PasteOutcome::Failed("no compositor".to_string())),
        Err(ClipError::Protocol("no compositor".to_string()))
    );
}

#[test]
fn native_set_contains_abort() {
    let c = WlrClipboard::new("wayland-1".to_string());
    assert_eq!(
        c.finish_set(PublishOutcome::Aborted("internal abort".to_string())),
        Err(ClipError::Aborted("internal abort".to_string()))
    );
    assert_eq!(
        c.finish_set(PublishOutcome::Failed("refused".to_string())),
        Err(ClipError::Protocol("refused".to_string()))
    );
    assert_eq!(c.finish_set(PublishOutcome::Published), Ok(()));
}

#[test]
fn native_binding_names_wayland_display() {
    let c = WlrClipboard::new("wayland-7".to_string());
    let b = c.binding();
    assert_eq!(b.name, "WAYLAND_DISPLAY");
    assert_eq!(b.value, "wayland-7");
    assert_eq!(c.display(), "wayland-7");
}

#[test]
fn rank_order_of_the_four_backends() {
    let native = WlrClipboard::new("wayland-0".to_string());
    let generic = ArClipboard::new("wayland-0".to_string());
    let x11 = X11Clipboard::new(":0".to_string());
    let command = WlCommandClipboard::new("wayland-0".to_string());
    let mut ranked = vec![
        (command.rank(), "command"),
        (generic.rank(), "generic"),
        (native.rank(), "native"),
        (x11.rank(), "x11"),
    ];
    ranked.sort_by_key(|(r, _)| *r);
    assert_eq!(ranked[0], (10, "native"));
    assert_eq!(ranked[1].0, 100);
    assert_eq!(ranked[2].0, 100);
    assert_eq!(ranked[3], (200, "command"));
}

#[test]
fn only_the_command_backend_is_not_polled() {
    assert!(WlrClipboard::new("w".to_string()).should_poll());
    assert!(ArClipboard::new("w".to_string()).should_poll());
    assert!(X11Clipboard::new(":1".to_string()).should_poll());
    assert!(!WlCommandClipboard::new("w".to_string()).should_poll());
}

#[test]
fn command_plans() {
    let c = WlCommandClipboard::new("wayland-2".to_string());
    let paste = c.paste_command();
    assert_eq!(paste.program, "wl-paste");
    assert!(paste.args.is_empty());
    assert_eq!(paste.env.name, "WAYLAND_DISPLAY");
    assert_eq!(paste.env.value, "wayland-2");
    let copy = c.copy_command("some text");
    assert_eq!(copy.program, "wl-copy");
    assert_eq!(copy.args, vec!["some text".to_string()]);
    assert_eq!(copy.env.value, "wayland-2");
}

#[test]
fn command_get_trims_output() {
    let c = WlCommandClipboard::new("wayland-2".to_string());
    assert_eq!(c.finish_get(Ok(b"  hello world\n".to_vec())), Ok("hello world".to_string()));
    assert_eq!(c.finish_get(Ok(Vec::new())), Ok(String::new()));
    assert_eq!(
        c.finish_get(Err("not found".to_string())),
        Err(ClipError::Io("not found".to_string()))
    );
}

#[test]
fn command_set_spawn_failure_is_io() {
    let c = WlCommandClipboard::new("wayland-2".to_string());
    assert_eq!(c.finish_set(Ok(())), Ok(()));
    assert_eq!(
        c.finish_set(Err("no such program".to_string())),
        Err(ClipError::Io("no such program".to_string()))
    );
}

#[test]
fn generic_get_and_set() {
    let c = ArClipboard::new("wayland-3".to_string());
    assert_eq!(c.display(), "wayland-3");
    assert_eq!(c.binding().name, "WAYLAND_DISPLAY");
    assert_eq!(c.finish_get(TextRead::Unavailable), Ok(String::new()));
    assert_eq!(c.finish_get(TextRead::Text("abc".to_string())), Ok("abc".to_string()));
    assert_eq!(
        c.finish_get(TextRead::OpenFailed("no display".to_string())),
        Err(ClipError::Init("no display".to_string()))
    );
    assert_eq!(c.finish_set(TextWrite::Written), Ok(()));
    assert_eq!(
        c.finish_set(TextWrite::WriteFailed("denied".to_string())),
        Err(ClipError::Protocol("denied".to_string()))
    );
    assert_eq!(
        c.finish_set(TextWrite::OpenFailed("no display".to_string())),
        Err(ClipError::Init("no display".to_string()))
    );
}

#[test]
fn x11_get_and_set() {
    let c = X11Clipboard::new(":0".to_string());
    let b = c.binding();
    assert_eq!(b.name, "DISPLAY");
    assert_eq!(b.value, ":0");
    assert_eq!(c.finish_get(None), "");
    assert_eq!(c.finish_get(Some("x".to_string())), "x");
    assert_eq!(c.finish_set(Ok(())), Ok(()));
    assert_eq!(
        c.finish_set(Err("timeout".to_string())),
        Err(ClipError::Protocol("timeout".to_string()))
    );
}

#[test]
fn shared_access_while_exclusive_is_refused() {
    let mut s = AccessState::new();
    assert_eq!(s.try_write(), Ok(()));
    assert_eq!(s.try_read(), Err(ClipError::Contention));
    assert_eq!(s.try_read(), Err(ClipError::Contention));
    s.end_write();
    assert_eq!(s.try_read(), Ok(()));
}

#[test]
fn exclusive_access_while_shared_is_refused() {
    let mut s = AccessState::new();
    assert_eq!(s.try_read(), Ok(()));
    assert_eq!(s.try_read(), Ok(()));
    assert_eq!(s.try_write(), Err(ClipError::Contention));
    s.end_read();
    assert_eq!(s.try_write(), Err(ClipError::Contention));
    s.end_read();
    assert_eq!(s.try_write(), Ok(()));
    assert_eq!(s.try_write(), Err(ClipError::Contention));
}

struct Probe {
    display: String,
    text: String,
    gets: Rc<Cell<u32>>,
    sets: Rc<Cell<u32>>,
    fail_set: bool,
}

impl Probe {
    fn new(display: &str, text: &str, fail_set: bool) -> Probe {
        Probe {
            display: display.to_string(),
            text: text.to_string(),
            gets: Rc::new(Cell::new(0)),
            sets: Rc::new(Cell::new(0)),
            fail_set,
        }
    }
}

impl Clipboard for Probe {
    fn display(&self) -> String {
        self.display.clone()
    }

    fn get(&self) -> Result<String, ClipError> {
        self.gets.set(self.gets.get() + 1);
        Ok(self.text.clone())
    }

    fn set(&self, value: &str) -> Result<(), ClipError> {
        self.sets.set(self.sets.get() + 1);
        if self.fail_set {
            Err(ClipError::Protocol(value.to_string()))
        } else {
            Ok(())
        }
    }

    fn should_poll(&self) -> bool {
        false
    }

    fn rank(&self) -> u8 {
        7
    }
}

#[test]
fn hybrid_reads_from_getter_and_writes_to_setter() {
    let getter = Probe::new(":0", "from getter", false);
    let setter = Probe::new("wayland-0", "from setter", true);
    let (getter_gets, getter_sets) = (getter.gets.clone(), getter.sets.clone());
    let (setter_gets, setter_sets) = (setter.gets.clone(), setter.sets.clone());
    let h = HybridClipboard::new(getter, setter);
    assert_eq!(h.display(), ":0");
    assert_eq!(h.get(), Ok("from getter".to_string()));
    assert_eq!(h.set("v"), Err(ClipError::Protocol("v".to_string())));
    assert_eq!(h.rank(), 100);
    assert!(h.should_poll());
    assert_eq!(getter_gets.get(), 1);
    assert_eq!(getter_sets.get(), 0);
    assert_eq!(setter_gets.get(), 0);
    assert_eq!(setter_sets.get(), 1);
}

#[test]
fn boxed_backend_forwards_everything() {
    let b = Box::new(Probe::new("wayland-9", "boxed", false));
    assert_eq!(b.display(), "wayland-9");
    assert_eq!(b.get(), Ok("boxed".to_string()));
    assert_eq!(b.set("x"), Ok(()));
    assert_eq!(b.rank(), 7);
    assert!(!b.should_poll());
    assert_eq!(b.gets.get(), 1);
    assert_eq!(b.sets.get(), 1);
}

#[test]
fn hybrid_of_boxed_backends() {
    let h = HybridClipboard::new(
        Box::new(Probe::new(":1", "read", false)),
        Box::new(Probe::new("wayland-1", "unused", false)),
    );
    assert_eq!(h.display(), ":1");
    assert_eq!(h.get(), Ok("read".to_string()));
    assert_eq!(h.set("w"), Ok(()));
}

#[test]
fn registry_keeps_one_handle_per_display() {
    let mut reg: HandleRegistry<u32> = HandleRegistry::new();
    assert_eq!(reg.register(":0".to_string(), 1), Ok(()));
    assert_eq!(reg.register(":1".to_string(), 2), Ok(()));
    assert_eq!(reg.register(":0".to_string(), 3), Err(3));
    assert_eq!(reg.len(), 2);
    assert_eq!(reg.get(&":0".to_string()), Some(&1));
    assert_eq!(reg.get(&":1".to_string()), Some(&2));
    assert_eq!(reg.get(&":2".to_string()), None);
    assert_eq!(reg.position(&":1".to_string()), Some(1));
}
