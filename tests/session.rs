use grid_resize::display::{Display, ToXDisplay};
use grid_resize::resize::{ConfigError, MoveResizeMessage, MoveResizeMethod, ResizeRequest};
use grid_resize::session::{Event, GridResize, Rect, BUTTON_PRIMARY, BUTTON_SECONDARY, KEYSYM_ESCAPE};

fn session(live: bool) -> GridResize {
    let mut s = GridResize::new(0, 0, 800, 600, 4, 3, 50, 50, live, MoveResizeMethod::Configure);
    s.start();
    s
}

fn motion(time: u64, x: i32, y: i32) -> Event {
    Event::Motion { time, x, y }
}

fn release(button: u32) -> Event {
    Event::ButtonRelease { button, x: 0, y: 0 }
}

#[test]
fn method_names_ignore_case() {
    assert_eq!(MoveResizeMethod::from_str("direct"), Ok(MoveResizeMethod::Direct));
    assert_eq!(MoveResizeMethod::from_str("Configure"), Ok(MoveResizeMethod::Configure));
    assert_eq!(MoveResizeMethod::from_str("MESSAGE"), Ok(MoveResizeMethod::Message));
}

#[test]
fn unknown_method_is_rejected() {
    assert_eq!(MoveResizeMethod::from_str("resize"), Err(ConfigError::InvalidMethod));
    assert_eq!(MoveResizeMethod::from_str(""), Err(ConfigError::InvalidMethod));
    assert_eq!(grid_resize::resize::method_from_lowercase("Direct"), Err(ConfigError::InvalidMethod));
}

#[test]
fn client_message_fields() {
    let r = ResizeRequest { method: MoveResizeMethod::Message, x: 10, y: -20, width: 300, height: 400 };
    assert_eq!(
        r.message(),
        MoveResizeMessage { flags: 0x2f01, x: 10, y: -20, width: 300, height: 400 }
    );
}

#[test]
fn new_session_corrects_and_anchors() {
    let s = GridResize::new(100, 50, 803, 605, 4, 3, 300, 200, false, MoveResizeMethod::Direct);
    assert_eq!((s.x, s.y, s.width, s.height), (101, 51, 800, 603));
    assert_eq!((s.grid.cell_width, s.grid.cell_height), (200, 201));
    assert_eq!((s.selection.p1_x, s.selection.p1_y), (199, 149));
    assert_eq!((s.selection.p2_x, s.selection.p2_y), (199, 149));
    assert!(!s.running);
}

#[test]
fn configure_checks_lists() {
    let ok = GridResize::configure(&vec![0, 0, 800, 600], &vec![4, 3], 50, 50, true, MoveResizeMethod::Message);
    let s = ok.unwrap();
    assert_eq!((s.width, s.height, s.live), (800, 600, true));
    assert_eq!(
        GridResize::configure(&vec![0, 0, 800], &vec![4, 3], 0, 0, false, MoveResizeMethod::Direct).err(),
        Some(ConfigError::InvalidDimensions)
    );
    assert_eq!(
        GridResize::configure(&vec![0, 0, -800, 600], &vec![4, 3], 0, 0, false, MoveResizeMethod::Direct).err(),
        Some(ConfigError::InvalidDimensions)
    );
    assert_eq!(
        GridResize::configure(&vec![0, 0, 800, 600], &vec![4], 0, 0, false, MoveResizeMethod::Direct).err(),
        Some(ConfigError::InvalidGridSize)
    );
    assert_eq!(
        GridResize::configure(&vec![0, 0, 800, 600], &vec![4, 0], 0, 0, false, MoveResizeMethod::Direct).err(),
        Some(ConfigError::InvalidGridSize)
    );
    assert_eq!(
        GridResize::configure(&vec![i32::MAX as i64, 0, 800, 600], &vec![4, 3], 0, 0, false, MoveResizeMethod::Direct).err(),
        Some(ConfigError::InvalidDimensions)
    );
}

#[test]
fn drag_then_release_applies_covered_cells() {
    let mut s = session(false);
    let step = s.handle_event(motion(100, 450, 250));
    assert!(step.redraw);
    assert_eq!(step.apply, None);
    let step = s.handle_event(release(BUTTON_PRIMARY));
    assert!(!s.running);
    assert_eq!(
        step.apply,
        Some(ResizeRequest { method: MoveResizeMethod::Configure, x: 0, y: 0, width: 600, height: 400 })
    );
}

#[test]
fn applied_geometry_is_on_screen() {
    let mut s = GridResize::new(1000, 300, 800, 600, 4, 3, 1050, 350, false, MoveResizeMethod::Direct);
    s.start();
    s.handle_event(motion(100, 450, 250));
    let step = s.handle_event(release(BUTTON_PRIMARY));
    assert_eq!(
        step.apply,
        Some(ResizeRequest { method: MoveResizeMethod::Direct, x: 1000, y: 300, width: 600, height: 400 })
    );
}

#[test]
fn fast_motion_is_ignored() {
    let mut s = session(false);
    s.handle_event(motion(100, 450, 250));
    let step = s.handle_event(motion(132, 700, 500));
    assert!(!step.redraw);
    assert_eq!((s.selection.p2_x, s.selection.p2_y), (450, 250));
    assert_eq!(s.last_motion, 100);
    s.handle_event(motion(133, 700, 500));
    assert_eq!((s.selection.p2_x, s.selection.p2_y), (700, 500));
    assert_eq!(s.last_motion, 133);
}

#[test]
fn secondary_button_moves_anchor() {
    let mut s = session(false);
    s.handle_event(Event::ButtonPress { button: BUTTON_SECONDARY, x: 300, y: 300 });
    assert!(s.left_button_held);
    assert_eq!((s.selection.p1_x, s.selection.p1_y), (300, 300));
    s.handle_event(motion(100, 500, 500));
    assert_eq!((s.selection.p1_x, s.selection.p1_y), (500, 500));
    assert_eq!((s.selection.p2_x, s.selection.p2_y), (500, 500));
    s.handle_event(release(BUTTON_SECONDARY));
    assert!(!s.left_button_held);
    s.handle_event(motion(200, 100, 100));
    assert_eq!((s.selection.p1_x, s.selection.p1_y), (500, 500));
    assert_eq!((s.selection.p2_x, s.selection.p2_y), (100, 100));
    assert!(s.running);
}

#[test]
fn escape_cancels_without_applying() {
    let mut s = session(true);
    let step = s.handle_event(motion(100, 450, 250));
    assert!(step.apply.is_some());
    let step = s.handle_event(Event::KeyPress { keysym: KEYSYM_ESCAPE });
    assert!(!s.running);
    assert_eq!(step.apply, None);
    let mut s = session(false);
    s.handle_event(motion(100, 450, 250));
    let step = s.handle_event(Event::KeyPress { keysym: KEYSYM_ESCAPE });
    assert!(!s.running);
    assert_eq!(step.apply, None);
}

#[test]
fn other_keys_and_events_are_ignored() {
    let mut s = session(false);
    let step = s.handle_event(Event::KeyPress { keysym: 0x61 });
    assert!(s.running);
    assert_eq!(step, grid_resize::session::Step { redraw: false, apply: None });
    let step = s.handle_event(Event::Other);
    assert!(s.running);
    assert!(!step.redraw);
}

#[test]
fn live_mode_applies_on_each_change_only() {
    let mut s = session(true);
    let mut applied = 0;
    for (t, x, y) in [(100u64, 250, 50), (150, 260, 60), (200, 450, 250), (210, 600, 500)] {
        if s.handle_event(motion(t, x, y)).apply.is_some() {
            applied += 1;
        }
    }
    assert_eq!(applied, 2);
    let step = s.handle_event(release(BUTTON_PRIMARY));
    assert_eq!(step.apply, None);
    assert!(!s.running);
}

#[test]
fn non_live_mode_applies_once_on_finish() {
    let mut s = session(false);
    let mut applied = 0;
    for (t, x, y) in [(100u64, 250, 50), (200, 450, 250)] {
        if s.handle_event(motion(t, x, y)).apply.is_some() {
            applied += 1;
        }
    }
    assert_eq!(applied, 0);
    assert!(s.handle_event(release(BUTTON_PRIMARY)).apply.is_some());
}

#[test]
fn frame_lists_lines_and_cells() {
    let mut s = GridResize::new(100, 100, 800, 600, 4, 3, 150, 150, false, MoveResizeMethod::Configure);
    s.start();
    s.handle_event(motion(100, 450, 250));
    let f = s.frame(Some((530, 350)));
    assert_eq!(f.selection, Rect { x: 0, y: 0, width: 600, height: 400 });
    assert_eq!(f.hover, Some(Rect { x: 400, y: 200, width: 200, height: 200 }));
    assert_eq!(f.columns, vec![0, 200, 400, 600, 800]);
    assert_eq!(f.rows, vec![0, 200, 400, 600]);
    assert_eq!((f.width, f.height), (800, 600));
    assert_eq!(s.frame(None).hover, None);
    assert_eq!(s.frame(Some((i32::MIN, i32::MAX))).hover, Some(Rect { x: 0, y: 600, width: 200, height: 200 }));
}

#[test]
fn display_close_once() {
    let mut d = Display::from_parts(77, 0, 5);
    assert_eq!((d.as_raw(), d.root(), d.screen()), (77, 5, 0));
    assert_eq!(d.to_xdisplay(), 77);
    assert!(d.is_open());
    assert_eq!(d.close(), Some(77));
    assert!(!d.is_open());
    assert_eq!(d.close(), None);
    assert_eq!(d.root(), 5);
}
