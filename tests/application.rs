use application_base::application::{
    Application, ApplicationDescriptor, Driver, Globals, Phase, WindowCommand, WindowEvent,
};
use application_base::input::{InputEvent, InputManager, Key};
use application_base::timing::Timing;
use std::cell::Cell;

fn globals(width: u32, height: u32, fullscreen: bool) -> Globals {
    Globals {
        window_width: width,
        window_height: height,
        fullscreen,
        resizeable: false,
        title: "Application".to_string(),
        should_exit: false,
    }
}

#[derive(Debug, PartialEq)]
struct Window {
    width: u32,
    height: u32,
    fullscreen: bool,
    resizable: bool,
    title: String,
}

impl Window {
    fn apply(&mut self, commands: &[WindowCommand]) {
        for c in commands {
            match c {
                WindowCommand::SetWidth(w) => self.width = *w,
                WindowCommand::SetHeight(h) => self.height = *h,
                WindowCommand::EnterFullscreen => self.fullscreen = true,
                WindowCommand::ExitFullscreen => self.fullscreen = false,
                WindowCommand::SetSize(w, h) => {
                    self.width = *w;
                    self.height = *h;
                }
                WindowCommand::SetResizable(r) => self.resizable = *r,
                WindowCommand::SetTitle(t) => self.title = t.clone(),
            }
        }
    }
}

#[test]
fn default_descriptor_is_small_fixed_window() {
    let d = ApplicationDescriptor::default();
    assert_eq!(d.window_width, 800);
    assert_eq!(d.window_height, 600);
    assert!(!d.fullscreen);
    assert!(!d.resizeable);
    assert_eq!(d.title, "Application");
    assert!(d.with_logging);
}

#[test]
fn globals_from_descriptor_do_not_exit() {
    let d = ApplicationDescriptor {
        window_width: 1024,
        window_height: 768,
        fullscreen: true,
        resizeable: true,
        title: "Game".to_string(),
        with_logging: false,
    };
    let g = Globals::from(d);
    assert_eq!(g.window_width, 1024);
    assert_eq!(g.window_height, 768);
    assert!(g.fullscreen);
    assert!(g.resizeable);
    assert_eq!(g.title, "Game");
    assert!(!g.should_exit);
}

#[test]
fn unchanged_configuration_only_sets_resizable() {
    let g = globals(800, 600, false);
    assert_eq!(g.handle(&g.snapshot()), vec![WindowCommand::SetResizable(false)]);
}

#[test]
fn reconcile_twice_with_same_pair_issues_nothing_new() {
    let last = globals(800, 600, false);
    let mut cur = globals(640, 600, false);
    cur.title = "Renamed".to_string();
    let first = cur.handle(&last);
    let second = cur.handle(&last);
    assert_eq!(first, second);
    let mut w = Window { width: 800, height: 600, fullscreen: false, resizable: false, title: "Application".to_string() };
    w.apply(&first);
    let once = Window { ..w };
    let mut w = once;
    w.apply(&second);
    assert_eq!(w, Window { width: 640, height: 600, fullscreen: false, resizable: false, title: "Renamed".to_string() });
    assert_eq!(cur.handle(&cur.snapshot()), vec![WindowCommand::SetResizable(false)]);
}

#[test]
fn changed_fields_are_applied_in_order() {
    let last = globals(800, 600, false);
    let mut cur = globals(1024, 768, true);
    cur.resizeable = true;
    cur.title = "Other".to_string();
    assert_eq!(
        cur.handle(&last),
        vec![
            WindowCommand::SetWidth(1024),
            WindowCommand::SetHeight(768),
            WindowCommand::EnterFullscreen,
            WindowCommand::SetResizable(true),
            WindowCommand::SetTitle("Other".to_string()),
        ]
    );
}

#[test]
fn leaving_fullscreen_restores_desired_size() {
    let last = globals(800, 600, true);
    let cur = globals(800, 600, false);
    assert_eq!(
        cur.handle(&last),
        vec![
            WindowCommand::ExitFullscreen,
            WindowCommand::SetSize(800, 600),
            WindowCommand::SetResizable(false),
        ]
    );
}

struct Scripted {
    updates: u32,
    exit_at: u32,
    toggle_fullscreen_at: Vec<u32>,
    renders: Cell<u32>,
}

impl Scripted {
    fn new(exit_at: u32) -> Scripted {
        Scripted { updates: 0, exit_at, toggle_fullscreen_at: Vec::new(), renders: Cell::new(0) }
    }
}

impl Application for Scripted {
    type Renderer = ();

    fn update(&mut self, globals: &mut Globals, _input: &InputManager, _timing: &Timing) {
        self.updates += 1;
        if self.toggle_fullscreen_at.contains(&self.updates) {
            globals.fullscreen = !globals.fullscreen;
        }
        if self.updates == self.exit_at {
            globals.should_exit = true;
        }
    }

    fn render(&self, _renderer: &()) {
        self.renders.set(self.renders.get() + 1);
    }
}

#[test]
fn fullscreen_round_trip_restores_windowed_size() {
    let mut app = Scripted::new(0);
    app.toggle_fullscreen_at = vec![1, 2];
    let mut d = Driver::new(ApplicationDescriptor::default(), 0);
    let mut w = Window { width: 800, height: 600, fullscreen: false, resizable: false, title: "Application".to_string() };
    let f = d.tick(&mut app, 10);
    w.apply(&f.commands);
    assert!(w.fullscreen);
    w.width = 1920;
    w.height = 1080;
    d.window_event(WindowEvent::Resized { width: 1920, height: 1080 });
    assert_eq!(d.globals().window_width, 800);
    let f = d.tick(&mut app, 20);
    w.apply(&f.commands);
    assert_eq!(w, Window { width: 800, height: 600, fullscreen: false, resizable: false, title: "Application".to_string() });
}

#[test]
fn resize_while_windowed_becomes_configured_size() {
    let mut d = Driver::new(ApplicationDescriptor::default(), 0);
    d.window_event(WindowEvent::Resized { width: 1000, height: 700 });
    assert_eq!(d.globals().window_width, 1000);
    assert_eq!(d.globals().window_height, 700);
}

#[test]
fn exit_request_ends_session_after_one_more_reconcile() {
    let mut app = Scripted::new(2);
    let mut d = Driver::new(ApplicationDescriptor::default(), 0);
    let f = d.tick(&mut app, 1);
    assert!(f.redraw);
    assert!(d.redraw(&app, &()));
    let f = d.tick(&mut app, 2);
    assert_eq!(app.updates, 2);
    assert_eq!(f.commands, vec![WindowCommand::SetResizable(false)]);
    assert!(!f.redraw);
    assert_eq!(d.phase(), Phase::ExitRequested);
    assert!(!d.redraw(&app, &()));
    let f = d.tick(&mut app, 3);
    assert!(f.commands.is_empty());
    assert!(!f.redraw);
    assert_eq!(d.phase(), Phase::Terminated);
    let f = d.tick(&mut app, 4);
    assert!(f.commands.is_empty());
    assert_eq!(d.phase(), Phase::Terminated);
    assert!(!d.redraw(&app, &()));
    assert_eq!(app.updates, 2);
    assert_eq!(app.renders.get(), 1);
}

#[test]
fn close_request_is_honoured_at_next_tick() {
    let mut app = Scripted::new(0);
    let mut d = Driver::new(ApplicationDescriptor::default(), 0);
    d.window_event(WindowEvent::CloseRequested);
    assert_eq!(d.phase(), Phase::Running);
    let f = d.tick(&mut app, 5);
    assert!(!f.redraw);
    assert_eq!(d.phase(), Phase::ExitRequested);
    d.tick(&mut app, 6);
    assert_eq!(d.phase(), Phase::Terminated);
    assert_eq!(app.updates, 1);
}

#[test]
fn failed_reconciliation_terminates_at_once() {
    let mut app = Scripted::new(0);
    let mut d = Driver::new(ApplicationDescriptor::default(), 0);
    d.reconciliation_failed();
    assert_eq!(d.phase(), Phase::Terminated);
    d.tick(&mut app, 1);
    assert_eq!(app.updates, 0);
}

#[test]
fn tick_samples_timing_and_clears_edges() {
    let mut app = Scripted::new(0);
    let mut d = Driver::new(ApplicationDescriptor::default(), 100);
    d.window_event(WindowEvent::Input(InputEvent::KeyboardInput { code: Some(36), pressed: true }));
    assert!(d.input().key_just_pressed(Key::Escape));
    d.tick(&mut app, 350);
    assert_eq!(d.timing().time_delta(), 250);
    assert!(!d.input().key_just_pressed(Key::Escape));
    assert!(d.input().key_pressed(Key::Escape));
}

#[test]
fn default_application_descriptor_is_used() {
    let app = Scripted::new(0);
    let d = app.descriptor();
    assert_eq!(d.window_width, 800);
    assert_eq!(d.title, "Application");
}
