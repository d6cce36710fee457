//! Window configuration, its reconciliation against the live window, and the
//! frame driver that sequences timing, update, reconciliation and rendering.
use crate::input::{cleared, step, InputEvent, InputManager, InputView};
use crate::timing::{span, Timing};
use vstd::prelude::*;

verus! {

/// The window an application asks for at startup.
#[derive(Debug)]
pub struct ApplicationDescriptor {
    pub window_width: u32,
    pub window_height: u32,
    pub fullscreen: bool,
    pub resizeable: bool,
    pub title: String,
    pub with_logging: bool,
}

impl Default for ApplicationDescriptor {
    /// An 800x600 windowed, fixed-size window titled "Application", with
    /// logging on.
    fn default() -> (r: ApplicationDescriptor)
        ensures
            r.window_width == 800,
            r.window_height == 600,
            !r.fullscreen,
            !r.resizeable,
            r.title@ == "Application"@,
            r.with_logging,
    {
        ApplicationDescriptor {
            window_width: 800,
            window_height: 600,
            fullscreen: false,
            resizeable: false,
            title: "Application".to_owned(),
            with_logging: true,
        }
    }
}

/// The window configuration that the application edits each frame.
#[derive(Debug)]
pub struct Globals {
    pub window_width: u32,
    pub window_height: u32,
    pub fullscreen: bool,
    pub resizeable: bool,
    pub title: String,
    pub should_exit: bool,
}

/// A window configuration as a value.
pub ghost struct GlobalsView {
    pub window_width: u32,
    pub window_height: u32,
    pub fullscreen: bool,
    pub resizeable: bool,
    pub title: Seq<char>,
    pub should_exit: bool,
}

impl View for Globals {
    type V = GlobalsView;

    open spec fn view(&self) -> GlobalsView {
        GlobalsView {
            window_width: self.window_width,
            window_height: self.window_height,
            fullscreen: self.fullscreen,
            resizeable: self.resizeable,
            title: self.title@,
            should_exit: self.should_exit,
        }
    }
}

impl From<ApplicationDescriptor> for Globals {
    fn from(value: ApplicationDescriptor) -> (r: Globals) {
        Globals {
            window_width: value.window_width,
            window_height: value.window_height,
            fullscreen: value.fullscreen,
            resizeable: value.resizeable,
            title: value.title,
            should_exit: false,
        }
    }
}

impl vstd::std_specs::convert::FromSpecImpl<ApplicationDescriptor> for Globals {
    open spec fn obeys_from_spec() -> bool {
        true
    }

    open spec fn from_spec(value: ApplicationDescriptor) -> Globals {
        Globals {
            window_width: value.window_width,
            window_height: value.window_height,
            fullscreen: value.fullscreen,
            resizeable: value.resizeable,
            title: value.title,
            should_exit: false,
        }
    }
}

/// One change to the live window.
#[derive(Debug, PartialEq, Eq)]
pub enum WindowCommand {
    /// Set the inner width, keeping the height the window has now.
    SetWidth(u32),
    /// Set the inner height, keeping the width the window has now.
    SetHeight(u32),
    /// Go borderless fullscreen on the primary monitor.
    EnterFullscreen,
    /// Leave fullscreen.
    ExitFullscreen,
    /// Set both inner dimensions.
    SetSize(u32, u32),
    SetResizable(bool),
    SetTitle(String),
}

/// A window command as a value.
pub ghost enum CommandView {
    SetWidth(u32),
    SetHeight(u32),
    EnterFullscreen,
    ExitFullscreen,
    SetSize(u32, u32),
    SetResizable(bool),
    SetTitle(Seq<char>),
}

impl View for WindowCommand {
    type V = CommandView;

    open spec fn view(&self) -> CommandView {
        match self {
            WindowCommand::SetWidth(w) => CommandView::SetWidth(*w),
            WindowCommand::SetHeight(h) => CommandView::SetHeight(*h),
            WindowCommand::EnterFullscreen => CommandView::EnterFullscreen,
            WindowCommand::ExitFullscreen => CommandView::ExitFullscreen,
            WindowCommand::SetSize(w, h) => CommandView::SetSize(*w, *h),
            WindowCommand::SetResizable(b) => CommandView::SetResizable(*b),
            WindowCommand::SetTitle(t) => CommandView::SetTitle(t@),
        }
    }
}

/// The values of a list of commands.
pub open spec fn command_views(cmds: Seq<WindowCommand>) -> Seq<CommandView> {
    cmds.map_values(|c: WindowCommand| c@)
}

/// The commands that bring a window configured as `last` to `cur`, in
/// order: each dimension that changed, then a fullscreen change (leaving
/// fullscreen restores both desired dimensions), then resizability, which is
/// set every time, then the title if it changed.
pub open spec fn reconcile(last: GlobalsView, cur: GlobalsView) -> Seq<CommandView> {
    (if cur.window_width != last.window_width {
        seq![CommandView::SetWidth(cur.window_width)]
    } else {
        Seq::empty()
    }) + (if cur.window_height != last.window_height {
        seq![CommandView::SetHeight(cur.window_height)]
    } else {
        Seq::empty()
    }) + (if cur.fullscreen == last.fullscreen {
        Seq::empty()
    } else if cur.fullscreen {
        seq![CommandView::EnterFullscreen]
    } else {
        seq![
            CommandView::ExitFullscreen,
            CommandView::SetSize(cur.window_width, cur.window_height),
        ]
    }) + seq![CommandView::SetResizable(cur.resizeable)] + (if cur.title != last.title {
        seq![CommandView::SetTitle(cur.title)]
    } else {
        Seq::empty()
    })
}

impl Globals {
    /// A copy of this configuration.
    pub fn snapshot(&self) -> (r: Globals)
        ensures
            r@ == self@,
    {
        Globals {
            window_width: self.window_width,
            window_height: self.window_height,
            fullscreen: self.fullscreen,
            resizeable: self.resizeable,
            title: self.title.clone(),
            should_exit: self.should_exit,
        }
    }

    /// The window commands that apply the changes from `last` to this
    /// configuration.
    pub fn handle(&self, last: &Globals) -> (r: Vec<WindowCommand>)
        ensures
            command_views(r@) == reconcile(last@, self@),
    {
        let mut r: Vec<WindowCommand> = Vec::new();
        if self.window_width != last.window_width {
            r.push(WindowCommand::SetWidth(self.window_width));
        }
        if self.window_height != last.window_height {
            r.push(WindowCommand::SetHeight(self.window_height));
        }
        if self.fullscreen != last.fullscreen {
            if self.fullscreen {
                r.push(WindowCommand::EnterFullscreen);
            } else {
                r.push(WindowCommand::ExitFullscreen);
                r.push(WindowCommand::SetSize(self.window_width, self.window_height));
            }
        }
        r.push(WindowCommand::SetResizable(self.resizeable));
        if self.title != last.title {
            r.push(WindowCommand::SetTitle(self.title.clone()));
        }
        assert(command_views(r@) =~= reconcile(last@, self@));
        r
    }
}

/// What the commands change of a live window.
pub ghost struct WindowView {
    pub width: u32,
    pub height: u32,
    pub fullscreen: bool,
    pub resizable: bool,
    pub title: Seq<char>,
}

/// The window after one command.
pub open spec fn apply(w: WindowView, c: CommandView) -> WindowView {
    match c {
        CommandView::SetWidth(x) => WindowView { width: x, ..w },
        CommandView::SetHeight(y) => WindowView { height: y, ..w },
        CommandView::EnterFullscreen => WindowView { fullscreen: true, ..w },
        CommandView::ExitFullscreen => WindowView { fullscreen: false, ..w },
        CommandView::SetSize(x, y) => WindowView { width: x, height: y, ..w },
        CommandView::SetResizable(b) => WindowView { resizable: b, ..w },
        CommandView::SetTitle(t) => WindowView { title: t, ..w },
    }
}

/// The window after a list of commands, in order.
pub open spec fn apply_all(w: WindowView, cmds: Seq<CommandView>) -> WindowView
    decreases cmds.len(),
{
    if cmds.len() == 0 {
        w
    } else {
        apply_all(apply(w, cmds[0]), cmds.skip(1))
    }
}

/// The window has every field that the configuration asks for.
pub open spec fn shows(w: WindowView, g: GlobalsView) -> bool {
    &&& w.width == g.window_width
    &&& w.height == g.window_height
    &&& w.fullscreen == g.fullscreen
    &&& w.resizable == g.resizeable
    &&& w.title == g.title
}

proof fn lemma_apply_all_concat(w: WindowView, a: Seq<CommandView>, b: Seq<CommandView>)
    ensures
        apply_all(w, a + b) == apply_all(apply_all(w, a), b),
    decreases a.len(),
{
    if a.len() > 0 {
        assert((a + b)[0] == a[0]);
        assert((a + b).skip(1) =~= a.skip(1) + b);
        lemma_apply_all_concat(apply(w, a[0]), a.skip(1), b);
    } else {
        assert(a + b =~= b);
    }
}

proof fn lemma_apply_all_short(w: WindowView, cmds: Seq<CommandView>)
    requires
        cmds.len() <= 2,
    ensures
        cmds.len() == 0 ==> apply_all(w, cmds) == w,
        cmds.len() == 1 ==> apply_all(w, cmds) == apply(w, cmds[0]),
        cmds.len() == 2 ==> apply_all(w, cmds) == apply(apply(w, cmds[0]), cmds[1]),
{
    if cmds.len() >= 1 {
        let rest = cmds.skip(1);
        if rest.len() == 1 {
            assert(rest.skip(1).len() == 0);
        }
        assert(apply_all(apply(w, cmds[0]), rest) == if rest.len() == 0 {
            apply(w, cmds[0])
        } else {
            apply_all(apply(apply(w, cmds[0]), rest[0]), rest.skip(1))
        });
    }
}

/// The window after the commands of one reconciliation, field by field.
pub open spec fn reconciled(w: WindowView, last: GlobalsView, cur: GlobalsView) -> WindowView {
    let sized = WindowView {
        width: if cur.window_width != last.window_width {
            cur.window_width
        } else {
            w.width
        },
        height: if cur.window_height != last.window_height {
            cur.window_height
        } else {
            w.height
        },
        ..w
    };
    let framed = if cur.fullscreen == last.fullscreen {
        sized
    } else if cur.fullscreen {
        WindowView { fullscreen: true, ..sized }
    } else {
        WindowView {
            fullscreen: false,
            width: cur.window_width,
            height: cur.window_height,
            ..sized
        }
    };
    WindowView {
        resizable: cur.resizeable,
        title: if cur.title != last.title {
            cur.title
        } else {
            framed.title
        },
        ..framed
    }
}

/// Applying a reconciliation's commands changes the window as `reconciled`
/// says.
pub proof fn lemma_reconcile_effect(w: WindowView, last: GlobalsView, cur: GlobalsView)
    ensures
        apply_all(w, reconcile(last, cur)) == reconciled(w, last, cur),
{
    let a: Seq<CommandView> = if cur.window_width != last.window_width {
        seq![CommandView::SetWidth(cur.window_width)]
    } else {
        Seq::empty()
    };
    let b: Seq<CommandView> = if cur.window_height != last.window_height {
        seq![CommandView::SetHeight(cur.window_height)]
    } else {
        Seq::empty()
    };
    let c: Seq<CommandView> = if cur.fullscreen == last.fullscreen {
        Seq::empty()
    } else if cur.fullscreen {
        seq![CommandView::EnterFullscreen]
    } else {
        seq![
            CommandView::ExitFullscreen,
            CommandView::SetSize(cur.window_width, cur.window_height),
        ]
    };
    let d: Seq<CommandView> = seq![CommandView::SetResizable(cur.resizeable)];
    let e: Seq<CommandView> = if cur.title != last.title {
        seq![CommandView::SetTitle(cur.title)]
    } else {
        Seq::empty()
    };
    assert(reconcile(last, cur) == a + b + c + d + e);
    lemma_apply_all_concat(w, a + b + c + d, e);
    lemma_apply_all_concat(w, a + b + c, d);
    lemma_apply_all_concat(w, a + b, c);
    lemma_apply_all_concat(w, a, b);
    let w1 = apply_all(w, a);
    let w2 = apply_all(w1, b);
    let w3 = apply_all(w2, c);
    let w4 = apply_all(w3, d);
    lemma_apply_all_short(w, a);
    lemma_apply_all_short(w1, b);
    lemma_apply_all_short(w2, c);
    lemma_apply_all_short(w3, d);
    lemma_apply_all_short(w4, e);
    assert(apply_all(w4, e) =~= reconciled(w, last, cur));
}

/// Reconciling a window that shows the previous configuration leaves it
/// showing the current one.
pub proof fn lemma_reconcile_reaches(w: WindowView, last: GlobalsView, cur: GlobalsView)
    requires
        shows(w, last),
    ensures
        shows(apply_all(w, reconcile(last, cur)), cur),
{
    lemma_reconcile_effect(w, last, cur);
}

/// Reconciling a configuration with itself issues no command but the
/// resizability, which is set every frame and changes nothing on a window
/// that already has it; and applying any reconciliation's commands a second
/// time changes nothing further.
pub proof fn lemma_reconcile_idempotent(w: WindowView, last: GlobalsView, cur: GlobalsView)
    ensures
        reconcile(cur, cur) == seq![CommandView::SetResizable(cur.resizeable)],
        shows(w, cur) ==> apply_all(w, reconcile(cur, cur)) == w,
        apply_all(apply_all(w, reconcile(last, cur)), reconcile(last, cur)) == apply_all(
            w,
            reconcile(last, cur),
        ),
{
    assert(reconcile(cur, cur) =~= seq![CommandView::SetResizable(cur.resizeable)]);
    lemma_reconcile_effect(w, cur, cur);
    lemma_reconcile_effect(w, last, cur);
    lemma_reconcile_effect(apply_all(w, reconcile(last, cur)), last, cur);
}

/// Leaving fullscreen restores the windowed size that was asked for: from a
/// window showing a windowed configuration, reconciling to the same
/// configuration in fullscreen, letting the platform give the window any size
/// while fullscreen, then reconciling back leaves the window windowed at
/// exactly the configured width and height.
pub proof fn lemma_fullscreen_round_trip(
    w: WindowView,
    windowed: GlobalsView,
    full_width: u32,
    full_height: u32,
)
    requires
        shows(w, windowed),
        !windowed.fullscreen,
    ensures
        ({
            let full = GlobalsView { fullscreen: true, ..windowed };
            let entered = apply_all(w, reconcile(windowed, full));
            let resized = WindowView { width: full_width, height: full_height, ..entered };
            let left = apply_all(resized, reconcile(full, windowed));
            &&& entered.fullscreen
            &&& !left.fullscreen
            &&& left.width == windowed.window_width
            &&& left.height == windowed.window_height
            &&& shows(left, windowed)
        }),
{
    let full = GlobalsView { fullscreen: true, ..windowed };
    let entered = apply_all(w, reconcile(windowed, full));
    lemma_reconcile_effect(w, windowed, full);
    let resized = WindowView { width: full_width, height: full_height, ..entered };
    lemma_reconcile_effect(resized, full, windowed);
}

/// A program run by the driver.
pub trait Application {
    /// What `render` draws with.
    type Renderer;

    /// The window to open at startup.
    fn descriptor(&self) -> ApplicationDescriptor {
        ApplicationDescriptor::default()
    }

    /// Called once per frame; may change the configuration and ask to exit.
    fn update(&mut self, globals: &mut Globals, input_manager: &InputManager, timing: &Timing);

    /// Called once per redraw; changes nothing the driver holds.
    fn render(&self, renderer: &Self::Renderer);
}

/// Where a run stands.
#[derive(Clone, Copy, Debug, PartialEq, Eq, Structural)]
pub enum Phase {
    Running,
    ExitRequested,
    Terminated,
}

/// The phase after a frame tick, given whether an exit was asked for or a
/// close observed: a running session keeps running or asks to exit; any
/// other ends.
pub open spec fn next_phase(phase: Phase, exit_seen: bool) -> Phase {
    match phase {
        Phase::Running => if exit_seen {
            Phase::ExitRequested
        } else {
            Phase::Running
        },
        _ => Phase::Terminated,
    }
}

/// A platform event that reaches the driver between frames.
#[derive(Clone, Copy, Debug, PartialEq, Eq, Structural)]
pub enum WindowEvent {
    CloseRequested,
    /// The platform resized the window's inner area.
    Resized { width: u32, height: u32 },
    Input(InputEvent),
}

/// What the host does after a frame tick: apply the commands to the window,
/// in order, then request a redraw if asked.
pub struct Frame {
    pub commands: Vec<WindowCommand>,
    pub redraw: bool,
}

/// Runs the frame cycle for one session: sample timing, update, reconcile,
/// exit check, clear input edges, redraw.
pub struct Driver {
    phase: Phase,
    close_requested: bool,
    globals: Globals,
    last_globals: Globals,
    input: InputManager,
    timing: Timing,
}

/// What the driver holds, as values.
pub ghost struct DriverView {
    pub phase: Phase,
    pub close_requested: bool,
    pub globals: GlobalsView,
    pub last_globals: GlobalsView,
    pub input: InputView,
    pub timing: Timing,
}

impl View for Driver {
    type V = DriverView;

    closed spec fn view(&self) -> DriverView {
        DriverView {
            phase: self.phase,
            close_requested: self.close_requested,
            globals: self.globals@,
            last_globals: self.last_globals@,
            input: self.input@,
            timing: self.timing,
        }
    }
}

/// A tick calls the application's update only while running.
pub open spec fn updates(phase: Phase) -> bool {
    phase == Phase::Running
}

/// A redraw renders only while running.
pub open spec fn renders(phase: Phase) -> bool {
    phase == Phase::Running
}

/// The commands of a tick that starts in `phase`: a running session
/// reconciles the updated configuration against the previous frame's; any
/// other issues none.
pub open spec fn frame_commands(phase: Phase, last: GlobalsView, updated: GlobalsView) -> Seq<
    CommandView,
> {
    if phase == Phase::Running {
        reconcile(last, updated)
    } else {
        Seq::empty()
    }
}

impl Driver {
    pub closed spec fn wf(&self) -> bool {
        self.input.wf()
    }

    /// A running session configured by `descriptor`, its clock started at
    /// `now`.
    pub fn new(descriptor: ApplicationDescriptor, now: u64) -> (r: Driver)
        ensures
            r.wf(),
            r@.phase == Phase::Running,
            !r@.close_requested,
            r@.globals == (GlobalsView {
                window_width: descriptor.window_width,
                window_height: descriptor.window_height,
                fullscreen: descriptor.fullscreen,
                resizeable: descriptor.resizeable,
                title: descriptor.title@,
                should_exit: false,
            }),
            r@.last_globals == r@.globals,
            r@.input.held_keys.is_empty(),
            r@.input.just_pressed_keys.is_empty(),
            r@.input.held_buttons.is_empty(),
            r@.input.just_pressed_buttons.is_empty(),
            r@.timing.start_spec() == now,
            r@.timing.last_spec() == now,
            r@.timing.delta_spec() == 0,
    {
        let globals = Globals::from(descriptor);
        let last_globals = globals.snapshot();
        Driver {
            phase: Phase::Running,
            close_requested: false,
            globals,
            last_globals,
            input: InputManager::new(),
            timing: Timing::new(now),
        }
    }
    /// Takes in a platform event between frames. A close is remembered for
    /// the next tick; a resize becomes the configured size unless the window
    /// is fullscreen, so that leaving fullscreen restores the windowed size
    /// the application asked for; input goes to the input tracker.
    pub fn window_event(&mut self, event: WindowEvent)
        requires
            old(self).wf(),
        ensures
            final(self).wf(),
            final(self)@ == (match event {
                WindowEvent::CloseRequested => DriverView { close_requested: true, ..old(self)@ },
                WindowEvent::Resized { width, height } => if old(self)@.globals.fullscreen {
                    old(self)@
                } else {
                    DriverView {
                        globals: GlobalsView {
                            window_width: width,
                            window_height: height,
                            ..old(self)@.globals
                        },
                        ..old(self)@
                    }
                },
                WindowEvent::Input(e) => DriverView { input: step(old(self)@.input, e), ..old(self)@ },
            }),
    {
        match event {
            WindowEvent::CloseRequested => {
                self.close_requested = true;
            },
            WindowEvent::Resized { width, height } => {
                if !self.globals.fullscreen {
                    self.globals.window_width = width;
                    self.globals.window_height = height;
                }
            },
            WindowEvent::Input(e) => {
                self.input.update(e);
            },
        }
    }

    /// One frame tick. While running: sample the clock, let the application
    /// update, reconcile its configuration against the previous frame's,
    /// move to `ExitRequested` if it asked to exit or a close was seen, keep
    /// the configuration for the next frame, clear the input edges, and ask
    /// for a redraw unless exiting. In any other phase the session ends:
    /// no update, no commands, no redraw.
    pub fn tick<A: Application>(&mut self, app: &mut A, now: u64) -> (r: Frame)
        requires
            old(self).wf(),
        ensures
            final(self).wf(),
            command_views(r.commands@) == frame_commands(
                old(self)@.phase,
                old(self)@.last_globals,
                final(self)@.globals,
            ),
            final(self)@.phase == next_phase(
                old(self)@.phase,
                final(self)@.globals.should_exit || old(self)@.close_requested,
            ),
            r.redraw == (updates(old(self)@.phase) && final(self)@.phase == Phase::Running),
            final(self)@.close_requested == old(self)@.close_requested,
            updates(old(self)@.phase) ==> {
                &&& final(self)@.timing.delta_spec() == span(
                    old(self)@.timing.last_spec(),
                    now,
                )
                &&& final(self)@.timing.last_spec() == now
                &&& final(self)@.timing.start_spec() == old(self)@.timing.start_spec()
                &&& final(self)@.last_globals == final(self)@.globals
                &&& final(self)@.input == cleared(old(self)@.input)
            },
            !updates(old(self)@.phase) ==> {
                &&& *final(app) == *old(app)
                &&& final(self)@ == DriverView { phase: Phase::Terminated, ..old(self)@ }
            },
    {
        if self.phase != Phase::Running {
            self.phase = Phase::Terminated;
            return Frame { commands: Vec::new(), redraw: false };
        }
        self.timing.update(now);
        app.update(&mut self.globals, &self.input, &self.timing);
        let commands = self.globals.handle(&self.last_globals);
        if self.globals.should_exit || self.close_requested {
            self.phase = Phase::ExitRequested;
        }
        self.last_globals = self.globals.snapshot();
        self.input.clear();
        Frame { commands, redraw: self.phase == Phase::Running }
    }

    /// Renders through the application if the session is still running;
    /// says whether it did.
    pub fn redraw<A: Application>(&self, app: &A, renderer: &A::Renderer) -> (r: bool)
        ensures
            r == renders(self@.phase),
    {
        if self.phase == Phase::Running {
            app.render(renderer);
            true
        } else {
            false
        }
    }

    /// Ends the session at once, as after a window change that the platform
    /// refused.
    pub fn reconciliation_failed(&mut self)
        ensures
            final(self)@ == (DriverView { phase: Phase::Terminated, ..old(self)@ }),
            old(self).wf() ==> final(self).wf(),
    {
        self.phase = Phase::Terminated;
    }

    pub fn phase(&self) -> (r: Phase)
        ensures
            r == self@.phase,
    {
        self.phase
    }

    pub fn globals(&self) -> (r: &Globals)
        ensures
            r@ == self@.globals,
    {
        &self.globals
    }

    pub fn input(&self) -> (r: &InputManager)
        ensures
            r@ == self@.input,
    {
        &self.input
    }

    pub fn timing(&self) -> (r: &Timing)
        ensures
            *r == self@.timing,
    {
        &self.timing
    }
}

/// Once an update asks to exit, that tick still reconciles its changes but
/// requests no redraw and leaves the session asking to exit; the next tick
/// ends the session, and from then on ticks neither update, reconcile nor
/// redraw, and nothing renders.
pub proof fn lemma_exit_propagation(
    last: GlobalsView,
    updated: GlobalsView,
    close_seen: bool,
    later_last: GlobalsView,
    later_globals: GlobalsView,
    later_exit: bool,
)
    requires
        updated.should_exit,
    ensures
        ({
            let asked = next_phase(Phase::Running, updated.should_exit || close_seen);
            let ended = next_phase(asked, later_exit);
            &&& frame_commands(Phase::Running, last, updated) == reconcile(last, updated)
            &&& asked == Phase::ExitRequested
            &&& !renders(asked)
            &&& !updates(asked)
            &&& ended == Phase::Terminated
            &&& frame_commands(asked, later_last, later_globals).len() == 0
            &&& next_phase(ended, later_exit) == Phase::Terminated
            &&& !updates(ended)
            &&& !renders(ended)
            &&& frame_commands(ended, later_last, later_globals).len() == 0
        }),
{
}

} // verus!
