use vstd::prelude::*;

verus! {

/// Label of the one window whose lifecycle is coordinated.
pub const MAIN_WINDOW: &'static str = "main";

/// Status the host process exits with on quit.
pub const EXIT_STATUS: i32 = 0;

/// Whether the window is shown.
#[derive(Clone, Copy, Debug, PartialEq, Eq, Structural)]
pub enum Visibility {
    Visible,
    Hidden,
}

/// The entries of the tray menu.
#[derive(Clone, Copy, Debug, PartialEq, Eq, Structural)]
pub enum MenuAction {
    Show,
    Hide,
    Quit,
}

/// The mouse button of a tray icon click.
#[derive(Clone, Copy, Debug, PartialEq, Eq, Structural)]
pub enum MouseButton {
    Left,
    Right,
    Middle,
}

/// Whether the click's button went down or came up.
#[derive(Clone, Copy, Debug, PartialEq, Eq, Structural)]
pub enum ButtonState {
    Up,
    Down,
}

/// An event from the GUI toolkit.
#[derive(Clone, Copy, Debug, PartialEq, Eq, Structural)]
pub enum UiEvent {
    /// The user asked to close the main window.
    CloseRequested,
    /// A tray menu entry was chosen.
    Menu(MenuAction),
    /// The tray icon was clicked; `window_visible` is what asking the window
    /// whether it is shown gave, `None` where the query failed.
    IconClick { button: MouseButton, state: ButtonState, window_visible: Option<bool> },
}

/// An operation for the host to perform, in the order given.
#[derive(Clone, Copy, Debug, PartialEq, Eq, Structural)]
pub enum Command {
    /// Keep the window from being destroyed by the pending close.
    PreventClose,
    Show,
    Focus,
    Hide,
    /// Stop the backend server.
    StopBackend,
    /// Exit the host process with the given status.
    Exit(i32),
}

/// Whether events are still handled.
#[derive(Clone, Copy, Debug, PartialEq, Eq, Structural)]
pub enum Phase {
    Active,
    Terminated,
}

/// An entry of the tray menu: its stable identifier and its label.
#[derive(Clone, Copy, Debug, PartialEq, Eq)]
pub struct MenuEntry {
    pub id: &'static str,
    pub label: &'static str,
}

/// What the window looks like to the user, as the commands drive it.
pub struct WindowModel {
    pub visibility: Visibility,
    pub focused: bool,
}

/// Turns window and tray events into commands; after quit it handles none.
pub struct LifecycleCoordinator {
    phase: Phase,
}

impl View for LifecycleCoordinator {
    type V = Phase;

    closed spec fn view(&self) -> Phase {
        self.phase
    }
}

pub open spec fn menu_id(action: MenuAction) -> &'static str {
    match action {
        MenuAction::Show => "show",
        MenuAction::Hide => "hide",
        MenuAction::Quit => "quit",
    }
}

pub open spec fn menu_label(action: MenuAction) -> &'static str {
    match action {
        MenuAction::Show => "Show RenAI",
        MenuAction::Hide => "Hide",
        MenuAction::Quit => "Quit",
    }
}

/// The action a menu identifier names; unknown identifiers name none.
pub open spec fn menu_action_of(id: Seq<char>) -> Option<MenuAction> {
    if id == "show"@ {
        Some(MenuAction::Show)
    } else if id == "hide"@ {
        Some(MenuAction::Hide)
    } else if id == "quit"@ {
        Some(MenuAction::Quit)
    } else {
        None
    }
}

/// A primary click: the left button, released.
pub open spec fn is_primary_click(button: MouseButton, state: ButtonState) -> bool {
    button is Left && state is Up
}

/// The commands that answer one event.
pub open spec fn reaction(phase: Phase, event: UiEvent) -> Seq<Command> {
    match phase {
        Phase::Terminated => seq![],
        Phase::Active => match event {
            UiEvent::CloseRequested => seq![Command::PreventClose, Command::Hide],
            UiEvent::Menu(MenuAction::Show) => seq![Command::Show, Command::Focus],
            UiEvent::Menu(MenuAction::Hide) => seq![Command::Hide],
            UiEvent::Menu(MenuAction::Quit) => seq![Command::StopBackend, Command::Exit(EXIT_STATUS)],
            UiEvent::IconClick { button, state, window_visible } => if is_primary_click(
                button,
                state,
            ) {
                if window_visible == Some(true) {
                    seq![Command::Hide]
                } else {
                    seq![Command::Show, Command::Focus]
                }
            } else {
                seq![]
            },
        },
    }
}

pub open spec fn is_quit(event: UiEvent) -> bool {
    event == UiEvent::Menu(MenuAction::Quit)
}

/// The phase after one event: quit is terminal.
pub open spec fn next_phase(phase: Phase, event: UiEvent) -> Phase {
    if is_quit(event) {
        Phase::Terminated
    } else {
        phase
    }
}

/// The phase and all commands after a sequence of events.
pub open spec fn run(phase: Phase, events: Seq<UiEvent>) -> (Phase, Seq<Command>)
    decreases events.len(),
{
    if events.len() == 0 {
        (phase, seq![])
    } else {
        let prev = run(phase, events.drop_last());
        (next_phase(prev.0, events.last()), prev.1 + reaction(prev.0, events.last()))
    }
}

/// How many times the commands stop the backend.
pub open spec fn stop_count(cmds: Seq<Command>) -> nat
    decreases cmds.len(),
{
    if cmds.len() == 0 {
        0
    } else {
        stop_count(cmds.drop_last()) + if cmds.last() is StopBackend {
            1nat
        } else {
            0nat
        }
    }
}

pub open spec fn apply_command(w: WindowModel, cmd: Command) -> WindowModel {
    match cmd {
        Command::Show => WindowModel { visibility: Visibility::Visible, ..w },
        Command::Hide => WindowModel { visibility: Visibility::Hidden, focused: false },
        Command::Focus => WindowModel { focused: true, ..w },
        _ => w,
    }
}

/// The window after the commands, in order.
pub open spec fn apply_commands(w: WindowModel, cmds: Seq<Command>) -> WindowModel
    decreases cmds.len(),
{
    if cmds.len() == 0 {
        w
    } else {
        apply_command(apply_commands(w, cmds.drop_last()), cmds.last())
    }
}

/// The stable identifier of a menu entry.
pub fn menu_id_of(action: MenuAction) -> (r: &'static str)
    ensures
        r == menu_id(action),
{
    match action {
        MenuAction::Show => "show",
        MenuAction::Hide => "hide",
        MenuAction::Quit => "quit",
    }
}

/// The entries of the tray menu, in the order shown.
pub fn menu_entries() -> (r: Vec<MenuEntry>)
    ensures
        r@.len() == 3,
        r@[0] == (MenuEntry { id: menu_id(MenuAction::Show), label: menu_label(MenuAction::Show) }),
        r@[1] == (MenuEntry { id: menu_id(MenuAction::Hide), label: menu_label(MenuAction::Hide) }),
        r@[2] == (MenuEntry { id: menu_id(MenuAction::Quit), label: menu_label(MenuAction::Quit) }),
{
    vec![
        MenuEntry { id: menu_id_of(MenuAction::Show), label: "Show RenAI" },
        MenuEntry { id: menu_id_of(MenuAction::Hide), label: "Hide" },
        MenuEntry { id: menu_id_of(MenuAction::Quit), label: "Quit" },
    ]
}

/// The menu action an identifier names, `None` for an unknown one.
pub fn menu_action_from_id(id: &str) -> (r: Option<MenuAction>)
    ensures
        r == menu_action_of(id@),
{
    let id = id.to_owned();
    if id == "show".to_owned() {
        Some(MenuAction::Show)
    } else if id == "hide".to_owned() {
        Some(MenuAction::Hide)
    } else if id == "quit".to_owned() {
        Some(MenuAction::Quit)
    } else {
        None
    }
}

impl LifecycleCoordinator {
    pub fn new() -> (r: Self)
        ensures
            r@ is Active,
    {
        LifecycleCoordinator { phase: Phase::Active }
    }

    /// Whether quit has been handled, after which no event is.
    pub fn is_terminated(&self) -> (r: bool)
        ensures
            r == (self@ is Terminated),
    {
        match self.phase {
            Phase::Active => false,
            Phase::Terminated => true,
        }
    }

    /// Answers one event with the commands for the host to perform.
    pub fn handle_event(&mut self, event: UiEvent) -> (r: Vec<Command>)
        ensures
            r@ == reaction(old(self)@, event),
            final(self)@ == next_phase(old(self)@, event),
    {
        if self.is_terminated() {
            return Vec::new();
        }
        match event {
            UiEvent::CloseRequested => vec![Command::PreventClose, Command::Hide],
            UiEvent::Menu(MenuAction::Show) => vec![Command::Show, Command::Focus],
            UiEvent::Menu(MenuAction::Hide) => vec![Command::Hide],
            UiEvent::Menu(MenuAction::Quit) => {
                self.phase = Phase::Terminated;
                vec![Command::StopBackend, Command::Exit(EXIT_STATUS)]
            },
            UiEvent::IconClick { button, state, window_visible } => {
                let primary = match (button, state) {
                    (MouseButton::Left, ButtonState::Up) => true,
                    _ => false,
                };
                if !primary {
                    Vec::new()
                } else if window_visible == Some(true) {
                    vec![Command::Hide]
                } else {
                    vec![Command::Show, Command::Focus]
                }
            },
        }
    }
}

/// Each entry's identifier names that entry's action again.
pub proof fn lemma_menu_id_round_trip(action: MenuAction)
    ensures
        menu_action_of(menu_id(action)@) == Some(action),
{
    reveal_strlit("show");
    reveal_strlit("hide");
    reveal_strlit("quit");
    assert("show"@[0] != "hide"@[0]);
    assert("show"@[0] != "quit"@[0]);
    assert("hide"@[0] != "quit"@[0]);
}

/// A close request leaves the window hidden, keeps the window alive, and
/// neither stops the backend nor exits the host.
pub proof fn lemma_close_hides(w: WindowModel)
    ensures
        apply_commands(w, reaction(Phase::Active, UiEvent::CloseRequested)).visibility is Hidden,
        stop_count(reaction(Phase::Active, UiEvent::CloseRequested)) == 0,
        forall|i: int|
            0 <= i < reaction(Phase::Active, UiEvent::CloseRequested).len() ==> !(#[trigger] reaction(
                Phase::Active,
                UiEvent::CloseRequested,
            )[i] is Exit),
        next_phase(Phase::Active, UiEvent::CloseRequested) is Active,
{
    reveal_with_fuel(stop_count, 3);
    reveal_with_fuel(apply_commands, 3);
    let cmds = reaction(Phase::Active, UiEvent::CloseRequested);
    assert(cmds.drop_last() =~= seq![Command::PreventClose]);
    assert(cmds.drop_last().drop_last() =~= Seq::<Command>::empty());
}

/// A primary click on the tray icon toggles the window: a shown window is
/// hidden, a hidden one is shown and focused. A failed visibility query
/// counts as hidden.
pub proof fn lemma_click_toggles(w: WindowModel, window_visible: Option<bool>)
    requires
        window_visible == Some(w.visibility is Visible) || window_visible is None,
    ensures
        ({
            let after = apply_commands(
                w,
                reaction(
                    Phase::Active,
                    UiEvent::IconClick {
                        button: MouseButton::Left,
                        state: ButtonState::Up,
                        window_visible,
                    },
                ),
            );
            if window_visible == Some(true) {
                after.visibility is Hidden
            } else {
                after.visibility is Visible && after.focused
            }
        }),
{
    reveal_with_fuel(apply_commands, 3);
    let cmds = reaction(
        Phase::Active,
        UiEvent::IconClick { button: MouseButton::Left, state: ButtonState::Up, window_visible },
    );
    if window_visible == Some(true) {
        assert(cmds.drop_last() =~= Seq::<Command>::empty());
    } else {
        assert(cmds.drop_last() =~= seq![Command::Show]);
        assert(cmds.drop_last().drop_last() =~= Seq::<Command>::empty());
    }
}

proof fn lemma_stop_count_concat(a: Seq<Command>, b: Seq<Command>)
    ensures
        stop_count(a + b) == stop_count(a) + stop_count(b),
    decreases b.len(),
{
    if b.len() == 0 {
        assert(a + b =~= a);
    } else {
        assert((a + b).drop_last() =~= a + b.drop_last());
        lemma_stop_count_concat(a, b.drop_last());
    }
}

proof fn lemma_no_stop(cmds: Seq<Command>)
    requires
        forall|i: int| 0 <= i < cmds.len() ==> !((#[trigger] cmds[i]) is StopBackend),
    ensures
        stop_count(cmds) == 0,
    decreases cmds.len(),
{
    if cmds.len() > 0 {
        assert forall|i: int| 0 <= i < cmds.drop_last().len() implies !((
        #[trigger] cmds.drop_last()[i]) is StopBackend) by {
            assert(cmds.drop_last()[i] == cmds[i]);
        }
        lemma_no_stop(cmds.drop_last());
        assert(!(cmds[cmds.len() - 1] is StopBackend));
    }
}

proof fn lemma_run_from_active(events: Seq<UiEvent>)
    ensures
        ({
            let (phase, cmds) = run(Phase::Active, events);
            if exists|i: int| 0 <= i < events.len() && is_quit(#[trigger] events[i]) {
                &&& phase is Terminated
                &&& stop_count(cmds) == 1
                &&& cmds.len() >= 2
                &&& cmds[cmds.len() - 2] is StopBackend
                &&& cmds[cmds.len() - 1] == Command::Exit(EXIT_STATUS)
            } else {
                &&& phase is Active
                &&& stop_count(cmds) == 0
            }
        }),
    decreases events.len(),
{
    if events.len() > 0 {
        let init = events.drop_last();
        let e = events.last();
        lemma_run_from_active(init);
        let prev = run(Phase::Active, init);
        let r = reaction(prev.0, e);
        lemma_stop_count_concat(prev.1, r);
        if exists|i: int| 0 <= i < init.len() && is_quit(#[trigger] init[i]) {
            let i = choose|i: int| 0 <= i < init.len() && is_quit(#[trigger] init[i]);
            assert(events[i] == init[i]);
            assert(r =~= Seq::<Command>::empty());
            assert(prev.1 + r =~= prev.1);
        } else {
            assert forall|i: int| 0 <= i < events.len() - 1 implies !is_quit(#[trigger] events[i]) by {
                assert(events[i] == init[i]);
            }
            if is_quit(e) {
                reveal_with_fuel(stop_count, 3);
                assert(r.drop_last() =~= seq![Command::StopBackend]);
                assert(r.drop_last().drop_last() =~= Seq::<Command>::empty());
                assert(events[events.len() - 1] == e);
            } else {
                assert(!(exists|i: int| 0 <= i < events.len() && is_quit(#[trigger] events[i]))) by {
                    assert forall|i: int| 0 <= i < events.len() implies !is_quit(
                        #[trigger] events[i],
                    ) by {
                        if i < events.len() - 1 {
                            assert(events[i] == init[i]);
                        }
                    }
                }
                lemma_no_stop(r);
            }
        }
    }
}

/// In any run of events that holds a quit, the backend is stopped exactly
/// once, the last two commands stop it and then exit the host, and no event
/// is handled afterwards.
pub proof fn lemma_quit_stops_once(events: Seq<UiEvent>)
    requires
        exists|i: int| 0 <= i < events.len() && is_quit(#[trigger] events[i]),
    ensures
        run(Phase::Active, events).0 is Terminated,
        stop_count(run(Phase::Active, events).1) == 1,
        run(Phase::Active, events).1.len() >= 2,
        run(Phase::Active, events).1[run(Phase::Active, events).1.len() - 2] is StopBackend,
        run(Phase::Active, events).1[run(Phase::Active, events).1.len() - 1] == Command::Exit(
            EXIT_STATUS,
        ),
{
    lemma_run_from_active(events);
}

} // verus!
