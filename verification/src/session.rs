//! The interactive session: the command surface, the session state, and
//! the event-driven state machine over it. Every transition is a pure
//! function of the state and the event; the caller performs the remote
//! work between `begin_search` and `apply_search_result`.

use vstd::prelude::*;
use crate::clock::now_epoch_seconds;
use crate::config::AppConfig;
use crate::models::{HealthSummary, ManagerRow, Runner, RunnerFilters, RunnerManager};
use crate::text::{parse_tag_input, pop_char, push_char, str_eq, trimmed_pieces};
use crate::views::{
    check_runner_statuses,
    detect_rotating_runners,
    flat_manager_rows,
    flatten_manager_rows,
    list_offline_runners,
    list_runners_without_managers,
    no_managers_pred,
    offline_pred,
    first_online_pred,
    rotating_pred,
    rows_model,
    uncontacted_pred,
    uncontacted_runners,
    UNCONTACTED_THRESHOLD_SECS,
};

verus! {

/// How many commands the surface offers.
pub const COMMAND_COUNT: usize = 7;

/// The fixed command surface, one variant per named operation.
#[derive(Debug, PartialEq, Eq, Structural, Clone, Copy)]
pub enum Command {
    Fetch,
    Lights,
    Switch,
    Workers,
    Flames,
    Empty,
    Rotate,
}

/// Each command's place in the selection list.
pub open spec fn command_index(c: Command) -> int {
    match c {
        Command::Fetch => 0,
        Command::Lights => 1,
        Command::Switch => 2,
        Command::Workers => 3,
        Command::Flames => 4,
        Command::Empty => 5,
        Command::Rotate => 6,
    }
}

/// The command at a selection index, in the fixed list order.
pub fn command_at(i: usize) -> (c: Command)
    requires
        i < COMMAND_COUNT,
    ensures
        command_index(c) == i,
{
    match i {
        0 => Command::Fetch,
        1 => Command::Lights,
        2 => Command::Switch,
        3 => Command::Workers,
        4 => Command::Flames,
        5 => Command::Empty,
        _ => Command::Rotate,
    }
}

impl Command {
    /// Each command's name, as the command surface spells it.
    pub open spec fn name_spec(self) -> Seq<char> {
        match self {
            Command::Fetch => "fetch"@,
            Command::Lights => "lights"@,
            Command::Switch => "switch"@,
            Command::Workers => "workers"@,
            Command::Flames => "flames"@,
            Command::Empty => "empty"@,
            Command::Rotate => "rotate"@,
        }
    }

    /// The command's name.
    pub fn name(&self) -> (s: &'static str)
        ensures
            s@ == self.name_spec(),
    {
        match self {
            Command::Fetch => "fetch",
            Command::Lights => "lights",
            Command::Switch => "switch",
            Command::Workers => "workers",
            Command::Flames => "flames",
            Command::Empty => "empty",
            Command::Rotate => "rotate",
        }
    }

    /// Which command a name denotes, or `None` for an unknown name.
    pub open spec fn parse_spec(s: Seq<char>) -> Option<Command> {
        if s == "fetch"@ {
            Option::Some(Command::Fetch)
        } else if s == "lights"@ {
            Option::Some(Command::Lights)
        } else if s == "switch"@ {
            Option::Some(Command::Switch)
        } else if s == "workers"@ {
            Option::Some(Command::Workers)
        } else if s == "flames"@ {
            Option::Some(Command::Flames)
        } else if s == "empty"@ {
            Option::Some(Command::Empty)
        } else if s == "rotate"@ {
            Option::Some(Command::Rotate)
        } else {
            Option::None
        }
    }

    /// Reads a command name.
    pub fn parse(s: &str) -> (c: Option<Command>)
        ensures
            c == Self::parse_spec(s@),
    {
        if str_eq(s, "fetch") {
            Some(Command::Fetch)
        } else if str_eq(s, "lights") {
            Some(Command::Lights)
        } else if str_eq(s, "switch") {
            Some(Command::Switch)
        } else if str_eq(s, "workers") {
            Some(Command::Workers)
        } else if str_eq(s, "flames") {
            Some(Command::Flames)
        } else if str_eq(s, "empty") {
            Some(Command::Empty)
        } else if str_eq(s, "rotate") {
            Some(Command::Rotate)
        } else {
            None
        }
    }
}

/// The session's modes. `CommandSelection` is the initial mode; there is
/// no terminal mode — the process exits on an explicit quit signal.
#[derive(Debug, PartialEq, Eq, Structural, Clone, Copy)]
pub enum AppMode {
    CommandSelection,
    FilterInput,
    ResultsView,
    Help,
}

impl Default for AppMode {
    /// A session starts in command selection.
    fn default() -> (m: AppMode)
        ensures
            m == AppMode::CommandSelection,
    {
        AppMode::CommandSelection
    }
}

/// Which result container the results view shows.
#[derive(Debug, PartialEq, Eq, Structural, Clone, Copy)]
pub enum ResultsViewType {
    Runners,
    Workers,
    HealthCheck,
    Rotation,
}

impl Default for ResultsViewType {
    fn default() -> (v: ResultsViewType)
        ensures
            v == ResultsViewType::Runners,
    {
        ResultsViewType::Runners
    }
}

/// One user input event, reduced to what the state machine reads.
#[derive(Debug, PartialEq, Eq, Structural, Clone, Copy)]
pub enum KeyInput {
    Char(char),
    Enter,
    Esc,
    Backspace,
    Up,
    Down,
    Other,
}

/// What the caller must do after a key was handled: nothing, or run the
/// selected command's search and feed the outcome back.
#[derive(Debug, PartialEq, Eq, Structural, Clone, Copy)]
pub enum KeyAction {
    Idle,
    StartSearch,
}

/// The mathematical image of a session state.
pub ghost struct AppView {
    pub config: AppConfig,
    pub mode: AppMode,
    pub should_quit: bool,
    pub runners: Seq<Runner>,
    pub manager_rows: Seq<(u64, Seq<String>, RunnerManager)>,
    pub results_view_type: ResultsViewType,
    pub health_summary: Option<HealthSummary>,
    pub selected_command_index: usize,
    pub input_buffer: Seq<char>,
    pub table_selected: Option<usize>,
    pub is_loading: bool,
    pub error_message: Option<Seq<char>>,
    pub spinner_frame: usize,
    pub polling_active: bool,
    pub poll_started_at: Option<u64>,
    pub last_poll_at: Option<u64>,
}

/// One interactive session's state. Exactly one live instance per
/// process; every mutation goes through the event-handling operations.
/// Times are moments on the caller's clock, in whole seconds.
pub struct App {
    pub config: AppConfig,
    pub mode: AppMode,
    pub should_quit: bool,
    pub runners: Vec<Runner>,
    pub manager_rows: Vec<ManagerRow>,
    pub results_view_type: ResultsViewType,
    pub health_summary: Option<HealthSummary>,
    pub selected_command_index: usize,
    pub input_buffer: String,
    pub table_selected: Option<usize>,
    pub is_loading: bool,
    pub error_message: Option<String>,
    pub spinner_frame: usize,
    pub polling_active: bool,
    pub poll_started_at: Option<u64>,
    pub last_poll_at: Option<u64>,
}

impl View for App {
    type V = AppView;

    open spec fn view(&self) -> AppView {
        AppView {
            config: self.config,
            mode: self.mode,
            should_quit: self.should_quit,
            runners: self.runners@,
            manager_rows: rows_model(self.manager_rows@),
            results_view_type: self.results_view_type,
            health_summary: self.health_summary,
            selected_command_index: self.selected_command_index,
            input_buffer: self.input_buffer@,
            table_selected: self.table_selected,
            is_loading: self.is_loading,
            error_message: match self.error_message {
                Option::Some(ref e) => Option::Some(e@),
                Option::None => Option::None,
            },
            spinner_frame: self.spinner_frame,
            polling_active: self.polling_active,
            poll_started_at: self.poll_started_at,
            last_poll_at: self.last_poll_at,
        }
    }
}

/// The selection index after one step down the command list, wrapping at
/// the end.
pub open spec fn next_command_index(i: usize) -> usize {
    if i < COMMAND_COUNT - 1 {
        (i + 1) as usize
    } else {
        0
    }
}

/// The selection index after one step up the command list, wrapping at
/// the start.
pub open spec fn previous_command_index(i: usize) -> usize {
    if i > 0 {
        (i - 1) as usize
    } else {
        (COMMAND_COUNT - 1) as usize
    }
}

/// How many rows the current results view holds.
pub open spec fn current_results_len(v: AppView) -> nat {
    match v.results_view_type {
        ResultsViewType::Workers => v.manager_rows.len(),
        _ => v.runners.len(),
    }
}

/// The cursor after one step down the current results, wrapping; an empty
/// result set leaves the cursor alone.
pub open spec fn next_result_selected(sel: Option<usize>, len: nat) -> Option<usize> {
    if len == 0 {
        sel
    } else {
        match sel {
            Option::Some(i) => if i + 1 >= len {
                Option::Some(0usize)
            } else {
                Option::Some((i + 1) as usize)
            },
            Option::None => Option::Some(0usize),
        }
    }
}

/// The cursor after one step up the current results, wrapping; an empty
/// result set leaves the cursor alone.
pub open spec fn previous_result_selected(sel: Option<usize>, len: nat) -> Option<usize> {
    if len == 0 {
        sel
    } else {
        match sel {
            Option::Some(i) => if i == 0 {
                Option::Some((len - 1) as usize)
            } else {
                Option::Some((i - 1) as usize)
            },
            Option::None => Option::Some(0usize),
        }
    }
}

/// The spinner frame after one tick of a loading session.
pub open spec fn next_spinner_frame(i: usize) -> usize {
    if i % 10 == 9 {
        0
    } else {
        ((i % 10) + 1) as usize
    }
}

/// The spinner glyph of a frame index below ten.
pub open spec fn spinner_glyph(i: int) -> char {
    if i == 0 {
        '\u{280b}'
    } else if i == 1 {
        '\u{2819}'
    } else if i == 2 {
        '\u{2839}'
    } else if i == 3 {
        '\u{2838}'
    } else if i == 4 {
        '\u{283c}'
    } else if i == 5 {
        '\u{2834}'
    } else if i == 6 {
        '\u{2826}'
    } else if i == 7 {
        '\u{2827}'
    } else if i == 8 {
        '\u{2807}'
    } else {
        '\u{280f}'
    }
}

impl App {
    /// The state a session may be in: the selection index stays within
    /// the command list.
    pub open spec fn wf(self) -> bool {
        self.selected_command_index < COMMAND_COUNT
    }

    /// A fresh session: command selection, nothing fetched, nothing
    /// selected, no error, polling off.
    pub fn new(config: AppConfig) -> (app: App)
        ensures
            app@ == (AppView {
                config: config,
                mode: AppMode::CommandSelection,
                should_quit: false,
                runners: Seq::<Runner>::empty(),
                manager_rows: Seq::<(u64, Seq<String>, RunnerManager)>::empty(),
                results_view_type: ResultsViewType::Runners,
                health_summary: Option::None,
                selected_command_index: 0usize,
                input_buffer: Seq::<char>::empty(),
                table_selected: Option::None,
                is_loading: false,
                error_message: Option::None,
                spinner_frame: 0usize,
                polling_active: false,
                poll_started_at: Option::None,
                last_poll_at: Option::None,
            }),
            app.wf(),
    {
        let app = App {
            config,
            mode: AppMode::CommandSelection,
            should_quit: false,
            runners: Vec::new(),
            manager_rows: Vec::new(),
            results_view_type: ResultsViewType::Runners,
            health_summary: None,
            selected_command_index: 0,
            input_buffer: String::new(),
            table_selected: None,
            is_loading: false,
            error_message: None,
            spinner_frame: 0,
            polling_active: false,
            poll_started_at: None,
            last_poll_at: None,
        };
        proof {
            assert(rows_model(app.manager_rows@) =~= Seq::<(
                u64,
                Seq<String>,
                RunnerManager,
            )>::empty());
        }
        app
    }

    /// The command the selection rests on.
    pub fn selected_command(&self) -> (c: Command)
        requires
            self.wf(),
        ensures
            command_index(c) == self.selected_command_index,
    {
        command_at(self.selected_command_index)
    }

    /// Moves the command selection one step down, wrapping at the end.
    pub fn next_command(&mut self)
        ensures
            final(self)@ == (AppView {
                selected_command_index: next_command_index(old(self).selected_command_index),
                ..old(self)@
            }),
            final(self).wf(),
    {
        if self.selected_command_index < COMMAND_COUNT - 1 {
            self.selected_command_index += 1;
        } else {
            self.selected_command_index = 0;
        }
    }

    /// Moves the command selection one step up, wrapping at the start.
    pub fn previous_command(&mut self)
        requires
            old(self).wf(),
        ensures
            final(self)@ == (AppView {
                selected_command_index: previous_command_index(old(self).selected_command_index),
                ..old(self)@
            }),
            final(self).wf(),
    {
        if self.selected_command_index > 0 {
            self.selected_command_index -= 1;
        } else {
            self.selected_command_index = COMMAND_COUNT - 1;
        }
    }

    /// Confirms the selection: filter input begins with an empty buffer.
    pub fn select_command(&mut self)
        ensures
            final(self)@ == (AppView {
                mode: AppMode::FilterInput,
                input_buffer: Seq::<char>::empty(),
                ..old(self)@
            }),
    {
        self.mode = AppMode::FilterInput;
        self.input_buffer = String::new();
    }

    /// Dismisses the current error message.
    pub fn clear_error(&mut self)
        ensures
            final(self)@ == (AppView { error_message: Option::None, ..old(self)@ }),
    {
        self.error_message = None;
    }

    /// Moves the results cursor one row down, wrapping.
    pub fn next_result(&mut self)
        ensures
            final(self)@ == (AppView {
                table_selected: next_result_selected(
                    old(self).table_selected,
                    current_results_len(old(self)@),
                ),
                ..old(self)@
            }),
    {
        let len = match self.results_view_type {
            ResultsViewType::Workers => self.manager_rows.len(),
            _ => self.runners.len(),
        };
        proof {
            assert(rows_model(self.manager_rows@).len() == self.manager_rows@.len());
        }
        if len == 0 {
            return;
        }
        let i: usize = match self.table_selected {
            Some(i) => if i >= len - 1 {
                0
            } else {
                i + 1
            },
            None => 0,
        };
        self.table_selected = Some(i);
    }

    /// Moves the results cursor one row up, wrapping.
    pub fn previous_result(&mut self)
        ensures
            final(self)@ == (AppView {
                table_selected: previous_result_selected(
                    old(self).table_selected,
                    current_results_len(old(self)@),
                ),
                ..old(self)@
            }),
    {
        let len = match self.results_view_type {
            ResultsViewType::Workers => self.manager_rows.len(),
            _ => self.runners.len(),
        };
        proof {
            assert(rows_model(self.manager_rows@).len() == self.manager_rows@.len());
        }
        if len == 0 {
            return;
        }
        let i: usize = match self.table_selected {
            Some(i) => if i == 0 {
                len - 1
            } else {
                i - 1
            },
            None => 0,
        };
        self.table_selected = Some(i);
    }

    /// Starts or stops background polling. Starting records the moment as
    /// both the poll start and the last poll; stopping clears both, so
    /// toggling off and on resets the overall timeout.
    pub fn toggle_polling(&mut self, now_secs: u64)
        ensures
            final(self)@ == (AppView {
                polling_active: !old(self).polling_active,
                poll_started_at: if old(self).polling_active {
                    Option::<u64>::None
                } else {
                    Option::Some(now_secs)
                },
                last_poll_at: if old(self).polling_active {
                    Option::<u64>::None
                } else {
                    Option::Some(now_secs)
                },
                ..old(self)@
            }),
    {
        if self.polling_active {
            self.polling_active = false;
            self.poll_started_at = None;
            self.last_poll_at = None;
        } else {
            self.polling_active = true;
            self.poll_started_at = Some(now_secs);
            self.last_poll_at = Some(now_secs);
        }
    }

    /// Seconds of polling so far at the given moment; zero while polling
    /// has no start.
    pub open spec fn poll_elapsed_spec(v: AppView, now_secs: u64) -> u64 {
        match v.poll_started_at {
            Option::Some(t) => if now_secs >= t {
                (now_secs - t) as u64
            } else {
                0
            },
            Option::None => 0,
        }
    }

    pub fn poll_elapsed_secs(&self, now_secs: u64) -> (secs: u64)
        ensures
            secs == Self::poll_elapsed_spec(self@, now_secs),
    {
        match self.poll_started_at {
            Some(t) => if now_secs >= t {
                now_secs - t
            } else {
                0
            },
            None => 0,
        }
    }

    /// Polling has reached the configured overall timeout.
    pub open spec fn poll_timed_out_spec(v: AppView, now_secs: u64) -> bool {
        Self::poll_elapsed_spec(v, now_secs) >= v.config.poll_timeout_secs
    }

    pub fn poll_timed_out(&self, now_secs: u64) -> (timed_out: bool)
        ensures
            timed_out == Self::poll_timed_out_spec(self@, now_secs),
    {
        self.poll_elapsed_secs(now_secs) >= self.config.poll_timeout_secs
    }

    /// A background refresh is due: polling is on, nothing is loading,
    /// the session is in the results view, the overall timeout has not
    /// been reached, and the inter-poll interval has elapsed since the
    /// last poll.
    pub open spec fn should_poll_spec(v: AppView, now_secs: u64) -> bool {
        &&& v.polling_active
    &&& !v.is_loading
    &&& v.mode == AppMode::ResultsView
    &&& !Self::poll_timed_out_spec(v, now_secs)
    &&& match v.last_poll_at {
        Option::Some(t) => (if now_secs >= t {
            (now_secs - t) as u64
        } else {
            0
        }) >= v.config.poll_interval_secs,
        Option::None => false,
    }
    }

    pub fn should_poll_now(&self, now_secs: u64) -> (due: bool)
        ensures
            due == Self::should_poll_spec(self@, now_secs),
    {
        if !self.polling_active || self.is_loading {
            return false;
        }
        if self.mode != AppMode::ResultsView {
            return false;
        }
        if self.poll_timed_out(now_secs) {
            return false;
        }
        match self.last_poll_at {
            Some(t) => {
                let since: u64 = if now_secs >= t {
                    now_secs - t
                } else {
                    0
                };
                since >= self.config.poll_interval_secs
            },
            None => false,
        }
    }

    /// Records that a background poll was just issued.
    pub fn record_poll(&mut self, now_secs: u64)
        ensures
            final(self)@ == (AppView { last_poll_at: Option::Some(now_secs), ..old(self)@ }),
    {
        self.last_poll_at = Some(now_secs);
    }

    /// One timer tick: the spinner advances while a search is loading.
    pub fn tick(&mut self)
        ensures
            final(self)@ == (AppView {
                spinner_frame: if old(self).is_loading {
                    next_spinner_frame(old(self).spinner_frame)
                } else {
                    old(self).spinner_frame
                },
                ..old(self)@
            }),
    {
        if self.is_loading {
            self.advance_spinner();
        }
    }

    /// Advances the spinner one frame, wrapping after the last frame.
    pub fn advance_spinner(&mut self)
        ensures
            final(self)@ == (AppView {
                spinner_frame: next_spinner_frame(old(self).spinner_frame),
                ..old(self)@
            }),
    {
        let f = self.spinner_frame % 10;
        self.spinner_frame = if f == 9 {
            0
        } else {
            f + 1
        };
    }

    /// The spinner glyph for the current frame.
    pub fn spinner_char(&self) -> (c: char)
        ensures
            c == spinner_glyph((self.spinner_frame % 10) as int),
    {
        match self.spinner_frame % 10 {
            0 => '\u{280b}',
            1 => '\u{2819}',
            2 => '\u{2839}',
            3 => '\u{2838}',
            4 => '\u{283c}',
            5 => '\u{2834}',
            6 => '\u{2826}',
            7 => '\u{2827}',
            8 => '\u{2807}',
            _ => '\u{280f}',
        }
    }
}

/// Navigation one step up: the command selection in command selection,
/// the results cursor in the results view; nothing elsewhere.
pub open spec fn nav_up_view(pre: AppView) -> AppView {
    match pre.mode {
        AppMode::CommandSelection => AppView {
            selected_command_index: previous_command_index(pre.selected_command_index),
            ..pre
        },
        AppMode::ResultsView => AppView {
            table_selected: previous_result_selected(pre.table_selected, current_results_len(pre)),
            ..pre
        },
        _ => pre,
    }
}

/// Navigation one step down, the mirror of `nav_up_view`.
pub open spec fn nav_down_view(pre: AppView) -> AppView {
    match pre.mode {
        AppMode::CommandSelection => AppView {
            selected_command_index: next_command_index(pre.selected_command_index),
            ..pre
        },
        AppMode::ResultsView => AppView {
            table_selected: next_result_selected(pre.table_selected, current_results_len(pre)),
            ..pre
        },
        _ => pre,
    }
}

/// Polling toggled at the given moment.
pub open spec fn toggle_polling_view(pre: AppView, now_secs: u64) -> AppView {
    AppView {
        polling_active: !pre.polling_active,
        poll_started_at: if pre.polling_active {
            Option::<u64>::None
        } else {
            Option::Some(now_secs)
        },
        last_poll_at: if pre.polling_active {
            Option::<u64>::None
        } else {
            Option::Some(now_secs)
        },
        ..pre
    }
}

/// The whole key-event transition relation of the session state machine:
/// the state after the key, and what the caller must do next.
///
/// In filter input, characters edit the buffer, enter asks the caller to
/// run the search, escape backs out clearing any error. In help, any key
/// returns to command selection. Elsewhere `?` opens help, `q` quits, `p`
/// toggles polling in the results view, up/down (also `k`/`j`) navigate,
/// enter confirms the selection, and escape backs out (quitting from
/// command selection, clearing any error from the results view).
pub open spec fn handle_key_transition(pre: AppView, key: KeyInput, now_secs: u64) -> (
    AppView,
    KeyAction,
) {
    if pre.mode == AppMode::FilterInput {
        match key {
            KeyInput::Enter => (pre, KeyAction::StartSearch),
            KeyInput::Esc => (
                AppView { error_message: Option::None, mode: AppMode::CommandSelection, ..pre },
                KeyAction::Idle,
            ),
            KeyInput::Backspace => (
                AppView {
                    input_buffer: if pre.input_buffer.len() > 0 {
                        pre.input_buffer.drop_last()
                    } else {
                        pre.input_buffer
                    },
                    ..pre
                },
                KeyAction::Idle,
            ),
            KeyInput::Char(c) => (
                AppView { input_buffer: pre.input_buffer.push(c), ..pre },
                KeyAction::Idle,
            ),
            _ => (pre, KeyAction::Idle),
        }
    } else if pre.mode == AppMode::Help {
        (AppView { mode: AppMode::CommandSelection, ..pre }, KeyAction::Idle)
    } else {
        match key {
            KeyInput::Char(c) => {
                if c == '?' {
                    (AppView { mode: AppMode::Help, ..pre }, KeyAction::Idle)
                } else if c == 'q' {
                    (AppView { should_quit: true, ..pre }, KeyAction::Idle)
                } else if c == 'p' && pre.mode == AppMode::ResultsView {
                    (toggle_polling_view(pre, now_secs), KeyAction::Idle)
                } else if c == 'k' {
                    (nav_up_view(pre), KeyAction::Idle)
                } else if c == 'j' {
                    (nav_down_view(pre), KeyAction::Idle)
                } else {
                    (pre, KeyAction::Idle)
                }
            },
            KeyInput::Up => (nav_up_view(pre), KeyAction::Idle),
            KeyInput::Down => (nav_down_view(pre), KeyAction::Idle),
            KeyInput::Enter => {
                if pre.mode == AppMode::CommandSelection {
                    (
                        AppView {
                            mode: AppMode::FilterInput,
                            input_buffer: Seq::<char>::empty(),
                            ..pre
                        },
                        KeyAction::Idle,
                    )
                } else {
                    (pre, KeyAction::Idle)
                }
            },
            KeyInput::Esc => {
                match pre.mode {
                    AppMode::CommandSelection => (
                        AppView { should_quit: true, ..pre },
                        KeyAction::Idle,
                    ),
                    AppMode::ResultsView => (
                        AppView {
                            error_message: Option::None,
                            mode: AppMode::CommandSelection,
                            ..pre
                        },
                        KeyAction::Idle,
                    ),
                    _ => (AppView { mode: AppMode::CommandSelection, ..pre }, KeyAction::Idle),
                }
            },
            _ => (pre, KeyAction::Idle),
        }
    }
}

impl App {
    /// Handles one key event at the given moment, and says whether the
    /// caller must now run the selected command's search.
    pub fn handle_key(&mut self, key: KeyInput, now_secs: u64) -> (action: KeyAction)
        requires
            old(self).wf(),
        ensures
            final(self)@ == handle_key_transition(old(self)@, key, now_secs).0,
            action == handle_key_transition(old(self)@, key, now_secs).1,
            final(self).wf(),
    {
        if self.mode == AppMode::FilterInput {
            match key {
                KeyInput::Enter => {
                    return KeyAction::StartSearch;
                },
                KeyInput::Esc => {
                    self.error_message = None;
                    self.mode = AppMode::CommandSelection;
                },
                KeyInput::Backspace => {
                    let _ = pop_char(&mut self.input_buffer);
                },
                KeyInput::Char(c) => {
                    push_char(&mut self.input_buffer, c);
                },
                _ => {},
            }
            return KeyAction::Idle;
        }
        if self.mode == AppMode::Help {
            self.mode = AppMode::CommandSelection;
            return KeyAction::Idle;
        }
        match key {
            KeyInput::Char(c) => {
                if c == '?' {
                    self.mode = AppMode::Help;
                } else if c == 'q' {
                    self.should_quit = true;
                } else if c == 'p' && self.mode == AppMode::ResultsView {
                    self.toggle_polling(now_secs);
                } else if c == 'k' {
                    self.nav_up();
                } else if c == 'j' {
                    self.nav_down();
                }
            },
            KeyInput::Up => self.nav_up(),
            KeyInput::Down => self.nav_down(),
            KeyInput::Enter => {
                if self.mode == AppMode::CommandSelection {
                    self.select_command();
                }
            },
            KeyInput::Esc => {
                match self.mode {
                    AppMode::CommandSelection => {
                        self.should_quit = true;
                    },
                    AppMode::ResultsView => {
                        self.error_message = None;
                        self.mode = AppMode::CommandSelection;
                    },
                    _ => {
                        self.mode = AppMode::CommandSelection;
                    },
                }
            },
            _ => {},
        }
        KeyAction::Idle
    }

    fn nav_up(&mut self)
        requires
            old(self).wf(),
        ensures
            final(self)@ == nav_up_view(old(self)@),
            final(self).wf(),
    {
        match self.mode {
            AppMode::CommandSelection => self.previous_command(),
            AppMode::ResultsView => self.previous_result(),
            _ => {},
        }
    }

    fn nav_down(&mut self)
        requires
            old(self).wf(),
        ensures
            final(self)@ == nav_down_view(old(self)@),
            final(self).wf(),
    {
        match self.mode {
            AppMode::CommandSelection => self.next_command(),
            AppMode::ResultsView => self.next_result(),
            _ => {},
        }
    }
}

/// The tag filter a buffer denotes: none where the buffer is empty, else
/// the buffer's comma-separated pieces, each trimmed.
pub open spec fn tags_from_buffer(buf: Seq<char>, tags: Option<Vec<String>>) -> bool {
    match tags {
        Option::None => buf.len() == 0,
        Option::Some(ts) => buf.len() > 0 && ts.deep_view() == trimmed_pieces(buf),
    }
}

/// What one command's search yields from an aggregated collection: the
/// collection itself for the plain fetch and for the views derived later
/// (health, manager rows), or the matching subset for the filtering
/// commands.
pub open spec fn command_result_spec(c: Command, rs: Seq<Runner>, now_secs: i64) -> Seq<Runner> {
    match c {
        Command::Fetch => rs,
        Command::Lights => rs,
        Command::Workers => rs,
        Command::Switch => rs.filter(offline_pred()),
        Command::Flames => rs.filter(uncontacted_pred(UNCONTACTED_THRESHOLD_SECS, now_secs)),
        Command::Empty => rs.filter(no_managers_pred()),
        Command::Rotate => rs.filter(rotating_pred()),
    }
}

/// Runs one command's derivation over an already-aggregated collection,
/// against the given clock reading.
pub fn run_command(command: Command, aggregated: Vec<Runner>, now_secs: i64) -> (r: Vec<Runner>)
    ensures
        r@ == command_result_spec(command, aggregated@, now_secs),
{
    match command {
        Command::Fetch => aggregated,
        Command::Lights => aggregated,
        Command::Workers => aggregated,
        Command::Switch => list_offline_runners(aggregated),
        Command::Flames => uncontacted_runners(aggregated, UNCONTACTED_THRESHOLD_SECS, now_secs),
        Command::Empty => list_runners_without_managers(aggregated),
        Command::Rotate => detect_rotating_runners(aggregated),
    }
}

/// Runs one command's derivation against the clock: the result is
/// `run_command`'s for the clock's reading at the call.
pub fn run_command_now(command: Command, aggregated: Vec<Runner>) -> (r: Vec<Runner>)
    ensures
        exists|now_secs: i64| r@ == command_result_spec(command, aggregated@, now_secs),
{
    let ghost orig = aggregated@;
    let now_secs = now_epoch_seconds();
    let r = run_command(command, aggregated, now_secs);
    proof {
        assert(r@ == command_result_spec(command, orig, now_secs));
    }
    r
}

impl App {
    /// Begins the selected command's search: marks the session loading,
    /// clears any error, and returns the filter bundle the input buffer
    /// denotes (a comma-separated tag list; blank around each tag is
    /// trimmed; an empty buffer asks for no tag filter).
    pub fn begin_search(&mut self) -> (filters: RunnerFilters)
        ensures
            final(self)@ == (AppView {
                is_loading: true,
                error_message: Option::None,
                ..old(self)@
            }),
            tags_from_buffer(old(self).input_buffer@, filters.tag_list),
            filters.status is None,
            filters.version_prefix is None,
            filters.runner_type is None,
            filters.paused is None,
    {
        self.is_loading = true;
        self.error_message = None;
        let mut filters = RunnerFilters::default();
        if !self.input_buffer.as_str().is_empty() {
            filters.tag_list = Some(parse_tag_input(self.input_buffer.as_str()));
        }
        filters
    }

    /// Routes a finished search into the session: on success all three
    /// result containers are cleared and only the one the command feeds is
    /// populated, the session shows the results view, and the cursor
    /// rests on the first row if any (else it is unset); on failure the
    /// error message is shown in the results view in place of results.
    pub fn apply_search_result(&mut self, command: Command, outcome: Result<Vec<Runner>, String>)
        ensures
            final(self)@ == apply_result_transition(old(self)@, command, outcome),
    {
        self.is_loading = false;
        match outcome {
            Err(e) => {
                self.error_message = Some(e);
                self.mode = AppMode::ResultsView;
            },
            Ok(rs) => {
                self.runners = Vec::new();
                self.manager_rows = Vec::new();
                self.health_summary = None;
                match command {
                    Command::Workers => {
                        self.manager_rows = flatten_manager_rows(rs);
                        self.results_view_type = ResultsViewType::Workers;
                    },
                    Command::Lights => {
                        let counts = check_runner_statuses(&rs);
                        self.health_summary = Some(
                            HealthSummary { online_count: counts.0, total_count: counts.1 },
                        );
                        self.runners = rs;
                        self.results_view_type = ResultsViewType::HealthCheck;
                    },
                    Command::Rotate => {
                        self.runners = rs;
                        self.results_view_type = ResultsViewType::Rotation;
                    },
                    _ => {
                        self.runners = rs;
                        self.results_view_type = ResultsViewType::Runners;
                    },
                }
                self.mode = AppMode::ResultsView;
                proof {
                    assert(rows_model(Seq::<ManagerRow>::empty()) =~= Seq::<(
                        u64,
                        Seq<String>,
                        RunnerManager,
                    )>::empty());
                }
                if self.runners.len() > 0 || self.manager_rows.len() > 0 {
                    self.table_selected = Some(0);
                } else {
                    self.table_selected = None;
                }
            },
        }
    }
}

/// The results view type one command feeds.
pub open spec fn command_view_type(c: Command) -> ResultsViewType {
    match c {
        Command::Workers => ResultsViewType::Workers,
        Command::Lights => ResultsViewType::HealthCheck,
        Command::Rotate => ResultsViewType::Rotation,
        _ => ResultsViewType::Runners,
    }
}

/// The state after a finished search is routed in.
pub open spec fn apply_result_transition(
    pre: AppView,
    command: Command,
    outcome: Result<Vec<Runner>, String>,
) -> AppView {
    match outcome {
        Result::Err(e) => AppView {
            is_loading: false,
            error_message: Option::Some(e@),
            mode: AppMode::ResultsView,
            ..pre
        },
        Result::Ok(rs) => {
            let runners = if command == Command::Workers {
                Seq::<Runner>::empty()
            } else {
                rs@
            };
            let manager_rows = if command == Command::Workers {
                flat_manager_rows(rs@)
            } else {
                Seq::<(u64, Seq<String>, RunnerManager)>::empty()
            };
            let health_summary = if command == Command::Lights {
                Option::Some(
                    HealthSummary {
                        online_count: rs@.filter(first_online_pred()).len() as usize,
                        total_count: rs@.len() as usize,
                    },
                )
            } else {
                Option::<HealthSummary>::None
            };
            AppView {
                is_loading: false,
                runners: runners,
                manager_rows: manager_rows,
                health_summary: health_summary,
                results_view_type: command_view_type(command),
                mode: AppMode::ResultsView,
                table_selected: if runners.len() > 0 || manager_rows.len() > 0 {
                    Option::Some(0usize)
                } else {
                    Option::<usize>::None
                },
                ..pre
            }
        },
    }
}

/// The selection index after `k` steps down the command list.
pub open spec fn iterate_next_command(i: usize, k: nat) -> usize
    decreases k,
{
    if k == 0 {
        i
    } else {
        iterate_next_command(next_command_index(i), (k - 1) as nat)
    }
}

/// Stepping down the command list as many times as there are commands
/// returns the selection to where it began: the selection wraps at both
/// ends.
pub proof fn lemma_command_selection_wraps(i: usize)
    requires
        i < COMMAND_COUNT,
    ensures
        iterate_next_command(i, COMMAND_COUNT as nat) == i,
{
    reveal_with_fuel(iterate_next_command, 8);
}

} // verus!
