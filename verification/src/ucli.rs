//! The session: configuration around a selection list, the state machine
//! that applies dispatched actions to it, and the accessors that report the
//! outcome once the session has ended.
//!
//! The session controller proper — the loop that draws a frame, blocks for
//! the next terminal event and feeds it back here — lives outside this
//! crate; everything it decides is decided by the functions of this module.

use vstd::prelude::*;
use vstd::string::StrSliceExecFns;
use vstd::string::StringExecFns;
use crate::input::Action;
use crate::input::RawEvent;
use crate::input::dispatch_event;
use crate::input::dispatch_view;
use crate::render::DrawCommand;
use crate::render::frame_view;
use crate::render::render_frame;
use crate::select::SelectError;
use crate::select::UCLISelect;

verus! {

/// Where a session stands: still waiting for input, ended with a committed
/// selection, or ended without one.
#[derive(Debug, Clone, Copy, PartialEq, Eq, Structural)]
pub enum SessionStatus {
    /// The session is still waiting for the next action.
    Running,
    /// The session ended with a committed selection.
    Committed,
    /// The session ended without a selection.
    Cancelled,
}

/// A sequence of characters with every line break removed.
pub open spec fn without_newlines(s: Seq<char>) -> Seq<char>
    decreases s.len(),
{
    if s.len() == 0 {
        Seq::empty()
    } else {
        let rest = without_newlines(s.drop_last());
        if s.last() == '\n' {
            rest
        } else {
            rest.push(s.last())
        }
    }
}

/// A selection list together with the configuration of one session: the
/// three glyphs, the quit key, the pointer-support flag and the prompt.
#[derive(Debug)]
pub struct Main<T> {
    /// The list the session selects from.
    pub select: UCLISelect<T>,
    /// The glyph drawn before a normal row.
    pub default_icon: String,
    /// The glyph drawn before the cursor's row.
    pub selected_icon: String,
    /// The glyph drawn before a disabled row.
    pub disabled_icon: String,
    /// Whether pointer events are decoded at all.
    pub use_mouse: bool,
    /// The key that cancels the session.
    pub quit_cmd: char,
    /// The prompt line drawn above the list; never holds a line break.
    pub prompt: String,
}

impl<T> Main<T> {
    /// Well-formedness of the session: its list is well-formed.
    pub open spec fn wf(self) -> bool {
        self.select.wf()
    }

    /// This session with its list replaced and its configuration kept.
    pub open spec fn with_select(self, s: UCLISelect<T>) -> Main<T> {
        Main {
            select: s,
            default_icon: self.default_icon,
            selected_icon: self.selected_icon,
            disabled_icon: self.disabled_icon,
            use_mouse: self.use_mouse,
            quit_cmd: self.quit_cmd,
            prompt: self.prompt,
        }
    }

    /// This session with its cursor placed on row `i`.
    pub open spec fn with_cursor(self, i: usize) -> Main<T> {
        self.with_select(
            UCLISelect {
                items: self.select.items,
                selected: self.select.selected,
                current: Some(i),
            },
        )
    }

    /// What one action does to a running session: the session after the
    /// action, and where the session then stands.
    ///
    /// - `Quit` cancels, changing nothing.
    /// - `MoveUp` and `MoveDown` move the cursor, clamped, and keep running.
    /// - `Commit` on a non-disabled cursor row commits it and ends the
    ///   session; on a disabled row it changes nothing and keeps running; a
    ///   commit with an unpositioned cursor (possible only on an empty list
    ///   once the session has begun) ends the session without a selection.
    /// - `PointerHover` places the cursor on the hovered row and keeps
    ///   running; `PointerClick` places the cursor and then commits exactly
    ///   as `Commit` would on that row. Either with an out-of-bounds index
    ///   changes nothing (the dispatcher never yields one).
    pub open spec fn step_view(self, a: Action) -> (Main<T>, SessionStatus) {
        match a {
            Action::Quit => (self, SessionStatus::Cancelled),
            Action::MoveUp => (self.with_select(self.select.after_up()), SessionStatus::Running),
            Action::MoveDown => (
                self.with_select(self.select.after_down()),
                SessionStatus::Running,
            ),
            Action::Commit => {
                if self.select.current is None {
                    (self, SessionStatus::Cancelled)
                } else if self.select.can_commit() {
                    (self.with_select(self.select.after_commit()), SessionStatus::Committed)
                } else {
                    (self, SessionStatus::Running)
                }
            }
            Action::PointerHover(i) => {
                if i < self.select.items.len() {
                    (self.with_cursor(i), SessionStatus::Running)
                } else {
                    (self, SessionStatus::Running)
                }
            }
            Action::PointerClick(i) => {
                if i < self.select.items.len() {
                    let hovered = self.with_cursor(i);
                    if hovered.select.can_commit() {
                        (
                            hovered.with_select(hovered.select.after_commit()),
                            SessionStatus::Committed,
                        )
                    } else {
                        (hovered, SessionStatus::Running)
                    }
                } else {
                    (self, SessionStatus::Running)
                }
            }
        }
    }

    /// The session as the loop first sees it: a preselected session is
    /// already committed and keeps its cursor; otherwise, on a non-empty
    /// list, an unpositioned cursor enters at the first row.
    pub open spec fn started(self) -> Main<T> {
        if self.select.selected is Some {
            self
        } else if self.select.current is None && self.select.items.len() > 0 {
            self.with_cursor(0usize)
        } else {
            self
        }
    }

    /// Where the session stands as the loop first sees it: committed when a
    /// preselection already decided it, else running.
    pub open spec fn start_status(self) -> SessionStatus {
        if self.select.selected is Some {
            SessionStatus::Committed
        } else {
            SessionStatus::Running
        }
    }

    /// The session and status after the controller, starting from this
    /// session while running, applies `actions` in order until one of them
    /// ends the session; actions after that one are never reached.
    pub open spec fn session_run(self, actions: Seq<Action>) -> (Main<T>, SessionStatus)
        decreases actions.len(),
    {
        if actions.len() == 0 {
            (self, SessionStatus::Running)
        } else {
            let (next, st) = self.step_view(actions[0]);
            if st != SessionStatus::Running {
                (next, st)
            } else {
                next.session_run(actions.drop_first())
            }
        }
    }

    /// Builds a session around `select` with the default configuration:
    /// glyphs `*`, `>` and `x`, quit key `q`, pointer support off, prompt
    /// `Select an option: `.
    pub fn new(select: UCLISelect<T>) -> (r: Self)
        ensures
            r.select == select,
            r.default_icon@ == "*"@,
            r.selected_icon@ == ">"@,
            r.disabled_icon@ == "x"@,
            !r.use_mouse,
            r.quit_cmd == 'q',
            r.prompt@ == "Select an option: "@,
    {
        Self {
            select,
            default_icon: "*".to_owned(),
            selected_icon: ">".to_owned(),
            disabled_icon: "x".to_owned(),
            use_mouse: false,
            quit_cmd: 'q',
            prompt: "Select an option: ".to_owned(),
        }
    }

    /// Validates and applies a default selection before the session starts:
    /// an in-bounds, non-disabled index becomes both the cursor and the
    /// committed selection; any other index is rejected with the matching
    /// error and nothing changes.
    pub fn set_default_value(&mut self, index: usize) -> (r: Result<(), SelectError>)
        ensures
            final(self).select.items == old(self).select.items,
            final(self).default_icon == old(self).default_icon,
            final(self).selected_icon == old(self).selected_icon,
            final(self).disabled_icon == old(self).disabled_icon,
            final(self).use_mouse == old(self).use_mouse,
            final(self).quit_cmd == old(self).quit_cmd,
            final(self).prompt == old(self).prompt,
            (r is Ok) == (index < old(self).select.items.len()
                && !old(self).select.items[index as int].disabled),
            r is Ok ==> final(self).select.current == Some(index)
                && final(self).select.selected == Some(index) && final(self).wf(),
            r is Err ==> *final(self) == *old(self),
            index >= old(self).select.items.len() ==> r == Err::<(), SelectError>(
                SelectError::IndexOutOfBounds,
            ),
            index < old(self).select.items.len()
                && old(self).select.items[index as int].disabled ==> r == Err::<(), SelectError>(
                SelectError::ItemDisabled,
            ),
    {
        self.select.preselect(index)
    }

    /// Sets the glyph drawn before a normal row.
    pub fn set_default_puce(&mut self, puce: &str)
        ensures
            *final(self) == (Main { default_icon: final(self).default_icon, ..*old(self) }),
            final(self).default_icon@ == puce@,
    {
        self.default_icon = puce.to_owned();
    }

    /// Sets the glyph drawn before the cursor's row.
    pub fn set_selected_puce(&mut self, puce: &str)
        ensures
            *final(self) == (Main { selected_icon: final(self).selected_icon, ..*old(self) }),
            final(self).selected_icon@ == puce@,
    {
        self.selected_icon = puce.to_owned();
    }

    /// Sets the glyph drawn before a disabled row.
    pub fn set_disabled_puce(&mut self, puce: &str)
        ensures
            *final(self) == (Main { disabled_icon: final(self).disabled_icon, ..*old(self) }),
            final(self).disabled_icon@ == puce@,
    {
        self.disabled_icon = puce.to_owned();
    }

    /// Turns pointer support on; pointer events are ignored without it.
    pub fn enable_mouse(&mut self)
        ensures
            *final(self) == (Main { use_mouse: true, ..*old(self) }),
    {
        self.use_mouse = true;
    }

    /// Sets the key that cancels the session.
    pub fn set_quit_cmd(&mut self, cmd: char)
        ensures
            *final(self) == (Main { quit_cmd: cmd, ..*old(self) }),
    {
        self.quit_cmd = cmd;
    }

    /// Sets the prompt line, with every line break stripped so the prompt
    /// stays a single line.
    pub fn set_prompt(&mut self, message: String)
        ensures
            *final(self) == (Main { prompt: final(self).prompt, ..*old(self) }),
            final(self).prompt@ == without_newlines(message@),
    {
        let mut out = String::new();
        let n = message.as_str().unicode_len();
        let mut i: usize = 0;
        while i < n
            invariant
                i <= n,
                n == message@.len(),
                out@ == without_newlines(message@.subrange(0, i as int)),
            decreases n - i,
        {
            let c = message.as_str().get_char(i);
            proof {
                assert(message@.subrange(0, i + 1).drop_last() =~= message@.subrange(
                    0,
                    i as int,
                ));
                assert(message@.subrange(0, i + 1).last() == message@[i as int]);
            }
            if c != '\n' {
                let piece = message.as_str().substring_char(i, i + 1);
                out.append(piece);
                proof {
                    assert(piece@ =~= seq![message@[i as int]]);
                    assert(out@ =~= without_newlines(message@.subrange(0, i as int)).push(
                        message@[i as int],
                    ));
                }
            }
            i += 1;
        }
        proof {
            assert(message@.subrange(0, n as int) =~= message@);
        }
        self.prompt = out;
    }

    /// Prepares the session for its loop and says where it stands: a
    /// preselected session is already committed and needs no input at all;
    /// otherwise the cursor enters at the first row of a non-empty list and
    /// the session runs.
    pub fn begin_session(&mut self) -> (st: SessionStatus)
        requires
            old(self).wf(),
        ensures
            final(self).wf(),
            *final(self) == old(self).started(),
            st == old(self).start_status(),
    {
        if self.select.selected.is_some() {
            SessionStatus::Committed
        } else {
            if self.select.current.is_none() && self.select.items.len() > 0 {
                self.select.set_current(0);
            }
            SessionStatus::Running
        }
    }

    /// Applies one dispatched action to the session; the session after the
    /// call and the returned status are exactly [`Main::step_view`] of the
    /// session before it.
    pub fn handle_action(&mut self, a: Action) -> (st: SessionStatus)
        requires
            old(self).wf(),
        ensures
            final(self).wf(),
            *final(self) == old(self).step_view(a).0,
            st == old(self).step_view(a).1,
    {
        match a {
            Action::Quit => SessionStatus::Cancelled,
            Action::MoveUp => {
                self.select.move_up();
                SessionStatus::Running
            }
            Action::MoveDown => {
                self.select.move_down();
                SessionStatus::Running
            }
            Action::Commit => {
                if self.select.current.is_none() {
                    SessionStatus::Cancelled
                } else if self.select.set_selected() {
                    SessionStatus::Committed
                } else {
                    SessionStatus::Running
                }
            }
            Action::PointerHover(i) => {
                if i < self.select.items.len() {
                    self.select.set_current(i);
                }
                SessionStatus::Running
            }
            Action::PointerClick(i) => {
                if i < self.select.items.len() {
                    self.select.set_current(i);
                    if self.select.set_selected() {
                        SessionStatus::Committed
                    } else {
                        SessionStatus::Running
                    }
                } else {
                    SessionStatus::Running
                }
            }
        }
    }

    /// Dispatches one raw event and applies the action it maps to, if any;
    /// an event that maps to no action changes nothing and keeps running.
    pub fn handle_event(&mut self, ev: &RawEvent) -> (st: SessionStatus)
        requires
            old(self).wf(),
        ensures
            final(self).wf(),
            match dispatch_view(
                *ev,
                old(self).quit_cmd,
                old(self).use_mouse,
                old(self).select.items@,
            ) {
                Some(a) => *final(self) == old(self).step_view(a).0 && st == old(
                    self,
                ).step_view(a).1,
                None => *final(self) == *old(self) && st == SessionStatus::Running,
            },
    {
        let a = dispatch_event(ev, self.quit_cmd, self.use_mouse, &self.select.items);
        match a {
            Some(act) => self.handle_action(act),
            None => SessionStatus::Running,
        }
    }

    /// Computes the draw commands of one frame for the session as it
    /// stands; see [`crate::render::frame_view`].
    pub fn render_frame(&self, clear: bool) -> (r: Vec<DrawCommand>)
        requires
            self.select.items.len() < usize::MAX,
        ensures
            r@.map_values(|c: DrawCommand| c@) == frame_view(
                self.select.items@,
                self.select.current,
                self.default_icon@,
                self.selected_icon@,
                self.disabled_icon@,
                self.prompt@,
                clear,
            ),
    {
        render_frame(
            &self.select.items,
            self.select.current,
            &self.default_icon,
            &self.selected_icon,
            &self.disabled_icon,
            &self.prompt,
            clear,
        )
    }

    /// The committed item's payload, or `None` if the session ended without
    /// a selection.
    pub fn get(&self) -> (r: Option<T>) where T: Clone
        requires
            self.wf(),
        ensures
            (r is Some) == (self.select.selected is Some),
            self.select.selected matches Some(i) ==> (r matches Some(v) && cloned::<T>(
                self.select.items[i as int].value,
                v,
            )),
    {
        match self.select.get_selected() {
            Some(it) => Some(it.value.clone()),
            None => None,
        }
    }

    /// The committed item's payload, or the "no item selected" error if the
    /// session ended without a selection.
    pub fn get_value(&self) -> (r: Result<T, &'static str>) where T: Clone
        requires
            self.wf(),
        ensures
            (r is Ok) == (self.select.selected is Some),
            self.select.selected matches Some(i) ==> (r matches Ok(v) && cloned::<T>(
                self.select.items[i as int].value,
                v,
            )),
            self.select.selected is None ==> (r matches Err(m) && m@ == "No item selected"@),
    {
        match self.select.get_selected() {
            Some(it) => Ok(it.value.clone()),
            None => Err("No item selected"),
        }
    }
}

/// One step of a session sets the committed index only when it ends the
/// session as `Committed`: under any other outcome the committed index is
/// exactly what it was before the step.
pub proof fn lemma_step_commits_only_when_committed<T>(m: Main<T>, a: Action)
    ensures
        m.step_view(a).1 != SessionStatus::Committed ==> m.step_view(a).0.select.selected
            == m.select.selected,
{
}

/// Law: the committed index is set at most once — once a step has set it,
/// no later step moves or clears it.
pub proof fn lemma_committed_index_is_stable<T>(m: Main<T>, a: Action)
    requires
        m.select.selected is Some,
    ensures
        m.step_view(a).0.select.selected == m.select.selected,
{
}

/// Law: a session that terminates `Cancelled` holds no committed selection,
/// whatever the item list and whatever action sequence led there. By the
/// contracts of [`Main::get`] and [`Main::get_value`], `get` then returns
/// `None` and `get_value` returns the "no item selected" error.
pub proof fn lemma_cancelled_session_has_no_selection<T>(m: Main<T>, actions: Seq<Action>)
    requires
        m.select.selected is None,
    ensures
        m.session_run(actions).1 == SessionStatus::Cancelled ==> m.session_run(
            actions,
        ).0.select.selected is None,
    decreases actions.len(),
{
    if actions.len() > 0 {
        let stepped = m.step_view(actions[0]);
        lemma_step_commits_only_when_committed(m, actions[0]);
        if stepped.1 == SessionStatus::Running {
            lemma_cancelled_session_has_no_selection(stepped.0, actions.drop_first());
        }
    }
}

} // verus!
