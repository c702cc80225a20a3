//! The mode state machine: one key event in, one mode-appropriate
//! transition applied, and at most one action handed back for the
//! collaborators (authenticate, dispatch, copy, export) to perform.

use vstd::prelude::*;
use crate::catalog::{available_commands, catalog, find_index, find_method};
use crate::clock::{export_filename_now, filename_chars, UtcTime};
use crate::keys::{is_quit_key, KeyCode, KeyEvent};
use crate::state::{
    advance_index, completions_for, content_height_of, editor_step, max_scroll, scroll_step,
    AppState, InputMode, InputState,
};
use crate::text::{copy_chars, copy_values, str_to_chars};

verus! {

/// What the session loop must perform after a transition: nothing, the
/// authentication handshake, a dispatched call, or handing text to the
/// clipboard or a file.
pub enum Action {
    Idle,
    Authenticate { identifier: Vec<char>, password: Vec<char> },
    Dispatch { method: Vec<char>, params: Vec<Vec<char>> },
    CopyOutput { text: Vec<char> },
    ExportOutput { filename: Vec<char>, text: Vec<char> },
}

/// The session fields no mode transition touches.
pub open spec fn session_unchanged(pre: AppState, post: AppState) -> bool {
    &&& post.auth_token == pre.auth_token
    &&& post.refresh_token == pre.refresh_token
    &&& post.is_authenticated == pre.is_authenticated
    &&& post.error == pre.error
    &&& post.error_time == pre.error_time
    &&& post.pds_host == pre.pds_host
    &&& post.request_history == pre.request_history
    &&& post.quit == pre.quit
}

/// Only the line editor (and its autocomplete data) moved.
pub open spec fn only_editor_changed(pre: AppState, post: AppState) -> bool {
    &&& session_unchanged(pre, post)
    &&& post.output == pre.output
    &&& post.identifier == pre.identifier
    &&& post.selected_command_index == pre.selected_command_index
    &&& post.scroll_offset == pre.scroll_offset
}

/// The whole buffer was consumed: cleared, with the cursor at its start.
pub open spec fn buffer_cleared(post: InputState) -> bool {
    post.content@.len() == 0 && post.cursor_position == 0
}

/// Identifier entry: Enter on a non-empty buffer captures it as the pending
/// identifier and moves to password entry; other keys edit the buffer.
pub open spec fn normal_step(pre: AppState, post: AppState, key: KeyEvent, a: Action) -> bool {
    if key.code is Enter {
        if pre.input.content@.len() > 0 {
            &&& post.identifier matches Some(id) && id@ == pre.input.content@
            &&& buffer_cleared(post.input)
            &&& post.input.mode is Password
            &&& post.input.completion_index == pre.input.completion_index
            &&& post.input.completion_matches == pre.input.completion_matches
            &&& session_unchanged(pre, post)
            &&& post.output == pre.output
            &&& post.selected_command_index == pre.selected_command_index
            &&& post.scroll_offset == pre.scroll_offset
            &&& a is Idle
        } else {
            post == pre && a is Idle
        }
    } else {
        &&& editor_step(pre.input, post.input, key.code)
        &&& post.input.mode == pre.input.mode
        &&& only_editor_changed(pre, post)
        &&& a is Idle
    }
}

/// Password entry: Enter with a pending identifier consumes it and the
/// buffer and asks for the handshake; other keys edit the (masked) buffer.
pub open spec fn password_step(pre: AppState, post: AppState, key: KeyEvent, a: Action) -> bool {
    if key.code is Enter {
        match pre.identifier {
            Some(id) => {
                &&& post.identifier is None
                &&& buffer_cleared(post.input)
                &&& post.input.mode is Password
                &&& post.input.completion_index == pre.input.completion_index
                &&& post.input.completion_matches == pre.input.completion_matches
                &&& session_unchanged(pre, post)
                &&& post.output == pre.output
                &&& post.selected_command_index == pre.selected_command_index
                &&& post.scroll_offset == pre.scroll_offset
                &&& a matches Action::Authenticate { identifier: i2, password: pw } && i2@ == id@
                    && pw@ == pre.input.content@
            },
            None => post == pre && a is Idle,
        }
    } else {
        &&& editor_step(pre.input, post.input, key.code)
        &&& post.input.mode == pre.input.mode
        &&& only_editor_changed(pre, post)
        &&& a is Idle
    }
}

/// The method Enter would select in command mode: the typed text when there
/// is any, else the highlighted catalog entry when the highlight is real.
pub open spec fn chosen_method(pre: AppState) -> Option<Seq<char>> {
    if pre.input.content@.len() > 0 {
        Some(pre.input.content@)
    } else {
        match pre.selected_command_index {
            Some(idx) => if idx < catalog().len() {
                Some(catalog()[idx as int].method)
            } else {
                None
            },
            None => None,
        }
    }
}

/// Command selection: what Enter does in command mode. A chosen method that
/// exists in the catalog clears the buffer and the last output and opens
/// the parameter wizard; a method without parameters dispatches at once.
pub open spec fn command_enter_step(pre: AppState, post: AppState, a: Action) -> bool {
    match chosen_method(pre) {
        Some(m) => match find_method(catalog(), m) {
            Some(k) => {
                &&& buffer_cleared(post.input)
                &&& post.output is None
                &&& post.input.completion_index == pre.input.completion_index
                &&& post.input.completion_matches == pre.input.completion_matches
                &&& session_unchanged(pre, post)
                &&& post.identifier == pre.identifier
                &&& post.selected_command_index == pre.selected_command_index
                &&& post.scroll_offset == pre.scroll_offset
                &&& if catalog()[k].parameters.len() > 0 {
                    &&& (post.input.mode matches InputMode::CommandBuilder {
                        command,
                        current_param,
                        params,
                    } && command@ == catalog()[k].method && current_param == 0
                        && params.deep_view().len() == 0)
                    &&& a is Idle
                } else {
                    &&& post.input.mode is ViewingResponse
                    &&& (a matches Action::Dispatch { method, params } && method@
                        == catalog()[k].method && params.deep_view().len() == 0)
                }
            },
            None => post == pre && a is Idle,
        },
        None => post == pre && a is Idle,
    }
}

/// Catalog browsing: Enter selects, the arrows move the clamped highlight,
/// Tab cycles or recomputes the autocomplete matches, a dedicated key opens
/// the history browser, and anything else edits the buffer and refreshes
/// the matches.
pub open spec fn command_step(pre: AppState, post: AppState, key: KeyEvent, a: Action) -> bool {
    match key.code {
        KeyCode::Enter => command_enter_step(pre, post, a),
        KeyCode::Up => {
            &&& post == AppState {
                selected_command_index: match pre.selected_command_index {
                    Some(idx) => if idx > 0 {
                        Some((idx - 1) as usize)
                    } else {
                        Some(idx)
                    },
                    None => Some((catalog().len() - 1) as usize),
                },
                ..pre
            }
            &&& a is Idle
        },
        KeyCode::Down => {
            &&& post == AppState {
                selected_command_index: match pre.selected_command_index {
                    Some(idx) => if idx + 1 < catalog().len() {
                        Some((idx + 1) as usize)
                    } else {
                        Some(idx)
                    },
                    None => Some(0usize),
                },
                ..pre
            }
            &&& a is Idle
        },
        KeyCode::Tab => {
            &&& a is Idle
            &&& match pre.input.completion_index {
                Some(idx) => if idx < pre.input.completion_matches@.len() {
                    &&& post.input.content@ == pre.input.completion_matches.deep_view()[idx as int]
                    &&& post.input.cursor_position == post.input.content@.len()
                    &&& post.input.completion_matches == pre.input.completion_matches
                    &&& post.input.completion_index == Some(
                        advance_index(idx as nat, pre.input.completion_matches@.len()) as usize,
                    )
                    &&& post.input.mode == pre.input.mode
                    &&& only_editor_changed(pre, post)
                } else {
                    post == pre
                },
                None => if pre.input.content@.len() > 0 {
                    &&& completions_for(
                        pre.input.content@,
                        pre.input.completion_index,
                        post.input.completion_matches.deep_view(),
                        post.input.completion_index,
                    )
                    &&& post.input.content == pre.input.content
                    &&& post.input.cursor_position == pre.input.cursor_position
                    &&& post.input.mode == pre.input.mode
                    &&& only_editor_changed(pre, post)
                } else {
                    post == pre
                },
            }
        },
        KeyCode::Char('h') | KeyCode::Char('H') => {
            &&& post == AppState {
                input: InputState { mode: InputMode::History, ..pre.input },
                selected_command_index: if pre.request_history@.len() > 0 {
                    Some(0usize)
                } else {
                    None
                },
                ..pre
            }
            &&& a is Idle
        },
        _ => {
            &&& a is Idle
            &&& post.input.mode == pre.input.mode
            &&& only_editor_changed(pre, post)
            &&& match key.code {
                KeyCode::Char(c) => {
                    &&& post.input.content@ == pre.input.content@.insert(
                        pre.input.cursor_position as int,
                        c,
                    )
                    &&& post.input.cursor_position == pre.input.cursor_position + 1
                },
                KeyCode::Backspace => {
                    if pre.input.cursor_position > 0 {
                        &&& post.input.content@ == pre.input.content@.remove(
                            pre.input.cursor_position - 1,
                        )
                        &&& post.input.cursor_position == pre.input.cursor_position - 1
                    } else {
                        &&& post.input.content == pre.input.content
                        &&& post.input.cursor_position == pre.input.cursor_position
                    }
                },
                KeyCode::Left => {
                    &&& post.input.content == pre.input.content
                    &&& post.input.cursor_position == (if pre.input.cursor_position > 0 {
                        pre.input.cursor_position - 1
                    } else {
                        0int
                    })
                },
                KeyCode::Right => {
                    &&& post.input.content == pre.input.content
                    &&& post.input.cursor_position == (if pre.input.cursor_position
                        < pre.input.content@.len() {
                        pre.input.cursor_position + 1
                    } else {
                        pre.input.cursor_position as int
                    })
                },
                _ => {
                    &&& post.input.content == pre.input.content
                    &&& post.input.cursor_position == pre.input.cursor_position
                },
            }
            &&& if post.input.content@.len() > 0 {
                completions_for(
                    post.input.content@,
                    pre.input.completion_index,
                    post.input.completion_matches.deep_view(),
                    post.input.completion_index,
                )
            } else if key.code is Backspace && pre.input.cursor_position > 0 {
                post.input.completion_matches@.len() == 0 && post.input.completion_index is None
            } else {
                post.input.completion_matches == pre.input.completion_matches
                    && post.input.completion_index == pre.input.completion_index
            }
        },
    }
}

/// History browsing: Enter replays the selected invocation, Escape returns
/// to the catalog with the highlight reset, and the arrows move the clamped
/// selection.
pub open spec fn history_step(pre: AppState, post: AppState, key: KeyEvent, a: Action) -> bool {
    match key.code {
        KeyCode::Enter => {
            match pre.selected_command_index {
                Some(idx) => if idx < pre.request_history@.len() {
                    &&& post == AppState {
                        input: InputState { mode: InputMode::ViewingResponse, ..pre.input },
                        ..pre
                    }
                    &&& (a matches Action::Dispatch { method, params } && method@
                        == pre.request_history@[idx as int].method@ && params.deep_view()
                        == pre.request_history@[idx as int].params.deep_view())
                } else {
                    post == pre && a is Idle
                },
                None => post == pre && a is Idle,
            }
        },
        KeyCode::Esc => {
            &&& post == AppState {
                input: InputState { mode: InputMode::Command, ..pre.input },
                selected_command_index: Some(0usize),
                ..pre
            }
            &&& a is Idle
        },
        KeyCode::Up => {
            &&& post == AppState {
                selected_command_index: match pre.selected_command_index {
                    Some(idx) => if idx > 0 {
                        Some((idx - 1) as usize)
                    } else {
                        Some(idx)
                    },
                    None => None,
                },
                ..pre
            }
            &&& a is Idle
        },
        KeyCode::Down => {
            &&& post == AppState {
                selected_command_index: match pre.selected_command_index {
                    Some(idx) => if idx + 1 < pre.request_history@.len() {
                        Some((idx + 1) as usize)
                    } else {
                        Some(idx)
                    },
                    None => None,
                },
                ..pre
            }
            &&& a is Idle
        },
        _ => post == pre && a is Idle,
    }
}

/// The value Enter submits for the current wizard parameter: the typed text
/// when there is any, else the parameter's declared default, else empty.
pub open spec fn submitted_value(buffer: Seq<char>, default: Option<Seq<char>>) -> Seq<char> {
    if buffer.len() > 0 {
        buffer
    } else {
        match default {
            Some(d) => d,
            None => Seq::empty(),
        }
    }
}

/// The parameter wizard: Enter submits a value for the current parameter —
/// an empty submission of a required parameter changes nothing — advancing
/// to the next parameter or dispatching after the last; Escape abandons the
/// wizard; other keys edit the buffer.
pub open spec fn builder_step(pre: AppState, post: AppState, key: KeyEvent, a: Action) -> bool {
    pre.input.mode matches InputMode::CommandBuilder { command, current_param, params } ==> {
        let k = find_method(catalog(), command@).unwrap();
        let meta = catalog()[k].parameters[current_param as int];
        match key.code {
            KeyCode::Enter => {
                if pre.input.content@.len() == 0 && !meta.optional {
                    post == pre && a is Idle
                } else {
                    let value = submitted_value(pre.input.content@, meta.default);
                    let collected = params.deep_view().push(value);
                    &&& buffer_cleared(post.input)
                    &&& post.input.completion_index == pre.input.completion_index
                    &&& post.input.completion_matches == pre.input.completion_matches
                    &&& session_unchanged(pre, post)
                    &&& post.output == pre.output
                    &&& post.identifier == pre.identifier
                    &&& post.selected_command_index == pre.selected_command_index
                    &&& post.scroll_offset == pre.scroll_offset
                    &&& if current_param + 1 < catalog()[k].parameters.len() {
                        &&& (post.input.mode matches InputMode::CommandBuilder {
                            command: c2,
                            current_param: cp2,
                            params: p2,
                        } && c2@ == command@ && cp2 == current_param + 1 && p2.deep_view()
                            == collected)
                        &&& a is Idle
                    } else {
                        &&& post.input.mode is ViewingResponse
                        &&& (a matches Action::Dispatch { method, params: sent } && method@
                            == command@ && sent.deep_view() == collected)
                    }
                }
            },
            KeyCode::Esc => {
                &&& buffer_cleared(post.input)
                &&& post.input.mode is Command
                &&& post.input.completion_index == pre.input.completion_index
                &&& post.input.completion_matches == pre.input.completion_matches
                &&& session_unchanged(pre, post)
                &&& post.output == pre.output
                &&& post.identifier == pre.identifier
                &&& post.selected_command_index == pre.selected_command_index
                &&& post.scroll_offset == pre.scroll_offset
                &&& a is Idle
            },
            _ => {
                &&& editor_step(pre.input, post.input, key.code)
                &&& post.input.mode == pre.input.mode
                &&& only_editor_changed(pre, post)
                &&& a is Idle
            },
        }
    }
}

/// Response viewing: Enter returns to the catalog with the buffer and
/// scroll reset, the directional keys scroll against the current content,
/// and the copy and export keys hand the output text out.
pub open spec fn viewing_step(
    pre: AppState,
    post: AppState,
    key: KeyEvent,
    a: Action,
    viewport: u16,
) -> bool {
    match key.code {
        KeyCode::Enter => {
            &&& post == AppState {
                input: InputState {
                    mode: InputMode::Command,
                    content: post.input.content,
                    cursor_position: 0,
                    ..pre.input
                },
                scroll_offset: 0,
                ..pre
            }
            &&& post.input.content@.len() == 0
            &&& a is Idle
        },
        KeyCode::Up => scrolled(pre, post, -1, viewport) && a is Idle,
        KeyCode::Down => scrolled(pre, post, 1, viewport) && a is Idle,
        KeyCode::PageUp => scrolled(pre, post, -10, viewport) && a is Idle,
        KeyCode::PageDown => scrolled(pre, post, 10, viewport) && a is Idle,
        KeyCode::Home => post == AppState { scroll_offset: 0, ..pre } && a is Idle,
        KeyCode::End => {
            &&& post == AppState { scroll_offset: post.scroll_offset, ..pre }
            &&& post.scroll_offset == max_scroll(content_height_of(pre), viewport as int)
            &&& a is Idle
        },
        KeyCode::Char('c') => {
            &&& post == pre
            &&& match pre.output {
                Some(o) => a matches Action::CopyOutput { text } && text@ == o@,
                None => a is Idle,
            }
        },
        KeyCode::Char('e') => {
            &&& post == pre
            &&& match pre.output {
                Some(o) => a matches Action::ExportOutput { filename, text } && text@ == o@
                    && exists|t: UtcTime| t.wf() && filename@ == filename_chars(t),
                None => a is Idle,
            }
        },
        _ => post == pre && a is Idle,
    }
}

/// The state moved only by one scroll operation.
pub open spec fn scrolled(pre: AppState, post: AppState, direction: int, viewport: u16) -> bool {
    &&& post == AppState { scroll_offset: post.scroll_offset, ..pre }
    &&& post.scroll_offset == scroll_step(
        pre.scroll_offset as int,
        direction,
        viewport as int,
        content_height_of(pre),
    )
}

impl AppState {
    /// Routes one key event to the active mode. The quit chord sets the
    /// quit flag whatever the mode and buffer hold; every other key applies
    /// exactly one mode-appropriate transition and yields the action the
    /// session loop must perform.
    pub fn handle_input(&mut self, key: KeyEvent, viewport_height: u16) -> (a: Action)
        requires
            old(self).wf(),
        ensures
            final(self).wf(),
            is_quit_key(key) ==> (*final(self) == (AppState { quit: true, ..*old(self) }) && (a
                is Idle)),
            !is_quit_key(key) ==> (match old(self).input.mode {
                InputMode::Normal => normal_step(*old(self), *final(self), key, a),
                InputMode::Password => password_step(*old(self), *final(self), key, a),
                InputMode::Command => command_step(*old(self), *final(self), key, a),
                InputMode::History => history_step(*old(self), *final(self), key, a),
                InputMode::CommandBuilder { .. } => builder_step(*old(self), *final(self), key, a),
                InputMode::ViewingResponse => viewing_step(
                    *old(self),
                    *final(self),
                    key,
                    a,
                    viewport_height,
                ),
            }),
    {
        let quit = key.ctrl && (match key.code {
            KeyCode::Char(c) => c == 'c',
            _ => false,
        });
        if quit {
            self.quit = true;
            return Action::Idle;
        }
        match self.input.mode {
            InputMode::Normal => self.handle_normal(key),
            InputMode::Password => self.handle_password(key),
            InputMode::Command => self.handle_command(key),
            InputMode::History => self.handle_history(key),
            InputMode::CommandBuilder { .. } => self.handle_builder(key),
            InputMode::ViewingResponse => self.handle_viewing(key, viewport_height),
        }
    }

    /// Identifier entry.
    fn handle_normal(&mut self, key: KeyEvent) -> (a: Action)
        requires
            old(self).wf(),
            old(self).input.mode is Normal,
        ensures
            final(self).wf(),
            normal_step(*old(self), *final(self), key, a),
    {
        match key.code {
            KeyCode::Enter => {
                if self.input.content.len() > 0 {
                    let id = copy_chars(&self.input.content);
                    self.input.content.clear();
                    self.input.cursor_position = 0;
                    self.input.mode = InputMode::Password;
                    self.identifier = Some(id);
                }
                Action::Idle
            },
            _ => {
                let _ = self.input.handle_key(key.code);
                Action::Idle
            },
        }
    }

    /// Password entry.
    fn handle_password(&mut self, key: KeyEvent) -> (a: Action)
        requires
            old(self).wf(),
            old(self).input.mode is Password,
        ensures
            final(self).wf(),
            password_step(*old(self), *final(self), key, a),
    {
        match key.code {
            KeyCode::Enter => {
                let id = self.identifier.take();
                match id {
                    Some(identifier) => {
                        let password = copy_chars(&self.input.content);
                        self.input.content.clear();
                        self.input.cursor_position = 0;
                        Action::Authenticate { identifier, password }
                    },
                    None => Action::Idle,
                }
            },
            _ => {
                let _ = self.input.handle_key(key.code);
                Action::Idle
            },
        }
    }

    /// Catalog browsing and typing.
    fn handle_command(&mut self, key: KeyEvent) -> (a: Action)
        requires
            old(self).wf(),
            old(self).input.mode is Command,
        ensures
            final(self).wf(),
            command_step(*old(self), *final(self), key, a),
    {
        match key.code {
            KeyCode::Enter => {
                let cmds = available_commands();
                let chosen: Option<Vec<char>> = if self.input.content.len() > 0 {
                    Some(copy_chars(&self.input.content))
                } else {
                    match self.selected_command_index {
                        Some(idx) => if idx < cmds.len() {
                            proof {
                                assert(cmds@[idx as int]@ == catalog()[idx as int]);
                            }
                            Some(str_to_chars(cmds[idx].method))
                        } else {
                            None
                        },
                        None => None,
                    }
                };
                match chosen {
                    Some(m) => {
                        match find_index(&cmds, &m) {
                            Some(k) => {
                                proof {
                                    crate::catalog::lemma_find_method(catalog(), m@, 0);
                                    assert(cmds@[k as int]@ == catalog()[k as int]);
                                }
                                self.input.content.clear();
                                self.input.cursor_position = 0;
                                self.output = None;
                                let command = str_to_chars(cmds[k].method);
                                if cmds[k].parameters.len() > 0 {
                                    proof {
                                        assert(catalog()[k as int].parameters.len() > 0);
                                        assert(find_method(catalog(), command@) == Some(k as int));
                                    }
                                    self.input.mode = InputMode::CommandBuilder {
                                        command,
                                        current_param: 0,
                                        params: Vec::new(),
                                    };
                                    Action::Idle
                                } else {
                                    self.input.mode = InputMode::ViewingResponse;
                                    Action::Dispatch { method: command, params: Vec::new() }
                                }
                            },
                            None => Action::Idle,
                        }
                    },
                    None => Action::Idle,
                }
            },
            KeyCode::Up => {
                match self.selected_command_index {
                    Some(idx) => {
                        if idx > 0 {
                            self.selected_command_index = Some(idx - 1);
                        }
                    },
                    None => {
                        let cmds = available_commands();
                        self.selected_command_index = Some(cmds.len() - 1);
                    },
                }
                Action::Idle
            },
            KeyCode::Down => {
                let cmds = available_commands();
                match self.selected_command_index {
                    Some(idx) => {
                        let n = cmds.len();
                        if n > 0 && idx < n - 1 {
                            self.selected_command_index = Some(idx + 1);
                        }
                    },
                    None => {
                        self.selected_command_index = Some(0);
                    },
                }
                Action::Idle
            },
            KeyCode::Tab => {
                match self.input.completion_index {
                    Some(idx) => {
                        if idx < self.input.completion_matches.len() {
                            proof {
                                assert(self.input.completion_matches.deep_view()[idx as int]
                                    == self.input.completion_matches@[idx as int]@);
                            }
                            let m = copy_chars(&self.input.completion_matches[idx]);
                            let l = m.len();
                            let n = self.input.completion_matches.len();
                            self.input.content = m;
                            self.input.cursor_position = l;
                            self.input.completion_index = Some((idx + 1) % n);
                        }
                    },
                    None => {
                        if self.input.content.len() > 0 {
                            self.input.update_completions();
                        }
                    },
                }
                Action::Idle
            },
            KeyCode::Char('h') | KeyCode::Char('H') => {
                self.input.mode = InputMode::History;
                self.selected_command_index = if self.request_history.len() > 0 {
                    Some(0)
                } else {
                    None
                };
                Action::Idle
            },
            _ => {
                let _ = self.input.handle_key(key.code);
                if self.input.content.len() > 0 {
                    self.input.update_completions();
                }
                Action::Idle
            },
        }
    }

    /// History browsing.
    fn handle_history(&mut self, key: KeyEvent) -> (a: Action)
        requires
            old(self).wf(),
            old(self).input.mode is History,
        ensures
            final(self).wf(),
            history_step(*old(self), *final(self), key, a),
    {
        match key.code {
            KeyCode::Enter => {
                match self.selected_command_index {
                    Some(idx) => {
                        if idx < self.request_history.len() {
                            let method = copy_chars(&self.request_history[idx].method);
                            let params = copy_values(&self.request_history[idx].params);
                            self.input.mode = InputMode::ViewingResponse;
                            Action::Dispatch { method, params }
                        } else {
                            Action::Idle
                        }
                    },
                    None => Action::Idle,
                }
            },
            KeyCode::Esc => {
                self.input.mode = InputMode::Command;
                self.selected_command_index = Some(0);
                Action::Idle
            },
            KeyCode::Up => {
                match self.selected_command_index {
                    Some(idx) => {
                        if idx > 0 {
                            self.selected_command_index = Some(idx - 1);
                        }
                    },
                    None => {},
                }
                Action::Idle
            },
            KeyCode::Down => {
                match self.selected_command_index {
                    Some(idx) => {
                        let n = self.request_history.len();
                        if n > 0 && idx < n - 1 {
                            self.selected_command_index = Some(idx + 1);
                        }
                    },
                    None => {},
                }
                Action::Idle
            },
            _ => Action::Idle,
        }
    }

    /// The parameter wizard.
    fn handle_builder(&mut self, key: KeyEvent) -> (a: Action)
        requires
            old(self).wf(),
            old(self).input.mode matches InputMode::CommandBuilder { .. },
        ensures
            final(self).wf(),
            builder_step(*old(self), *final(self), key, a),
    {
        match key.code {
            KeyCode::Enter => {
                let (command, current_param, params) = match &self.input.mode {
                    InputMode::CommandBuilder { command, current_param, params } => (
                        copy_chars(command),
                        *current_param,
                        copy_values(params),
                    ),
                    _ => {
                        proof {
                            assert(false);
                        }
                        (Vec::new(), 0, Vec::new())
                    },
                };
                let cmds = available_commands();
                let found = find_index(&cmds, &command);
                let k = match found {
                    Some(k) => k,
                    _ => {
                        proof {
                            assert(false);
                        }
                        0
                    },
                };
                let ghost k_int = k as int;
                let ghost meta = catalog()[k_int].parameters[current_param as int];
                proof {
                    crate::catalog::lemma_find_method(catalog(), command@, 0);
                    assert(cmds@[k_int]@ == catalog()[k_int]);
                    assert(current_param < catalog()[k_int].parameters.len());
                    assert(cmds@[k_int].parameters@.map_values(|p: crate::catalog::Parameter| p@)
                        == catalog()[k_int].parameters);
                    assert(cmds@[k_int].parameters@[current_param as int]@ == meta);
                }
                let optional = cmds[k].parameters[current_param].optional;
                proof {
                    assert(optional == meta.optional);
                }
                if self.input.content.len() == 0 && !optional {
                    return Action::Idle;
                }
                let value: Vec<char> = if self.input.content.len() > 0 {
                    copy_chars(&self.input.content)
                } else {
                    match cmds[k].parameters[current_param].default {
                        Some(d) => str_to_chars(d),
                        None => Vec::new(),
                    }
                };
                proof {
                    assert(value@ == submitted_value(self.input.content@, meta.default));
                }
                let mut collected = params;
                let ghost collected0 = collected.deep_view();
                collected.push(value);
                proof {
                    assert(collected.deep_view() =~~= collected0.push(value@));
                    assert(collected0.len() == collected@.len() - 1);
                }
                self.input.content.clear();
                self.input.cursor_position = 0;
                if current_param + 1 < cmds[k].parameters.len() {
                    proof {
                        assert(find_method(catalog(), command@) == Some(k_int));
                    }
                    self.input.mode = InputMode::CommandBuilder {
                        command,
                        current_param: current_param + 1,
                        params: collected,
                    };
                    Action::Idle
                } else {
                    self.input.mode = InputMode::ViewingResponse;
                    Action::Dispatch { method: command, params: collected }
                }
            },
            KeyCode::Esc => {
                self.input.content.clear();
                self.input.cursor_position = 0;
                self.input.mode = InputMode::Command;
                Action::Idle
            },
            _ => {
                let _ = self.input.handle_key(key.code);
                Action::Idle
            },
        }
    }

    /// Response viewing.
    fn handle_viewing(&mut self, key: KeyEvent, viewport_height: u16) -> (a: Action)
        requires
            old(self).wf(),
            old(self).input.mode is ViewingResponse,
        ensures
            final(self).wf(),
            viewing_step(*old(self), *final(self), key, a, viewport_height),
    {
        match key.code {
            KeyCode::Enter => {
                self.input.mode = InputMode::Command;
                self.input.content.clear();
                self.input.cursor_position = 0;
                self.scroll_offset = 0;
                Action::Idle
            },
            KeyCode::Up => {
                self.update_scroll(-1, viewport_height);
                Action::Idle
            },
            KeyCode::Down => {
                self.update_scroll(1, viewport_height);
                Action::Idle
            },
            KeyCode::PageUp => {
                self.update_scroll(-10, viewport_height);
                Action::Idle
            },
            KeyCode::PageDown => {
                self.update_scroll(10, viewport_height);
                Action::Idle
            },
            KeyCode::Home => {
                self.scroll_offset = 0;
                Action::Idle
            },
            KeyCode::End => {
                let content_height = self.get_content_height();
                self.scroll_offset = if content_height > viewport_height {
                    content_height - viewport_height
                } else {
                    0
                };
                Action::Idle
            },
            KeyCode::Char(c) => {
                if c == 'c' {
                    match &self.output {
                        Some(o) => Action::CopyOutput { text: copy_chars(o) },
                        None => Action::Idle,
                    }
                } else if c == 'e' {
                    match &self.output {
                        Some(o) => {
                            let text = copy_chars(o);
                            let filename = export_filename_now();
                            Action::ExportOutput { filename, text }
                        },
                        None => Action::Idle,
                    }
                } else {
                    Action::Idle
                }
            },
            _ => Action::Idle,
        }
    }

    /// Surfaces a collaborator's outcome (a clipboard or export message) as
    /// the session's transient message.
    pub fn set_transient_message(&mut self, message: Vec<char>, now_ms: u64)
        requires
            old(self).wf(),
        ensures
            final(self).wf(),
            final(self).error matches Some(e) && e@ == message@,
            final(self).error_time == Some(now_ms),
            final(self).input == old(self).input,
            final(self).auth_token == old(self).auth_token,
            final(self).refresh_token == old(self).refresh_token,
            final(self).output == old(self).output,
            final(self).pds_host == old(self).pds_host,
            final(self).is_authenticated == old(self).is_authenticated,
            final(self).request_history == old(self).request_history,
            final(self).quit == old(self).quit,
            final(self).identifier == old(self).identifier,
            final(self).selected_command_index == old(self).selected_command_index,
            final(self).scroll_offset == old(self).scroll_offset,
    {
        self.error = Some(message);
        self.error_time = Some(now_ms);
    }
}

} // verus!
