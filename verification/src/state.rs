//! Session state: the line editor with its autocomplete data, the mode of
//! the input machine, the credential pair, the bounded history log and the
//! viewer state, together with the operations that keep them consistent.

use vstd::prelude::*;
use crate::catalog::{available_commands, catalog, compute_matches, find_method, matching_methods};
use crate::clock::{current_utc, UtcTime};
use crate::highlight::{break_count, highlighted, rendered_breaks, syntax_highlight};
use crate::keys::KeyCode;
use crate::text::copy_chars;

verus! {

/// The capacity of the history log.
pub const MAX_HISTORY: usize = 100;

/// Which editing context is active. Exactly one is, at any time.
pub enum InputMode {
    /// Awaiting the operator's identifier.
    Normal,
    /// Awaiting the secret; the buffer is rendered masked.
    Password,
    /// Catalog browsing and typing, with autocomplete.
    Command,
    /// Browsing past invocations.
    History,
    /// The sequential parameter wizard for `command`.
    CommandBuilder { command: Vec<char>, current_param: usize, params: Vec<Vec<char>> },
    /// Scrolling, copying or exporting the last response.
    ViewingResponse,
}

impl Default for InputMode {
    fn default() -> (r: Self)
        ensures
            r is Normal,
    {
        InputMode::Normal
    }
}

/// The line editor buffer, cursor, mode and autocomplete match list.
pub struct InputState {
    pub content: Vec<char>,
    pub cursor_position: usize,
    pub mode: InputMode,
    pub completion_index: Option<usize>,
    pub completion_matches: Vec<Vec<char>>,
}

/// The cycle pointer after the match list is recomputed: kept when still in
/// range, reset to the first match otherwise, absent when nothing matches.
pub open spec fn recomputed_index(old_index: Option<usize>, n: nat) -> Option<usize> {
    if n == 0 {
        None
    } else {
        match old_index {
            Some(i) => if i < n {
                Some(i)
            } else {
                Some(0usize)
            },
            None => Some(0usize),
        }
    }
}

/// What a recomputation of the autocomplete data leaves behind, for a given
/// buffer: no matches and no cycle for an empty buffer, else the catalog
/// methods with that prefix and a pointer into them.
pub open spec fn completions_for(
    buffer: Seq<char>,
    old_index: Option<usize>,
    matches: Seq<Seq<char>>,
    index: Option<usize>,
) -> bool {
    if buffer.len() == 0 {
        matches.len() == 0 && index is None
    } else {
        matches == matching_methods(catalog(), buffer) && index == recomputed_index(
            old_index,
            matches.len(),
        )
    }
}

/// The effect of one editing key on the line editor: insertion at the
/// cursor, deletion before it, cursor movement, or nothing for a key the
/// editor does not consume. In command mode an edit also recomputes the
/// autocomplete data.
pub open spec fn editor_step(pre: InputState, post: InputState, key: KeyCode) -> bool {
    match key {
        KeyCode::Char(c) => {
            &&& post.content@ == pre.content@.insert(pre.cursor_position as int, c)
            &&& post.cursor_position == pre.cursor_position + 1
            &&& if pre.mode is Command {
                completions_for(
                    post.content@,
                    pre.completion_index,
                    post.completion_matches.deep_view(),
                    post.completion_index,
                )
            } else {
                post.completion_matches == pre.completion_matches && post.completion_index
                    == pre.completion_index
            }
        },
        KeyCode::Backspace => {
            if pre.cursor_position > 0 {
                &&& post.content@ == pre.content@.remove(pre.cursor_position - 1)
                &&& post.cursor_position == pre.cursor_position - 1
                &&& if pre.mode is Command {
                    completions_for(
                        post.content@,
                        pre.completion_index,
                        post.completion_matches.deep_view(),
                        post.completion_index,
                    )
                } else {
                    post.completion_matches == pre.completion_matches && post.completion_index
                        == pre.completion_index
                }
            } else {
                post == pre
            }
        },
        KeyCode::Left => {
            &&& post.content == pre.content
            &&& post.completion_matches == pre.completion_matches
            &&& post.completion_index == pre.completion_index
            &&& post.cursor_position == (if pre.cursor_position > 0 {
                pre.cursor_position - 1
            } else {
                0int
            })
        },
        KeyCode::Right => {
            &&& post.content == pre.content
            &&& post.completion_matches == pre.completion_matches
            &&& post.completion_index == pre.completion_index
            &&& post.cursor_position == (if pre.cursor_position < pre.content@.len() {
                pre.cursor_position + 1
            } else {
                pre.cursor_position as int
            })
        },
        _ => post == pre,
    }
}

impl InputState {
    /// The cursor always sits inside or at the end of the buffer.
    pub open spec fn inv(self) -> bool {
        self.cursor_position <= self.content@.len()
    }

    /// Recomputes the autocomplete match list from the current buffer.
    /// Outside command mode nothing changes.
    pub fn update_completions(&mut self)
        ensures
            final(self).content == old(self).content,
            final(self).cursor_position == old(self).cursor_position,
            final(self).mode == old(self).mode,
            old(self).mode is Command ==> completions_for(
                old(self).content@,
                old(self).completion_index,
                final(self).completion_matches.deep_view(),
                final(self).completion_index,
            ),
            !(old(self).mode is Command) ==> *final(self) == *old(self),
    {
        match self.mode {
            InputMode::Command => {
                if self.content.len() == 0 {
                    self.completion_matches = Vec::new();
                    self.completion_index = None;
                } else {
                    let cmds = available_commands();
                    let matches = compute_matches(&cmds, &self.content);
                    let n = matches.len();
                    self.completion_matches = matches;
                    self.completion_index = if n == 0 {
                        None
                    } else {
                        match self.completion_index {
                            Some(idx) => if idx < n {
                                Some(idx)
                            } else {
                                Some(0)
                            },
                            None => Some(0),
                        }
                    };
                }
            },
            _ => {},
        }
    }

    /// Applies one editing key to the buffer: insert at the cursor, delete
    /// before it, or move it. Returns whether the key was consumed. In
    /// command mode an edit recomputes the autocomplete data.
    pub fn handle_key(&mut self, key: KeyCode) -> (r: bool)
        requires
            old(self).inv(),
        ensures
            final(self).inv(),
            final(self).mode == old(self).mode,
            editor_step(*old(self), *final(self), key),
            r == (key matches KeyCode::Char(_) || key is Backspace || key is Left
                || key is Right),
    {
        match key {
            KeyCode::Char(c) => {
                let cp = self.cursor_position;
                self.content.insert(cp, c);
                let l = self.content.len();
                assert(cp < l);
                self.cursor_position = cp + 1;
                self.update_completions();
                true
            },
            KeyCode::Backspace => {
                if self.cursor_position > 0 {
                    self.content.remove(self.cursor_position - 1);
                    self.cursor_position = self.cursor_position - 1;
                    self.update_completions();
                }
                true
            },
            KeyCode::Left => {
                if self.cursor_position > 0 {
                    self.cursor_position = self.cursor_position - 1;
                }
                true
            },
            KeyCode::Right => {
                if self.cursor_position < self.content.len() {
                    self.cursor_position = self.cursor_position + 1;
                }
                true
            },
            _ => false,
        }
    }

    /// The buffer with every character replaced by the mask glyph, as the
    /// password mode renders it.
    pub fn masked(&self) -> (r: Vec<char>)
        ensures
            r@.len() == self.content@.len(),
            forall|i: int| 0 <= i < r@.len() ==> r@[i] == '*',
    {
        let mut out: Vec<char> = Vec::new();
        let mut i: usize = 0;
        while i < self.content.len()
            invariant
                i <= self.content@.len(),
                out@.len() == i,
                forall|j: int| 0 <= j < i ==> out@[j] == '*',
            decreases self.content@.len() - i,
        {
            out.push('*');
            i = i + 1;
        }
        out
    }
}

/// One recorded invocation: the method, when it ran, whether it succeeded,
/// the constructed URL and the parameter values that were sent.
#[verifier::ext_equal]
pub struct RequestHistory {
    pub method: Vec<char>,
    pub timestamp: UtcTime,
    pub success: bool,
    pub url: Vec<char>,
    pub params: Vec<Vec<char>>,
}

/// The position of the most recent history entry for `m`, searching from `i`.
pub open spec fn find_history_from(h: Seq<RequestHistory>, m: Seq<char>, i: int) -> Option<int>
    decreases h.len() - i when 0 <= i <= h.len()
{
    if i < 0 || i >= h.len() {
        None
    } else if h[i].method@ == m {
        Some(i)
    } else {
        find_history_from(h, m, i + 1)
    }
}

/// What recording an invocation does to the log: the new entry stands in
/// front, marked not yet successful and stamped with a real time, and the
/// oldest entry leaves once the log would exceed its capacity.
pub open spec fn history_recorded(
    pre: Seq<RequestHistory>,
    post: Seq<RequestHistory>,
    method: Seq<char>,
    url: Seq<char>,
    params: Seq<Seq<char>>,
) -> bool {
    &&& post.len() == (if pre.len() < MAX_HISTORY {
        pre.len() as int + 1
    } else {
        MAX_HISTORY as int
    })
    &&& post[0].method@ == method
    &&& post[0].url@ == url
    &&& post[0].params.deep_view() == params
    &&& post[0].success == false
    &&& post[0].timestamp.wf()
    &&& post.skip(1) == (if pre.len() < MAX_HISTORY {
        pre
    } else {
        pre.drop_last()
    })
}

/// What marking an outcome does to the log: the most recent entry for the
/// method, if one exists, carries the outcome and nothing else moves.
pub open spec fn history_marked(
    pre: Seq<RequestHistory>,
    post: Seq<RequestHistory>,
    method: Seq<char>,
    outcome: bool,
) -> bool {
    match find_history_from(pre, method, 0) {
        Some(k) => {
            &&& post.len() == pre.len()
            &&& post[k].success == outcome
            &&& post[k].method == pre[k].method
            &&& post[k].timestamp == pre[k].timestamp
            &&& post[k].url == pre[k].url
            &&& post[k].params == pre[k].params
            &&& forall|j: int| 0 <= j < pre.len() && j != k ==> post[j] == pre[j]
        },
        None => post == pre,
    }
}

/// The whole session state, owned by the session loop and handed out one
/// event at a time.
pub struct AppState {
    pub input: InputState,
    pub auth_token: Option<Vec<char>>,
    pub refresh_token: Option<Vec<char>>,
    pub output: Option<Vec<char>>,
    pub error: Option<Vec<char>>,
    pub error_time: Option<u64>,
    pub pds_host: Vec<char>,
    pub is_authenticated: bool,
    pub request_history: Vec<RequestHistory>,
    pub quit: bool,
    pub identifier: Option<Vec<char>>,
    pub selected_command_index: Option<usize>,
    pub scroll_offset: u16,
}

impl AppState {
    /// Session-wide consistency: the cursor sits in the buffer, a wizard in
    /// progress points at a real catalog entry and has collected exactly the
    /// values before the current parameter, the credential pair is set or
    /// cleared together, and the history log is within capacity.
    pub open spec fn wf(self) -> bool {
        &&& self.input.inv()
        &&& (self.input.mode matches InputMode::CommandBuilder { command, current_param, params }
            ==> {
            &&& (find_method(catalog(), command@) matches Some(k) && current_param
                < catalog()[k].parameters.len())
            &&& params@.len() == current_param
        })
        &&& (self.auth_token is Some <==> self.refresh_token is Some)
        &&& self.request_history@.len() <= MAX_HISTORY
    }

    /// Whether a message recorded at `t` has expired by `now_ms` (both in
    /// milliseconds): messages last five seconds.
    pub open spec fn message_expired(t: u64, now_ms: u64) -> bool {
        now_ms >= t + 5000
    }

    /// One periodic tick: a transient message older than five seconds is
    /// cleared; nothing else changes.
    pub fn update(&mut self, now_ms: u64)
        ensures
            if (old(self).error_time matches Some(t) && Self::message_expired(t, now_ms)) {
                &&& final(self).error is None
                &&& final(self).error_time is None
                &&& final(self).input == old(self).input
                &&& final(self).auth_token == old(self).auth_token
                &&& final(self).refresh_token == old(self).refresh_token
                &&& final(self).output == old(self).output
                &&& final(self).pds_host == old(self).pds_host
                &&& final(self).is_authenticated == old(self).is_authenticated
                &&& final(self).request_history == old(self).request_history
                &&& final(self).quit == old(self).quit
                &&& final(self).identifier == old(self).identifier
                &&& final(self).selected_command_index == old(self).selected_command_index
                &&& final(self).scroll_offset == old(self).scroll_offset
            } else {
                *final(self) == *old(self)
            },
            old(self).wf() ==> final(self).wf(),
    {
        match self.error_time {
            Some(t) => {
                if now_ms >= t && now_ms - t >= 5000 {
                    self.error = None;
                    self.error_time = None;
                }
            },
            None => {},
        }
    }

    /// Records an invocation at the front of the history log, marked not yet
    /// successful and stamped with the current time; the oldest entry leaves
    /// once the log would exceed its capacity.
    pub fn add_to_history(&mut self, method: &Vec<char>, url: Vec<char>, params: Vec<Vec<char>>)
        requires
            old(self).wf(),
        ensures
            final(self).wf(),
            history_recorded(
                old(self).request_history@,
                final(self).request_history@,
                method@,
                url@,
                params.deep_view(),
            ),
            final(self).input == old(self).input,
            final(self).auth_token == old(self).auth_token,
            final(self).refresh_token == old(self).refresh_token,
            final(self).output == old(self).output,
            final(self).error == old(self).error,
            final(self).error_time == old(self).error_time,
            final(self).pds_host == old(self).pds_host,
            final(self).is_authenticated == old(self).is_authenticated,
            final(self).quit == old(self).quit,
            final(self).identifier == old(self).identifier,
            final(self).selected_command_index == old(self).selected_command_index,
            final(self).scroll_offset == old(self).scroll_offset,
    {
        let timestamp = current_utc();
        let entry = RequestHistory {
            method: copy_chars(method),
            timestamp,
            success: false,
            url,
            params,
        };
        self.request_history.insert(0, entry);
        if self.request_history.len() > MAX_HISTORY {
            let _ = self.request_history.pop();
        }
        proof {
            assert(self.request_history@.skip(1) =~= (
            if old(self).request_history@.len() < MAX_HISTORY {
                old(self).request_history@
            } else {
                old(self).request_history@.drop_last()
            }));
        }
    }

    /// Marks the most recent entry for `method`, if any, with the call's
    /// outcome. Entries are correlated by method name: sound while at most
    /// one request per method is in flight, which the blocking session loop
    /// guarantees.
    pub fn update_history_success(&mut self, method: &Vec<char>, success: bool)
        requires
            old(self).wf(),
        ensures
            final(self).wf(),
            history_marked(
                old(self).request_history@,
                final(self).request_history@,
                method@,
                success,
            ),
            final(self).input == old(self).input,
            final(self).auth_token == old(self).auth_token,
            final(self).refresh_token == old(self).refresh_token,
            final(self).output == old(self).output,
            final(self).error == old(self).error,
            final(self).error_time == old(self).error_time,
            final(self).pds_host == old(self).pds_host,
            final(self).is_authenticated == old(self).is_authenticated,
            final(self).quit == old(self).quit,
            final(self).identifier == old(self).identifier,
            final(self).selected_command_index == old(self).selected_command_index,
            final(self).scroll_offset == old(self).scroll_offset,
    {
        let ghost h0 = self.request_history@;
        let n = self.request_history.len();
        let mut i: usize = 0;
        while i < n
            invariant
                n == h0.len(),
                i <= n,
                old(self).wf(),
                *self == *old(self),
                h0 == old(self).request_history@,
                find_history_from(h0, method@, 0) == find_history_from(h0, method@, i as int),
            decreases n - i,
        {
            if crate::text::eq_chars(&self.request_history[i].method, method) {
                proof {
                    assert(h0[i as int].method@ == method@);
                    assert(find_history_from(h0, method@, i as int) == Some(i as int));
                }
                let mut e = self.request_history.remove(i);
                e.success = success;
                self.request_history.insert(i, e);
                proof {
                    assert(self.request_history@ =~= h0.update(i as int, RequestHistory {
                        success,
                        ..h0[i as int]
                    }));
                }
                return;
            }
            proof {
                assert(h0[i as int].method@ != method@);
            }
            i = i + 1;
        }
        proof {
            assert(find_history_from(h0, method@, 0) is None);
        }
    }
}

/// How far the viewer content exceeds the viewport, never negative.
pub open spec fn max_scroll(content: int, viewport: int) -> int {
    if content > viewport {
        content - viewport
    } else {
        0
    }
}

/// The scroll offset after one scroll operation: line steps move by one,
/// page steps jump by the viewport height, and every move clamps into
/// `[0, max_scroll]`.
pub open spec fn scroll_step(offset: int, direction: int, viewport: int, content: int) -> int {
    let max = max_scroll(content, viewport);
    if direction == 1 {
        if offset + 1 <= max {
            offset + 1
        } else {
            max
        }
    } else if direction == -1 {
        if offset > 0 {
            offset - 1
        } else {
            0
        }
    } else if direction == 10 {
        if offset + viewport <= max {
            offset + viewport
        } else {
            max
        }
    } else if direction == -10 {
        if offset >= viewport {
            offset - viewport
        } else {
            0
        }
    } else {
        offset
    }
}

/// An offset within bounds stays within bounds under every scroll
/// operation, so any sequence of them keeps the offset in
/// `[0, max(0, content - viewport)]`.
pub proof fn lemma_scroll_in_range(offset: int, direction: int, viewport: int, content: int)
    requires
        0 <= viewport,
        0 <= offset <= max_scroll(content, viewport),
    ensures
        0 <= scroll_step(offset, direction, viewport, content) <= max_scroll(content, viewport),
{
}

/// One forward step of the autocomplete cycle.
pub open spec fn advance_index(i: nat, n: nat) -> nat {
    (i + 1) % n
}

/// The cycle position after some number of forward steps from `i`.
pub open spec fn cycle_from(i: nat, steps: nat, n: nat) -> nat
    decreases steps,
{
    if steps == 0 {
        i
    } else {
        advance_index(cycle_from(i, (steps - 1) as nat, n), n)
    }
}

/// Cycling forward `steps` times through `n` matches from the first lands
/// on position `steps % n`.
pub proof fn lemma_cycle_lands(steps: nat, n: nat)
    requires
        n > 0,
    ensures
        cycle_from(0, steps, n) == steps % n,
    decreases steps,
{
    if steps == 0 {
        vstd::arithmetic::div_mod::lemma_small_mod(0nat, n);
    } else {
        let s1 = (steps - 1) as nat;
        lemma_cycle_lands(s1, n);
        assert(cycle_from(0, steps, n) == advance_index(cycle_from(0, s1, n), n));
        assert(advance_index((s1 % n) as nat, n) == ((s1 % n) + 1) % n);
        assert(((s1 % n) + 1) % n == steps % n) by {
            vstd::arithmetic::div_mod::lemma_add_mod_noop(s1 as int, 1int, n as int);
            if n > 1 {
                vstd::arithmetic::div_mod::lemma_small_mod(1nat, n);
            }
        }
    }
}

/// The number of lines the viewer would show: the rendered line count of
/// the output when there is one, one line for a bare error message, and
/// nothing otherwise, capped at the viewer's largest height.
pub open spec fn content_height_of(st: AppState) -> int {
    match st.output {
        Some(o) => {
            let lines = break_count(highlighted(o@)) + 1;
            if lines > 65535 {
                65535
            } else {
                lines as int
            }
        },
        None => if st.error is Some {
            1
        } else {
            0
        },
    }
}

/// Every field but the scroll offset is unchanged.
pub open spec fn only_scroll_changed(pre: AppState, post: AppState) -> bool {
    &&& post.input == pre.input
    &&& post.auth_token == pre.auth_token
    &&& post.refresh_token == pre.refresh_token
    &&& post.output == pre.output
    &&& post.error == pre.error
    &&& post.error_time == pre.error_time
    &&& post.pds_host == pre.pds_host
    &&& post.is_authenticated == pre.is_authenticated
    &&& post.request_history == pre.request_history
    &&& post.quit == pre.quit
    &&& post.identifier == pre.identifier
    &&& post.selected_command_index == pre.selected_command_index
}

impl AppState {
    /// Recomputes the height of the current content, as the viewer shows
    /// it. Nothing is cached: the height always reflects the latest output.
    pub fn get_content_height(&self) -> (h: u16)
        ensures
            h == content_height_of(*self),
    {
        match &self.output {
            Some(o) => {
                let spans = syntax_highlight(o);
                let n = rendered_breaks(&spans);
                if n >= 65535 {
                    65535
                } else {
                    (n + 1) as u16
                }
            },
            None => {
                if self.error.is_some() {
                    1
                } else {
                    0
                }
            },
        }
    }

    /// Applies one scroll operation against the current content and
    /// viewport, clamping into range.
    pub fn update_scroll(&mut self, direction: i16, viewport_height: u16)
        ensures
            only_scroll_changed(*old(self), *final(self)),
            final(self).scroll_offset == scroll_step(
                old(self).scroll_offset as int,
                direction as int,
                viewport_height as int,
                content_height_of(*old(self)),
            ),
            old(self).wf() ==> final(self).wf(),
    {
        let content_height = self.get_content_height();
        let max: u16 = if content_height > viewport_height {
            content_height - viewport_height
        } else {
            0
        };
        if direction == 1 {
            let o = self.scroll_offset;
            self.scroll_offset = if o < max {
                o + 1
            } else {
                max
            };
        } else if direction == -1 {
            let o = self.scroll_offset;
            self.scroll_offset = if o > 0 {
                o - 1
            } else {
                0
            };
        } else if direction == 10 {
            let o = self.scroll_offset;
            self.scroll_offset = if o <= max && max - o >= viewport_height {
                o + viewport_height
            } else {
                max
            };
        } else if direction == -10 {
            let o = self.scroll_offset;
            self.scroll_offset = if o >= viewport_height {
                o - viewport_height
            } else {
                0
            };
        }
    }
}

impl Default for AppState {
    /// The state a session starts in: identifier entry, an empty buffer,
    /// no credentials, the default host, an empty log, the first catalog
    /// entry highlighted.
    fn default() -> (r: Self)
        ensures
            r.wf(),
            r.input.content@.len() == 0,
            r.input.cursor_position == 0,
            r.input.mode is Normal,
            r.input.completion_index is None,
            r.input.completion_matches@.len() == 0,
            r.auth_token is None,
            r.refresh_token is None,
            r.output is None,
            r.error is None,
            r.error_time is None,
            r.pds_host@ == "https://bsky.social"@,
            !r.is_authenticated,
            r.request_history@.len() == 0,
            !r.quit,
            r.identifier is None,
            r.selected_command_index == Some(0usize),
            r.scroll_offset == 0,
    {
        AppState {
            input: InputState {
                content: Vec::new(),
                cursor_position: 0,
                mode: InputMode::Normal,
                completion_index: None,
                completion_matches: Vec::new(),
            },
            auth_token: None,
            refresh_token: None,
            output: None,
            error: None,
            error_time: None,
            pds_host: crate::text::str_to_chars("https://bsky.social"),
            is_authenticated: false,
            request_history: Vec::new(),
            quit: false,
            identifier: None,
            selected_command_index: Some(0),
            scroll_offset: 0,
        }
    }
}

} // verus!
