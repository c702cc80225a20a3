//! The request dispatcher: building the target URL from the catalog entry
//! and the collected values, recording the invocation, classifying the
//! transport's answer, and consuming what the authentication collaborator
//! returned.

use vstd::prelude::*;
use crate::catalog::{available_commands, catalog, find_index, find_method, ParamView, XrpcCommand};
use crate::error::AppError;
use crate::json::{json_pretty, json_wellformed, parse_pretty};
use crate::state::{history_marked, history_recorded, AppState, InputMode};
use crate::text::{
    copy_chars, copy_values, dec_seq, is_prefix, push_chars, push_str_chars, push_u16_decimal,
    str_to_chars,
};

verus! {

/// The host with trailing slashes removed.
pub open spec fn trimmed_host(h: Seq<char>) -> Seq<char>
    decreases h.len(),
{
    if h.len() > 0 && h.last() == '/' {
        trimmed_host(h.drop_last())
    } else {
        h
    }
}

/// Whether the value for parameter `i` joins the query string: a value must
/// exist, and an empty value of an optional parameter is left out.
pub open spec fn param_included(ps: Seq<ParamView>, vals: Seq<Seq<char>>, i: int) -> bool {
    i < vals.len() && (vals[i].len() > 0 || !ps[i].optional)
}

/// The query string built from parameter `i` on: included pairs appear as
/// `name=value` in declaration order, the first behind `?`, the rest behind
/// `&`.
pub open spec fn query_from(
    ps: Seq<ParamView>,
    vals: Seq<Seq<char>>,
    i: int,
    first: bool,
) -> Seq<char>
    decreases ps.len() - i when 0 <= i <= ps.len()
{
    if i < 0 || i >= ps.len() {
        Seq::empty()
    } else if param_included(ps, vals, i) {
        (if first {
            "?"@
        } else {
            "&"@
        }) + ps[i].name + "="@ + vals[i] + query_from(ps, vals, i + 1, false)
    } else {
        query_from(ps, vals, i + 1, first)
    }
}

/// The full target URL: the trimmed host, the fixed path prefix, the
/// method, and the query string.
pub open spec fn url_for(
    host: Seq<char>,
    method: Seq<char>,
    ps: Seq<ParamView>,
    vals: Seq<Seq<char>>,
) -> Seq<char> {
    trimmed_host(host) + "/xrpc/"@ + method + query_from(ps, vals, 0, true)
}

/// Copies the host with trailing slashes removed.
pub fn host_trimmed(host: &Vec<char>) -> (r: Vec<char>)
    ensures
        r@ == trimmed_host(host@),
{
    let mut end: usize = host.len();
    proof {
        assert(host@.take(host@.len() as int) =~= host@);
    }
    while end > 0 && host[end - 1] == '/'
        invariant
            end <= host@.len(),
            trimmed_host(host@) == trimmed_host(host@.take(end as int)),
        decreases end,
    {
        proof {
            let cur = host@.take(end as int);
            assert(cur.last() == '/');
            assert(cur.drop_last() =~= host@.take(end - 1));
        }
        end = end - 1;
    }
    let mut out: Vec<char> = Vec::new();
    let mut i: usize = 0;
    while i < end
        invariant
            i <= end <= host@.len(),
            out@ =~= host@.take(end as int).subrange(0, i as int),
        decreases end - i,
    {
        out.push(host[i]);
        assert(out@ =~= host@.take(end as int).subrange(0, i + 1));
        i = i + 1;
    }
    proof {
        assert(out@ =~= host@.take(end as int));
        let cur = host@.take(end as int);
        assert(end == 0 || cur.last() != '/');
        assert(trimmed_host(cur) == cur);
    }
    out
}

/// Builds the target URL for one catalog entry and the collected values.
pub fn build_url(host: &Vec<char>, cmd: &XrpcCommand, params: &Vec<Vec<char>>) -> (r: Vec<char>)
    ensures
        r@ == url_for(host@, cmd.method@, cmd@.parameters, params.deep_view()),
{
    let ghost ps = cmd@.parameters;
    let ghost vals = params.deep_view();
    let mut url = host_trimmed(host);
    push_str_chars(&mut url, "/xrpc/");
    push_str_chars(&mut url, cmd.method);
    let ghost stem = trimmed_host(host@) + "/xrpc/"@ + cmd.method@;
    proof {
        assert(url@ =~= stem);
        assert(url_for(host@, cmd.method@, ps, vals) == stem + query_from(ps, vals, 0, true));
    }
    let mut first = true;
    let mut i: usize = 0;
    while i < cmd.parameters.len()
        invariant
            i <= cmd.parameters@.len(),
            ps == cmd@.parameters,
            vals == params.deep_view(),
            ps.len() == cmd.parameters@.len(),
            vals.len() == params@.len(),
            url_for(host@, cmd.method@, ps, vals) == url@ + query_from(ps, vals, i as int, first),
        decreases cmd.parameters@.len() - i,
    {
        let ghost url0 = url@;
        proof {
            assert(ps[i as int] == cmd.parameters@[i as int]@);
        }
        let mut appended = false;
        if i < params.len() {
            let value = &params[i];
            let optional = cmd.parameters[i].optional;
            if value.len() > 0 || !optional {
                proof {
                    assert(vals[i as int] == params@[i as int]@);
                    assert(param_included(ps, vals, i as int));
                }
                if first {
                    push_str_chars(&mut url, "?");
                } else {
                    push_str_chars(&mut url, "&");
                }
                push_str_chars(&mut url, cmd.parameters[i].name);
                push_str_chars(&mut url, "=");
                push_chars(&mut url, value);
                proof {
                    assert(url@ =~= url0 + ((if first {
                        "?"@
                    } else {
                        "&"@
                    }) + ps[i as int].name + "="@ + vals[i as int]));
                    assert(query_from(ps, vals, i as int, first) == ((if first {
                        "?"@
                    } else {
                        "&"@
                    }) + ps[i as int].name + "="@ + vals[i as int]) + query_from(
                        ps,
                        vals,
                        i + 1,
                        false,
                    ));
                    assert(url@ + query_from(ps, vals, i + 1, false) =~= url0 + query_from(
                        ps,
                        vals,
                        i as int,
                        first,
                    ));
                }
                first = false;
                appended = true;
            }
        }
        if !appended {
            proof {
                assert(!param_included(ps, vals, i as int));
                assert(query_from(ps, vals, i as int, first) == query_from(
                    ps,
                    vals,
                    i + 1,
                    first,
                ));
            }
        }
        i = i + 1;
    }
    proof {
        assert(query_from(ps, vals, ps.len() as int, first) == Seq::<char>::empty());
        assert(url@ + Seq::<char>::empty() =~= url@);
    }
    url
}

/// What the transport collaborator hands back for one issued call: a
/// response with its status and body, or a failure to carry the request at
/// all.
pub enum TransportResult {
    Response { status: u16, body: Vec<char> },
    Failure { message: Vec<char> },
}

/// The statuses the dispatcher counts as success.
pub open spec fn http_success(status: u16) -> bool {
    200 <= status < 300
}

/// The message recorded for a response with a failing status.
pub open spec fn request_failed_msg(status: u16, body: Seq<char>) -> Seq<char> {
    "Request failed ("@ + dec_seq(status as nat) + "): "@ + body
}

/// The message recorded when the transport itself fails.
pub open spec fn transport_failed_msg(m: Seq<char>) -> Seq<char> {
    "Request failed: "@ + m
}

/// What the authentication collaborator hands back: a credential pair, or
/// a classified failure rendered as a message.
pub enum AuthOutcome {
    Granted { access: Vec<char>, refresh: Vec<char> },
    Denied { message: Vec<char> },
}

impl AppState {
    /// The endpoint the authentication collaborator posts the handshake to.
    pub fn auth_endpoint(&self) -> (r: Vec<char>)
        ensures
            r@ == trimmed_host(self.pds_host@) + "/xrpc/com.atproto.server.createSession"@,
    {
        let mut out = host_trimmed(&self.pds_host);
        push_str_chars(&mut out, "/xrpc/com.atproto.server.createSession");
        out
    }

    /// Consumes the authentication outcome: a granted credential pair is
    /// stored whole and the session moves to command mode; a denial is
    /// surfaced as a timestamped message and the session returns to
    /// identifier entry.
    pub fn finish_auth(&mut self, outcome: AuthOutcome, now_ms: u64)
        requires
            old(self).wf(),
        ensures
            final(self).wf(),
            match outcome {
                AuthOutcome::Granted { access, refresh } => {
                    &&& final(self).auth_token matches Some(a) && a@ == access@
                    &&& final(self).refresh_token matches Some(rt) && rt@ == refresh@
                    &&& final(self).is_authenticated
                    &&& final(self).input.mode is Command
                    &&& final(self).error is None
                    &&& final(self).error_time is None
                },
                AuthOutcome::Denied { message } => {
                    &&& final(self).error matches Some(e) && e@ == "Authentication failed: "@
                        + message@
                    &&& final(self).error_time == Some(now_ms)
                    &&& final(self).input.mode is Normal
                    &&& final(self).auth_token == old(self).auth_token
                    &&& final(self).refresh_token == old(self).refresh_token
                    &&& final(self).is_authenticated == old(self).is_authenticated
                },
            },
            final(self).input.content == old(self).input.content,
            final(self).input.cursor_position == old(self).input.cursor_position,
            final(self).input.completion_index == old(self).input.completion_index,
            final(self).input.completion_matches == old(self).input.completion_matches,
            final(self).output == old(self).output,
            final(self).pds_host == old(self).pds_host,
            final(self).request_history == old(self).request_history,
            final(self).quit == old(self).quit,
            final(self).identifier == old(self).identifier,
            final(self).selected_command_index == old(self).selected_command_index,
            final(self).scroll_offset == old(self).scroll_offset,
    {
        match outcome {
            AuthOutcome::Granted { access, refresh } => {
                self.auth_token = Some(access);
                self.refresh_token = Some(refresh);
                self.is_authenticated = true;
                self.error = None;
                self.error_time = None;
                self.input.mode = InputMode::Command;
            },
            AuthOutcome::Denied { message } => {
                let mut msg = str_to_chars("Authentication failed: ");
                push_chars(&mut msg, &message);
                self.error = Some(msg);
                self.error_time = Some(now_ms);
                self.input.mode = InputMode::Normal;
            },
        }
    }

    /// Looks the method up, builds the URL and records the invocation; the
    /// result is the URL to issue. An unknown method aborts the call and is
    /// surfaced as a timestamped message.
    pub fn begin_dispatch(
        &mut self,
        method: &Vec<char>,
        params: &Vec<Vec<char>>,
        now_ms: u64,
    ) -> (r: Option<Vec<char>>)
        requires
            old(self).wf(),
        ensures
            final(self).wf(),
            match find_method(catalog(), method@) {
                Some(k) => {
                    &&& r matches Some(u) && u@ == url_for(
                        old(self).pds_host@,
                        method@,
                        catalog()[k].parameters,
                        params.deep_view(),
                    )
                    &&& history_recorded(
                        old(self).request_history@,
                        final(self).request_history@,
                        method@,
                        url_for(
                            old(self).pds_host@,
                            method@,
                            catalog()[k].parameters,
                            params.deep_view(),
                        ),
                        params.deep_view(),
                    )
                    &&& final(self).error == old(self).error
                    &&& final(self).error_time == old(self).error_time
                },
                None => {
                    &&& r is None
                    &&& final(self).error matches Some(e) && e@
                        == "Request error: Command not found"@
                    &&& final(self).error_time == Some(now_ms)
                    &&& final(self).request_history == old(self).request_history
                },
            },
            final(self).input == old(self).input,
            final(self).auth_token == old(self).auth_token,
            final(self).refresh_token == old(self).refresh_token,
            final(self).output == old(self).output,
            final(self).pds_host == old(self).pds_host,
            final(self).is_authenticated == old(self).is_authenticated,
            final(self).quit == old(self).quit,
            final(self).identifier == old(self).identifier,
            final(self).selected_command_index == old(self).selected_command_index,
            final(self).scroll_offset == old(self).scroll_offset,
    {
        let cmds = available_commands();
        match find_index(&cmds, method) {
            Some(i) => {
                proof {
                    crate::catalog::lemma_find_method(catalog(), method@, 0);
                    assert(i < cmds@.len());
                    assert(cmds@[i as int]@ == catalog()[i as int]);
                }
                let url = build_url(&self.pds_host, &cmds[i], params);
                let url_out = copy_chars(&url);
                self.add_to_history(method, url, copy_values(params));
                Some(url_out)
            },
            None => {
                let err = AppError::Request {
                    src: str_to_chars("executing command"),
                    err_span: (0, 0),
                    msg: str_to_chars("Command not found"),
                };
                let msg = err.message();
                proof {
                    reveal_strlit("Request error: ");
                    reveal_strlit("Command not found");
                    reveal_strlit("Request error: Command not found");
                    assert(msg@ =~= "Request error: Command not found"@);
                }
                self.error = Some(msg);
                self.error_time = Some(now_ms);
                None
            },
        }
    }

    /// Classifies the transport's answer for an issued call: a failing
    /// status or a transport failure is surfaced as a timestamped message
    /// and marks the invocation failed; a success status with a body that
    /// does not parse as JSON likewise; a well-formed body becomes the
    /// session's current output, pretty-printed, the message is cleared,
    /// and the invocation is marked successful.
    pub fn finish_dispatch(&mut self, method: &Vec<char>, resp: TransportResult, now_ms: u64)
        requires
            old(self).wf(),
        ensures
            final(self).wf(),
            match resp {
                TransportResult::Response { status, body } => {
                    if http_success(status) {
                        if json_wellformed(body@) {
                            &&& final(self).output matches Some(o) && o@ == json_pretty(body@)
                            &&& final(self).error is None
                            &&& final(self).error_time == old(self).error_time
                            &&& history_marked(
                                old(self).request_history@,
                                final(self).request_history@,
                                method@,
                                true,
                            )
                        } else {
                            &&& final(self).output == old(self).output
                            &&& final(self).error matches Some(e) && is_prefix(
                                "Failed to parse response: "@,
                                e@,
                            )
                            &&& final(self).error_time == Some(now_ms)
                            &&& history_marked(
                                old(self).request_history@,
                                final(self).request_history@,
                                method@,
                                false,
                            )
                        }
                    } else {
                        &&& final(self).output == old(self).output
                        &&& final(self).error matches Some(e) && e@ == request_failed_msg(
                            status,
                            body@,
                        )
                        &&& final(self).error_time == Some(now_ms)
                        &&& history_marked(
                            old(self).request_history@,
                            final(self).request_history@,
                            method@,
                            false,
                        )
                    }
                },
                TransportResult::Failure { message } => {
                    &&& final(self).output == old(self).output
                    &&& final(self).error matches Some(e) && e@ == transport_failed_msg(message@)
                    &&& final(self).error_time == Some(now_ms)
                    &&& history_marked(
                        old(self).request_history@,
                        final(self).request_history@,
                        method@,
                        false,
                    )
                },
            },
            final(self).input == old(self).input,
            final(self).auth_token == old(self).auth_token,
            final(self).refresh_token == old(self).refresh_token,
            final(self).pds_host == old(self).pds_host,
            final(self).is_authenticated == old(self).is_authenticated,
            final(self).quit == old(self).quit,
            final(self).identifier == old(self).identifier,
            final(self).selected_command_index == old(self).selected_command_index,
            final(self).scroll_offset == old(self).scroll_offset,
    {
        match resp {
            TransportResult::Response { status, body } => {
                if 200 <= status && status < 300 {
                    match parse_pretty(&body) {
                        Ok(pretty) => {
                            self.output = Some(pretty);
                            self.error = None;
                            self.update_history_success(method, true);
                        },
                        Err(emsg) => {
                            let mut msg = str_to_chars("Failed to parse response: ");
                            push_chars(&mut msg, &emsg);
                            proof {
                                assert(msg@.subrange(
                                    0,
                                    "Failed to parse response: "@.len() as int,
                                ) =~= "Failed to parse response: "@);
                            }
                            self.error = Some(msg);
                            self.error_time = Some(now_ms);
                            self.update_history_success(method, false);
                        },
                    }
                } else {
                    let mut msg = str_to_chars("Request failed (");
                    push_u16_decimal(&mut msg, status);
                    push_str_chars(&mut msg, "): ");
                    push_chars(&mut msg, &body);
                    proof {
                        assert(msg@ =~= request_failed_msg(status, body@));
                    }
                    self.error = Some(msg);
                    self.error_time = Some(now_ms);
                    self.update_history_success(method, false);
                }
            },
            TransportResult::Failure { message } => {
                let mut msg = str_to_chars("Request failed: ");
                push_chars(&mut msg, &message);
                self.error = Some(msg);
                self.error_time = Some(now_ms);
                self.update_history_success(method, false);
            },
        }
    }
}

} // verus!
