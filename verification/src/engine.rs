//! The keystroke-to-expansion pipeline: buffer update, tail matching,
//! directory lookup, rendering, and the injection plan.

use vstd::prelude::*;

use crate::buffer::{popped_last, pushed_bounded, KeystrokeBuffer, BACKSPACE_CHAR};
use crate::directory::{lookup_spec, SnippetDirectory};
use crate::injector::{expansion_steps_shape, plan_expansion, ExpansionPlan};
use crate::matcher::{has_trailing_token, trailing_token, trailing_token_spec};
use crate::render::{
    calc_pass, cursor_marker, deterministic_body, env_pairs_view, env_pass, get_cursor_position,
    lit_pass_from, render_snippet, render_snippet_with_env, token_free,
};
use crate::text::first_lit;

verus! {

/// The engine's owned state: the bounded keystroke window, the snippet
/// directory it consults, and the environment pairs its renderer resolves
/// `{{env:…}}` tokens from. Shared with the capture callback behind the
/// host's lock.
pub struct EngineState {
    buffer: KeystrokeBuffer,
    directory: SnippetDirectory,
    env: Vec<(String, String)>,
}

impl EngineState {
    pub closed spec fn wf(&self) -> bool {
        self.buffer.well_formed()
    }

    pub closed spec fn buffer_view(&self) -> Seq<char> {
        self.buffer@
    }

    pub closed spec fn directory_view(&self) -> Seq<(Seq<char>, Seq<char>, bool)> {
        self.directory@
    }

    pub closed spec fn env_view(&self) -> Seq<(String, String)> {
        self.env@
    }

    pub fn new(directory: SnippetDirectory, env: Vec<(String, String)>) -> (r: EngineState)
        ensures
            r.wf(),
            r.buffer_view() == Seq::<char>::empty(),
            r.directory_view() == directory@,
            r.env_view() == env@,
    {
        EngineState { buffer: KeystrokeBuffer::new(), directory, env }
    }
}

/// What the buffer window holds after one keystroke.
pub open spec fn buffer_after_key(s: Seq<char>, character: char) -> Seq<char> {
    if character == BACKSPACE_CHAR {
        popped_last(s)
    } else {
        pushed_bounded(s, character)
    }
}

/// Process one typed character: update the window, and on an insertion look
/// for a completed shortcut token at the tail. When the token names an
/// active snippet, the snippet is rendered and the full injection plan comes
/// back for the host to execute; matching is never re-evaluated on a
/// backspace. The returned plan deletes exactly the token's characters and
/// carries the rendered text.
///
/// The matched token's characters stay in the window: the deletion
/// keystrokes the host then sends arrive here as ordinary backspace events
/// and bring the window back in line with the target application.
pub fn on_key_typed(state: &mut EngineState, character: char) -> (r: Option<ExpansionPlan>)
    requires
        old(state).wf(),
    ensures
        final(state).wf(),
        final(state).buffer_view() == buffer_after_key(old(state).buffer_view(), character),
        final(state).directory_view() == old(state).directory_view(),
        final(state).env_view() == old(state).env_view(),
        character == BACKSPACE_CHAR ==> r is None,
        character != BACKSPACE_CHAR ==> {
            let nb = pushed_bounded(old(state).buffer_view(), character);
            let dir = old(state).directory_view();
            &&& (r is Some <==> has_trailing_token(nb) && lookup_spec(
                dir,
                trailing_token_spec(nb),
            ) is Some)
            &&& (r matches Some(plan) ==> {
                let tok = trailing_token_spec(nb);
                let body = lookup_spec(dir, tok).unwrap();
                &&& plan.token@ == tok
                &&& expansion_steps_shape(plan.steps@, tok.len() as int, plan.rendered@)
                &&& (token_free(body) ==> plan.rendered@ == body)
                &&& (deterministic_body(body) ==> plan.rendered@ == env_pass(
                    calc_pass(lit_pass_from(body, cursor_marker(), Seq::empty(), 0)),
                    env_pairs_view(old(state).env_view()),
                ))
                &&& match plan.cursor {
                    Some(c) => first_lit(body, cursor_marker(), 0) == Some(c as int),
                    None => first_lit(body, cursor_marker(), 0) is None,
                }
            })
        },
{
    if character == BACKSPACE_CHAR {
        state.buffer.backspace();
        return None;
    }
    state.buffer.insert(character);
    let token = match trailing_token(state.buffer.contents()) {
        None => {
            return None;
        },
        Some(t) => t,
    };
    let body = match state.directory.lookup(token.as_str()) {
        None => {
            return None;
        },
        Some(b) => b,
    };
    let rendered = render_snippet_with_env(body.as_str(), &state.env);
    let cursor = get_cursor_position(body.as_str());
    Some(plan_expansion(token.as_str(), rendered, cursor))
}

/// Build the plan that replaces a typed shortcut with its rendered body:
/// one deletion per shortcut character, then the clipboard paste cycle. The
/// body is rendered with no environment pairs supplied.
pub fn expand_snippet(shortcut: &str, body: &str) -> (r: ExpansionPlan)
    ensures
        r.token@ == shortcut@,
        expansion_steps_shape(r.steps@, shortcut@.len() as int, r.rendered@),
        token_free(body@) ==> r.rendered@ == body@,
        deterministic_body(body@) ==> r.rendered@ == env_pass(
            calc_pass(lit_pass_from(body@, cursor_marker(), Seq::empty(), 0)),
            env_pairs_view(Seq::empty()),
        ),
        match r.cursor {
            Some(c) => first_lit(body@, cursor_marker(), 0) == Some(c as int),
            None => first_lit(body@, cursor_marker(), 0) is None,
        },
{
    let rendered = render_snippet(body);
    let cursor = get_cursor_position(body);
    plan_expansion(shortcut, rendered, cursor)
}

} // verus!
