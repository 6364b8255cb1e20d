//! Rendering a conversation history and a new utterance into the single
//! linear prompt text submitted to the completion service.

use vstd::prelude::*;
use vstd::string::StringExecFns;
use crate::text::str_eq;
use crate::turn::Turn;
use crate::turn::TurnView;
use crate::turn::spec_role_prefix;
use crate::turn::spec_turn_line;
use crate::turn::spec_valid_turn;

verus! {

/// The views of a sequence of turns.
pub open spec fn spec_turn_views(ts: Seq<Turn>) -> Seq<TurnView> {
    ts.map_values(|t: Turn| t@)
}

/// The lines the turns contribute, one entry per turn; a dropped turn's
/// entry is the empty sequence.
pub open spec fn spec_turn_lines(ts: Seq<TurnView>) -> Seq<Seq<char>> {
    ts.map_values(|t: TurnView| spec_turn_line(t))
}

/// The rendered history: each turn's line, in input order.
pub open spec fn spec_render_history(ts: Seq<TurnView>) -> Seq<char>
    decreases ts.len(),
{
    if ts.len() == 0 {
        Seq::empty()
    } else {
        spec_render_history(ts.drop_last()) + spec_turn_line(ts.last())
    }
}

/// The full rendered prompt: the rendered history, then the new utterance as
/// a final user line, then the cue `Assistant:` with no trailing newline.
pub open spec fn spec_rendered_prompt(prompt: Seq<char>, ts: Seq<TurnView>) -> Seq<char> {
    spec_render_history(ts) + "User: "@ + prompt + "\nAssistant:"@
}

/// Renders the history and the new utterance into the exact prompt text.
pub fn render_prompt(prompt: &str, history: &Vec<Turn>) -> (r: String)
    ensures
        r@ == spec_rendered_prompt(prompt@, spec_turn_views(history@)),
{
    let ghost views = spec_turn_views(history@);
    let mut out: String = String::new();
    let mut i: usize = 0;
    while i < history.len()
        invariant
            i <= history@.len(),
            views == spec_turn_views(history@),
            views.len() == history@.len(),
            out@ == spec_render_history(views.subrange(0, i as int)),
        decreases history@.len() - i,
    {
        let ghost prev = out@;
        let t = &history[i];
        proof {
            assert(views[i as int] == history@[i as int]@);
        }
        match (&t.role, &t.content) {
            (Some(role), Some(content)) => {
                if str_eq(role.as_str(), "user") {
                    out.append("User: ");
                    out.append(content.as_str());
                    out.append("\n");
                    proof {
                        assert(spec_valid_turn(t@));
                        assert(out@ =~= prev + spec_turn_line(t@));
                    }
                } else if str_eq(role.as_str(), "assistant") {
                    out.append("Assistant: ");
                    out.append(content.as_str());
                    out.append("\n");
                    proof {
                        assert(spec_valid_turn(t@));
                        assert(out@ =~= prev + spec_turn_line(t@));
                    }
                } else {
                    proof {
                        assert(!spec_valid_turn(t@));
                        assert(out@ =~= prev + spec_turn_line(t@));
                    }
                }
            }
            _ => {
                proof {
                    assert(!spec_valid_turn(t@));
                    assert(out@ =~= prev + spec_turn_line(t@));
                }
            }
        }
        proof {
            assert(views.subrange(0, i + 1).drop_last() =~= views.subrange(0, i as int));
            assert(views.subrange(0, i + 1).last() == views[i as int]);
        }
        i = i + 1;
    }
    proof {
        assert(views.subrange(0, history@.len() as int) =~= views);
    }
    out.append("User: ");
    out.append(prompt);
    out.append("\nAssistant:");
    proof {
        assert(out@ =~= spec_rendered_prompt(prompt@, views));
    }
    out
}

/// The rendered history is the concatenation of one line per turn, in
/// input order; a dropped turn's line is empty.
pub proof fn lemma_history_is_line_concat(ts: Seq<TurnView>)
    ensures
        spec_turn_lines(ts).len() == ts.len(),
        spec_render_history(ts) == spec_turn_lines(ts).flatten_alt(),
    decreases ts.len(),
{
    if ts.len() == 0 {
        assert(spec_turn_lines(ts) =~= Seq::<Seq<char>>::empty());
    } else {
        lemma_history_is_line_concat(ts.drop_last());
        assert(spec_turn_lines(ts).drop_last() =~= spec_turn_lines(ts.drop_last()));
        assert(spec_turn_lines(ts).last() == spec_turn_line(ts.last()));
    }
}

/// For a history of only valid `user`/`assistant` turns, the rendered
/// prompt contains exactly one line per turn, in input order — each line
/// `"<RoleLabel>: <content>\n"` — followed by the new prompt's user line
/// and the literal cue `Assistant:`, with no newline after the cue.
pub proof fn lemma_rendered_prompt_shape(prompt: Seq<char>, ts: Seq<TurnView>)
    requires
        forall|i: int| 0 <= i < ts.len() ==> spec_valid_turn(#[trigger] ts[i]),
    ensures
        spec_rendered_prompt(prompt, ts) == spec_turn_lines(ts).flatten_alt() + "User: "@
            + prompt + "\nAssistant:"@,
        spec_turn_lines(ts).len() == ts.len(),
        forall|i: int|
            0 <= i < ts.len() ==> #[trigger] spec_turn_lines(ts)[i] == spec_role_prefix(
                ts[i].role->0,
            ) + ts[i].content->0 + "\n"@,
        forall|i: int| 0 <= i < ts.len() ==> (#[trigger] spec_turn_lines(ts)[i]).last() == '\n',
        spec_rendered_prompt(prompt, ts).len() >= "Assistant:"@.len(),
        spec_rendered_prompt(prompt, ts).skip(
            spec_rendered_prompt(prompt, ts).len() - "Assistant:"@.len(),
        ) == "Assistant:"@,
        spec_rendered_prompt(prompt, ts).last() != '\n',
{
    lemma_history_is_line_concat(ts);
    reveal_strlit("\n");
    reveal_strlit("Assistant:");
    reveal_strlit("\nAssistant:");
    let r = spec_rendered_prompt(prompt, ts);
    let cue = "Assistant:"@;
    assert(r.skip(r.len() - cue.len()) =~= cue);
    assert(r.last() == ':');
}

/// Silent filtering: turns missing `role` or `content`, or with an
/// unrecognized role, contribute nothing — the rendered history equals
/// the rendered history of its valid turns alone.
pub proof fn lemma_invalid_turns_dropped(ts: Seq<TurnView>)
    ensures
        spec_render_history(ts) == spec_render_history(
            ts.filter((|t: TurnView| spec_valid_turn(t))),
        ),
    decreases ts.len(),
{
    reveal(Seq::filter);
    let pred = (|t: TurnView| spec_valid_turn(t));
    if ts.len() == 0 {
    } else {
        lemma_invalid_turns_dropped(ts.drop_last());
        if pred(ts.last()) {
            assert(ts.filter(pred) == ts.drop_last().filter(pred).push(ts.last()));
            assert(ts.filter(pred).drop_last() =~= ts.drop_last().filter(pred));
            assert(ts.filter(pred).last() == ts.last());
            assert(ts.filter(pred).len() > 0);
        } else {
            assert(ts.filter(pred) == ts.drop_last().filter(pred));
            assert(spec_turn_line(ts.last()) =~= Seq::<char>::empty());
            assert(spec_render_history(ts) =~= spec_render_history(ts.drop_last()));
        }
    }
}

} // verus!
