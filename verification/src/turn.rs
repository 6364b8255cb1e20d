//! The conversation data model: a single turn and its mathematical view.

use vstd::prelude::*;

verus! {

/// One conversation entry: a speaker role and its text. Either field may be
/// absent, and the role may be unrecognized; such turns contribute nothing to
/// the rendered prompt.
pub struct Turn {
    pub role: Option<String>,
    pub content: Option<String>,
}

/// The mathematical value of a `Turn`: both fields as optional character
/// sequences.
pub ghost struct TurnView {
    pub role: Option<Seq<char>>,
    pub content: Option<Seq<char>>,
}

impl View for Turn {
    type V = TurnView;

    open spec fn view(&self) -> TurnView {
        TurnView {
            role: match self.role {
                Option::Some(s) => Option::Some(s@),
                Option::None => Option::None,
            },
            content: match self.content {
                Option::Some(s) => Option::Some(s@),
                Option::None => Option::None,
            },
        }
    }
}

/// A turn counts for the rendered prompt only when both fields are present
/// and the role is exactly `user` or `assistant`.
pub open spec fn spec_valid_turn(t: TurnView) -> bool {
    &&& t.role is Some
    &&& t.content is Some
    &&& (t.role->0 == "user"@ || t.role->0 == "assistant"@)
}

/// The label-and-separator prefix of a recognized role's line.
pub open spec fn spec_role_prefix(role: Seq<char>) -> Seq<char> {
    if role == "user"@ {
        "User: "@
    } else {
        "Assistant: "@
    }
}

/// The one line a turn contributes to the rendered history:
/// `"<RoleLabel>: <content>\n"`, or nothing at all for a dropped turn.
pub open spec fn spec_turn_line(t: TurnView) -> Seq<char> {
    if spec_valid_turn(t) {
        spec_role_prefix(t.role->0) + t.content->0 + "\n"@
    } else {
        Seq::empty()
    }
}

} // verus!
