use vstd::prelude::*;

verus! {

/// The role that one conversational turn carries on the wire.
#[derive(Clone, Copy, PartialEq, Eq, Structural, Debug)]
pub enum Role {
    User,
    Assistant,
}

/// One role-tagged message of the conversation transcript.
#[derive(Debug)]
pub struct Turn {
    pub role: Role,
    pub content: String,
}

/// The mathematical value of a `Turn`: its role and the characters of its
/// content.
pub ghost struct TurnV {
    pub role: Role,
    pub content: Seq<char>,
}

impl DeepView for Turn {
    type V = TurnV;

    open spec fn deep_view(&self) -> TurnV {
        TurnV { role: self.role, content: self.content@ }
    }
}

impl Turn {
    /// A fresh user turn holding `content`.
    pub fn user(content: &str) -> (t: Turn)
        ensures
            t.deep_view() == (TurnV { role: Role::User, content: content@ }),
    {
        Turn { role: Role::User, content: content.to_owned() }
    }

    /// A fresh assistant turn holding `content`.
    pub fn assistant(content: &str) -> (t: Turn)
        ensures
            t.deep_view() == (TurnV { role: Role::Assistant, content: content@ }),
    {
        Turn { role: Role::Assistant, content: content.to_owned() }
    }
}

} // verus!
