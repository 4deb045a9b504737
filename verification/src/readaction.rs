use vstd::prelude::*;

verus! {

/// The side effect of reading a register or field.
#[derive(Clone, Copy, Debug, PartialEq, Eq, Structural)]
pub enum ReadAction {
    /// Written `clear`.
    Clear,
    /// Written `set`.
    SetBits,
    /// Written `modify`.
    Modify,
    /// Written `modifyExternal`.
    ModifyExternal,
}

impl ReadAction {
    /// The text that stands for a variant in a document.
    pub open spec fn text(self) -> Seq<char> {
        match self {
            ReadAction::Clear => "clear"@,
            ReadAction::SetBits => "set"@,
            ReadAction::Modify => "modify"@,
            ReadAction::ModifyExternal => "modifyExternal"@,
        }
    }

    /// The variant that a text stands for, if any.
    pub open spec fn from_text(s: Seq<char>) -> Option<ReadAction> {
        if s == "clear"@ {
            Some(ReadAction::Clear)
        } else if s == "set"@ {
            Some(ReadAction::SetBits)
        } else if s == "modify"@ {
            Some(ReadAction::Modify)
        } else if s == "modifyExternal"@ {
            Some(ReadAction::ModifyExternal)
        } else {
            None
        }
    }

    /// The document text of this variant.
    pub fn as_str(self) -> (res: &'static str)
        ensures
            res@ == self.text(),
    {
        match self {
            ReadAction::Clear => "clear",
            ReadAction::SetBits => "set",
            ReadAction::Modify => "modify",
            ReadAction::ModifyExternal => "modifyExternal",
        }
    }

    /// Reads a variant from its document text; any other text gives `None`.
    pub fn parse_str(s: &str) -> (res: Option<ReadAction>)
        ensures
            res == Self::from_text(s@),
    {
        if crate::text::str_eq(s, "clear") {
            Some(ReadAction::Clear)
        } else if crate::text::str_eq(s, "set") {
            Some(ReadAction::SetBits)
        } else if crate::text::str_eq(s, "modify") {
            Some(ReadAction::Modify)
        } else if crate::text::str_eq(s, "modifyExternal") {
            Some(ReadAction::ModifyExternal)
        } else {
            None
        }
    }

    /// Reading back the text of a variant gives that variant.
    pub proof fn lemma_text_round_trip(self)
        ensures
            Self::from_text(self.text()) == Some(self),
    {
        reveal_strlit("clear");
        reveal_strlit("set");
        reveal_strlit("modify");
        reveal_strlit("modifyExternal");
        assert("set"@.len() != "clear"@.len());
        assert("modify"@.len() != "clear"@.len());
        assert("modify"@.len() != "set"@.len());
        assert("modifyExternal"@.len() != "clear"@.len());
        assert("modifyExternal"@.len() != "set"@.len());
        assert("modifyExternal"@.len() != "modify"@.len());
    }
}

} // verus!
