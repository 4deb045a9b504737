use vstd::prelude::*;

verus! {

/// How a write changes the bits of a register or field.
#[derive(Clone, Copy, Debug, PartialEq, Eq, Structural)]
pub enum ModifiedWriteValues {
    /// Written `oneToClear`.
    OneToClear,
    /// Written `oneToSet`.
    OneToSet,
    /// Written `oneToToggle`.
    OneToToggle,
    /// Written `zeroToClear`.
    ZeroToClear,
    /// Written `zeroToSet`.
    ZeroToSet,
    /// Written `zeroToToggle`.
    ZeroToToggle,
    /// Written `clear`.
    Clear,
    /// Written `set`.
    SetBits,
    /// Written `modify`.
    Modify,
}

impl ModifiedWriteValues {
    /// The text that stands for a variant in a document.
    pub open spec fn text(self) -> Seq<char> {
        match self {
            ModifiedWriteValues::OneToClear => "oneToClear"@,
            ModifiedWriteValues::OneToSet => "oneToSet"@,
            ModifiedWriteValues::OneToToggle => "oneToToggle"@,
            ModifiedWriteValues::ZeroToClear => "zeroToClear"@,
            ModifiedWriteValues::ZeroToSet => "zeroToSet"@,
            ModifiedWriteValues::ZeroToToggle => "zeroToToggle"@,
            ModifiedWriteValues::Clear => "clear"@,
            ModifiedWriteValues::SetBits => "set"@,
            ModifiedWriteValues::Modify => "modify"@,
        }
    }

    /// The variant that a text stands for, if any.
    pub open spec fn from_text(s: Seq<char>) -> Option<ModifiedWriteValues> {
        if s == "oneToClear"@ {
            Some(ModifiedWriteValues::OneToClear)
        } else if s == "oneToSet"@ {
            Some(ModifiedWriteValues::OneToSet)
        } else if s == "oneToToggle"@ {
            Some(ModifiedWriteValues::OneToToggle)
        } else if s == "zeroToClear"@ {
            Some(ModifiedWriteValues::ZeroToClear)
        } else if s == "zeroToSet"@ {
            Some(ModifiedWriteValues::ZeroToSet)
        } else if s == "zeroToToggle"@ {
            Some(ModifiedWriteValues::ZeroToToggle)
        } else if s == "clear"@ {
            Some(ModifiedWriteValues::Clear)
        } else if s == "set"@ {
            Some(ModifiedWriteValues::SetBits)
        } else if s == "modify"@ {
            Some(ModifiedWriteValues::Modify)
        } else {
            None
        }
    }

    /// The document text of this variant.
    pub fn as_str(self) -> (res: &'static str)
        ensures
            res@ == self.text(),
    {
        match self {
            ModifiedWriteValues::OneToClear => "oneToClear",
            ModifiedWriteValues::OneToSet => "oneToSet",
            ModifiedWriteValues::OneToToggle => "oneToToggle",
            ModifiedWriteValues::ZeroToClear => "zeroToClear",
            ModifiedWriteValues::ZeroToSet => "zeroToSet",
            ModifiedWriteValues::ZeroToToggle => "zeroToToggle",
            ModifiedWriteValues::Clear => "clear",
            ModifiedWriteValues::SetBits => "set",
            ModifiedWriteValues::Modify => "modify",
        }
    }

    /// Reads a variant from its document text; any other text gives `None`.
    pub fn parse_str(s: &str) -> (res: Option<ModifiedWriteValues>)
        ensures
            res == Self::from_text(s@),
    {
        if crate::text::str_eq(s, "oneToClear") {
            Some(ModifiedWriteValues::OneToClear)
        } else if crate::text::str_eq(s, "oneToSet") {
            Some(ModifiedWriteValues::OneToSet)
        } else if crate::text::str_eq(s, "oneToToggle") {
            Some(ModifiedWriteValues::OneToToggle)
        } else if crate::text::str_eq(s, "zeroToClear") {
            Some(ModifiedWriteValues::ZeroToClear)
        } else if crate::text::str_eq(s, "zeroToSet") {
            Some(ModifiedWriteValues::ZeroToSet)
        } else if crate::text::str_eq(s, "zeroToToggle") {
            Some(ModifiedWriteValues::ZeroToToggle)
        } else if crate::text::str_eq(s, "clear") {
            Some(ModifiedWriteValues::Clear)
        } else if crate::text::str_eq(s, "set") {
            Some(ModifiedWriteValues::SetBits)
        } else if crate::text::str_eq(s, "modify") {
            Some(ModifiedWriteValues::Modify)
        } else {
            None
        }
    }

    /// Reading back the text of a variant gives that variant.
    pub proof fn lemma_text_round_trip(self)
        ensures
            Self::from_text(self.text()) == Some(self),
    {
        reveal_strlit("oneToClear");
        reveal_strlit("oneToSet");
        reveal_strlit("oneToToggle");
        reveal_strlit("zeroToClear");
        reveal_strlit("zeroToSet");
        reveal_strlit("zeroToToggle");
        reveal_strlit("clear");
        reveal_strlit("set");
        reveal_strlit("modify");
        assert("oneToSet"@.len() != "oneToClear"@.len());
        assert("oneToToggle"@.len() != "oneToClear"@.len());
        assert("oneToToggle"@.len() != "oneToSet"@.len());
        assert("zeroToClear"@.len() != "oneToClear"@.len());
        assert("zeroToClear"@.len() != "oneToSet"@.len());
        assert("zeroToClear"@[0] != "oneToToggle"@[0]);
        assert("zeroToSet"@.len() != "oneToClear"@.len());
        assert("zeroToSet"@.len() != "oneToSet"@.len());
        assert("zeroToSet"@.len() != "oneToToggle"@.len());
        assert("zeroToSet"@.len() != "zeroToClear"@.len());
        assert("zeroToToggle"@.len() != "oneToClear"@.len());
        assert("zeroToToggle"@.len() != "oneToSet"@.len());
        assert("zeroToToggle"@.len() != "oneToToggle"@.len());
        assert("zeroToToggle"@.len() != "zeroToClear"@.len());
        assert("zeroToToggle"@.len() != "zeroToSet"@.len());
        assert("clear"@.len() != "oneToClear"@.len());
        assert("clear"@.len() != "oneToSet"@.len());
        assert("clear"@.len() != "oneToToggle"@.len());
        assert("clear"@.len() != "zeroToClear"@.len());
        assert("clear"@.len() != "zeroToSet"@.len());
        assert("clear"@.len() != "zeroToToggle"@.len());
        assert("set"@.len() != "oneToClear"@.len());
        assert("set"@.len() != "oneToSet"@.len());
        assert("set"@.len() != "oneToToggle"@.len());
        assert("set"@.len() != "zeroToClear"@.len());
        assert("set"@.len() != "zeroToSet"@.len());
        assert("set"@.len() != "zeroToToggle"@.len());
        assert("set"@.len() != "clear"@.len());
        assert("modify"@.len() != "oneToClear"@.len());
        assert("modify"@.len() != "oneToSet"@.len());
        assert("modify"@.len() != "oneToToggle"@.len());
        assert("modify"@.len() != "zeroToClear"@.len());
        assert("modify"@.len() != "zeroToSet"@.len());
        assert("modify"@.len() != "zeroToToggle"@.len());
        assert("modify"@.len() != "clear"@.len());
        assert("modify"@.len() != "set"@.len());
    }
}

} // verus!
