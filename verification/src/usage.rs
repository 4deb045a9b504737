use vstd::prelude::*;

verus! {

/// For which kind of access a set of enumerated values is meant.
#[derive(Clone, Copy, Debug, PartialEq, Eq, Structural)]
pub enum Usage {
    /// Written `read`.
    Read,
    /// Written `write`.
    Write,
    /// Written `read-write`.
    ReadWrite,
}

impl Usage {
    /// The text that stands for a variant in a document.
    pub open spec fn text(self) -> Seq<char> {
        match self {
            Usage::Read => "read"@,
            Usage::Write => "write"@,
            Usage::ReadWrite => "read-write"@,
        }
    }

    /// The variant that a text stands for, if any.
    pub open spec fn from_text(s: Seq<char>) -> Option<Usage> {
        if s == "read"@ {
            Some(Usage::Read)
        } else if s == "write"@ {
            Some(Usage::Write)
        } else if s == "read-write"@ {
            Some(Usage::ReadWrite)
        } else {
            None
        }
    }

    /// The document text of this variant.
    pub fn as_str(self) -> (res: &'static str)
        ensures
            res@ == self.text(),
    {
        match self {
            Usage::Read => "read",
            Usage::Write => "write",
            Usage::ReadWrite => "read-write",
        }
    }

    /// Reads a variant from its document text; any other text gives `None`.
    pub fn parse_str(s: &str) -> (res: Option<Usage>)
        ensures
            res == Self::from_text(s@),
    {
        if crate::text::str_eq(s, "read") {
            Some(Usage::Read)
        } else if crate::text::str_eq(s, "write") {
            Some(Usage::Write)
        } else if crate::text::str_eq(s, "read-write") {
            Some(Usage::ReadWrite)
        } else {
            None
        }
    }

    /// Reading back the text of a variant gives that variant.
    pub proof fn lemma_text_round_trip(self)
        ensures
            Self::from_text(self.text()) == Some(self),
    {
        reveal_strlit("read");
        reveal_strlit("write");
        reveal_strlit("read-write");
        assert("write"@.len() != "read"@.len());
        assert("read-write"@.len() != "read"@.len());
        assert("read-write"@.len() != "write"@.len());
    }
}

} // verus!
