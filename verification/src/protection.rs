use vstd::prelude::*;

verus! {

/// The security privilege needed to access an address region.
#[derive(Clone, Copy, Debug, PartialEq, Eq, Structural)]
pub enum Protection {
    /// Written `s`.
    Secure,
    /// Written `n`.
    NonSecure,
    /// Written `p`.
    Privileged,
}

impl Protection {
    /// The text that stands for a variant in a document.
    pub open spec fn text(self) -> Seq<char> {
        match self {
            Protection::Secure => "s"@,
            Protection::NonSecure => "n"@,
            Protection::Privileged => "p"@,
        }
    }

    /// The variant that a text stands for, if any.
    pub open spec fn from_text(s: Seq<char>) -> Option<Protection> {
        if s == "s"@ {
            Some(Protection::Secure)
        } else if s == "n"@ {
            Some(Protection::NonSecure)
        } else if s == "p"@ {
            Some(Protection::Privileged)
        } else {
            None
        }
    }

    /// The document text of this variant.
    pub fn as_str(self) -> (res: &'static str)
        ensures
            res@ == self.text(),
    {
        match self {
            Protection::Secure => "s",
            Protection::NonSecure => "n",
            Protection::Privileged => "p",
        }
    }

    /// Reads a variant from its document text; any other text gives `None`.
    pub fn parse_str(s: &str) -> (res: Option<Protection>)
        ensures
            res == Self::from_text(s@),
    {
        if crate::text::str_eq(s, "s") {
            Some(Protection::Secure)
        } else if crate::text::str_eq(s, "n") {
            Some(Protection::NonSecure)
        } else if crate::text::str_eq(s, "p") {
            Some(Protection::Privileged)
        } else {
            None
        }
    }

    /// Reading back the text of a variant gives that variant.
    pub proof fn lemma_text_round_trip(self)
        ensures
            Self::from_text(self.text()) == Some(self),
    {
        reveal_strlit("s");
        reveal_strlit("n");
        reveal_strlit("p");
        assert("n"@[0] != "s"@[0]);
        assert("p"@[0] != "s"@[0]);
        assert("p"@[0] != "n"@[0]);
    }
}

} // verus!
