use vstd::prelude::*;

verus! {

/// The access rights of a register or field.
#[derive(Clone, Copy, Debug, PartialEq, Eq, Structural)]
pub enum Access {
    /// Written `read-only`.
    ReadOnly,
    /// Written `read-write`.
    ReadWrite,
    /// Written `read-writeOnce`.
    ReadWriteOnce,
    /// Written `writeOnce`.
    WriteOnce,
    /// Written `write-only`.
    WriteOnly,
}

impl Access {
    /// The text that stands for a variant in a document.
    pub open spec fn text(self) -> Seq<char> {
        match self {
            Access::ReadOnly => "read-only"@,
            Access::ReadWrite => "read-write"@,
            Access::ReadWriteOnce => "read-writeOnce"@,
            Access::WriteOnce => "writeOnce"@,
            Access::WriteOnly => "write-only"@,
        }
    }

    /// The variant that a text stands for, if any.
    pub open spec fn from_text(s: Seq<char>) -> Option<Access> {
        if s == "read-only"@ {
            Some(Access::ReadOnly)
        } else if s == "read-write"@ {
            Some(Access::ReadWrite)
        } else if s == "read-writeOnce"@ {
            Some(Access::ReadWriteOnce)
        } else if s == "writeOnce"@ {
            Some(Access::WriteOnce)
        } else if s == "write-only"@ {
            Some(Access::WriteOnly)
        } else {
            None
        }
    }

    /// The document text of this variant.
    pub fn as_str(self) -> (res: &'static str)
        ensures
            res@ == self.text(),
    {
        match self {
            Access::ReadOnly => "read-only",
            Access::ReadWrite => "read-write",
            Access::ReadWriteOnce => "read-writeOnce",
            Access::WriteOnce => "writeOnce",
            Access::WriteOnly => "write-only",
        }
    }

    /// Reads a variant from its document text; any other text gives `None`.
    pub fn parse_str(s: &str) -> (res: Option<Access>)
        ensures
            res == Self::from_text(s@),
    {
        if crate::text::str_eq(s, "read-only") {
            Some(Access::ReadOnly)
        } else if crate::text::str_eq(s, "read-write") {
            Some(Access::ReadWrite)
        } else if crate::text::str_eq(s, "read-writeOnce") {
            Some(Access::ReadWriteOnce)
        } else if crate::text::str_eq(s, "writeOnce") {
            Some(Access::WriteOnce)
        } else if crate::text::str_eq(s, "write-only") {
            Some(Access::WriteOnly)
        } else {
            None
        }
    }

    /// Reading back the text of a variant gives that variant.
    pub proof fn lemma_text_round_trip(self)
        ensures
            Self::from_text(self.text()) == Some(self),
    {
        reveal_strlit("read-only");
        reveal_strlit("read-write");
        reveal_strlit("read-writeOnce");
        reveal_strlit("writeOnce");
        reveal_strlit("write-only");
        assert("read-write"@.len() != "read-only"@.len());
        assert("read-writeOnce"@.len() != "read-only"@.len());
        assert("read-writeOnce"@.len() != "read-write"@.len());
        assert("writeOnce"@[0] != "read-only"@[0]);
        assert("writeOnce"@.len() != "read-write"@.len());
        assert("writeOnce"@.len() != "read-writeOnce"@.len());
        assert("write-only"@.len() != "read-only"@.len());
        assert("write-only"@[0] != "read-write"@[0]);
        assert("write-only"@.len() != "read-writeOnce"@.len());
        assert("write-only"@.len() != "writeOnce"@.len());
    }
}

} // verus!
