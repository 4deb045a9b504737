use vstd::prelude::*;

verus! {

/// The byte order of a processor.
#[derive(Clone, Copy, Debug, PartialEq, Eq, Structural)]
pub enum Endian {
    /// Written `little`.
    Little,
    /// Written `big`.
    Big,
    /// Written `selectable`.
    Selectable,
    /// Written `other`.
    Other,
}

impl Endian {
    /// The text that stands for a variant in a document.
    pub open spec fn text(self) -> Seq<char> {
        match self {
            Endian::Little => "little"@,
            Endian::Big => "big"@,
            Endian::Selectable => "selectable"@,
            Endian::Other => "other"@,
        }
    }

    /// The variant that a text stands for, if any.
    pub open spec fn from_text(s: Seq<char>) -> Option<Endian> {
        if s == "little"@ {
            Some(Endian::Little)
        } else if s == "big"@ {
            Some(Endian::Big)
        } else if s == "selectable"@ {
            Some(Endian::Selectable)
        } else if s == "other"@ {
            Some(Endian::Other)
        } else {
            None
        }
    }

    /// The document text of this variant.
    pub fn as_str(self) -> (res: &'static str)
        ensures
            res@ == self.text(),
    {
        match self {
            Endian::Little => "little",
            Endian::Big => "big",
            Endian::Selectable => "selectable",
            Endian::Other => "other",
        }
    }

    /// Reads a variant from its document text; any other text gives `None`.
    pub fn parse_str(s: &str) -> (res: Option<Endian>)
        ensures
            res == Self::from_text(s@),
    {
        if crate::text::str_eq(s, "little") {
            Some(Endian::Little)
        } else if crate::text::str_eq(s, "big") {
            Some(Endian::Big)
        } else if crate::text::str_eq(s, "selectable") {
            Some(Endian::Selectable)
        } else if crate::text::str_eq(s, "other") {
            Some(Endian::Other)
        } else {
            None
        }
    }

    /// Reading back the text of a variant gives that variant.
    pub proof fn lemma_text_round_trip(self)
        ensures
            Self::from_text(self.text()) == Some(self),
    {
        reveal_strlit("little");
        reveal_strlit("big");
        reveal_strlit("selectable");
        reveal_strlit("other");
        assert("big"@.len() != "little"@.len());
        assert("selectable"@.len() != "little"@.len());
        assert("selectable"@.len() != "big"@.len());
        assert("other"@.len() != "little"@.len());
        assert("other"@.len() != "big"@.len());
        assert("other"@.len() != "selectable"@.len());
    }
}

} // verus!
