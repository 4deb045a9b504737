use vstd::prelude::*;
use vstd::string::*;
use crate::number::{number32_of, number64_of, parse_u32, parse_u64};
use crate::parse::error::{SVDError, SVDErrorAt};
use crate::tree::{none_named, opt_leaf, trees, Element, Tree};

verus! {

/// The text of the first child with the tag, where there is such a child
/// and it holds text.
pub open spec fn child_text(e: Element, tag: Seq<char>) -> Option<String> {
    match e.child(tag) {
        Some(c) => c.text,
        None => None,
    }
}

/// Whether the first child with the tag, if there is one, holds text.
pub open spec fn text_ok(e: Element, tag: Seq<char>) -> bool {
    e.child(tag) matches Some(c) ==> c.text is Some
}

/// The 32-bit number in the first child with the tag.
pub open spec fn child_u32(e: Element, tag: Seq<char>) -> Option<u32> {
    match child_text(e, tag) {
        Some(t) => number32_of(t@),
        None => None,
    }
}

/// The 64-bit number in the first child with the tag.
pub open spec fn child_u64(e: Element, tag: Seq<char>) -> Option<u64> {
    match child_text(e, tag) {
        Some(t) => number64_of(t@),
        None => None,
    }
}

/// Whether the first child with the tag, if there is one, holds a 32-bit
/// number.
pub open spec fn u32_ok(e: Element, tag: Seq<char>) -> bool {
    e.child(tag) is Some ==> child_u32(e, tag) is Some
}

/// Whether the first child with the tag, if there is one, holds a 64-bit
/// number.
pub open spec fn u64_ok(e: Element, tag: Seq<char>) -> bool {
    e.child(tag) is Some ==> child_u64(e, tag) is Some
}

/// The truth value that a text stands for.
pub open spec fn bool_of(s: Seq<char>) -> Option<bool> {
    if s == "true"@ || s == "1"@ {
        Some(true)
    } else if s == "false"@ || s == "0"@ {
        Some(false)
    } else {
        None
    }
}

/// The truth value in the first child with the tag.
pub open spec fn child_bool(e: Element, tag: Seq<char>) -> Option<bool> {
    match child_text(e, tag) {
        Some(t) => bool_of(t@),
        None => None,
    }
}

/// Whether the first child with the tag, if there is one, holds a truth
/// value.
pub open spec fn bool_ok(e: Element, tag: Seq<char>) -> bool {
    e.child(tag) is Some ==> child_bool(e, tag) is Some
}

/// Among children whose contents are `a`, then at most one text element
/// with the tag, then `b`, where nothing in `a` and `b` has the tag, the
/// child with the tag is that text element.
pub proof fn lemma_child_lookup(
    e: Element,
    a: Seq<Tree>,
    tag: Seq<char>,
    text: Option<Seq<char>>,
    b: Seq<Tree>,
)
    requires
        trees(e.children@) =~= a + opt_leaf(tag, text) + b,
        none_named(a, tag),
        none_named(b, tag),
    ensures
        e.child(tag) is Some <==> text is Some,
        text is Some ==> child_text(e, tag) is Some && child_text(e, tag)->0@ == text->0,
{
    crate::tree::lemma_lookup(e.children@, a, tag, text, b);
}

/// The elements of `s` that have the tag, in order.
pub open spec fn with_tag(s: Seq<Element>, tag: Seq<char>) -> Seq<Element>
    decreases s.len(),
{
    if s.len() == 0 {
        Seq::empty()
    } else if s.last().name@ == tag {
        with_tag(s.drop_last(), tag).push(s.last())
    } else {
        with_tag(s.drop_last(), tag)
    }
}

/// The elements that a sequence of references points to.
pub open spec fn pointed(s: Seq<&Element>) -> Seq<Element> {
    Seq::new(s.len(), |i: int| *s[i])
}

impl Element {
    /// The children with the tag, in order.
    pub fn children_with_tag(&self, tag: &str) -> (res: Vec<&Element>)
        ensures
            pointed(res@) == with_tag(self.children@, tag@),
    {
        let mut out: Vec<&Element> = Vec::new();
        let n: usize = self.children.len();
        let mut i: usize = 0;
        assert(self.children@.subrange(0, 0) =~= Seq::<Element>::empty());
        assert(pointed(out@) =~= Seq::<Element>::empty());
        while i < n
            invariant
                n == self.children@.len(),
                i <= n,
                pointed(out@) == with_tag(self.children@.subrange(0, i as int), tag@),
            decreases n - i,
        {
            let ghost before = self.children@.subrange(0, i as int);
            let ghost after = self.children@.subrange(0, i + 1);
            let ghost done = pointed(out@);
            assert(after.drop_last() =~= before);
            if self.children[i].has_tag_name(tag) {
                out.push(&self.children[i]);
                assert(pointed(out@) =~= done.push(self.children@[i as int]));
            }
            i += 1;
        }
        assert(self.children@.subrange(0, n as int) =~= self.children@);
        out
    }

    /// The text of the element; an element without text is an error.
    pub fn get_text(&self) -> (res: Result<&String, SVDErrorAt>)
        ensures
            self.text is Some ==> res == Ok::<&String, SVDErrorAt>(&self.text->0),
            self.text is None ==> res is Err && res->Err_0.is_empty_tag(self.name@, self.id),
    {
        match &self.text {
            Some(t) => Ok(t),
            None => Err(SVDError::EmptyTag(self.name.clone()).at(self.id)),
        }
    }

    /// The text of the first child with the tag, `None` where there is no
    /// such child; a child without text is an error.
    pub fn get_child_text_opt(&self, tag: &str) -> (res: Result<Option<String>, SVDErrorAt>)
        ensures
            res is Ok <==> text_ok(*self, tag@),
            res is Ok ==> res->Ok_0 == child_text(*self, tag@),
            res is Err ==> res->Err_0.is_empty_tag(tag@, self.child(tag@)->0.id),
    {
        match self.get_child(tag) {
            None => Ok(None),
            Some(c) => match c.get_text() {
                Ok(t) => Ok(Some(t.clone())),
                Err(e) => Err(e),
            },
        }
    }

    /// The text of the first child with the tag; a missing child is an
    /// error, and so is one without text.
    pub fn get_child_text(&self, tag: &str) -> (res: Result<String, SVDErrorAt>)
        ensures
            res is Ok <==> child_text(*self, tag@) is Some,
            res is Ok ==> Some(res->Ok_0) == child_text(*self, tag@),
            self.child(tag@) is None ==> res is Err && res->Err_0.is_missing_tag(tag@, self.id),
            self.child(tag@) is Some && res is Err ==> res->Err_0.is_empty_tag(
                tag@,
                self.child(tag@)->0.id,
            ),
    {
        match self.get_child_text_opt(tag)? {
            Some(t) => Ok(t),
            None => Err(SVDError::MissingTag(tag.to_owned()).at(self.id)),
        }
    }

    /// The 32-bit number in the first child with the tag, `None` where
    /// there is no such child.
    pub fn get_child_u32_opt(&self, tag: &str) -> (res: Result<Option<u32>, SVDErrorAt>)
        ensures
            res is Ok <==> u32_ok(*self, tag@),
            res is Ok ==> res->Ok_0 == child_u32(*self, tag@),
            res is Err && text_ok(*self, tag@) ==> res->Err_0.is_invalid_number(
                child_text(*self, tag@)->0@,
                self.child(tag@)->0.id,
            ),
            res is Err && !text_ok(*self, tag@) ==> res->Err_0.is_empty_tag(
                tag@,
                self.child(tag@)->0.id,
            ),
    {
        match self.get_child(tag) {
            None => Ok(None),
            Some(c) => {
                let t: &String = c.get_text()?;
                match parse_u32(t.as_str()) {
                    Some(v) => Ok(Some(v)),
                    None => Err(SVDError::InvalidNumber(t.clone()).at(c.id)),
                }
            },
        }
    }

    /// The 32-bit number in the first child with the tag; a missing child
    /// is an error.
    pub fn get_child_u32(&self, tag: &str) -> (res: Result<u32, SVDErrorAt>)
        ensures
            res is Ok <==> child_u32(*self, tag@) is Some,
            res is Ok ==> Some(res->Ok_0) == child_u32(*self, tag@),
            self.child(tag@) is None ==> res is Err && res->Err_0.is_missing_tag(tag@, self.id),
            self.child(tag@) is Some && !text_ok(*self, tag@) ==> res is Err
                && res->Err_0.is_empty_tag(tag@, self.child(tag@)->0.id),
            res is Err && child_text(*self, tag@) is Some ==> res->Err_0.is_invalid_number(
                child_text(*self, tag@)->0@,
                self.child(tag@)->0.id,
            ),
    {
        match self.get_child_u32_opt(tag)? {
            Some(v) => Ok(v),
            None => Err(SVDError::MissingTag(tag.to_owned()).at(self.id)),
        }
    }

    /// The 64-bit number in the first child with the tag, `None` where
    /// there is no such child.
    pub fn get_child_u64_opt(&self, tag: &str) -> (res: Result<Option<u64>, SVDErrorAt>)
        ensures
            res is Ok <==> u64_ok(*self, tag@),
            res is Ok ==> res->Ok_0 == child_u64(*self, tag@),
            res is Err && text_ok(*self, tag@) ==> res->Err_0.is_invalid_number(
                child_text(*self, tag@)->0@,
                self.child(tag@)->0.id,
            ),
            res is Err && !text_ok(*self, tag@) ==> res->Err_0.is_empty_tag(
                tag@,
                self.child(tag@)->0.id,
            ),
    {
        match self.get_child(tag) {
            None => Ok(None),
            Some(c) => {
                let t: &String = c.get_text()?;
                match parse_u64(t.as_str()) {
                    Some(v) => Ok(Some(v)),
                    None => Err(SVDError::InvalidNumber(t.clone()).at(c.id)),
                }
            },
        }
    }

    /// The 64-bit number in the first child with the tag; a missing child
    /// is an error.
    pub fn get_child_u64(&self, tag: &str) -> (res: Result<u64, SVDErrorAt>)
        ensures
            res is Ok <==> child_u64(*self, tag@) is Some,
            res is Ok ==> Some(res->Ok_0) == child_u64(*self, tag@),
            self.child(tag@) is None ==> res is Err && res->Err_0.is_missing_tag(tag@, self.id),
            self.child(tag@) is Some && !text_ok(*self, tag@) ==> res is Err
                && res->Err_0.is_empty_tag(tag@, self.child(tag@)->0.id),
            res is Err && child_text(*self, tag@) is Some ==> res->Err_0.is_invalid_number(
                child_text(*self, tag@)->0@,
                self.child(tag@)->0.id,
            ),
    {
        match self.get_child_u64_opt(tag)? {
            Some(v) => Ok(v),
            None => Err(SVDError::MissingTag(tag.to_owned()).at(self.id)),
        }
    }

    /// The truth value in the first child with the tag, `None` where there
    /// is no such child.
    pub fn get_child_bool_opt(&self, tag: &str) -> (res: Result<Option<bool>, SVDErrorAt>)
        ensures
            res is Ok <==> bool_ok(*self, tag@),
            res is Ok ==> res->Ok_0 == child_bool(*self, tag@),
            res is Err && text_ok(*self, tag@) ==> res->Err_0.is_invalid_bool(
                child_text(*self, tag@)->0@,
                self.child(tag@)->0.id,
            ),
            res is Err && !text_ok(*self, tag@) ==> res->Err_0.is_empty_tag(
                tag@,
                self.child(tag@)->0.id,
            ),
    {
        match self.get_child(tag) {
            None => Ok(None),
            Some(c) => {
                let t: &String = c.get_text()?;
                let s: &str = t.as_str();
                if crate::text::str_eq(s, "true") || crate::text::str_eq(s, "1") {
                    Ok(Some(true))
                } else if crate::text::str_eq(s, "false") || crate::text::str_eq(s, "0") {
                    Ok(Some(false))
                } else {
                    Err(SVDError::InvalidBool(t.clone()).at(c.id))
                }
            },
        }
    }
}

} // verus!
