use vstd::prelude::*;
use vstd::string::*;
use crate::text::str_eq;

verus! {

/// A name/value pair attached to an element.
#[derive(Debug, PartialEq, Eq)]
pub struct Attribute {
    pub name: String,
    pub value: String,
}

/// A node of the generic element tree: a tag name, attributes, and either
/// text or child elements. `id` tells the nodes of one document apart; an
/// element that this library makes has the id 0.
#[derive(Debug, PartialEq, Eq)]
pub struct Element {
    pub id: usize,
    pub name: String,
    pub attributes: Vec<Attribute>,
    pub text: Option<String>,
    pub children: Vec<Element>,
}

/// The content of an [`Element`], without the identities of its nodes.
pub ghost struct Tree {
    pub name: Seq<char>,
    pub attributes: Seq<(Seq<char>, Seq<char>)>,
    pub text: Option<Seq<char>>,
    pub children: Seq<Tree>,
}

/// The content of each element of a sequence.
pub open spec fn trees(s: Seq<Element>) -> Seq<Tree> {
    Seq::new(s.len(), |i: int| s[i].tree())
}

/// The content of each attribute of a sequence.
pub open spec fn pairs(s: Seq<Attribute>) -> Seq<(Seq<char>, Seq<char>)> {
    Seq::new(s.len(), |i: int| (s[i].name@, s[i].value@))
}

/// The content of an element that holds text only.
pub open spec fn leaf(tag: Seq<char>, text: Seq<char>) -> Tree {
    Tree { name: tag, attributes: Seq::empty(), text: Some(text), children: Seq::empty() }
}

/// The content of an element that holds children only.
pub open spec fn branch(tag: Seq<char>, children: Seq<Tree>) -> Tree {
    Tree { name: tag, attributes: Seq::empty(), text: None, children }
}

/// One text element where there is a text, none where there is not.
pub open spec fn opt_leaf(tag: Seq<char>, text: Option<Seq<char>>) -> Seq<Tree> {
    match text {
        Some(t) => seq![leaf(tag, t)],
        None => Seq::empty(),
    }
}

/// Whether `k` is the index of the first element of `s` with the tag.
pub open spec fn is_first(s: Seq<Element>, tag: Seq<char>, k: int) -> bool {
    &&& 0 <= k < s.len()
    &&& s[k].name@ == tag
    &&& forall|j: int| 0 <= j < k ==> (#[trigger] s[j]).name@ != tag
}

/// The index of the first element of `s` with the tag, if there is one.
pub open spec fn first_index(s: Seq<Element>, tag: Seq<char>) -> Option<int> {
    if exists|k: int| is_first(s, tag, k) {
        Some(choose|k: int| is_first(s, tag, k))
    } else {
        None
    }
}

/// Whether `k` is the index of the first attribute of `s` with the name.
pub open spec fn is_first_attribute(s: Seq<Attribute>, name: Seq<char>, k: int) -> bool {
    &&& 0 <= k < s.len()
    &&& s[k].name@ == name
    &&& forall|j: int| 0 <= j < k ==> (#[trigger] s[j]).name@ != name
}

/// The first index with a tag is unique, and there is one wherever any
/// element has the tag.
pub proof fn lemma_first_index(s: Seq<Element>, tag: Seq<char>, k: int)
    requires
        is_first(s, tag, k),
    ensures
        first_index(s, tag) == Some(k),
{
    let c = choose|c: int| is_first(s, tag, c);
    if c < k {
        assert(s[c].name@ != tag);
    }
    if k < c {
        assert(s[k].name@ != tag);
    }
}

/// No element has the tag where no first index exists.
pub proof fn lemma_no_first_index(s: Seq<Element>, tag: Seq<char>)
    requires
        forall|j: int| 0 <= j < s.len() ==> (#[trigger] s[j]).name@ != tag,
    ensures
        first_index(s, tag) is None,
{
    if exists|k: int| is_first(s, tag, k) {
        let c = choose|c: int| is_first(s, tag, c);
        assert(s[c].name@ != tag);
    }
}

/// Among elements whose contents are `before`, then at most one text
/// element with the tag, then `after`, where nothing in `before` and `after`
/// has the tag: the first element with the tag is that text element, and
/// there is none where it is absent.
pub proof fn lemma_lookup(
    s: Seq<Element>,
    before: Seq<Tree>,
    tag: Seq<char>,
    text: Option<Seq<char>>,
    after: Seq<Tree>,
)
    requires
        trees(s) =~= before + opt_leaf(tag, text) + after,
        forall|i: int| 0 <= i < before.len() ==> (#[trigger] before[i]).name != tag,
        forall|i: int| 0 <= i < after.len() ==> (#[trigger] after[i]).name != tag,
    ensures
        first_index(s, tag) is Some <==> text is Some,
        first_index(s, tag) matches Some(k) ==> 0 <= k < s.len() && s[k].text is Some
            && s[k].text->0@ == text->0,
{
    let all = before + opt_leaf(tag, text) + after;
    assert(trees(s).len() == s.len());
    assert forall|j: int| 0 <= j < s.len() implies (#[trigger] s[j]).tree() == all[j] by {
        assert(trees(s)[j] == s[j].tree());
    }
    match text {
        Some(t) => {
            let k = before.len() as int;
            assert(all[k] == leaf(tag, t));
            assert(s[k].tree() == leaf(tag, t));
            assert forall|j: int| 0 <= j < k implies (#[trigger] s[j]).name@ != tag by {
                assert(s[j].tree() == all[j]);
                assert(all[j] == before[j]);
            }
            lemma_first_index(s, tag, k);
        },
        None => {
            assert forall|j: int| 0 <= j < s.len() implies (#[trigger] s[j]).name@ != tag by {
                assert(s[j].tree() == all[j]);
                if j < before.len() {
                    assert(all[j] == before[j]);
                } else {
                    assert(all[j] == after[j - before.len()]);
                }
            }
            lemma_no_first_index(s, tag);
        },
    }
}

/// Whether no content of `s` has the tag.
pub open spec fn none_named(s: Seq<Tree>, tag: Seq<char>) -> bool {
    forall|i: int| 0 <= i < s.len() ==> (#[trigger] s[i]).name != tag
}

/// A text element of another tag does not have the tag.
pub proof fn lemma_other_leaf(other: Seq<char>, text: Option<Seq<char>>, tag: Seq<char>)
    requires
        other != tag,
    ensures
        none_named(opt_leaf(other, text), tag),
{
}

/// Two sequences without the tag have none together.
pub proof fn lemma_none_named_both(a: Seq<Tree>, b: Seq<Tree>, tag: Seq<char>)
    requires
        none_named(a, tag),
        none_named(b, tag),
    ensures
        none_named(a + b, tag),
{
    assert forall|i: int| 0 <= i < (a + b).len() implies (#[trigger] (a + b)[i]).name != tag by {
        if i < a.len() {
            assert((a + b)[i] == a[i]);
        } else {
            assert((a + b)[i] == b[i - a.len()]);
        }
    }
}

impl Element {
    /// The content of this element.
    pub open spec fn tree(&self) -> Tree
        decreases self,
    {
        Tree {
            name: self.name@,
            attributes: pairs(self.attributes@),
            text: match self.text {
                Some(t) => Some(t@),
                None => None,
            },
            children: Seq::new(
                self.children@.len(),
                |i: int|
                    if 0 <= i < self.children@.len() {
                        self.children@[i].tree()
                    } else {
                        arbitrary()
                    },
            ),
        }
    }

    /// The first child with the tag, if there is one.
    pub open spec fn child(&self, tag: Seq<char>) -> Option<Element> {
        match first_index(self.children@, tag) {
            Some(k) => Some(self.children@[k]),
            None => None,
        }
    }

    /// The value of the first attribute with the name, if there is one.
    pub open spec fn attribute_value(&self, name: Seq<char>) -> Option<String> {
        if exists|k: int| is_first_attribute(self.attributes@, name, k) {
            Some(self.attributes@[choose|k: int| is_first_attribute(self.attributes@, name, k)].value)
        } else {
            None
        }
    }

    /// The children of an element are the contents of its child elements.
    pub proof fn lemma_children(&self)
        ensures
            self.tree().children == trees(self.children@),
    {
        assert(self.tree().children =~= trees(self.children@));
    }

    /// An element with the given tag and nothing else.
    pub fn new(name: &str) -> (res: Element)
        ensures
            res.tree() == branch(name@, Seq::empty()),
            res.id == 0,
            res.name@ == name@,
            res.attributes@.len() == 0,
            res.text is None,
            res.children@.len() == 0,
    {
        let res = Element {
            id: 0,
            name: name.to_owned(),
            attributes: Vec::new(),
            text: None,
            children: Vec::new(),
        };
        assert(res.tree().children =~= Seq::empty());
        assert(res.tree().attributes =~= Seq::empty());
        res
    }

    /// An element with the given tag that holds the given text.
    pub fn new_node(name: &str, text: String) -> (res: Element)
        ensures
            res.tree() == leaf(name@, text@),
            res.id == 0,
    {
        let res = Element {
            id: 0,
            name: name.to_owned(),
            attributes: Vec::new(),
            text: Some(text),
            children: Vec::new(),
        };
        assert(res.tree().children =~= Seq::empty());
        assert(res.tree().attributes =~= Seq::empty());
        res
    }

    /// An element with the given tag that holds the given children.
    pub fn with_children(name: &str, children: Vec<Element>) -> (res: Element)
        ensures
            res.tree() == branch(name@, trees(children@)),
            res.id == 0,
            res.children == children,
    {
        let res = Element {
            id: 0,
            name: name.to_owned(),
            attributes: Vec::new(),
            text: None,
            children,
        };
        assert(res.tree().children =~= trees(children@));
        assert(res.tree().attributes =~= Seq::empty());
        res
    }

    /// An element with the given tag, attributes and children.
    pub fn assemble(name: &str, attributes: Vec<Attribute>, children: Vec<Element>) -> (res:
        Element)
        ensures
            res.tree() == (Tree {
                name: name@,
                attributes: pairs(attributes@),
                text: None,
                children: trees(children@),
            }),
            res.id == 0,
    {
        let res = Element { id: 0, name: name.to_owned(), attributes, text: None, children };
        assert(res.tree().children =~= trees(children@));
        res
    }

    /// Whether the element has the given tag.
    pub fn has_tag_name(&self, tag: &str) -> (res: bool)
        ensures
            res == (self.name@ == tag@),
    {
        str_eq(self.name.as_str(), tag)
    }

    /// The first child with the tag.
    pub fn get_child(&self, tag: &str) -> (res: Option<&Element>)
        ensures
            res is Some <==> self.child(tag@) is Some,
            res is Some ==> self.child(tag@) == Some(*res->0),
    {
        let n: usize = self.children.len();
        let mut i: usize = 0;
        while i < n
            invariant
                n == self.children@.len(),
                i <= n,
                forall|j: int| 0 <= j < i ==> (#[trigger] self.children@[j]).name@ != tag@,
            decreases n - i,
        {
            if self.children[i].has_tag_name(tag) {
                proof {
                    lemma_first_index(self.children@, tag@, i as int);
                }
                return Some(&self.children[i]);
            }
            i += 1;
        }
        proof {
            lemma_no_first_index(self.children@, tag@);
        }
        None
    }

    /// The value of the first attribute with the name.
    pub fn attribute(&self, name: &str) -> (res: Option<&String>)
        ensures
            res is Some <==> self.attribute_value(name@) is Some,
            res is Some ==> self.attribute_value(name@) == Some(*res->0),
    {
        let n: usize = self.attributes.len();
        let mut i: usize = 0;
        while i < n
            invariant
                n == self.attributes@.len(),
                i <= n,
                forall|j: int| 0 <= j < i ==> (#[trigger] self.attributes@[j]).name@ != name@,
            decreases n - i,
        {
            if str_eq(self.attributes[i].name.as_str(), name) {
                proof {
                    assert(is_first_attribute(self.attributes@, name@, i as int));
                    let c = choose|c: int| is_first_attribute(self.attributes@, name@, c);
                    if c < i {
                        assert(self.attributes@[c].name@ != name@);
                    }
                    if i < c {
                        assert(self.attributes@[i as int].name@ != name@);
                    }
                }
                return Some(&self.attributes[i].value);
            }
            i += 1;
        }
        proof {
            if exists|k: int| is_first_attribute(self.attributes@, name@, k) {
                let c = choose|c: int| is_first_attribute(self.attributes@, name@, c);
                assert(self.attributes@[c].name@ != name@);
            }
        }
        None
    }

    /// Adds an attribute behind those already there.
    pub fn set_attribute(&mut self, name: &str, value: String)
        ensures
            final(self).tree() == (Tree {
                attributes: old(self).tree().attributes.push((name@, value@)),
                ..old(self).tree()
            }),
            final(self).id == old(self).id,
    {
        proof {
            self.lemma_children();
        }
        self.attributes.push(Attribute { name: name.to_owned(), value });
        proof {
            self.lemma_children();
            assert(self.tree().attributes =~= old(self).tree().attributes.push((name@, value@)));
        }
    }
}

/// Adds a text element behind those already there.
pub fn push_leaf(children: &mut Vec<Element>, tag: &str, text: String)
    ensures
        trees(final(children)@) == trees(old(children)@) + seq![leaf(tag@, text@)],
{
    children.push(Element::new_node(tag, text));
    assert(trees(children@) =~= trees(old(children)@) + seq![leaf(tag@, text@)]);
}

/// Adds a text element where there is a text.
pub fn push_opt_leaf(children: &mut Vec<Element>, tag: &str, text: Option<String>)
    ensures
        trees(final(children)@) == trees(old(children)@) + opt_leaf(
            tag@,
            crate::fieldinfo::opt_view(text),
        ),
{
    match text {
        Some(t) => {
            push_leaf(children, tag, t);
        },
        None => {
            assert(trees(children@) =~= trees(old(children)@) + Seq::<Tree>::empty());
        },
    }
}

/// Adds an element behind those already there.
pub fn push_element(children: &mut Vec<Element>, element: Element)
    ensures
        trees(final(children)@) == trees(old(children)@) + seq![element.tree()],
{
    children.push(element);
    assert(trees(children@) =~= trees(old(children)@) + seq![element.tree()]);
}

/// Adds elements behind those already there.
pub fn append_elements(children: &mut Vec<Element>, more: Vec<Element>)
    ensures
        trees(final(children)@) == trees(old(children)@) + trees(more@),
{
    let mut more = more;
    let ghost added = more@;
    children.append(&mut more);
    assert(trees(children@) =~= trees(old(children)@) + trees(added));
}

} // verus!
