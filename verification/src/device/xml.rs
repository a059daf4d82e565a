//! The tree of a description: elements with their attributes and the
//! elements within them. Text and comments between the elements are not
//! part of it.

use vstd::prelude::*;
use vstd::string::*;

verus! {

/// One attribute of an element.
#[derive(Debug, Clone)]
pub struct Attribute {
    pub name: String,
    pub value: String,
}

/// One element of a description.
#[derive(Debug)]
pub struct Element {
    pub name: String,
    pub attributes: Vec<Attribute>,
    pub children: Vec<Element>,
}

/// The value of the first attribute of the name `name` among the first `n`.
pub open spec fn attribute_upto(attributes: Seq<Attribute>, name: Seq<char>, n: nat) -> Option<
    Seq<char>,
>
    decreases n,
{
    if n == 0 {
        None
    } else {
        match attribute_upto(attributes, name, (n - 1) as nat) {
            Some(value) => Some(value),
            None => if attributes[n - 1].name@ == name {
                Some(attributes[n - 1].value@)
            } else {
                None
            },
        }
    }
}

/// The value of the attribute `name` of an element.
pub open spec fn attr(e: Element, name: Seq<char>) -> Option<Seq<char>> {
    attribute_upto(e.attributes@, name, e.attributes@.len())
}

/// The elements of the name `tag` among the first `n` of a list, in their
/// order.
pub open spec fn kids_upto(children: Seq<Element>, tag: Seq<char>, n: nat) -> Seq<Element>
    decreases n,
{
    if n == 0 {
        Seq::empty()
    } else if children[n - 1].name@ == tag {
        kids_upto(children, tag, (n - 1) as nat).push(children[n - 1])
    } else {
        kids_upto(children, tag, (n - 1) as nat)
    }
}

/// The elements of the name `tag` within an element, in their order.
pub open spec fn kids(e: Element, tag: Seq<char>) -> Seq<Element> {
    kids_upto(e.children@, tag, e.children@.len())
}

/// The first element of the name `tag` within an element.
pub open spec fn kid(e: Element, tag: Seq<char>) -> Option<Element> {
    if kids(e, tag).len() > 0 {
        Some(kids(e, tag)[0])
    } else {
        None
    }
}

/// The elements that `more` elements give go on from those that `fewer`
/// give.
pub proof fn lemma_kids_grow(children: Seq<Element>, tag: Seq<char>, fewer: nat, more: nat)
    requires
        fewer <= more <= children.len(),
    ensures
        kids_upto(children, tag, fewer).len() <= kids_upto(children, tag, more).len(),
        forall|i: int|
            0 <= i < kids_upto(children, tag, fewer).len() ==> kids_upto(children, tag, more)[i]
                == kids_upto(children, tag, fewer)[i],
    decreases more,
{
    if fewer < more {
        lemma_kids_grow(children, tag, fewer, (more - 1) as nat);
    }
}

proof fn lemma_attribute_found(attributes: Seq<Attribute>, name: Seq<char>, n: nat, m: nat)
    requires
        n <= m,
        attribute_upto(attributes, name, n) is Some,
    ensures
        attribute_upto(attributes, name, m) == attribute_upto(attributes, name, n),
    decreases m,
{
    if n < m {
        lemma_attribute_found(attributes, name, n, (m - 1) as nat);
    }
}

/// The value of the attribute `name` of an element.
pub fn attribute<'a>(e: &'a Element, name: &str) -> (r: Option<&'a String>)
    ensures
        match r {
            Some(value) => attr(*e, name@) == Some(value@),
            None => attr(*e, name@) is None,
        },
{
    let target = String::from_str(name);
    let mut k: usize = 0;
    while k < e.attributes.len()
        invariant
            k <= e.attributes@.len(),
            target@ == name@,
            attribute_upto(e.attributes@, name@, k as nat) is None,
        decreases e.attributes@.len() - k,
    {
        if e.attributes[k].name == target {
            proof {
                lemma_attribute_found(
                    e.attributes@,
                    name@,
                    (k + 1) as nat,
                    e.attributes@.len(),
                );
            }
            return Some(&e.attributes[k].value);
        }
        k = k + 1;
    }
    None
}

/// The first element of the name `name` within an element.
pub fn find_child<'a>(e: &'a Element, name: &str) -> (r: Option<&'a Element>)
    ensures
        match r {
            Some(child) => kid(*e, name@) == Some(*child),
            None => kid(*e, name@) is None,
        },
{
    let target = String::from_str(name);
    let mut k: usize = 0;
    while k < e.children.len()
        invariant
            k <= e.children@.len(),
            target@ == name@,
            kids_upto(e.children@, name@, k as nat).len() == 0,
        decreases e.children@.len() - k,
    {
        if e.children[k].name == target {
            proof {
                lemma_kids_grow(e.children@, name@, (k + 1) as nat, e.children@.len());
            }
            return Some(&e.children[k]);
        }
        k = k + 1;
    }
    None
}

/// The elements of the name `name` within an element, in their order.
pub fn find_childs<'a>(e: &'a Element, name: &str) -> (r: Vec<&'a Element>)
    ensures
        r@.len() == kids(*e, name@).len(),
        forall|i: int| 0 <= i < r@.len() ==> *(#[trigger] r@[i]) == kids(*e, name@)[i],
{
    let target = String::from_str(name);
    let mut out: Vec<&'a Element> = Vec::new();
    let mut k: usize = 0;
    while k < e.children.len()
        invariant
            k <= e.children@.len(),
            target@ == name@,
            out@.len() == kids_upto(e.children@, name@, k as nat).len(),
            forall|i: int|
                0 <= i < out@.len() ==> *(#[trigger] out@[i]) == kids_upto(
                    e.children@,
                    name@,
                    k as nat,
                )[i],
        decreases e.children@.len() - k,
    {
        if e.children[k].name == target {
            out.push(&e.children[k]);
        }
        k = k + 1;
    }
    out
}

} // verus!
