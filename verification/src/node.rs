//! The declarative element tree: a tag, its attributes in a fixed order, and
//! its children in document order.

use vstd::prelude::*;

verus! {

/// Mathematical model of an element: what a [`UiNode`] stands for.
pub struct NodeView {
    pub tag: Seq<char>,
    pub attributes: Seq<(Seq<char>, Seq<char>)>,
    pub children: Seq<NodeView>,
}

/// The value that the first attribute called `name` has in `attributes`, if
/// there is one.
pub open spec fn lookup(attributes: Seq<(Seq<char>, Seq<char>)>, name: Seq<char>) -> Option<
    Seq<char>,
>
    decreases attributes.len(),
{
    if attributes.len() == 0 {
        None
    } else if attributes[0].0 == name {
        Some(attributes[0].1)
    } else {
        lookup(attributes.drop_first(), name)
    }
}

impl NodeView {
    /// The attribute names, in the order in which the element lists them.
    pub open spec fn names(self) -> Seq<Seq<char>> {
        self.attributes.map_values(|a: (Seq<char>, Seq<char>)| a.0)
    }

    /// The set of attribute names.
    pub open spec fn name_set(self) -> Set<Seq<char>> {
        self.names().to_set()
    }

    /// The value of the attribute called `name`, if the element has it.
    pub open spec fn value_of(self, name: Seq<char>) -> Option<Seq<char>> {
        lookup(self.attributes, name)
    }

    /// No attribute name occurs twice, here or anywhere below.
    pub open spec fn well_formed(self) -> bool
        decreases self,
    {
        &&& self.names().no_duplicates()
        &&& forall|i: int|
            0 <= i < self.children.len() ==> (#[trigger] self.children[i]).well_formed()
    }
}

/// Where no earlier attribute has the name of the one at `index`, a lookup of
/// that name gives the value at `index`.
pub proof fn lemma_lookup_found(attributes: Seq<(Seq<char>, Seq<char>)>, index: int)
    requires
        0 <= index < attributes.len(),
        forall|j: int| 0 <= j < index ==> (#[trigger] attributes[j]).0 != attributes[index].0,
    ensures
        lookup(attributes, attributes[index].0) == Some(attributes[index].1),
    decreases index,
{
    if index > 0 {
        let rest = attributes.drop_first();
        assert(rest[index - 1] == attributes[index]);
        assert forall|j: int| 0 <= j < index - 1 implies (#[trigger] rest[j]).0 != rest[index
            - 1].0 by {
            assert(rest[j] == attributes[j + 1]);
        }
        lemma_lookup_found(rest, index - 1);
    }
}

/// A lookup finds nothing exactly where no attribute has the name.
pub proof fn lemma_lookup_none(attributes: Seq<(Seq<char>, Seq<char>)>, name: Seq<char>)
    ensures
        lookup(attributes, name) is None <==> forall|j: int|
            0 <= j < attributes.len() ==> (#[trigger] attributes[j]).0 != name,
    decreases attributes.len(),
{
    if attributes.len() > 0 {
        let rest = attributes.drop_first();
        lemma_lookup_none(rest, name);
        if attributes[0].0 != name {
            if lookup(rest, name) is None {
                assert forall|j: int| 0 <= j < attributes.len() implies (
                #[trigger] attributes[j]).0 != name by {
                    if j > 0 {
                        assert(rest[j - 1] == attributes[j]);
                    }
                }
            } else {
                let j = choose|j: int| 0 <= j < rest.len() && (#[trigger] rest[j]).0 == name;
                assert(attributes[j + 1] == rest[j]);
            }
        }
    }
}

/// In a node whose attribute names are all different, the attributes are a
/// map: a lookup of the name at any position gives the value at that position,
/// and a lookup finds something exactly for the names that the node lists.
pub proof fn lemma_attributes_are_a_map(n: NodeView)
    requires
        n.names().no_duplicates(),
    ensures
        forall|i: int|
            0 <= i < n.attributes.len() ==> n.value_of((#[trigger] n.attributes[i]).0) == Some(
                n.attributes[i].1,
            ),
        forall|name: Seq<char>| n.value_of(name) is Some <==> n.names().contains(name),
{
    assert forall|i: int| 0 <= i < n.attributes.len() implies n.value_of(
        (#[trigger] n.attributes[i]).0,
    ) == Some(n.attributes[i].1) by {
        assert forall|j: int| 0 <= j < i implies (#[trigger] n.attributes[j]).0
            != n.attributes[i].0 by {
            assert(n.names()[j] == n.attributes[j].0);
            assert(n.names()[i] == n.attributes[i].0);
        }
        lemma_lookup_found(n.attributes, i);
    }
    assert forall|name: Seq<char>| n.value_of(name) is Some <==> n.names().contains(name) by {
        lemma_lookup_none(n.attributes, name);
        if n.names().contains(name) {
            let i = choose|i: int| 0 <= i < n.names().len() && n.names()[i] == name;
            assert(n.attributes[i].0 == name);
        } else {
            assert forall|j: int| 0 <= j < n.attributes.len() implies (
            #[trigger] n.attributes[j]).0 != name by {
                assert(n.names()[j] == n.attributes[j].0);
            }
        }
    }
}

/// One element of the declarative tree.
#[derive(Debug, PartialEq, Eq)]
pub struct UiNode {
    pub tag: String,
    pub attributes: Vec<(String, String)>,
    pub children: Vec<UiNode>,
}

/// Model of one attribute: its name and its value as character sequences.
pub open spec fn attribute_view(a: (String, String)) -> (Seq<char>, Seq<char>) {
    (a.0@, a.1@)
}

/// Model of a list of attributes.
pub open spec fn attributes_view(list: Seq<(String, String)>) -> Seq<(Seq<char>, Seq<char>)> {
    list.map_values(|a: (String, String)| attribute_view(a))
}

impl View for UiNode {
    type V = NodeView;

    open spec fn view(&self) -> NodeView
        decreases self,
    {
        NodeView {
            tag: self.tag@,
            attributes: attributes_view(self.attributes@),
            children: Seq::new(
                self.children@.len(),
                |i: int|
                    if 0 <= i < self.children@.len() {
                        self.children@[i].view()
                    } else {
                        arbitrary()
                    },
            ),
        }
    }
}

/// The view of an element, one level unfolded: its children are the views of
/// its children, in their order.
pub proof fn lemma_node_view(n: UiNode)
    ensures
        n@.tag == n.tag@,
        n@.attributes == attributes_view(n.attributes@),
        n@.children == n.children@.map_values(|c: UiNode| c@),
{
    reveal_with_fuel(<UiNode as View>::view, 2);
    assert(n@.children =~= n.children@.map_values(|c: UiNode| c@));
}

impl UiNode {
    /// The value of the attribute called `name`, or `None` where the element
    /// has no such attribute.
    pub fn attribute(&self, name: &str) -> (value: Option<&String>)
        ensures
            match value {
                Some(v) => self@.value_of(name@) == Some(v@),
                None => self@.value_of(name@) is None,
            },
    {
        let wanted = name.to_owned();
        let mut i: usize = 0;
        assert(attributes_view(self.attributes@).skip(0) == attributes_view(self.attributes@));
        while i < self.attributes.len()
            invariant
                0 <= i <= self.attributes.len(),
                wanted@ == name@,
                lookup(attributes_view(self.attributes@), name@) == lookup(
                    attributes_view(self.attributes@).skip(i as int),
                    name@,
                ),
            decreases self.attributes.len() - i,
        {
            let ghost rest = attributes_view(self.attributes@).skip(i as int);
            assert(rest[0] == attribute_view(self.attributes@[i as int]));
            assert(rest.drop_first() == attributes_view(self.attributes@).skip(i + 1));
            if self.attributes[i].0 == wanted {
                return Some(&self.attributes[i].1);
            }
            i += 1;
        }
        None
    }
}

} // verus!
