//! What holds of the notifications, proved from their definition.

use super::notify::{
    attribute_of, changed_attributes, changed_fields, changed_kinds, changed_properties,
    differ_in, kinds_of, Property,
};
use crate::schema::{AttributeKind, NodeAttributeView, NodeView};
use vstd::prelude::*;

verus! {

/// In a list that names no kind twice, the attribute of a kind is the one
/// that has the kind.
proof fn lemma_attribute_at(attributes: Seq<NodeAttributeView>, at: int)
    requires
        kinds_of(attributes).no_duplicates(),
        0 <= at < attributes.len(),
    ensures
        attribute_of(attributes, attributes[at].kind) == Some(attributes[at]),
    decreases attributes.len(),
{
    if at > 0 {
        let rest = attributes.drop_first();
        assert(kinds_of(attributes)[0] != kinds_of(attributes)[at]);
        assert(kinds_of(rest).no_duplicates()) by {
            assert forall|i: int, j: int|
                0 <= i < rest.len() && 0 <= j < rest.len() && i != j implies kinds_of(rest)[i]
                != kinds_of(rest)[j] by {
                assert(kinds_of(rest)[i] == kinds_of(attributes)[i + 1]);
                assert(kinds_of(rest)[j] == kinds_of(attributes)[j + 1]);
            }
        }
        assert(rest[at - 1] == attributes[at]);
        lemma_attribute_at(rest, at - 1);
    }
}

/// A list has no attribute of a kind that none of its attributes has.
proof fn lemma_attribute_absent(attributes: Seq<NodeAttributeView>, kind: AttributeKind)
    requires
        forall|i: int| 0 <= i < attributes.len() ==> (#[trigger] attributes[i]).kind != kind,
    ensures
        attribute_of(attributes, kind) is None,
    decreases attributes.len(),
{
    if attributes.len() > 0 {
        let rest = attributes.drop_first();
        assert(attributes[0].kind != kind);
        assert forall|i: int| 0 <= i < rest.len() implies (#[trigger] rest[i]).kind != kind by {
            assert(rest[i] == attributes[i + 1]);
        }
        lemma_attribute_absent(rest, kind);
    }
}

/// Two nodes of which one has another value for the attribute at `at`, and
/// the same attributes else.
spec fn differ_at(old_node: NodeView, new_node: NodeView, at: int) -> bool {
    &&& 0 <= at < old_node.attributes.len()
    &&& kinds_of(old_node.attributes).no_duplicates()
    &&& new_node.attributes.len() == old_node.attributes.len()
    &&& forall|i: int|
        0 <= i < old_node.attributes.len() && i != at ==> new_node.attributes[i]
            == old_node.attributes[i]
    &&& new_node.attributes[at].kind == old_node.attributes[at].kind
    &&& new_node.attributes[at] != old_node.attributes[at]
}

proof fn lemma_differ_in_one_kind(old_node: NodeView, new_node: NodeView, at: int)
    requires
        differ_at(old_node, new_node, at),
    ensures
        kinds_of(new_node.attributes) == kinds_of(old_node.attributes),
        forall|kind: AttributeKind|
            differ_in(old_node, new_node, kind) <==> kind == old_node.attributes[at].kind,
{
    assert(kinds_of(new_node.attributes) =~= kinds_of(old_node.attributes));
    assert forall|kind: AttributeKind|
        differ_in(old_node, new_node, kind) <==> kind == old_node.attributes[at].kind by {
        if exists|i: int|
            0 <= i < old_node.attributes.len() && (#[trigger] old_node.attributes[i]).kind == kind {
            let i = choose|i: int|
                0 <= i < old_node.attributes.len() && (#[trigger] old_node.attributes[i]).kind
                    == kind;
            lemma_attribute_at(old_node.attributes, i);
            assert(kinds_of(new_node.attributes)[i] == kinds_of(old_node.attributes)[i]);
            lemma_attribute_at(new_node.attributes, i);
            if i != at {
                assert(kinds_of(old_node.attributes)[i] != kinds_of(old_node.attributes)[at]);
            }
        } else {
            lemma_attribute_absent(old_node.attributes, kind);
            assert forall|i: int| 0 <= i < new_node.attributes.len() implies (
            #[trigger] new_node.attributes[i]).kind != kind by {
                assert(kinds_of(new_node.attributes)[i] == kinds_of(old_node.attributes)[i]);
                assert(old_node.attributes[i].kind != kind);
            }
            lemma_attribute_absent(new_node.attributes, kind);
        }
    }
}

proof fn lemma_changed_kinds_upto(old_node: NodeView, new_node: NodeView, at: int, upto: int)
    requires
        differ_at(old_node, new_node, at),
        0 <= upto <= 2 * old_node.attributes.len(),
    ensures
        changed_kinds(
            (kinds_of(new_node.attributes) + kinds_of(old_node.attributes)).take(upto),
            old_node,
            new_node,
        ) == (if upto > at {
            seq![old_node.attributes[at].kind]
        } else {
            Seq::empty()
        }),
    decreases upto,
{
    let kinds = kinds_of(old_node.attributes);
    let all = kinds_of(new_node.attributes) + kinds;
    let kind = old_node.attributes[at].kind;
    lemma_differ_in_one_kind(old_node, new_node, at);
    if upto > 0 {
        lemma_changed_kinds_upto(old_node, new_node, at, upto - 1);
        let part = all.take(upto);
        assert(part.drop_last() =~= all.take(upto - 1));
        assert(part.last() == all[upto - 1]);
        let before = changed_kinds(part.drop_last(), old_node, new_node);
        if upto - 1 == at {
            assert(all[at] == kind);
            assert(!part.drop_last().contains(kind)) by {
                if part.drop_last().contains(kind) {
                    let i = choose|i: int| 0 <= i < part.drop_last().len() && part.drop_last()[i]
                        == kind;
                    assert(kinds[i] == kinds[at]);
                }
            }
            assert(before.push(kind) =~= seq![kind]);
        } else if all[upto - 1] == kind {
            assert(upto - 1 >= kinds.len()) by {
                if upto - 1 < kinds.len() {
                    assert(kinds[upto - 1] == kinds[at]);
                }
            }
            assert(part.drop_last()[at] == kind);
        }
    } else {
        assert(all.take(0).len() == 0);
    }
}

/// Where two states of a node differ in the value of one attribute and in
/// nothing else, and name no kind of attribute twice, one property changed:
/// that kind of attribute.
pub proof fn lemma_one_attribute_changed(old_node: NodeView, new_node: NodeView, at: int)
    requires
        0 <= at < old_node.attributes.len(),
        kinds_of(old_node.attributes).no_duplicates(),
        new_node.attributes[at].kind == old_node.attributes[at].kind,
        new_node.attributes[at] != old_node.attributes[at],
        new_node == (NodeView {
            attributes: old_node.attributes.update(at, new_node.attributes[at]),
            ..old_node
        }),
    ensures
        changed_properties(old_node, new_node) == seq![
            Property::Attribute(old_node.attributes[at].kind),
        ],
{
    assert(differ_at(old_node, new_node, at));
    let all = kinds_of(new_node.attributes) + kinds_of(old_node.attributes);
    lemma_changed_kinds_upto(old_node, new_node, at, all.len() as int);
    assert(all.take(all.len() as int) =~= all);
    assert(changed_attributes(old_node, new_node) == seq![old_node.attributes[at].kind]);
    assert(changed_fields(old_node, new_node) =~= Seq::empty());
    assert(changed_properties(old_node, new_node) =~= seq![
        Property::Attribute(old_node.attributes[at].kind),
    ]);
}

} // verus!
