//! Walking the tree of parts of a message without recursion.
//!
//! Nesting depth is chosen by whoever sent the message, so the walk keeps its
//! own stack of pending parts instead of descending by calls.

use crate::model::{AttachmentId, FullMessage, MessagePart};
use vstd::prelude::*;

verus! {

/// The order in which the walk visits the tree rooted at `part`: the part
/// itself, then the subtrees of its children, last child first.
pub open spec fn visit_order(part: MessagePart) -> Seq<MessagePart>
    decreases part, 0nat,
{
    seq![part] + visit_forest(part.parts@, part.parts@.len())
}

/// The visits of the first `n` trees of `parts`, last tree first.
pub open spec fn visit_forest(parts: Seq<MessagePart>, n: nat) -> Seq<MessagePart>
    decreases parts, n,
{
    if n == 0 || n > parts.len() {
        Seq::empty()
    } else {
        visit_order(parts[n - 1]) + visit_forest(parts, (n - 1) as nat)
    }
}

/// The number of parts in the tree rooted at `part`.
pub open spec fn part_count(part: MessagePart) -> nat
    decreases part, 0nat,
{
    1 + forest_count(part.parts@, part.parts@.len())
}

/// The number of parts in the first `n` trees of `parts`.
pub open spec fn forest_count(parts: Seq<MessagePart>, n: nat) -> nat
    decreases parts, n,
{
    if n == 0 || n > parts.len() {
        0
    } else {
        part_count(parts[n - 1]) + forest_count(parts, (n - 1) as nat)
    }
}

/// Whether `node` is `root` or lies somewhere below it.
pub open spec fn in_tree(root: MessagePart, node: MessagePart) -> bool
    decreases root, 0nat,
{
    root == node || in_forest(root.parts@, root.parts@.len(), node)
}

/// Whether `node` lies in one of the first `n` trees of `parts`.
pub open spec fn in_forest(parts: Seq<MessagePart>, n: nat, node: MessagePart) -> bool
    decreases parts, n,
{
    if n == 0 || n > parts.len() {
        false
    } else {
        in_tree(parts[n - 1], node) || in_forest(parts, (n - 1) as nat, node)
    }
}

/// The attachment that has to be fetched for a part: the one that the part
/// names, where it names one and carries no inline data. A part that
/// carries its data has nothing to fetch.
pub open spec fn reference_to_fetch(part: MessagePart) -> Option<AttachmentId> {
    if part.body.data is None {
        part.body.attachment_id
    } else {
        None
    }
}

/// The attachments that have to be fetched for the parts of `order`, in
/// that order.
pub open spec fn attachment_refs(order: Seq<MessagePart>) -> Seq<AttachmentId>
    decreases order.len(),
{
    if order.len() == 0 {
        Seq::empty()
    } else {
        let before = attachment_refs(order.drop_last());
        match reference_to_fetch(order.last()) {
            Some(id) => before.push(id),
            None => before,
        }
    }
}

/// The parts that a stack of pending parts still stands for: the visit of
/// each pending tree, top of the stack first.
pub open spec fn pending_visits(stack: Seq<MessagePart>) -> Seq<MessagePart> {
    visit_forest(stack, stack.len())
}

/// The visits of a forest depend only on the trees that are counted.
proof fn lemma_visit_forest_prefix(a: Seq<MessagePart>, b: Seq<MessagePart>, n: nat)
    requires
        n <= a.len(),
        n <= b.len(),
        forall|i: int| 0 <= i < n ==> a[i] == b[i],
    ensures
        visit_forest(a, n) == visit_forest(b, n),
    decreases n,
{
    if n > 0 {
        lemma_visit_forest_prefix(a, b, (n - 1) as nat);
    }
}

/// Pushing a forest on a stack puts its visits, last tree first, before
/// those of the stack.
proof fn lemma_visit_forest_concat(a: Seq<MessagePart>, b: Seq<MessagePart>, n: nat)
    requires
        n <= b.len(),
    ensures
        visit_forest(a + b, a.len() + n) == visit_forest(b, n) + visit_forest(a, a.len()),
    decreases n,
{
    let ab = a + b;
    if n == 0 {
        lemma_visit_forest_prefix(ab, a, a.len());
        assert(visit_forest(b, 0) + visit_forest(a, a.len()) =~= visit_forest(a, a.len()));
    } else {
        lemma_visit_forest_concat(a, b, (n - 1) as nat);
        assert(ab[a.len() + n - 1] == b[n - 1]);
        assert((a.len() + n - 1) as nat == a.len() + (n - 1) as nat);
        assert(visit_forest(ab, a.len() + n) == visit_order(b[n - 1]) + visit_forest(
            ab,
            (a.len() + n - 1) as nat,
        ));
        assert(visit_order(b[n - 1]) + (visit_forest(b, (n - 1) as nat) + visit_forest(
            a,
            a.len(),
        )) =~= (visit_order(b[n - 1]) + visit_forest(b, (n - 1) as nat)) + visit_forest(
            a,
            a.len(),
        ));
    }
}

/// The walk visits every part of a tree once: as many visits as parts.
pub proof fn lemma_visit_order_len(part: MessagePart)
    ensures
        visit_order(part).len() == part_count(part),
    decreases part, 0nat,
{
    lemma_visit_forest_len(part.parts@, part.parts@.len());
}

/// As many visits as parts, for the first `n` trees of a forest.
pub proof fn lemma_visit_forest_len(parts: Seq<MessagePart>, n: nat)
    ensures
        visit_forest(parts, n).len() == forest_count(parts, n),
    decreases parts, n,
{
    if n == 0 || n > parts.len() {
    } else {
        lemma_visit_order_len(parts[n - 1]);
        lemma_visit_forest_len(parts, (n - 1) as nat);
    }
}

/// The walk visits exactly the parts of the tree: a part is visited if and
/// only if it is the root or lies below it.
pub proof fn lemma_visit_order_contains(root: MessagePart, node: MessagePart)
    ensures
        visit_order(root).contains(node) <==> in_tree(root, node),
    decreases root, 0nat,
{
    let below = visit_forest(root.parts@, root.parts@.len());
    lemma_visit_forest_contains(root.parts@, root.parts@.len(), node);
    if visit_order(root).contains(node) {
        let i = choose|i: int| 0 <= i < visit_order(root).len() && visit_order(root)[i] == node;
        if i > 0 {
            assert(below[i - 1] == node);
        }
    }
    if root == node {
        assert(visit_order(root)[0] == node);
    }
    if below.contains(node) {
        let j = choose|j: int| 0 <= j < below.len() && below[j] == node;
        assert(visit_order(root)[j + 1] == node);
    }
}

/// A part is visited in a forest if and only if it lies in one of its trees.
pub proof fn lemma_visit_forest_contains(parts: Seq<MessagePart>, n: nat, node: MessagePart)
    ensures
        visit_forest(parts, n).contains(node) <==> in_forest(parts, n, node),
    decreases parts, n,
{
    if n == 0 || n > parts.len() {
    } else {
        let first = visit_order(parts[n - 1]);
        let rest = visit_forest(parts, (n - 1) as nat);
        lemma_visit_order_contains(parts[n - 1], node);
        lemma_visit_forest_contains(parts, (n - 1) as nat, node);
        let all = first + rest;
        if all.contains(node) {
            let i = choose|i: int| 0 <= i < all.len() && all[i] == node;
            if i < first.len() {
                assert(first[i] == node);
            } else {
                assert(rest[i - first.len()] == node);
            }
        }
        if first.contains(node) {
            let i = choose|i: int| 0 <= i < first.len() && first[i] == node;
            assert(all[i] == node);
        }
        if rest.contains(node) {
            let i = choose|i: int| 0 <= i < rest.len() && rest[i] == node;
            assert(all[first.len() + i] == node);
        }
    }
}

/// The parts behind a stack of references.
pub open spec fn deref_parts(stack: Seq<&MessagePart>) -> Seq<MessagePart> {
    stack.map_values(|p: &MessagePart| *p)
}

/// Every part of the tree rooted at `root`, in the order of the walk: a part
/// comes before everything below it, and of two siblings the later one, with
/// all that lies below it, comes first.
pub fn visit_parts(root: &MessagePart) -> (order: Vec<&MessagePart>)
    ensures
        deref_parts(order@) == visit_order(*root),
{
    let mut order: Vec<&MessagePart> = Vec::new();
    let mut stack: Vec<&MessagePart> = Vec::new();
    stack.push(root);
    proof {
        assert(deref_parts(stack@) =~= seq![*root]);
        assert(visit_forest(seq![*root], 0) =~= Seq::empty());
        assert(pending_visits(seq![*root]) =~= visit_order(*root));
        assert(deref_parts(order@) =~= Seq::empty());
    }
    while stack.len() > 0
        invariant
            deref_parts(order@) + pending_visits(deref_parts(stack@)) == visit_order(*root),
        decreases pending_visits(deref_parts(stack@)).len(),
    {
        let ghost before = deref_parts(stack@);
        let ghost seen = deref_parts(order@);
        let part = stack.pop().unwrap();
        let ghost rest = deref_parts(stack@);
        proof {
            assert(rest =~= before.drop_last());
            assert(before[before.len() - 1] == *part);
            lemma_visit_forest_prefix(before, rest, rest.len());
            assert(pending_visits(before) == visit_order(*part) + pending_visits(rest));
        }
        order.push(part);
        proof {
            assert(deref_parts(order@) =~= seen.push(*part));
        }
        let mut i: usize = 0;
        while i < part.parts.len()
            invariant
                i <= part.parts.len(),
                deref_parts(stack@) == rest + part.parts@.take(i as int),
            decreases part.parts.len() - i,
        {
            let ghost below = deref_parts(stack@);
            let child = &part.parts[i];
            stack.push(child);
            proof {
                assert(deref_parts(stack@) =~= below.push(*child));
                assert(part.parts@.take(i as int + 1) =~= part.parts@.take(i as int).push(
                    *child,
                ));
                assert(below.push(*child) =~= rest + part.parts@.take(i as int + 1));
            }
            i += 1;
        }
        proof {
            let kids = part.parts@;
            assert(kids.take(kids.len() as int) =~= kids);
            lemma_visit_forest_concat(rest, kids, kids.len());
            assert(pending_visits(rest + kids) == visit_forest(kids, kids.len()) + pending_visits(
                rest,
            ));
            assert(seen + (seq![*part] + visit_forest(kids, kids.len()) + pending_visits(rest))
                =~= seen.push(*part) + (visit_forest(kids, kids.len()) + pending_visits(rest)));
        }
    }
    proof {
        assert(pending_visits(deref_parts(stack@)) =~= Seq::empty());
        assert(deref_parts(order@) + Seq::<MessagePart>::empty() =~= deref_parts(order@));
    }
    order
}

/// The attachments that have to be fetched for a message, in the order of
/// the walk: the reference of each part that names an attachment and
/// carries no inline data.
pub fn extract_attachment_ids(message: &FullMessage) -> (ids: Vec<&AttachmentId>)
    ensures
        ids@.map_values(|id: &AttachmentId| *id) == attachment_refs(visit_order(message.payload)),
{
    let order = visit_parts(&message.payload);
    let mut ids: Vec<&AttachmentId> = Vec::new();
    let mut i: usize = 0;
    proof {
        assert(deref_parts(order@).take(0) =~= Seq::empty());
        assert(ids@.map_values(|id: &AttachmentId| *id) =~= Seq::empty());
    }
    while i < order.len()
        invariant
            i <= order.len(),
            deref_parts(order@) == visit_order(message.payload),
            ids@.map_values(|id: &AttachmentId| *id) == attachment_refs(
                deref_parts(order@).take(i as int),
            ),
        decreases order.len() - i,
    {
        let ghost found = ids@.map_values(|id: &AttachmentId| *id);
        proof {
            let upto = deref_parts(order@).take(i as int + 1);
            assert(upto.drop_last() =~= deref_parts(order@).take(i as int));
            assert(upto.last() == *order@[i as int]);
        }
        if order[i].body.data.is_none() {
            match &order[i].body.attachment_id {
                Some(id) => {
                    ids.push(id);
                    proof {
                        assert(ids@.map_values(|id: &AttachmentId| *id) =~= found.push(*id));
                    }
                },
                None => {},
            }
        }
        i += 1;
    }
    proof {
        assert(deref_parts(order@).take(order.len() as int) =~= deref_parts(order@));
    }
    ids
}

} // verus!
