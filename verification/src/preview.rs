//! The dry-run preview tree: a `ptree` tree whose nodes mirror, one for one,
//! the directories and files of a scaffold plan.
//!
//! The tree is modelled by two quantities: the stack of open node names from
//! the root down (`tree_stack`), and the sequence of node paths recorded so
//! far (`tree_nodes`).  Building the preview from a well-formed plan records
//! exactly the root plus one node per plan entry, with the same paths — so
//! the preview's shape equals the shape a real run would create.

use vstd::prelude::*;
use crate::plan::{
    is_prefix, node_is_dir, node_path, scaffold_plan, spec_scaffold_plan, stack_after, wf_at,
    wf_plan, CiChoice, NodeModel, PlanNode,
};
use crate::plan::lemma_scaffold_plan_wf;

verus! {

#[verifier::external_type_specification]
#[verifier::external_body]
pub struct ExTreeBuilder(ptree::TreeBuilder);

/// The names of the open nodes of the builder, root first: the nodes that
/// `begin_child` descended into and `end_child` has not yet closed.
pub uninterp spec fn tree_stack(t: ptree::TreeBuilder) -> Seq<Seq<char>>;

/// The paths of all nodes recorded in the builder so far, in creation order;
/// a path is the sequence of names from the root down to the node.
pub uninterp spec fn tree_nodes(t: ptree::TreeBuilder) -> Seq<Seq<Seq<char>>>;

/// Relies on `ptree::TreeBuilder::new`: a fresh builder holds exactly the
/// root node, which is open.
#[verifier::external_body]
fn tree_new(label: &str) -> (t: ptree::TreeBuilder)
    ensures
        tree_stack(t) == seq![label@],
        tree_nodes(t) == seq![seq![label@]],
{
    ptree::TreeBuilder::new(label.to_owned())
}

/// Relies on `ptree::TreeBuilder::begin_child`: it adds a child under the
/// innermost open node and opens it.  The builder's depth counter is a `u32`,
/// whence the bound on the stack.
#[verifier::external_body]
fn tree_begin_child(t: &mut ptree::TreeBuilder, name: &str)
    requires
        tree_stack(*old(t)).len() < 0xffff_ffff,
    ensures
        tree_stack(*final(t)) == tree_stack(*old(t)).push(name@),
        tree_nodes(*final(t)) == tree_nodes(*old(t)).push(tree_stack(*old(t)).push(name@)),
{
    t.begin_child(name.to_owned());
}

/// Relies on `ptree::TreeBuilder::add_empty_child`: it adds a leaf under the
/// innermost open node and leaves the stack as it was.
#[verifier::external_body]
fn tree_add_empty_child(t: &mut ptree::TreeBuilder, name: &str)
    requires
        tree_stack(*old(t)).len() < 0xffff_ffff,
    ensures
        tree_stack(*final(t)) == tree_stack(*old(t)),
        tree_nodes(*final(t)) == tree_nodes(*old(t)).push(tree_stack(*old(t)).push(name@)),
{
    t.add_empty_child(name.to_owned());
}

/// Relies on `ptree::TreeBuilder::end_child`: it closes the innermost open
/// node, recording nothing.  The root cannot be closed.
#[verifier::external_body]
fn tree_end_child(t: &mut ptree::TreeBuilder)
    requires
        tree_stack(*old(t)).len() >= 2,
    ensures
        tree_stack(*final(t)) == tree_stack(*old(t)).drop_last(),
        tree_nodes(*final(t)) == tree_nodes(*old(t)),
{
    t.end_child();
}

/// The node paths a preview of the plan records: the root label itself, then
/// one node per plan entry past the root, at the entry's path under the
/// label.
pub open spec fn spec_preview_nodes(label: Seq<char>, plan: Seq<NodeModel>) -> Seq<
    Seq<Seq<char>>,
> {
    seq![seq![label]] + plan.skip(1).map_values(|n: NodeModel| seq![label] + node_path(n))
}

proof fn lemma_preview_nodes_step(label: Seq<char>, plan: Seq<NodeModel>, i: int)
    requires
        1 <= i < plan.len(),
    ensures
        spec_preview_nodes(label, plan.take(i + 1)) == spec_preview_nodes(
            label,
            plan.take(i),
        ).push(seq![label] + node_path(plan[i])),
{
    assert(plan.take(i + 1).skip(1) =~= plan.take(i).skip(1).push(plan[i]));
    assert(spec_preview_nodes(label, plan.take(i + 1)) =~= spec_preview_nodes(
        label,
        plan.take(i),
    ).push(seq![label] + node_path(plan[i])));
}

/// Builds the preview tree of a well-formed plan under the given root label.
///
/// The preview's shape equals the plan's shape: the recorded node paths are
/// exactly the root label followed by every plan entry's path under it, in
/// plan order — the preview predicts precisely what a real run creates.
#[verifier::loop_isolation(false)]
pub fn preview_tree(label: &str, plan: &Vec<PlanNode>) -> (t: ptree::TreeBuilder)
    requires
        wf_plan(plan.deep_view()),
        forall|i: int|
            1 <= i < plan.deep_view().len() ==> node_path(
                #[trigger] plan.deep_view()[i],
            ).len() < 0xffff_fffe,
    ensures
        tree_stack(t) == seq![label@],
        tree_nodes(t) == spec_preview_nodes(label@, plan.deep_view()),
{
    let ghost dv: Seq<NodeModel> = plan.deep_view();
    let mut t = tree_new(label);
    let mut depth: usize = 0;
    let mut i: usize = 1;
    assert(seq![label@] + stack_after(dv, 0) =~= seq![label@]);
    assert(spec_preview_nodes(label@, dv.take(1)) =~= seq![seq![label@]]);
    while i < plan.len()
        invariant
            1 <= i <= plan.len(),
            depth == stack_after(dv, i - 1).len(),
            tree_stack(t) == seq![label@] + stack_after(dv, i - 1),
            tree_nodes(t) == spec_preview_nodes(label@, dv.take(i as int)),
        decreases plan.len() - i,
    {
        assert(wf_at(dv, i as int));
        let (path, is_dir): (&Vec<String>, bool) = match &plan[i] {
            PlanNode::Dir { path } => (path, true),
            PlanNode::File { path, .. } => (path, false),
        };
        assert(node_path(dv[i as int]) == path.deep_view());
        assert(node_is_dir(dv[i as int]) == is_dir);
        let ghost pre = stack_after(dv, i - 1);
        let parent_len: usize = path.len() - 1;
        assert(parent_len <= pre.len());
        assert(pre.take(depth as int) =~= pre);
        while depth > parent_len
            invariant
                parent_len <= depth <= pre.len(),
                tree_stack(t) == seq![label@] + pre.take(depth as int),
                tree_nodes(t) == spec_preview_nodes(label@, dv.take(i as int)),
            decreases depth,
        {
            tree_end_child(&mut t);
            assert((seq![label@] + pre.take(depth as int)).drop_last() =~= seq![label@]
                + pre.take(depth as int - 1));
            depth = depth - 1;
        }
        assert(pre.take(parent_len as int) =~= node_path(dv[i as int]).drop_last());
        let seg: &String = &path[path.len() - 1];
        assert(seg@ == node_path(dv[i as int]).last());
        proof {
            lemma_preview_nodes_step(label@, dv, i as int);
        }
        if is_dir {
            tree_begin_child(&mut t, seg.as_str());
            assert((seq![label@] + node_path(dv[i as int]).drop_last()).push(seg@) =~= seq![
                label@,
            ] + node_path(dv[i as int]));
            depth = parent_len + 1;
        } else {
            tree_add_empty_child(&mut t, seg.as_str());
            assert((seq![label@] + node_path(dv[i as int]).drop_last()).push(seg@) =~= seq![
                label@,
            ] + node_path(dv[i as int]));
        }
        i = i + 1;
    }
    assert(dv.take(dv.len() as int) =~= dv);
    let ghost fin = stack_after(dv, dv.len() - 1);
    assert(fin.take(depth as int) =~= fin);
    while depth > 0
        invariant
            depth <= fin.len(),
            tree_stack(t) == seq![label@] + fin.take(depth as int),
            tree_nodes(t) == spec_preview_nodes(label@, dv),
        decreases depth,
    {
        tree_end_child(&mut t);
        assert((seq![label@] + fin.take(depth as int)).drop_last() =~= seq![label@] + fin.take(
            depth as int - 1,
        ));
        depth = depth - 1;
    }
    assert(seq![label@] + fin.take(0) =~= seq![label@]);
    t
}

/// Builds the plan for the given project name and CI configuration and
/// renders its preview tree under the given root label: the dry-run view of
/// one whole run.
pub fn scaffold_preview(label: &str, name: &str, ci: &CiChoice) -> (t: ptree::TreeBuilder)
    ensures
        tree_stack(t) == seq![label@],
        tree_nodes(t) == spec_preview_nodes(
            label@,
            spec_scaffold_plan(name@, ci.deep_view()),
        ),
{
    let plan = scaffold_plan(name, ci);
    proof {
        lemma_scaffold_plan_wf(name@, ci.deep_view());
    }
    preview_tree(label, &plan)
}

} // verus!
