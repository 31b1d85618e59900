//! The scaffold plan: the exact sequence of directories and files one run
//! creates, with their contents.
//!
//! The orchestrator walks a fixed sequence of units — root metadata, the
//! binary crate, the library crate, and optionally a CI workflow — and each
//! unit contributes its nodes in creation order.  The surrounding program
//! either materializes the plan on disk (non-dry run) or renders its preview
//! tree (dry run); the plan itself never touches the file system.

use vstd::prelude::*;
use crate::manifest::{manifest_text, spec_manifest, toml_text_of, CrateRole};

verus! {

/// One node of the plan: a directory to create, or a file to write with the
/// given contents.  The path is relative to the project root, one segment per
/// component.
#[derive(Debug, Clone)]
pub enum PlanNode {
    Dir { path: Vec<String> },
    File { path: Vec<String>, content: String },
}

/// The mathematical model of a plan node.
#[verifier::ext_equal]
pub enum NodeModel {
    Dir { path: Seq<Seq<char>> },
    File { path: Seq<Seq<char>>, content: Seq<char> },
}

impl View for PlanNode {
    type V = NodeModel;

    open spec fn view(&self) -> NodeModel {
        match self {
            PlanNode::Dir { path } => NodeModel::Dir { path: path.deep_view() },
            PlanNode::File { path, content } => NodeModel::File {
                path: path.deep_view(),
                content: content.deep_view(),
            },
        }
    }
}

impl DeepView for PlanNode {
    type V = NodeModel;

    open spec fn deep_view(&self) -> NodeModel {
        self.view()
    }
}

/// The node's path, one segment per component, relative to the project root.
pub open spec fn node_path(n: NodeModel) -> Seq<Seq<char>> {
    match n {
        NodeModel::Dir { path } => path,
        NodeModel::File { path, .. } => path,
    }
}

/// Whether the node is a directory.
pub open spec fn node_is_dir(n: NodeModel) -> bool {
    n is Dir
}

/// How the CI workflow unit is configured: absent, from the built-in
/// template, or copied from a user-supplied file.  At most one of the two
/// sources is applied.
#[derive(Debug, Clone)]
pub enum CiChoice {
    Off,
    BuiltIn,
    Custom { file_name: String, content: String },
}

/// The mathematical model of a CI configuration.
#[verifier::ext_equal]
pub enum CiModel {
    Off,
    BuiltIn,
    Custom { file_name: Seq<char>, content: Seq<char> },
}

impl View for CiChoice {
    type V = CiModel;

    open spec fn view(&self) -> CiModel {
        match self {
            CiChoice::Off => CiModel::Off,
            CiChoice::BuiltIn => CiModel::BuiltIn,
            CiChoice::Custom { file_name, content } => CiModel::Custom {
                file_name: file_name.deep_view(),
                content: content.deep_view(),
            },
        }
    }
}

impl DeepView for CiChoice {
    type V = CiModel;

    open spec fn deep_view(&self) -> CiModel {
        self.view()
    }
}

/// The workspace manifest written at the project root: workspace members and
/// the centrally managed package fields and dependency versions that the
/// generated crate manifests inherit.
pub open spec fn spec_workspace_manifest() -> Seq<char> {
    "[workspace]\nmembers = [\"bin/*\", \"crates/*\"]\nresolver = \"2\"\n\n[workspace.package]\nversion = \"0.1.0\"\nedition = \"2021\"\nauthors = []\nlicense = \"MIT\"\nrepository = \"\"\nhomepage = \"\"\n\n[workspace.dependencies]\nserde = \"1\"\nserde_json = \"1\"\neyre = \"0.6\"\ntracing = \"0.1\"\n"@
}

/// The workspace manifest template.
pub fn workspace_manifest_template() -> (r: &'static str)
    ensures
        r@ == spec_workspace_manifest(),
{
    "[workspace]\nmembers = [\"bin/*\", \"crates/*\"]\nresolver = \"2\"\n\n[workspace.package]\nversion = \"0.1.0\"\nedition = \"2021\"\nauthors = []\nlicense = \"MIT\"\nrepository = \"\"\nhomepage = \"\"\n\n[workspace.dependencies]\nserde = \"1\"\nserde_json = \"1\"\neyre = \"0.6\"\ntracing = \"0.1\"\n"
}

/// The ignore file written at the project root.
pub open spec fn spec_gitignore() -> Seq<char> {
    "/target\n"@
}

/// The ignore-file template.
pub fn gitignore_template() -> (r: &'static str)
    ensures
        r@ == spec_gitignore(),
{
    "/target\n"
}

/// The entry point written for the binary crate.
pub open spec fn spec_main_rs() -> Seq<char> {
    "fn main() {\n    tracing::info!(\"hello from the scaffold\");\n}\n"@
}

/// The binary entry-point template.
pub fn main_rs_template() -> (r: &'static str)
    ensures
        r@ == spec_main_rs(),
{
    "fn main() {\n    tracing::info!(\"hello from the scaffold\");\n}\n"
}

/// The entry point written for the library crate: lint boilerplate and a
/// placeholder module.
pub open spec fn spec_lib_rs() -> Seq<char> {
    "#![warn(missing_debug_implementations, unreachable_pub, rustdoc::all)]\n#![deny(unused_must_use, rust_2018_idioms)]\n\nmod placeholder {\n    struct Placeholder;\n}\n"@
}

/// The library entry-point template.
pub fn lib_rs_template() -> (r: &'static str)
    ensures
        r@ == spec_lib_rs(),
{
    "#![warn(missing_debug_implementations, unreachable_pub, rustdoc::all)]\n#![deny(unused_must_use, rust_2018_idioms)]\n\nmod placeholder {\n    struct Placeholder;\n}\n"
}

/// The built-in CI workflow.
pub open spec fn spec_ci_yml() -> Seq<char> {
    "name: ci\n\non: [push, pull_request]\n\njobs:\n  build:\n    runs-on: ubuntu-latest\n    steps:\n      - uses: actions/checkout@v4\n      - run: cargo build --all-features\n      - run: cargo test --all-features\n"@
}

/// The built-in CI workflow template.
pub fn ci_yml_template() -> (r: &'static str)
    ensures
        r@ == spec_ci_yml(),
{
    "name: ci\n\non: [push, pull_request]\n\njobs:\n  build:\n    runs-on: ubuntu-latest\n    steps:\n      - uses: actions/checkout@v4\n      - run: cargo build --all-features\n      - run: cargo test --all-features\n"
}

fn path1(a: &str) -> (r: Vec<String>)
    ensures
        r.deep_view() == seq![a@],
{
    let mut p: Vec<String> = Vec::new();
    p.push(a.to_owned());
    assert(p.deep_view() =~= seq![a@]);
    p
}

fn path2(a: &str, b: &str) -> (r: Vec<String>)
    ensures
        r.deep_view() == seq![a@, b@],
{
    let mut p: Vec<String> = Vec::new();
    p.push(a.to_owned());
    p.push(b.to_owned());
    assert(p.deep_view() =~= seq![a@, b@]);
    p
}

fn path3(a: &str, b: &str, c: &str) -> (r: Vec<String>)
    ensures
        r.deep_view() == seq![a@, b@, c@],
{
    let mut p: Vec<String> = Vec::new();
    p.push(a.to_owned());
    p.push(b.to_owned());
    p.push(c.to_owned());
    assert(p.deep_view() =~= seq![a@, b@, c@]);
    p
}

fn path4(a: &str, b: &str, c: &str, d: &str) -> (r: Vec<String>)
    ensures
        r.deep_view() == seq![a@, b@, c@, d@],
{
    let mut p: Vec<String> = Vec::new();
    p.push(a.to_owned());
    p.push(b.to_owned());
    p.push(c.to_owned());
    p.push(d.to_owned());
    assert(p.deep_view() =~= seq![a@, b@, c@, d@]);
    p
}

/// The root unit: the project directory itself and its metadata files.
pub open spec fn spec_root_unit() -> Seq<NodeModel> {
    seq![
        NodeModel::Dir { path: Seq::empty() },
        NodeModel::File { path: seq!["Cargo.toml"@], content: spec_workspace_manifest() },
        NodeModel::File { path: seq![".gitignore"@], content: spec_gitignore() },
    ]
}

/// The binary unit under `bin`: the crate directory, its generated manifest,
/// and its entry point.
pub open spec fn spec_binary_unit(name: Seq<char>) -> Seq<NodeModel> {
    seq![
        NodeModel::Dir { path: seq!["bin"@] },
        NodeModel::Dir { path: seq!["bin"@, name] },
        NodeModel::File {
            path: seq!["bin"@, name, "Cargo.toml"@],
            content: toml_text_of(spec_manifest(name, CrateRole::Binary)),
        },
        NodeModel::Dir { path: seq!["bin"@, name, "src"@] },
        NodeModel::File { path: seq!["bin"@, name, "src"@, "main.rs"@], content: spec_main_rs() },
    ]
}

/// The library unit under `crates`: the crate directory, its generated
/// manifest, and its entry point.
pub open spec fn spec_library_unit(name: Seq<char>) -> Seq<NodeModel> {
    seq![
        NodeModel::Dir { path: seq!["crates"@] },
        NodeModel::Dir { path: seq!["crates"@, name] },
        NodeModel::File {
            path: seq!["crates"@, name, "Cargo.toml"@],
            content: toml_text_of(spec_manifest(name, CrateRole::Library)),
        },
        NodeModel::Dir { path: seq!["crates"@, name, "src"@] },
        NodeModel::File { path: seq!["crates"@, name, "src"@, "lib.rs"@], content: spec_lib_rs() },
    ]
}

/// The CI unit under `.github/workflows`: absent, the built-in workflow, or a
/// copy of the user-supplied file.
pub open spec fn spec_ci_unit(ci: CiModel) -> Seq<NodeModel> {
    match ci {
        CiModel::Off => Seq::empty(),
        CiModel::BuiltIn => seq![
            NodeModel::Dir { path: seq![".github"@] },
            NodeModel::Dir { path: seq![".github"@, "workflows"@] },
            NodeModel::File { path: seq![".github"@, "workflows"@, "ci.yml"@], content: spec_ci_yml() },
        ],
        CiModel::Custom { file_name, content } => seq![
            NodeModel::Dir { path: seq![".github"@] },
            NodeModel::Dir { path: seq![".github"@, "workflows"@] },
            NodeModel::File { path: seq![".github"@, "workflows"@, file_name], content: content },
        ],
    }
}

/// The whole plan of one run, in creation order: root metadata, the binary
/// crate named after the project, the library crate under its fixed
/// conventional name `common`, and optionally the CI workflow.
pub open spec fn spec_scaffold_plan(name: Seq<char>, ci: CiModel) -> Seq<NodeModel> {
    spec_root_unit() + spec_binary_unit(name) + spec_library_unit("common"@) + spec_ci_unit(ci)
}

/// Builds the root unit's nodes.
pub fn root_unit() -> (r: Vec<PlanNode>)
    ensures
        r.deep_view() == spec_root_unit(),
{
    let mut v: Vec<PlanNode> = Vec::new();
    v.push(PlanNode::Dir { path: Vec::new() });
    v.push(PlanNode::File {
        path: path1("Cargo.toml"),
        content: workspace_manifest_template().to_owned(),
    });
    v.push(PlanNode::File { path: path1(".gitignore"), content: gitignore_template().to_owned() });
    assert(v.deep_view() =~~= spec_root_unit());
    v
}

/// Builds the binary unit's nodes for a binary crate of the given name.
pub fn binary_unit(name: &str) -> (r: Vec<PlanNode>)
    ensures
        r.deep_view() == spec_binary_unit(name@),
{
    let mut v: Vec<PlanNode> = Vec::new();
    v.push(PlanNode::Dir { path: path1("bin") });
    v.push(PlanNode::Dir { path: path2("bin", name) });
    v.push(PlanNode::File {
        path: path3("bin", name, "Cargo.toml"),
        content: manifest_text(name, CrateRole::Binary),
    });
    v.push(PlanNode::Dir { path: path3("bin", name, "src") });
    v.push(PlanNode::File {
        path: path4("bin", name, "src", "main.rs"),
        content: main_rs_template().to_owned(),
    });
    assert(v.deep_view() =~~= spec_binary_unit(name@));
    v
}

/// Builds the library unit's nodes for a library crate of the given name.
pub fn library_unit(name: &str) -> (r: Vec<PlanNode>)
    ensures
        r.deep_view() == spec_library_unit(name@),
{
    let mut v: Vec<PlanNode> = Vec::new();
    v.push(PlanNode::Dir { path: path1("crates") });
    v.push(PlanNode::Dir { path: path2("crates", name) });
    v.push(PlanNode::File {
        path: path3("crates", name, "Cargo.toml"),
        content: manifest_text(name, CrateRole::Library),
    });
    v.push(PlanNode::Dir { path: path3("crates", name, "src") });
    v.push(PlanNode::File {
        path: path4("crates", name, "src", "lib.rs"),
        content: lib_rs_template().to_owned(),
    });
    assert(v.deep_view() =~~= spec_library_unit(name@));
    v
}

/// Builds the CI unit's nodes for the given configuration.
pub fn ci_unit(ci: &CiChoice) -> (r: Vec<PlanNode>)
    ensures
        r.deep_view() == spec_ci_unit(ci.deep_view()),
{
    let mut v: Vec<PlanNode> = Vec::new();
    match ci {
        CiChoice::Off => {},
        CiChoice::BuiltIn => {
            v.push(PlanNode::Dir { path: path1(".github") });
            v.push(PlanNode::Dir { path: path2(".github", "workflows") });
            v.push(PlanNode::File {
                path: path3(".github", "workflows", "ci.yml"),
                content: ci_yml_template().to_owned(),
            });
        },
        CiChoice::Custom { file_name, content } => {
            v.push(PlanNode::Dir { path: path1(".github") });
            v.push(PlanNode::Dir { path: path2(".github", "workflows") });
            v.push(PlanNode::File {
                path: path3(".github", "workflows", file_name.as_str()),
                content: content.clone(),
            });
        },
    }
    assert(v.deep_view() =~~= spec_ci_unit(ci.deep_view()));
    v
}

/// Builds the whole plan of one run: root metadata, the binary crate named
/// after the project, the library crate `common`, and optionally the CI
/// workflow.
pub fn scaffold_plan(name: &str, ci: &CiChoice) -> (r: Vec<PlanNode>)
    ensures
        r.deep_view() == spec_scaffold_plan(name@, ci.deep_view()),
{
    let mut v = root_unit();
    let mut b = binary_unit(name);
    v.append(&mut b);
    let mut l = library_unit("common");
    v.append(&mut l);
    let mut c = ci_unit(ci);
    v.append(&mut c);
    assert(v.deep_view() =~= spec_scaffold_plan(name@, ci.deep_view()));
    v
}

/// Whether `a` is a prefix of `b`, segment by segment.
pub open spec fn is_prefix(a: Seq<Seq<char>>, b: Seq<Seq<char>>) -> bool {
    a.len() <= b.len() && forall|k: int| 0 <= k < a.len() ==> a[k] == #[trigger] b[k]
}

/// The directory that is open after processing node `i` of the plan: a
/// directory node stays open itself, a file node leaves its parent open.
/// Before any node past the root is processed, the project root (the empty
/// path) is open.
pub open spec fn stack_after(plan: Seq<NodeModel>, i: int) -> Seq<Seq<char>> {
    if i <= 0 {
        Seq::empty()
    } else if node_is_dir(plan[i]) {
        node_path(plan[i])
    } else {
        node_path(plan[i]).drop_last()
    }
}

/// Node `i` is well-placed: its parent directory is, at that point, among the
/// open directories, so creation order is a depth-first walk.
pub open spec fn wf_at(plan: Seq<NodeModel>, i: int) -> bool {
    node_path(plan[i]).len() >= 1 && is_prefix(
        node_path(plan[i]).drop_last(),
        stack_after(plan, i - 1),
    )
}

/// A well-formed plan: it starts with the project root directory, and every
/// later node sits directly under a directory that is open when the node is
/// processed.
pub open spec fn wf_plan(plan: Seq<NodeModel>) -> bool {
    &&& plan.len() >= 1
    &&& plan[0] == NodeModel::Dir { path: Seq::<Seq<char>>::empty() }
    &&& forall|i: int| 1 <= i < plan.len() ==> #[trigger] wf_at(plan, i)
}

/// Every plan the orchestrator builds is well-formed, whatever the project
/// name and CI configuration.
pub proof fn lemma_scaffold_plan_wf(name: Seq<char>, ci: CiModel)
    ensures
        wf_plan(spec_scaffold_plan(name, ci)),
        forall|i: int|
            1 <= i < spec_scaffold_plan(name, ci).len() ==> node_path(
                #[trigger] spec_scaffold_plan(name, ci)[i],
            ).len() <= 4,
{
    let p = spec_scaffold_plan(name, ci);
    assert(p[0] == NodeModel::Dir { path: Seq::<Seq<char>>::empty() });
    assert(node_path(p[1]).len() <= 4);
    assert(node_path(p[2]).len() <= 4);
    assert(node_path(p[3]).len() <= 4);
    assert(node_path(p[4]).len() <= 4);
    assert(node_path(p[5]).len() <= 4);
    assert(node_path(p[6]).len() <= 4);
    assert(node_path(p[7]).len() <= 4);
    assert(node_path(p[8]).len() <= 4);
    assert(node_path(p[9]).len() <= 4);
    assert(node_path(p[10]).len() <= 4);
    assert(node_path(p[11]).len() <= 4);
    assert(node_path(p[12]).len() <= 4);
    assert(wf_at(p, 1));
    assert(wf_at(p, 2));
    assert(wf_at(p, 3));
    assert(wf_at(p, 4));
    assert(wf_at(p, 5));
    assert(wf_at(p, 6));
    assert(wf_at(p, 7));
    assert(wf_at(p, 8));
    assert(wf_at(p, 9));
    assert(wf_at(p, 10));
    assert(wf_at(p, 11));
    assert(wf_at(p, 12));
    match ci {
        CiModel::Off => {
            assert(p.len() == 13);
        },
        CiModel::BuiltIn => {
            assert(wf_at(p, 13));
            assert(wf_at(p, 14));
            assert(wf_at(p, 15));
            assert(node_path(p[13]).len() <= 4);
            assert(node_path(p[14]).len() <= 4);
            assert(node_path(p[15]).len() <= 4);
            assert(p.len() == 16);
        },
        CiModel::Custom { file_name, content } => {
            assert(wf_at(p, 13));
            assert(wf_at(p, 14));
            assert(wf_at(p, 15));
            assert(node_path(p[13]).len() <= 4);
            assert(node_path(p[14]).len() <= 4);
            assert(node_path(p[15]).len() <= 4);
            assert(p.len() == 16);
        },
    }
}

} // verus!
