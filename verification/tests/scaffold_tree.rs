use amble::plan::{ci_unit, library_unit, scaffold_plan, CiChoice, PlanNode};
use amble::preview::scaffold_preview;
use ptree::item::StringItem;

fn path_of(node: &PlanNode) -> &Vec<String> {
    match node {
        PlanNode::Dir { path } => path,
        PlanNode::File { path, .. } => path,
    }
}

fn find_file<'a>(plan: &'a [PlanNode], want: &[&str]) -> Option<&'a String> {
    plan.iter().find_map(|n| match n {
        PlanNode::File { path, content } if path == want => Some(content),
        _ => None,
    })
}

fn has_dir(plan: &[PlanNode], want: &[&str]) -> bool {
    plan.iter()
        .any(|n| matches!(n, PlanNode::Dir { path } if path == want))
}

fn collect_tree_paths(item: &StringItem, prefix: &[String], out: &mut Vec<Vec<String>>) {
    let mut here = prefix.to_vec();
    here.push(item.text.clone());
    out.push(here.clone());
    for child in &item.children {
        collect_tree_paths(child, &here, out);
    }
}

#[test]
fn test_create() {
    let crates = library_unit("example");
    assert!(has_dir(&crates, &["crates", "example"]));
    assert!(has_dir(&crates, &["crates", "example", "src"]));
    let cargo_toml = find_file(&crates, &["crates", "example", "Cargo.toml"])
        .expect("Cargo.toml must be planned");
    assert!(cargo_toml.len() > 0);
    let lib_rs = find_file(&crates, &["crates", "example", "src", "lib.rs"])
        .expect("lib.rs must be planned");
    assert!(lib_rs.len() > 0);
}

#[test]
fn test_create_dry_run() {
    // the dry run consumes only the preview; its tree must show the library
    // crate exactly where a real run would create it
    let mut tree = scaffold_preview("project", "example", &CiChoice::Off);
    let built = tree.build();
    let mut paths: Vec<Vec<String>> = Vec::new();
    collect_tree_paths(&built, &[], &mut paths);
    let expect = |segs: &[&str]| -> Vec<String> { segs.iter().map(|s| s.to_string()).collect() };
    assert!(paths.contains(&expect(&["project", "crates"])));
    assert!(paths.contains(&expect(&["project", "crates", "common", "Cargo.toml"])));
    assert!(paths.contains(&expect(&["project", "crates", "common", "src"])));
    assert!(paths.contains(&expect(&["project", "crates", "common", "src", "lib.rs"])));
}

#[test]
fn test_scaffold_plan_complete() {
    let plan = scaffold_plan("example", &CiChoice::Off);
    for want in [
        vec!["Cargo.toml"],
        vec!["bin", "example", "Cargo.toml"],
        vec!["bin", "example", "src", "main.rs"],
        vec!["crates", "common", "Cargo.toml"],
        vec!["crates", "common", "src", "lib.rs"],
    ] {
        let content = find_file(&plan, &want).expect("planned file missing");
        assert!(content.len() > 0);
    }
    assert!(has_dir(&plan, &["bin", "example"]));
    assert!(has_dir(&plan, &["crates", "common"]));
}

#[test]
fn test_scaffold_demo() {
    let plan = scaffold_plan("demo", &CiChoice::Off);
    assert!(has_dir(&plan, &["bin", "demo"]));
    assert!(find_file(&plan, &["bin", "demo", "src", "main.rs"]).is_some());
    let manifest = find_file(&plan, &["crates", "common", "Cargo.toml"]).unwrap();
    assert!(manifest.contains("name = \"common\""));
    assert!(manifest.contains("description = \"common crate\""));
}

#[test]
fn test_preview_matches_plan() {
    // structural equivalence: the preview's node paths are exactly the root
    // label plus every planned path under it, for the same inputs
    for ci in [
        CiChoice::Off,
        CiChoice::BuiltIn,
        CiChoice::Custom { file_name: "my.yml".to_string(), content: "jobs: {}\n".to_string() },
    ] {
        let plan = scaffold_plan("demo", &ci);
        let mut tree = scaffold_preview("proj", "demo", &ci);
        let mut tree_paths: Vec<Vec<String>> = Vec::new();
        collect_tree_paths(&tree.build(), &[], &mut tree_paths);

        let mut plan_paths: Vec<Vec<String>> = vec![vec!["proj".to_string()]];
        for node in plan.iter().skip(1) {
            let mut p = vec!["proj".to_string()];
            p.extend(path_of(node).iter().cloned());
            plan_paths.push(p);
        }
        assert_eq!(tree_paths, plan_paths);
    }
}

#[test]
fn test_ci_units() {
    assert!(ci_unit(&CiChoice::Off).is_empty());

    let built_in = ci_unit(&CiChoice::BuiltIn);
    assert!(has_dir(&built_in, &[".github", "workflows"]));
    let wf = find_file(&built_in, &[".github", "workflows", "ci.yml"]).unwrap();
    assert!(wf.contains("jobs:"));

    let custom = ci_unit(&CiChoice::Custom {
        file_name: "deploy.yml".to_string(),
        content: "name: deploy\n".to_string(),
    });
    let wf = find_file(&custom, &[".github", "workflows", "deploy.yml"]).unwrap();
    assert_eq!(wf, "name: deploy\n");
    assert!(find_file(&custom, &[".github", "workflows", "ci.yml"]).is_none());
}
