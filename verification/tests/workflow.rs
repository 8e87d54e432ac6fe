use tp::config::ConfigurationError;
use tp::workflow::{
    comes_first, is_workflow_file, order_workflows, select_workflow, workflow_files,
    WorkflowChoice,
};

fn names(list: &[&str]) -> Vec<String> {
    list.iter().map(|s| s.to_string()).collect()
}

fn chars(s: &str) -> Vec<char> {
    s.chars().collect()
}

#[test]
fn workflow_files_end_in_yml_or_yaml() {
    assert!(is_workflow_file("ci.yml"));
    assert!(is_workflow_file("release-plz.yaml"));
    assert!(is_workflow_file("a.b.yml"));
    assert!(is_workflow_file("..yml"));
    assert!(!is_workflow_file(".yml"));
    assert!(!is_workflow_file(".yaml"));
    assert!(!is_workflow_file("yml"));
    assert!(!is_workflow_file("ci.yml.bak"));
    assert!(!is_workflow_file("ci.YML"));
    assert!(!is_workflow_file("ci.toml"));
    assert!(!is_workflow_file("ci."));
    assert!(!is_workflow_file(""));
}

#[test]
fn the_order_of_the_dictionary() {
    assert!(comes_first(&chars(""), &chars("")));
    assert!(comes_first(&chars(""), &chars("a")));
    assert!(!comes_first(&chars("a"), &chars("")));
    assert!(comes_first(&chars("ab"), &chars("abc")));
    assert!(!comes_first(&chars("abc"), &chars("ab")));
    assert!(comes_first(&chars("abc"), &chars("abd")));
    assert!(!comes_first(&chars("b"), &chars("abc")));
    assert!(comes_first(&chars("Z"), &chars("a")));
    assert!(comes_first(&chars("same"), &chars("same")));
}

#[test]
fn the_workflow_files_of_a_directory_come_sorted() {
    let found = workflow_files(names(&[
        "test.yml",
        "README.md",
        "ci.yaml",
        ".yml",
        "release-plz.yml",
        "Build.yml",
        "ci.yml",
    ]));
    let mut expected = names(&["test.yml", "ci.yaml", "release-plz.yml", "Build.yml", "ci.yml"]);
    expected.sort();
    assert_eq!(found, expected);
    assert_eq!(found, names(&["Build.yml", "ci.yaml", "ci.yml", "release-plz.yml", "test.yml"]));
    assert_eq!(workflow_files(vec![]), Vec::<String>::new());
}

#[test]
fn the_preferred_workflow_moves_to_the_front() {
    assert_eq!(
        order_workflows(names(&["a.yml", "b.yml", "release-plz.yml", "z.yml"])),
        names(&["release-plz.yml", "a.yml", "b.yml", "z.yml"])
    );
    assert_eq!(
        order_workflows(names(&["a.yml", "release-plz.yml", "b.yml", "release-plz.yml"])),
        names(&["release-plz.yml", "a.yml", "b.yml", "release-plz.yml"])
    );
    assert_eq!(order_workflows(names(&["a.yml", "b.yml"])), names(&["a.yml", "b.yml"]));
    assert_eq!(order_workflows(vec![]), Vec::<String>::new());
}

#[test]
fn without_workflow_files_one_has_to_be_named() {
    assert_eq!(select_workflow(vec![]), Err(ConfigurationError::NoWorkflow));
}

#[test]
fn the_only_workflow_file_is_taken() {
    assert_eq!(
        select_workflow(names(&["ci.yml"])),
        Ok(WorkflowChoice::Only { file: "ci.yml".to_string() })
    );
}

#[test]
fn of_several_workflow_files_the_user_is_asked() {
    assert_eq!(
        select_workflow(names(&["ci.yml", "release-plz.yml"])),
        Ok(WorkflowChoice::Ask { choices: names(&["release-plz.yml", "ci.yml"]) })
    );
    assert_eq!(
        select_workflow(names(&["ci.yml", "docs.yml"])),
        Ok(WorkflowChoice::Ask { choices: names(&["ci.yml", "docs.yml"]) })
    );
}
