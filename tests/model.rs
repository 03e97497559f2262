use deploy_model::application::{Application, PathNameError};
use deploy_model::environment::Environment;
use deploy_model::project::Project;
use std::path::Path;

#[test]
fn application_from_path() {
    let name = "python-flask-docker";
    let path = Path::new("../../").join(name);
    let a = Application::from_path(&path).unwrap();
    assert_eq!(a.name(), name);
}

#[test]
fn environment_new() {
    let name = "prod";
    let e = Environment::new(name);
    assert_eq!(e.name(), name);
}

#[test]
fn project_new() {
    let name = "myproject";
    let p = Project::new(name);
    assert_eq!(p.name(), name);
}

#[test]
fn project_new_environment() {
    let p_name = "myproject";
    let e_name = "prod";
    let e = Environment::new(e_name);
    assert_eq!(e.name(), e_name);

    let mut p = Project::new(p_name);
    assert!(!p.has_env());
    assert_eq!(p.count_envs(), 0);

    p.push_env(e);
    assert!(p.has_env());
    assert_eq!(p.count_envs(), 1);
}

#[test]
fn environment_keeps_any_name() {
    for n in ["", "staging", "prod eu-west", "ünïcødé"] {
        assert_eq!(Environment::new(n).name(), n);
    }
}

#[test]
fn application_keeps_any_name() {
    for n in ["", "web", "python-flask-docker", "ünïcødé"] {
        assert_eq!(Application::new(n).name(), n);
    }
}

#[test]
fn application_from_absolute_path() {
    let a = Application::from_path(Path::new("/srv/apps/python-flask-docker")).unwrap();
    assert_eq!(a.name(), "python-flask-docker");
}

#[test]
fn application_from_path_with_trailing_slash() {
    let a = Application::from_path(Path::new("/srv/apps/api/")).unwrap();
    assert_eq!(a.name(), "api");
}

#[test]
fn fresh_project_has_no_env() {
    let p = Project::new("myproject");
    assert!(!p.has_env());
    assert_eq!(p.count_envs(), 0);
    assert!(p.envs().is_none());
}

#[test]
fn one_env_named_prod() {
    let mut p = Project::new("myproject");
    p.push_env(Environment::new("prod"));
    assert!(p.has_env());
    assert_eq!(p.count_envs(), 1);
    let envs = p.envs().unwrap();
    assert_eq!(envs.len(), 1);
    assert_eq!(envs[0].name(), "prod");
    assert_eq!(p.name(), "myproject");
}

#[test]
fn envs_kept_in_insertion_order() {
    let names = ["dev", "staging", "prod", "dev"];
    let mut p = Project::new("shop");
    for (i, n) in names.iter().enumerate() {
        p.push_env(Environment::new(n));
        assert_eq!(p.count_envs(), i + 1);
    }
    let envs = p.envs().unwrap();
    let got: Vec<&str> = envs.iter().map(|e| e.name()).collect();
    assert_eq!(got, names.to_vec());
    assert_eq!(p.name(), "shop");
}

#[test]
fn root_path_is_an_error() {
    let r = Application::from_path(Path::new("/"));
    assert_eq!(r.err(), Some(PathNameError::EmptyOrRootPath));
}

#[test]
fn empty_path_is_an_error() {
    let r = Application::from_path(Path::new(""));
    assert_eq!(r.err(), Some(PathNameError::EmptyOrRootPath));
}

#[test]
fn path_ending_in_parent_is_an_error() {
    let r = Application::from_path(Path::new("../.."));
    assert_eq!(r.err(), Some(PathNameError::EmptyOrRootPath));
}

#[test]
fn segment_outcomes() {
    let a = Application::from_segment(Some(Some(String::from("python-flask-docker")))).unwrap();
    assert_eq!(a.name(), "python-flask-docker");
    assert_eq!(Application::from_segment(None).err(), Some(PathNameError::EmptyOrRootPath));
    assert_eq!(Application::from_segment(Some(None)).err(), Some(PathNameError::NonTextSegment));
}
