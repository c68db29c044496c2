use settings::host::{Probe, Source};
use settings::resolver::{
    candidates, candidates_with, config_path_var, first_present, FILE_NAME, VARIABLE_SUFFIX,
};
use std::io::{Error as IoError, ErrorKind};
use std::path::{Path, PathBuf};

#[test]
fn variable_name_is_upper_cased_application_and_suffix() {
    assert_eq!(config_path_var("Bar-App"), "BAR-APP_CONFIG_PATH");
    assert_eq!(config_path_var("myapp"), "MYAPP_CONFIG_PATH");
    assert_eq!(config_path_var("ALREADY"), "ALREADY_CONFIG_PATH");
}

#[test]
fn variable_name_of_empty_application_is_the_suffix() {
    assert_eq!(config_path_var(""), "_CONFIG_PATH");
    assert_eq!(VARIABLE_SUFFIX, "_CONFIG_PATH");
}

#[test]
fn variable_name_upper_cases_beyond_ascii() {
    assert_eq!(config_path_var("straße"), "STRASSE_CONFIG_PATH");
    assert_eq!(config_path_var("été 2"), "ÉTÉ 2_CONFIG_PATH");
}

#[test]
fn file_name_is_fixed() {
    assert_eq!(FILE_NAME, "settings.ron");
}

#[test]
fn all_three_candidates_in_priority_order() {
    let paths = candidates_with(
        Some(String::from("/etc/bar/override.ron")),
        Some(PathBuf::from("/work")),
        Some(PathBuf::from("/home/alice/.config/barapp")),
    );
    assert_eq!(
        paths,
        vec![
            PathBuf::from("/etc/bar/override.ron"),
            PathBuf::from("/work/settings.ron"),
            PathBuf::from("/home/alice/.config/barapp/settings.ron"),
        ]
    );
}

#[test]
fn unknown_inputs_give_no_candidate() {
    assert_eq!(candidates_with(None, None, None), Vec::<PathBuf>::new());
    assert_eq!(
        candidates_with(None, Some(PathBuf::from("/work")), None),
        vec![PathBuf::from("/work/settings.ron")]
    );
    assert_eq!(
        candidates_with(None, None, Some(PathBuf::from("/cfg"))),
        vec![PathBuf::from("/cfg/settings.ron")]
    );
    assert_eq!(
        candidates_with(Some(String::from("relative.ron")), None, Some(PathBuf::from("/cfg"))),
        vec![PathBuf::from("relative.ron"), PathBuf::from("/cfg/settings.ron")]
    );
}

#[test]
fn variable_value_is_taken_as_it_is() {
    let paths = candidates_with(Some(String::from("not a/../tidy//path")), None, None);
    assert_eq!(paths, vec![PathBuf::from("not a/../tidy//path")]);
    let paths = candidates_with(Some(String::new()), None, None);
    assert_eq!(paths, vec![PathBuf::new()]);
}

#[test]
fn directory_candidates_are_the_file_inside_the_directory() {
    let dir = PathBuf::from("/work/dir");
    let paths = candidates_with(None, Some(dir.clone()), Some(dir.clone()));
    assert_eq!(paths.len(), 2);
    for path in &paths {
        assert_ne!(path, &dir);
        assert_eq!(path.parent(), Some(Path::new("/work/dir")));
        assert_eq!(path.file_name().and_then(|name| name.to_str()), Some("settings.ron"));
    }
}

#[test]
fn candidates_end_with_the_platform_directory() {
    let paths = candidates(
        Some(String::from("/etc/bar/override.ron")),
        Some(PathBuf::from("/work")),
        "com",
        "Foo-Corp",
        "Bar-App",
    );
    assert_eq!(paths[0], PathBuf::from("/etc/bar/override.ron"));
    assert_eq!(paths[1], PathBuf::from("/work/settings.ron"));
    match directories::ProjectDirs::from("com", "Foo-Corp", "Bar-App") {
        Some(dirs) => {
            assert_eq!(paths.len(), 3);
            assert_eq!(paths[2], dirs.config_dir().join("settings.ron"));
        }
        None => assert_eq!(paths.len(), 2),
    }
}

#[test]
fn candidates_without_variable_or_current_dir() {
    let paths = candidates(None, None, "org", "Example", "Tool");
    match directories::ProjectDirs::from("org", "Example", "Tool") {
        Some(dirs) => assert_eq!(paths, vec![dirs.config_dir().join("settings.ron")]),
        None => assert!(paths.is_empty()),
    }
}

#[test]
fn first_present_of_no_probes() {
    assert_eq!(first_present(&Vec::new()), None);
}

#[test]
fn first_present_skips_missing() {
    let probes = vec![Probe::Missing, Probe::Missing, Probe::Present(Source::Read(vec![1, 2]))];
    assert_eq!(first_present(&probes), Some(2));
}

#[test]
fn first_present_is_the_earliest() {
    let probes = vec![
        Probe::Missing,
        Probe::Present(Source::Unopened(IoError::from(ErrorKind::PermissionDenied))),
        Probe::Present(Source::Read(Vec::new())),
    ];
    assert_eq!(first_present(&probes), Some(1));
    let probes = vec![Probe::Present(Source::Read(Vec::new())), Probe::Present(Source::Read(Vec::new()))];
    assert_eq!(first_present(&probes), Some(0));
}

#[test]
fn first_present_of_all_missing() {
    let probes = vec![Probe::Missing, Probe::Missing, Probe::Missing];
    assert_eq!(first_present(&probes), None);
}
