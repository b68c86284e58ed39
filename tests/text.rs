use python_project::config::LicenseType;
use python_project::files::{check_version, decimal_string};
use python_project::licenses::create_license_file;
use python_project::slug::{module_name, project_slug};

#[test]
fn slug_of_my_cool_app() {
    assert_eq!(project_slug("My Cool App"), "my-cool-app");
    assert_eq!(project_slug("My Cool App"), project_slug("My Cool App"));
}

#[test]
fn slug_has_no_empty_segments() {
    assert_eq!(project_slug("  Hello -- World!! 2 "), "hello-world-2");
    assert_eq!(project_slug("snake_case"), "snake_case");
    assert_eq!(project_slug("!!!"), "");
    assert_eq!(project_slug(""), "");
    assert_eq!(project_slug(&project_slug("My Cool App")), "my-cool-app");
}

#[test]
fn module_name_replaces_hyphens() {
    assert_eq!(module_name("my-cool-app"), "my_cool_app");
    assert_eq!(module_name("plain"), "plain");
}

#[test]
fn decimal_strings() {
    assert_eq!(decimal_string(0), "0");
    assert_eq!(decimal_string(100), "100");
    assert_eq!(decimal_string(2024), "2024");
    assert_eq!(decimal_string(u64::MAX), "18446744073709551615");
}

#[test]
fn version_strings() {
    assert!(check_version("3.9"));
    assert!(check_version("3.10.2"));
    assert!(check_version("3"));
    assert!(!check_version(""));
    assert!(!check_version(".3"));
    assert!(!check_version("3."));
    assert!(!check_version("3..9"));
    assert!(!check_version("3.x"));
}

#[test]
fn mit_license_attributes_creator() {
    let files = create_license_file("my-app", LicenseType::Mit, "Jane Doe", 2024);
    assert_eq!(files.len(), 1);
    assert_eq!(files[0].path, "my-app/LICENSE");
    assert!(files[0].content.starts_with("MIT License\n\nCopyright (c) 2024 Jane Doe\n\nPermission is hereby granted"));
}

#[test]
fn apache_license_and_no_license() {
    let files = create_license_file("my-app", LicenseType::Apache2, "Jane Doe", 2023);
    assert_eq!(files.len(), 1);
    assert!(files[0].content.starts_with("Copyright 2023 Jane Doe\n\nLicensed under the Apache License, Version 2.0"));
    assert!(create_license_file("my-app", LicenseType::NoLicense, "Jane Doe", 2023).is_empty());
}
