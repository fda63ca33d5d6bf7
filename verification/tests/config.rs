use bumpit::{Arguments, BumpError, BumpKind, Config, PackageInfo, VersionModifier};

fn package(name: &str, id: &str, path: &str) -> PackageInfo {
    PackageInfo { name: name.to_owned(), id: id.to_owned(), manifest_path: path.to_owned() }
}

fn arguments(package: Option<&str>) -> Arguments {
    Arguments {
        version: BumpKind::Minor,
        manifest_path: None,
        pre_id: Some("rc".to_owned()),
        package: package.map(|p| p.to_owned()),
    }
}

#[test]
fn named_member_is_chosen() {
    let packages = vec![
        package("dep", "dep 1.0.0", "/registry/dep/Cargo.toml"),
        package("demo", "demo 0.1.0", "/ws/demo/Cargo.toml"),
        package("demo", "demo 0.2.0", "/elsewhere/demo/Cargo.toml"),
    ];
    let members = vec!["other 0.1.0".to_owned(), "demo 0.1.0".to_owned()];
    let config = Config::new(arguments(Some("demo")), &packages, &members).unwrap();
    assert_eq!(config.manifest_path, "/ws/demo/Cargo.toml");
    assert_eq!(config.modifier, VersionModifier::new(BumpKind::Minor, Some("rc".to_owned())));
}

#[test]
fn unknown_package() {
    let packages = vec![package("demo", "demo 0.1.0", "/ws/demo/Cargo.toml")];
    let members = vec!["demo 0.1.0".to_owned()];
    let got = Config::new(arguments(Some("Demo")), &packages, &members);
    assert_eq!(got.unwrap_err(), BumpError::PackageNotFound);
    let got = Config::new(arguments(Some("demo")), &Vec::new(), &members);
    assert_eq!(got.unwrap_err(), BumpError::PackageNotFound);
}

#[test]
fn package_outside_the_workspace() {
    let packages = vec![
        package("dep", "dep 1.0.0", "/registry/dep/Cargo.toml"),
        package("demo", "demo 0.1.0", "/ws/demo/Cargo.toml"),
    ];
    let members = vec!["demo 0.1.0".to_owned()];
    let got = Config::new(arguments(Some("dep")), &packages, &members);
    assert_eq!(got.unwrap_err(), BumpError::NotWorkspaceMember);
    let got = Config::new(arguments(Some("demo")), &packages, &Vec::new());
    assert_eq!(got.unwrap_err(), BumpError::NotWorkspaceMember);
}

#[test]
fn only_the_first_package_of_a_name_counts() {
    let packages = vec![
        package("demo", "demo 0.2.0", "/elsewhere/demo/Cargo.toml"),
        package("demo", "demo 0.1.0", "/ws/demo/Cargo.toml"),
    ];
    let members = vec!["demo 0.1.0".to_owned()];
    let got = Config::new(arguments(Some("demo")), &packages, &members);
    assert_eq!(got.unwrap_err(), BumpError::NotWorkspaceMember);
}

#[test]
fn without_a_name_the_package_is_the_dot() {
    let packages = vec![
        package("demo", "demo 0.1.0", "/ws/demo/Cargo.toml"),
        package(".", "here 0.1.0", "/ws/Cargo.toml"),
    ];
    let members = vec!["demo 0.1.0".to_owned(), "here 0.1.0".to_owned()];
    let config = Config::new(arguments(None), &packages, &members).unwrap();
    assert_eq!(config.manifest_path, "/ws/Cargo.toml");
    let got = Config::new(arguments(None), &packages[..1].to_vec(), &members);
    assert_eq!(got.unwrap_err(), BumpError::PackageNotFound);
}

#[test]
fn messages() {
    assert_eq!(BumpError::InvalidVersionString.message(), "Invalid version");
    assert_eq!(BumpError::PrereleaseFormatError.message(), "Invalid prerelease identifier");
    assert_eq!(
        BumpError::UnsupportedPrereleaseScheme.message(),
        "This version scheme is not supported. Use format like `pre`, `dev` or `alpha.1` for prerelease symbol"
    );
    assert_eq!(BumpError::InvalidManifest.message(), "Invalid manifest");
    assert_eq!(BumpError::MissingVersion.message(), "toml has no version");
    assert_eq!(BumpError::PackageNotFound.message(), "Package does not exist");
    assert_eq!(BumpError::NotWorkspaceMember.message(), "Package is not a workspace member");
}
