use cargo_skyline::manifest::{package_name, Dependency, Metadata, PackageResource, PackageSkyline};

fn empty() -> PackageSkyline {
    PackageSkyline {
        title_id: None,
        npdm_path: None,
        subsdk_name: None,
        plugin_dependencies: None,
        package_resources: None,
    }
}

fn dep(name: &str) -> Dependency {
    Dependency { name: name.to_string(), url: format!("https://example.org/{}", name) }
}

#[test]
fn first_package_that_declares_wins() {
    let mut a = empty();
    a.npdm_path = Some("a.npdm".to_string());
    a.plugin_dependencies = Some(vec![dep("one.nro")]);
    let mut b = empty();
    b.title_id = Some("01006A800016E000".to_string());
    b.npdm_path = Some("b.npdm".to_string());
    b.subsdk_name = Some("subsdk4".to_string());
    b.plugin_dependencies = Some(vec![dep("two.nro"), dep("three.nro")]);
    b.package_resources = Some(vec![PackageResource {
        local_path: "assets".to_string(),
        package_path: "atmosphere/contents/x/romfs".to_string(),
    }]);
    let md = Metadata::from_packages("plugin".to_string(), &vec![a, empty(), b]);
    assert_eq!(md.name, "plugin");
    assert_eq!(md.title_id, Some("01006A800016E000".to_string()));
    assert_eq!(md.npdm_path, Some("a.npdm".to_string()));
    assert_eq!(md.subsdk_name, Some("subsdk4".to_string()));
    assert_eq!(md.plugin_dependencies, vec![dep("one.nro"), dep("two.nro"), dep("three.nro")]);
    assert_eq!(md.package_resources.len(), 1);
}

#[test]
fn no_packages_declare_nothing() {
    let md = Metadata::from_packages("p".to_string(), &vec![]);
    assert_eq!(md.title_id, None);
    assert!(md.plugin_dependencies.is_empty());
    assert!(md.package_resources.is_empty());
}

#[test]
fn package_id_gives_crate_name() {
    assert_eq!(package_name("plugin 0.1.0 (path+file:///home/u/plugin)"), "plugin");
    assert_eq!(package_name("plugin"), "plugin");
}
