use cargo_skyline::error::Error;
use cargo_skyline::game_paths::{
    get_game_path, get_npdm_path, get_plugin_nro_path, get_plugin_path, get_plugins_path,
    get_subsdk_path,
};
use cargo_skyline::install::{
    plan_deployment, resolve_install_location, resolve_install_path, select_title_id,
    DependencyInstall, InstallLocation,
};
use cargo_skyline::manifest::{Dependency, Metadata};
use cargo_skyline::remote::{
    copy_destination, copy_target, get_install_path, has_old_subsdk, is_absolute_remote,
};

const TID: &str = "0100000000000000";

fn metadata(title_id: Option<&str>) -> Metadata {
    Metadata {
        name: "plugin".to_string(),
        title_id: title_id.map(|t| t.to_string()),
        npdm_path: None,
        subsdk_name: None,
        plugin_dependencies: vec![],
        package_resources: vec![],
    }
}

#[test]
fn game_paths_follow_the_layout() {
    assert_eq!(get_game_path(TID), "/atmosphere/contents/0100000000000000");
    assert_eq!(get_plugins_path(TID), "/atmosphere/contents/0100000000000000/romfs/skyline/plugins");
    assert_eq!(
        get_plugin_path(TID, "a.nro"),
        "/atmosphere/contents/0100000000000000/romfs/skyline/plugins/a.nro"
    );
    assert_eq!(
        get_plugin_nro_path(TID, "b.nro"),
        "/atmosphere/contents/0100000000000000/romfs/skyline/plugins/b.nro"
    );
    assert_eq!(get_subsdk_path(TID, "subsdk9"), "/atmosphere/contents/0100000000000000/exefs/subsdk9");
    assert_eq!(get_npdm_path(TID), "/atmosphere/contents/0100000000000000/exefs/main.npdm");
}

#[test]
fn install_path_defaults_to_plugin_directory() {
    assert_eq!(
        resolve_install_path(TID, None, "libplugin.nro"),
        Ok("/atmosphere/contents/0100000000000000/romfs/skyline/plugins/libplugin.nro".to_string())
    );
}

#[test]
fn install_path_under_romfs() {
    assert_eq!(
        resolve_install_path(TID, Some("rom:/custom/dir"), "libplugin.nro"),
        Ok("/atmosphere/contents/0100000000000000/romfs/custom/dir/libplugin.nro".to_string())
    );
}

#[test]
fn install_path_absolute_file() {
    assert_eq!(
        resolve_install_path(TID, Some("sd:/abs/path.nro"), "libplugin.nro"),
        Ok("/abs/path.nro".to_string())
    );
}

#[test]
fn install_path_unknown_prefix_fails() {
    assert_eq!(resolve_install_path(TID, Some("foo:/bar"), "libplugin.nro"), Err(Error::BadSdPath));
    assert_eq!(resolve_install_location(Some("/plain")), Err(Error::BadSdPath));
}

#[test]
fn install_path_skips_empty_segments() {
    assert_eq!(
        resolve_install_path(TID, Some("rom://a//b/"), "x.nro"),
        Ok("/atmosphere/contents/0100000000000000/romfs/a/b/x.nro".to_string())
    );
    assert_eq!(resolve_install_path(TID, Some("sd:/"), "x.nro"), Ok("/x.nro".to_string()));
}

#[test]
fn install_location_keeps_remainder() {
    assert_eq!(
        resolve_install_location(Some("rom:/a/b")),
        Ok(InstallLocation { path: "a/b".to_string(), in_romfs: true })
    );
    assert_eq!(
        resolve_install_location(Some("sd:/c")),
        Ok(InstallLocation { path: "c".to_string(), in_romfs: false })
    );
    assert_eq!(
        resolve_install_location(None),
        Ok(InstallLocation { path: "skyline/plugins".to_string(), in_romfs: true })
    );
}

#[test]
fn title_id_precedence() {
    assert_eq!(select_title_id(Some("a".to_string()), Some("b".to_string())), Ok("a".to_string()));
    assert_eq!(select_title_id(None, Some("b".to_string())), Ok("b".to_string()));
    assert_eq!(select_title_id(None, None), Err(Error::NoTitleId));
}

#[test]
fn plan_lists_steps_in_order() {
    let mut md = metadata(Some(TID));
    md.subsdk_name = Some("subsdk4".to_string());
    md.npdm_path = Some("my.npdm".to_string());
    md.plugin_dependencies = vec![Dependency { name: "libdep.nro".to_string(), url: "https://example.org/dep".to_string() }];
    let loc = resolve_install_location(Some("rom:/skyline/plugins/custom.nro")).unwrap();
    let plan = plan_deployment(TID, &loc, "libplugin.nro", &md);
    let game = "/atmosphere/contents/0100000000000000";
    assert_eq!(
        plan.directories,
        vec![
            game.to_string(),
            format!("{}/exefs", game),
            format!("{}/romfs", game),
            format!("{}/romfs/skyline", game),
            format!("{}/romfs/skyline/plugins", game),
        ]
    );
    assert_eq!(plan.exefs_dir, format!("{}/exefs/", game));
    assert_eq!(plan.runtime_path, format!("{}/exefs/subsdk4", game));
    assert_eq!(plan.npdm_path, format!("{}/exefs/main.npdm", game));
    assert_eq!(plan.custom_npdm, Some("my.npdm".to_string()));
    assert_eq!(
        plan.dependencies,
        vec![DependencyInstall {
            name: "libdep.nro".to_string(),
            url: "https://example.org/dep".to_string(),
            path: format!("{}/romfs/skyline/plugins/libdep.nro", game),
        }]
    );
    assert_eq!(plan.install_path, format!("{}/romfs/skyline/plugins/custom.nro", game));
}

#[test]
fn plan_uses_default_runtime_name() {
    let md = metadata(Some(TID));
    let loc = resolve_install_location(Some("sd:/switch/x")).unwrap();
    let plan = plan_deployment(TID, &loc, "libplugin.nro", &md);
    assert_eq!(plan.runtime_path, "/atmosphere/contents/0100000000000000/exefs/subsdk9");
    assert_eq!(plan.directories[2], "");
    assert_eq!(plan.directories[3], "/switch");
    assert_eq!(plan.directories[4], "/switch/x");
    assert_eq!(plan.install_path, "/switch/x/libplugin.nro");
}

#[test]
fn removal_path_absolute_is_kept() {
    assert!(is_absolute_remote("/a/b.nro"));
    assert!(!is_absolute_remote("b.nro"));
    assert_eq!(
        get_install_path(None, Some("/a/b.nro".to_string()), &metadata(None)),
        Ok("/a/b.nro".to_string())
    );
}

#[test]
fn removal_path_defaults_to_project_artifact() {
    assert_eq!(
        get_install_path(None, None, &metadata(Some(TID))),
        Ok("/atmosphere/contents/0100000000000000/romfs/skyline/plugins/libplugin.nro".to_string())
    );
    assert_eq!(
        get_install_path(Some("01006A800016E000".to_string()), Some("x.nro".to_string()), &metadata(Some(TID))),
        Ok("/atmosphere/contents/01006A800016E000/romfs/skyline/plugins/x.nro".to_string())
    );
    assert_eq!(get_install_path(None, None, &metadata(None)), Err(Error::NoTitleId));
}

#[test]
fn old_runtime_needs_two_modules() {
    assert!(!has_old_subsdk("main\nmain.npdm\nsubsdk9\n"));
    assert!(has_old_subsdk("main\nsubsdk1\nsubsdk9\n"));
    assert!(!has_old_subsdk(""));
}

#[test]
fn copy_destination_maps_sd_to_root() {
    assert_eq!(copy_destination("sd:/switch/x.nro"), Ok("/switch/x.nro".to_string()));
    assert_eq!(copy_destination("plugins/x.nro"), Ok("plugins/x.nro".to_string()));
    assert_eq!(copy_destination("a/sd:/b"), Ok("a//b".to_string()));
    assert_eq!(copy_destination("/switch"), Err(Error::AbsSwitchPath));
}

#[test]
fn copy_target_appends_file_name_to_folders() {
    assert_eq!(copy_target("/switch/x.nro".to_string(), "/switch/x.nro", "x.nro"), "/switch/x.nro");
    assert_eq!(copy_target("/switch".to_string(), "/switch", "x.nro"), "/switch/x.nro");
    assert_eq!(copy_target("/switch/".to_string(), "/switch/", "x.nro"), "/switch/x.nro");
    assert_eq!(copy_target("/a/x.nro".to_string(), "/a/x.nro/", "x.nro"), "/a/x.nro");
    assert_eq!(copy_target("/a/y.nro".to_string(), "/a/y.nro", "x.nro"), "/a/y.nro/x.nro");
}
