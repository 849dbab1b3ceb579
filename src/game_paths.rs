//! Layout of the target's content directory.
use vstd::prelude::*;
use vstd::string::*;

verus! {

/// Root of per-title content on the target's storage.
pub const ATMOSPHERE_CONTENTS_DIR: &'static str = "/atmosphere/contents";

/// `<root>/<tid>`
pub open spec fn game_path_spec(title_id: Seq<char>) -> Seq<char> {
    ATMOSPHERE_CONTENTS_DIR@ + seq!['/'] + title_id
}

/// `<root>/<tid>/romfs/skyline/plugins`
pub open spec fn plugins_path_spec(title_id: Seq<char>) -> Seq<char> {
    game_path_spec(title_id) + "/romfs/skyline/plugins"@
}

/// `<root>/<tid>/romfs/skyline/plugins/<name>`
pub open spec fn plugin_path_spec(title_id: Seq<char>, name: Seq<char>) -> Seq<char> {
    plugins_path_spec(title_id) + seq!['/'] + name
}

/// `<root>/<tid>/exefs/<name>`
pub open spec fn subsdk_path_spec(title_id: Seq<char>, name: Seq<char>) -> Seq<char> {
    game_path_spec(title_id) + "/exefs/"@ + name
}

/// `<root>/<tid>/exefs/main.npdm`
pub open spec fn npdm_path_spec(title_id: Seq<char>) -> Seq<char> {
    subsdk_path_spec(title_id, "main.npdm"@)
}

pub fn get_game_path(title_id: &str) -> (r: String)
    ensures
        r@ == game_path_spec(title_id@),
{
    let mut s = String::from_str(ATMOSPHERE_CONTENTS_DIR);
    s.append("/");
    s.append(title_id);
    proof {
        reveal_strlit("/");
    }
    assert(s@ =~= game_path_spec(title_id@));
    s
}

pub fn get_plugins_path(title_id: &str) -> (r: String)
    ensures
        r@ == plugins_path_spec(title_id@),
{
    let mut s = get_game_path(title_id);
    s.append("/romfs/skyline/plugins");
    s
}

pub fn get_plugin_path(title_id: &str, plugin_name: &str) -> (r: String)
    ensures
        r@ == plugin_path_spec(title_id@, plugin_name@),
{
    let mut s = get_plugins_path(title_id);
    s.append("/");
    s.append(plugin_name);
    proof {
        reveal_strlit("/");
    }
    assert(s@ =~= plugin_path_spec(title_id@, plugin_name@));
    s
}

pub fn get_subsdk_path(title_id: &str, subsdk_name: &str) -> (r: String)
    ensures
        r@ == subsdk_path_spec(title_id@, subsdk_name@),
{
    let mut s = get_game_path(title_id);
    s.append("/exefs/");
    s.append(subsdk_name);
    s
}

pub fn get_npdm_path(title_id: &str) -> (r: String)
    ensures
        r@ == npdm_path_spec(title_id@),
{
    get_subsdk_path(title_id, "main.npdm")
}

pub fn get_plugin_nro_path(title_id: &str, nro_file_name: &str) -> (r: String)
    ensures
        r@ == plugin_path_spec(title_id@, nro_file_name@),
{
    get_plugin_path(title_id, nro_file_name)
}

} // verus!
