use vstd::prelude::*;

use super::automaton::Automaton;
use super::tile::minerals::{mineral_name, MineralType};
use super::tile::{tile_type_named, TileType};

verus! {

/// What `json::parse` of `text`, indexed key by key along `path`, gives through
/// `as_usize`: `None` when the text is no JSON or the value there is no `usize`.
pub uninterp spec fn json_usize_at(text: Seq<char>, path: Seq<Seq<char>>) -> Option<usize>;

/// What `json::parse` of `text`, indexed key by key along `path`, gives through
/// `as_bool`: `None` when the text is no JSON or the value there is no boolean.
pub uninterp spec fn json_bool_at(text: Seq<char>, path: Seq<Seq<char>>) -> Option<bool>;

/// The strings that `json::parse` of `text`, indexed key by key along `path`,
/// lists through `members` and `as_str`: `None` when the text is no JSON or a
/// member is no string.
pub uninterp spec fn json_strs_at(text: Seq<char>, path: Seq<Seq<char>>) -> Option<Seq<Seq<char>>>;

/// The views of the keys of a path.
pub open spec fn path_view(path: &Vec<String>) -> Seq<Seq<char>> {
    path@.map_values(|s: String| s@)
}

/// `json::parse` on `text`, `Index<&str>` along `path`, then `JsonValue::as_usize`.
/// Claimed: the result is `json_usize_at` of the text and the path, that is, it
/// depends on them alone.
#[verifier::external_body]
fn settings_usize(text: &str, path: &Vec<String>) -> (r: Option<usize>)
    ensures
        r == json_usize_at(text@, path_view(path)),
{
    let mut value = json::parse(text).ok()?;
    for key in path {
        value = value[key.as_str()].clone();
    }
    value.as_usize()
}

/// `json::parse` on `text`, `Index<&str>` along `path`, then `JsonValue::as_bool`.
/// Claimed: the result is `json_bool_at` of the text and the path.
#[verifier::external_body]
fn settings_bool(text: &str, path: &Vec<String>) -> (r: Option<bool>)
    ensures
        r == json_bool_at(text@, path_view(path)),
{
    let mut value = json::parse(text).ok()?;
    for key in path {
        value = value[key.as_str()].clone();
    }
    value.as_bool()
}

/// `json::parse` on `text`, `Index<&str>` along `path`, then `JsonValue::members`
/// with `JsonValue::as_str` on each. Claimed: the strings listed are
/// `json_strs_at` of the text and the path, in order.
#[verifier::external_body]
fn settings_strs(text: &str, path: &Vec<String>) -> (r: Option<Vec<String>>)
    ensures
        r is None ==> json_strs_at(text@, path_view(path)) is None,
        r matches Some(v) ==> json_strs_at(text@, path_view(path)) == Some(v@.map_values(|s: String| s@)),
{
    let mut value = json::parse(text).ok()?;
    for key in path {
        value = value[key.as_str()].clone();
    }
    value.members().map(|m| m.as_str().map(|s| s.to_string())).collect()
}

/// The path of setting `keys` of mineral `m`: its name, then the keys.
pub open spec fn setting_path(m: MineralType, keys: Seq<Seq<char>>) -> Seq<Seq<char>> {
    seq![mineral_name(m)] + keys
}

/// The names of the tile types mineral `m` can replace, per the settings `text`.
pub open spec fn replace_names(text: Seq<char>, m: MineralType) -> Option<Seq<Seq<char>>> {
    json_strs_at(text, setting_path(m, seq!["can replace"@]))
}

/// Whether mineral `m`'s generation is enabled, per the settings `text`.
pub open spec fn enable_setting(text: Seq<char>, m: MineralType) -> Option<bool> {
    json_bool_at(text, setting_path(m, seq!["enable"@]))
}

/// Rule `key` of mineral `m`'s automaton, per the settings `text`.
pub open spec fn rule_setting(text: Seq<char>, m: MineralType, key: Seq<char>) -> Option<usize> {
    json_usize_at(text, setting_path(m, seq!["automaton"@, key]))
}

/// The settings `text` gives mineral `m` everything its automaton needs, and
/// every tile type it names exists.
pub open spec fn settings_complete(text: Seq<char>, m: MineralType) -> bool {
    &&& replace_names(text, m) is Some
    &&& enable_setting(text, m) is Some
    &&& rule_setting(text, m, "birth limit"@) is Some
    &&& rule_setting(text, m, "death limit"@) is Some
    &&& rule_setting(text, m, "max air exposure"@) is Some
    &&& rule_setting(text, m, "iterations"@) is Some
    &&& forall|i: int|
        0 <= i < replace_names(text, m).unwrap().len() ==> tile_type_named(
            #[trigger] replace_names(text, m).unwrap()[i],
        ) is Some
}

/// `a` holds mineral `m`'s rules as the settings `text` gives them.
pub open spec fn automaton_of_settings(a: Automaton, text: Seq<char>, m: MineralType) -> bool {
    let names = replace_names(text, m).unwrap();
    &&& a.mineral_type == m
    &&& a.can_replace@.len() == names.len()
    &&& forall|i: int| 0 <= i < names.len() ==> Some(#[trigger] a.can_replace@[i]) == tile_type_named(names[i])
    &&& a.enable == enable_setting(text, m).unwrap()
    &&& a.birth_limit == rule_setting(text, m, "birth limit"@).unwrap()
    &&& a.death_limit == rule_setting(text, m, "death limit"@).unwrap()
    &&& a.max_air_exposure == rule_setting(text, m, "max air exposure"@).unwrap()
    &&& a.iterations == rule_setting(text, m, "iterations"@).unwrap()
}

/// The path made of mineral `m`'s name and `keys`.
fn path_of(m: MineralType, keys: &[&str]) -> (r: Vec<String>)
    ensures
        path_view(&r) == seq![mineral_name(m)] + keys@.map_values(|k: &str| k@),
{
    let mut r: Vec<String> = Vec::new();
    r.push(m.to_str().to_owned());
    let n = keys.len();
    let mut i: usize = 0;
    while i < n
        invariant
            n == keys@.len(),
            i <= n,
            path_view(&r) == seq![mineral_name(m)] + keys@.take(i as int).map_values(|k: &str| k@),
        decreases n - i,
    {
        let ghost before = r@;
        let key = keys[i].to_owned();
        r.push(key);
        proof {
            let f = |k: &str| k@;
            assert(keys@.take(i + 1) =~= keys@.take(i as int).push(keys@[i as int]));
            assert(keys@.take(i + 1).map_values(f) =~= keys@.take(i as int).map_values(f).push(keys@[i as int]@));
            assert(r@ =~= before.push(key));
            assert(path_view(&r) =~= before.map_values(|s: String| s@).push(key@));
            assert(path_view(&r) =~= seq![mineral_name(m)] + keys@.take(i + 1).map_values(f));
        }
        i = i + 1;
    }
    assert(keys@.take(n as int) =~= keys@);
    r
}

impl Automaton {
    /// Mineral `m`'s rules read from the generation settings `text` (JSON): under
    /// the mineral's name, the tile types it can replace ("can replace"), whether
    /// it is generated ("enable"), and under "automaton" its "birth limit",
    /// "death limit", "max air exposure" and "iterations". `None` when the text
    /// lacks one of them or names a tile type that does not exist.
    pub fn from_settings(text: &str, m: MineralType) -> (r: Option<Automaton>)
        ensures
            r is Some <==> settings_complete(text@, m),
            r matches Some(a) ==> automaton_of_settings(a, text@, m),
    {
        let names_path = path_of(m, &["can replace"]);
        let enable_path = path_of(m, &["enable"]);
        let birth_path = path_of(m, &["automaton", "birth limit"]);
        let death_path = path_of(m, &["automaton", "death limit"]);
        let air_path = path_of(m, &["automaton", "max air exposure"]);
        let iterations_path = path_of(m, &["automaton", "iterations"]);
        proof {
            assert(path_view(&names_path) =~= setting_path(m, seq!["can replace"@]));
            assert(path_view(&enable_path) =~= setting_path(m, seq!["enable"@]));
            assert(path_view(&birth_path) =~= setting_path(m, seq!["automaton"@, "birth limit"@]));
            assert(path_view(&death_path) =~= setting_path(m, seq!["automaton"@, "death limit"@]));
            assert(path_view(&air_path) =~= setting_path(m, seq!["automaton"@, "max air exposure"@]));
            assert(path_view(&iterations_path) =~= setting_path(m, seq!["automaton"@, "iterations"@]));
        }
        let names = match settings_strs(text, &names_path) {
            Some(v) => v,
            None => {
                return None;
            },
        };
        let ghost nv = names@.map_values(|s: String| s@);
        let n = names.len();
        let mut i: usize = 0;
        while i < n
            invariant
                n == names@.len(),
                nv == names@.map_values(|s: String| s@),
                replace_names(text@, m) == Some(nv),
                i <= n,
                forall|j: int| 0 <= j < i ==> tile_type_named(#[trigger] nv[j]) is Some,
            decreases n - i,
        {
            if TileType::from_str(names[i].as_str()).is_err() {
                assert(tile_type_named(nv[i as int]) is None);
                return None;
            }
            i = i + 1;
        }
        let enable = match settings_bool(text, &enable_path) {
            Some(b) => b,
            None => {
                return None;
            },
        };
        let birth = match settings_usize(text, &birth_path) {
            Some(v) => v,
            None => {
                return None;
            },
        };
        let death = match settings_usize(text, &death_path) {
            Some(v) => v,
            None => {
                return None;
            },
        };
        let max_air = match settings_usize(text, &air_path) {
            Some(v) => v,
            None => {
                return None;
            },
        };
        let iterations = match settings_usize(text, &iterations_path) {
            Some(v) => v,
            None => {
                return None;
            },
        };
        assert forall|j: int| 0 <= j < names@.len() implies tile_type_named((#[trigger] names@[j])@) is Some by {
            assert(nv[j] == names@[j]@);
        }
        Some(Automaton::new(m, &names, enable, birth, death, max_air, iterations))
    }
}

} // verus!
