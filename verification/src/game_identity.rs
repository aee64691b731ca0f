//! Scoped game identity: built-in plugins and the user's own games.

use crate::text::str_eq;
use vstd::prelude::*;

verus! {

pub const LEAGUE_OF_LEGENDS_ID: &'static str = "league_of_legends";

pub const VALORANT_ID: &'static str = "valorant";

pub const CS2_ID: &'static str = "cs2";

pub const OSU_ID: &'static str = "osu";

/// Whether the text names a built-in plugin.
pub open spec fn is_built_in_id(id: Seq<char>) -> bool {
    ||| id == LEAGUE_OF_LEGENDS_ID@
    ||| id == VALORANT_ID@
    ||| id == CS2_ID@
    ||| id == OSU_ID@
}

#[derive(Debug, PartialEq, Eq)]
pub enum GameIdentity {
    BuiltInPlugin(&'static str),
    Custom(String),
}

impl Clone for GameIdentity {
    fn clone(&self) -> (r: Self)
        ensures
            r == *self,
    {
        match self {
            GameIdentity::BuiltInPlugin(id) => GameIdentity::BuiltInPlugin(*id),
            GameIdentity::Custom(id) => GameIdentity::Custom(id.clone()),
        }
    }
}

/// The identifier of an identity, whichever namespace it is from.
pub open spec fn identity_id(identity: GameIdentity) -> Seq<char> {
    match identity {
        GameIdentity::BuiltInPlugin(id) => id@,
        GameIdentity::Custom(id) => id@,
    }
}

/// The same identity: the same namespace and the same identifier.
pub open spec fn same_identity(a: GameIdentity, b: GameIdentity) -> bool {
    &&& a is Custom <==> b is Custom
    &&& identity_id(a) == identity_id(b)
}

impl GameIdentity {
    pub fn built_in_plugin(id: &str) -> (identity: Option<Self>)
        ensures
            match identity {
                Some(identity) => is_built_in_id(id@) && identity is BuiltInPlugin && identity_id(
                    identity,
                ) == id@,
                None => !is_built_in_id(id@),
            },
    {
        match built_in_id(id) {
            Some(id) => Some(GameIdentity::BuiltInPlugin(id)),
            None => None,
        }
    }

    pub fn custom(id: &str) -> (identity: Self)
        ensures
            identity is Custom,
            identity_id(identity) == id@,
    {
        GameIdentity::Custom(id.to_owned())
    }

    pub fn id(&self) -> (id: &str)
        ensures
            id@ == identity_id(*self),
    {
        match self {
            GameIdentity::BuiltInPlugin(id) => *id,
            GameIdentity::Custom(id) => id.as_str(),
        }
    }

    /// The plugin of an identity; a custom game has none, whatever it is called.
    pub fn plugin_id(&self) -> (id: Option<&'static str>)
        ensures
            match id {
                Some(id) => *self == GameIdentity::BuiltInPlugin(id),
                None => self is Custom,
            },
    {
        match self {
            GameIdentity::BuiltInPlugin(id) => Some(*id),
            GameIdentity::Custom(_) => None,
        }
    }

    pub fn is_built_in_plugin(&self, id: &str) -> (r: bool)
        ensures
            r == (self is BuiltInPlugin && identity_id(*self) == id@ && is_built_in_id(id@)),
    {
        match (self.plugin_id(), built_in_id(id)) {
            (Some(actual), Some(expected)) => str_eq(actual, expected),
            _ => false,
        }
    }

    /// Whether two identities are the same.
    pub fn same(&self, other: &GameIdentity) -> (r: bool)
        ensures
            r == same_identity(*self, *other),
    {
        match (self, other) {
            (GameIdentity::BuiltInPlugin(a), GameIdentity::BuiltInPlugin(b)) => str_eq(*a, *b),
            (GameIdentity::Custom(a), GameIdentity::Custom(b)) => str_eq(a.as_str(), b.as_str()),
            _ => false,
        }
    }
}

/// The identifier of a built-in plugin.
pub fn built_in_id(id: &str) -> (found: Option<&'static str>)
    ensures
        match found {
            Some(found) => is_built_in_id(id@) && found@ == id@,
            None => !is_built_in_id(id@),
        },
{
    if str_eq(id, LEAGUE_OF_LEGENDS_ID) {
        Some(LEAGUE_OF_LEGENDS_ID)
    } else if str_eq(id, VALORANT_ID) {
        Some(VALORANT_ID)
    } else if str_eq(id, CS2_ID) {
        Some(CS2_ID)
    } else if str_eq(id, OSU_ID) {
        Some(OSU_ID)
    } else {
        None
    }
}

/// Built-in and custom identities never overlap: not even a custom game that is called
/// like a plugin is that plugin.
pub proof fn law_namespaces_disjoint(plugin: GameIdentity, custom: GameIdentity)
    requires
        plugin is BuiltInPlugin,
        custom is Custom,
    ensures
        !same_identity(plugin, custom),
{
}

/// The games that Clipline knows by itself are League of Legends, Valorant, Counter-Strike 2 and
/// osu!, under these identifiers, and no other text names one.
pub proof fn law_four_games_are_built_in(id: Seq<char>)
    ensures
        is_built_in_id(id) <==> id == "league_of_legends"@ || id == "valorant"@ || id == "cs2"@
            || id == "osu"@,
{
}

/// Two identities are the same exactly where both are plugins, or both custom games, of one
/// identifier.
pub proof fn law_same_identity(a: GameIdentity, b: GameIdentity)
    ensures
        same_identity(a, b) <==> match (a, b) {
            (GameIdentity::BuiltInPlugin(x), GameIdentity::BuiltInPlugin(y)) => x@ == y@,
            (GameIdentity::Custom(x), GameIdentity::Custom(y)) => x@ == y@,
            _ => false,
        },
{
}

} // verus!
