use vstd::prelude::*;

verus! {

/// Display name given to a binding whose stored first name is unset.
pub const DEPRECATED_FIRST_NAME: &'static str = "Deprecated";

/// A Minecraft account as it is reported to callers.
#[derive(Debug, Clone)]
pub struct MinecraftAccount {
    pub minecraft_uuid: String,
    pub minecraft_username: String,
    pub is_main: bool,
    pub deprecated_first_name: String,
}

/// One row of the bindings table, as the store reads it back.
#[derive(Debug, Clone)]
pub struct AccountRow {
    pub id: i64,
    pub discord_id: Option<String>,
    pub user_id: Option<String>,
    pub minecraft_uuid: String,
    pub minecraft_username: String,
    pub is_main: bool,
    pub first_name: Option<String>,
}

/// Copy of an optional string that Verus knows to be equal to the original.
pub fn copy_opt(s: &Option<String>) -> (r: Option<String>)
    ensures
        r == *s,
{
    match s {
        Some(v) => Some(v.clone()),
        None => None,
    }
}

impl MinecraftAccount {
    /// A copy of the account, equal to it field by field.
    pub fn copy(&self) -> (r: MinecraftAccount)
        ensures
            r == *self,
    {
        MinecraftAccount {
            minecraft_uuid: self.minecraft_uuid.clone(),
            minecraft_username: self.minecraft_username.clone(),
            is_main: self.is_main,
            deprecated_first_name: self.deprecated_first_name.clone(),
        }
    }
}

/// Turns a stored row into the account that callers see.
pub fn account_from_row(row: AccountRow) -> (r: MinecraftAccount)
    ensures
        r.minecraft_uuid == row.minecraft_uuid,
        r.minecraft_username == row.minecraft_username,
        r.is_main == row.is_main,
        row.first_name matches Some(n) ==> r.deprecated_first_name == n,
        row.first_name is None ==> r.deprecated_first_name@ == DEPRECATED_FIRST_NAME@,
{
    let first = match row.first_name {
        Some(n) => n,
        None => DEPRECATED_FIRST_NAME.to_owned(),
    };
    MinecraftAccount {
        minecraft_uuid: row.minecraft_uuid,
        minecraft_username: row.minecraft_username,
        is_main: row.is_main,
        deprecated_first_name: first,
    }
}

} // verus!
