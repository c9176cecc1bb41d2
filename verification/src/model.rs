//! Plain data carried between the surrounding application and the snippet
//! directory: stored records and the request and settings values of the
//! directory's command surface. Timestamps are Unix seconds.

use vstd::prelude::*;

use vstd::string::StringExecFns;

verus! {

/// A stored account that owns folders and snippets.
pub struct User {
    pub id: i64,
    pub email: String,
    pub password_hash: String,
    pub created_at: i64,
}

/// A folder grouping snippets, optionally nested under a parent.
pub struct Folder {
    pub id: i64,
    pub user_id: i64,
    pub name: String,
    pub parent_id: Option<i64>,
}

/// A stored snippet record: a template body keyed by a unique shortcut.
pub struct Snippet {
    pub id: i64,
    pub user_id: i64,
    pub folder_id: Option<i64>,
    pub name: String,
    pub shortcut: String,
    pub body: String,
    pub created_at: i64,
    pub updated_at: i64,
    pub is_active: bool,
    pub match_type: String,
}

/// A stored interactive variable attached to a snippet.
pub struct Variable {
    pub id: i64,
    pub snippet_id: i64,
    pub key: String,
    pub var_type: String,
    pub default_value: Option<String>,
}

/// Request to create an account.
pub struct CreateUserRequest {
    pub email: String,
    pub password: String,
}

/// Request to sign in.
pub struct LoginRequest {
    pub email: String,
    pub password: String,
}

/// Request to create a snippet.
pub struct CreateSnippetRequest {
    pub name: String,
    pub shortcut: String,
    pub body: String,
    pub folder_id: Option<i64>,
}

/// Request to update a snippet; absent fields stay as they are.
pub struct UpdateSnippetRequest {
    pub name: Option<String>,
    pub shortcut: Option<String>,
    pub body: Option<String>,
    pub folder_id: Option<i64>,
    pub is_active: Option<bool>,
}

/// The application-level settings the shell exposes.
pub struct Settings {
    pub expand_enabled: bool,
    pub global_hotkey: String,
    pub excluded_apps: Vec<String>,
}

impl Default for Settings {
    /// Out of the box, expansion is enabled under the stock hotkey and no
    /// application is excluded.
    fn default() -> (r: Settings)
        ensures
            r.expand_enabled,
            r.global_hotkey@ == "Ctrl+Alt+Space"@,
            r.excluded_apps@.len() == 0,
    {
        Settings {
            expand_enabled: true,
            global_hotkey: String::from_str("Ctrl+Alt+Space"),
            excluded_apps: Vec::new(),
        }
    }
}

} // verus!
