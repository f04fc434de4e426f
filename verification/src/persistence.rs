//! The state that survives a restart: its stored form, a small JSON object
//! with the fields `sleep_disabled` and `screen_mode`, and what is made of a
//! read from storage.

use crate::domain::ScreenMode;
use crate::error::AppError;
use crate::text::str_equal;
use vstd::prelude::*;
use vstd::string::*;

verus! {

/// Name of the stored field that holds the wake flag.
pub const SLEEP_DISABLED_FIELD: &'static str = "sleep_disabled";

/// Name of the stored field that holds the screen mode.
pub const SCREEN_MODE_FIELD: &'static str = "screen_mode";

/// Application state persisted between sessions.
#[derive(Debug, Clone, Copy, PartialEq, Eq, Structural)]
pub struct AppState {
    /// Whether the system is being kept awake.
    pub sleep_disabled: bool,
    /// The user's screen mode preference.
    pub screen_mode: ScreenMode,
}

/// The state of a first run: sleep allowed, display free to sleep.
pub open spec fn default_state() -> AppState {
    AppState { sleep_disabled: false, screen_mode: ScreenMode::AllowScreenOff }
}

impl Default for AppState {
    fn default() -> (state: Self)
        ensures
            state == default_state(),
    {
        AppState { sleep_disabled: false, screen_mode: ScreenMode::AllowScreenOff }
    }
}

/// What came of reading the state from storage.
#[derive(Debug, Clone, Copy, PartialEq, Eq, Structural)]
pub enum StoredState {
    /// The storage held this state.
    Loaded(AppState),
    /// Nothing has been stored yet.
    Missing,
    /// The storage could not be located or read.
    Unreadable,
    /// The storage held something that is no state.
    Corrupted,
}

/// The error of the JSON library.
#[verifier::external_type_specification]
#[verifier::external_body]
pub struct ExJsonError(serde_json::Error);

/// The pretty-printed JSON text of an object with a boolean under `flag_key`
/// followed by a string under `text_key`; `None` where the JSON library
/// fails to serialize it.
pub uninterp spec fn pretty_json_object(
    flag_key: Seq<char>,
    flag: bool,
    text_key: Seq<char>,
    text: Seq<char>,
) -> Option<Seq<char>>;

/// The boolean that the JSON library finds under `key` in the object that
/// `text` holds; `None` where `text` is no JSON text or no object, or holds
/// no boolean under `key`.
pub uninterp spec fn json_bool_field(text: Seq<char>, key: Seq<char>) -> Option<bool>;

/// The string that the JSON library finds under `key` in the object that
/// `text` holds; `None` where `text` is no JSON text or no object, or holds
/// no string under `key`.
pub uninterp spec fn json_text_field(text: Seq<char>, key: Seq<char>) -> Option<Seq<char>>;

/// Builds a `serde_json::Map` with `Map::new` and two calls of `Map::insert`
/// and serializes it as `Value::Object` with `serde_json::to_string_pretty`.
/// The result depends on the arguments alone; the contract gives it the name
/// `pretty_json_object` and claims nothing else of it.
#[verifier::external_body]
fn render_object(flag_key: &str, flag: bool, text_key: &str, text: &str) -> (result: Result<
    String,
    serde_json::Error,
>)
    ensures
        match result {
            Ok(rendered) => pretty_json_object(flag_key@, flag, text_key@, text@) == Some(
                rendered@,
            ),
            Err(_) => pretty_json_object(flag_key@, flag, text_key@, text@) is None,
        },
{
    let mut fields = serde_json::Map::new();
    fields.insert(flag_key.to_string(), serde_json::Value::Bool(flag));
    fields.insert(text_key.to_string(), serde_json::Value::String(text.to_string()));
    serde_json::to_string_pretty(&serde_json::Value::Object(fields))
}

/// Parses `text` with `serde_json::from_str` into a `serde_json::Value`,
/// looks `key` up with `Value::get` and reads it with `Value::as_bool`. The
/// result depends on the arguments alone; the contract gives it the name
/// `json_bool_field` and claims nothing else of it.
#[verifier::external_body]
fn parse_bool_field(text: &str, key: &str) -> (found: Option<bool>)
    ensures
        found == json_bool_field(text@, key@),
{
    serde_json::from_str::<serde_json::Value>(text).ok()?.get(key)?.as_bool()
}

/// Parses `text` with `serde_json::from_str` into a `serde_json::Value`,
/// looks `key` up with `Value::get` and reads it with `Value::as_str`. The
/// result depends on the arguments alone; the contract gives it the name
/// `json_text_field` and claims nothing else of it.
#[verifier::external_body]
fn parse_text_field(text: &str, key: &str) -> (found: Option<String>)
    ensures
        match found {
            Some(value) => json_text_field(text@, key@) == Some(value@),
            None => json_text_field(text@, key@) is None,
        },
{
    let parsed = serde_json::from_str::<serde_json::Value>(text).ok()?;
    Some(parsed.get(key)?.as_str()?.to_string())
}

/// The name under which a screen mode is stored.
pub open spec fn stored_mode_name(screen_mode: ScreenMode) -> Seq<char> {
    match screen_mode {
        ScreenMode::KeepScreenOn => "KeepScreenOn"@,
        ScreenMode::AllowScreenOff => "AllowScreenOff"@,
    }
}

/// The screen mode that a stored name stands for.
pub open spec fn mode_of_name(name: Seq<char>) -> Option<ScreenMode> {
    if name == "KeepScreenOn"@ {
        Some(ScreenMode::KeepScreenOn)
    } else if name == "AllowScreenOff"@ {
        Some(ScreenMode::AllowScreenOff)
    } else {
        None
    }
}

/// The state that two stored fields make: both have to be there, and the
/// mode has to go by one of its two names.
pub open spec fn state_of_fields(flag: Option<bool>, mode_name: Option<Seq<char>>) -> StoredState {
    match (flag, mode_name) {
        (Some(sleep_disabled), Some(name)) => match mode_of_name(name) {
            Some(screen_mode) => StoredState::Loaded(AppState { sleep_disabled, screen_mode }),
            None => StoredState::Corrupted,
        },
        _ => StoredState::Corrupted,
    }
}

/// The stored text of a state.
pub open spec fn stored_text(state: AppState) -> Option<Seq<char>> {
    pretty_json_object(
        "sleep_disabled"@,
        state.sleep_disabled,
        "screen_mode"@,
        stored_mode_name(state.screen_mode),
    )
}

/// The state that a stored text holds.
pub open spec fn decoded_state(text: Seq<char>) -> StoredState {
    state_of_fields(
        json_bool_field(text, "sleep_disabled"@),
        json_text_field(text, "screen_mode"@),
    )
}

/// The error for a state that could not be serialized.
pub open spec fn is_serialization_failure(error: AppError, cause: Seq<char>) -> bool {
    &&& error is StateSerialization
    &&& error.message() == "Failed to serialize application state"@
    &&& error.cause() == cause
    &&& error.hint() == "This is a bug. Please report it with your state configuration."@
}

/// The error for a state file at `path` that could not be written.
pub open spec fn is_write_failure(error: AppError, path: Seq<char>, cause: Seq<char>) -> bool {
    &&& error is StateIo
    &&& error.message() == "Failed to write state to "@ + path
    &&& error.cause() == cause
    &&& error.hint() == "Ensure you have write permissions and sufficient disk space."@
}

/// Where the state file is kept, by the kind of directory.
#[derive(Clone, Copy, PartialEq, Eq, Debug, Structural)]
pub enum ConfigLocation {
    /// The local application data of the user.
    AppData,
    /// The configuration directory of the user.
    Config,
    /// The application support directory of the user.
    ApplicationSupport,
    /// A directory beside the executable.
    ApplicationDir,
}

/// The hint for a directory of the given kind that could not be created.
pub open spec fn directory_hint(location: ConfigLocation) -> Seq<char> {
    match location {
        ConfigLocation::AppData => "Ensure you have write permissions to the AppData directory."@,
        ConfigLocation::Config => "Ensure you have write permissions to the config directory."@,
        ConfigLocation::ApplicationSupport =>
            "Ensure you have write permissions to the Application Support directory."@,
        ConfigLocation::ApplicationDir =>
            "Ensure you have write permissions to the application directory."@,
    }
}

/// The error for a directory at `path` that could not be created.
pub open spec fn is_directory_failure(
    error: AppError,
    location: ConfigLocation,
    path: Seq<char>,
    cause: Seq<char>,
) -> bool {
    &&& error is StateIo
    &&& error.message() == "Failed to create config directory at "@ + path
    &&& error.cause() == cause
    &&& error.hint() == directory_hint(location)
}

/// The error for the directory of the state file, at `path`, that could not
/// be created.
pub fn directory_failure(location: ConfigLocation, path: &str, cause: String) -> (error: AppError)
    ensures
        is_directory_failure(error, location, path@, cause@),
{
    let mut message = String::from_str("Failed to create config directory at ");
    message.append(path);
    let recovery_hint = match location {
        ConfigLocation::AppData => "Ensure you have write permissions to the AppData directory.",
        ConfigLocation::Config => "Ensure you have write permissions to the config directory.",
        ConfigLocation::ApplicationSupport =>
            "Ensure you have write permissions to the Application Support directory.",
        ConfigLocation::ApplicationDir =>
            "Ensure you have write permissions to the application directory.",
    };
    AppError::StateIo { message, cause, recovery_hint }
}

/// The name under which `screen_mode` is stored.
pub fn mode_name(screen_mode: ScreenMode) -> (name: &'static str)
    ensures
        name@ == stored_mode_name(screen_mode),
{
    match screen_mode {
        ScreenMode::KeepScreenOn => "KeepScreenOn",
        ScreenMode::AllowScreenOff => "AllowScreenOff",
    }
}

/// The screen mode stored under `name`, if it is the name of one.
pub fn mode_from_name(name: &str) -> (screen_mode: Option<ScreenMode>)
    ensures
        screen_mode == mode_of_name(name@),
{
    if str_equal(name, "KeepScreenOn") {
        Some(ScreenMode::KeepScreenOn)
    } else if str_equal(name, "AllowScreenOff") {
        Some(ScreenMode::AllowScreenOff)
    } else {
        None
    }
}

/// The state that the two fields of a stored object make.
pub fn state_from_fields(flag: Option<bool>, mode_name: Option<String>) -> (stored: StoredState)
    ensures
        stored == state_of_fields(
            flag,
            match mode_name {
                Some(name) => Some(name@),
                None => None,
            },
        ),
{
    match (flag, mode_name) {
        (Some(sleep_disabled), Some(name)) => match mode_from_name(name.as_str()) {
            Some(screen_mode) => StoredState::Loaded(AppState { sleep_disabled, screen_mode }),
            None => StoredState::Corrupted,
        },
        _ => StoredState::Corrupted,
    }
}

/// The result of serializing a state from what the JSON library made of it:
/// the text as it is, or a `StateSerialization` error that carries the cause.
pub fn serialized_state(rendered: Result<String, String>) -> (result: Result<String, AppError>)
    ensures
        match rendered {
            Ok(text) => result == Ok::<String, AppError>(text),
            Err(cause) => result is Err && is_serialization_failure(result->Err_0, cause@),
        },
{
    match rendered {
        Ok(text) => Ok(text),
        Err(cause) => Err(
            AppError::StateSerialization {
                message: String::from_str("Failed to serialize application state"),
                cause,
                recovery_hint: "This is a bug. Please report it with your state configuration.",
            },
        ),
    }
}

/// The text to store for a state: a JSON object with the wake flag under
/// `sleep_disabled` and the name of the mode under `screen_mode`.
pub fn encode_state(state: &AppState) -> (result: Result<String, AppError>)
    ensures
        match result {
            Ok(text) => stored_text(*state) == Some(text@),
            Err(error) => stored_text(*state) is None && exists|cause: Seq<char>|
                is_serialization_failure(error, cause),
        },
{
    let rendered = match render_object(
        SLEEP_DISABLED_FIELD,
        state.sleep_disabled,
        SCREEN_MODE_FIELD,
        mode_name(state.screen_mode),
    ) {
        Ok(text) => Ok(text),
        Err(error) => Err(error.to_string()),
    };
    serialized_state(rendered)
}

/// The state that a stored text holds. A text that is no JSON object, lacks
/// a field or holds something else in one is corrupted; fields that the state
/// does not know are passed over, and a field that stands twice counts with
/// its later value.
pub fn decode_state(text: &str) -> (stored: StoredState)
    ensures
        stored == decoded_state(text@),
        stored is Loaded || stored is Corrupted,
{
    let flag = parse_bool_field(text, SLEEP_DISABLED_FIELD);
    let mode_name = parse_text_field(text, SCREEN_MODE_FIELD);
    state_from_fields(flag, mode_name)
}

/// The state to start from after a read: what was loaded, and the default
/// whenever the storage gave no state. A failed read is never an error.
pub fn read_state(stored: StoredState) -> (state: AppState)
    ensures
        state == (match stored {
            StoredState::Loaded(loaded) => loaded,
            _ => default_state(),
        }),
{
    match stored {
        StoredState::Loaded(loaded) => loaded,
        _ => AppState { sleep_disabled: false, screen_mode: ScreenMode::AllowScreenOff },
    }
}

/// The error for a state file at `path` that could not be written.
pub fn write_failure(path: &str, cause: String) -> (error: AppError)
    ensures
        is_write_failure(error, path@, cause@),
{
    let mut message = String::from_str("Failed to write state to ");
    message.append(path);
    AppError::StateIo {
        message,
        cause,
        recovery_hint: "Ensure you have write permissions and sufficient disk space.",
    }
}

/// Each screen mode is found again under its stored name.
pub proof fn mode_names_read_back(screen_mode: ScreenMode)
    ensures
        mode_of_name(stored_mode_name(screen_mode)) == Some(screen_mode),
{
    reveal_strlit("KeepScreenOn");
    reveal_strlit("AllowScreenOff");
    assert("KeepScreenOn"@.len() != "AllowScreenOff"@.len());
}

/// A text in which the JSON library finds the two fields of a state decodes
/// to that state.
pub proof fn text_with_the_fields_of_a_state_decodes_to_it(text: Seq<char>, state: AppState)
    ensures
        json_bool_field(text, "sleep_disabled"@) == Some(state.sleep_disabled) && json_text_field(
            text,
            "screen_mode"@,
        ) == Some(stored_mode_name(state.screen_mode)) ==> decoded_state(text)
            == StoredState::Loaded(state),
{
    mode_names_read_back(state.screen_mode);
}

/// A text in which the JSON library misses one of the two fields, or finds a
/// mode name that is none, is corrupted.
pub proof fn text_without_the_fields_is_corrupted(text: Seq<char>)
    ensures
        json_bool_field(text, "sleep_disabled"@) is None ==> decoded_state(text)
            == StoredState::Corrupted,
        json_text_field(text, "screen_mode"@) is None ==> decoded_state(text)
            == StoredState::Corrupted,
        json_text_field(text, "screen_mode"@) is Some && mode_of_name(
            json_text_field(text, "screen_mode"@)->Some_0,
        ) is None ==> decoded_state(text) == StoredState::Corrupted,
{
}

} // verus!
