//! The MCP integration: which AI client a toggle names, where each
//! client keeps its config, whether write tools may run, and the
//! change notifications the stdio server leaves for the app.
use vstd::prelude::*;

use crate::codec::{format_i64, i64_text};
use crate::paths::{join, join_spec};
use crate::stream::json_pointer_str;
use crate::text::{owned, str_eq};

verus! {

/// What `format!("{:?}", s)` prints for a string: the string quoted, with
/// std's debug escapes.
pub uninterp spec fn spec_debug_str(s: Seq<char>) -> Seq<char>;

/// Calls `<str as Debug>::fmt` through `format!`; the escaping rules are
/// std's and are named here, not restated.
#[verifier::external_body]
fn debug_quoted(s: &str) -> (r: String)
    ensures
        r@ == spec_debug_str(s@),
{
    format!("{:?}", s)
}

/// The AI clients whose config Quill can point at itself.
#[derive(Debug, Clone, Copy, PartialEq, Eq, Structural)]
pub enum Client {
    ClaudeCode,
    Codex,
}

/// Why an MCP integration command refused.
#[derive(Debug)]
pub enum McpError {
    /// The toggle named no known client; the name as given.
    UnknownClient(String),
    /// `$HOME` is not set.
    NoHome,
}

/// The text each error is reported with.
pub open spec fn mcp_error_message(e: McpError) -> Seq<char> {
    match e {
        McpError::UnknownClient(name) => "unknown MCP client: "@ + spec_debug_str(name@)
            + " (expected claude_code or codex)"@,
        McpError::NoHome => "HOME env var not set"@,
    }
}

impl McpError {
    /// The message shown to the user.
    pub fn message(&self) -> (r: String)
        ensures
            r@ == mcp_error_message(*self),
    {
        match self {
            McpError::UnknownClient(name) => {
                let mut s = owned("unknown MCP client: ");
                s.append(debug_quoted(name.as_str()).as_str());
                s.append(" (expected claude_code or codex)");
                s
            },
            McpError::NoHome => owned("HOME env var not set"),
        }
    }
}

impl Client {
    /// `claude_code` and `codex`, exactly; any other name is refused.
    pub fn parse(s: &str) -> (r: Result<Client, McpError>)
        ensures
            s@ == "claude_code"@ ==> r == Ok::<Client, McpError>(Client::ClaudeCode),
            s@ == "codex"@ ==> r == Ok::<Client, McpError>(Client::Codex),
            s@ != "claude_code"@ && s@ != "codex"@ ==> (r matches Err(McpError::UnknownClient(n)) && n@ == s@),
    {
        proof {
            reveal_strlit("claude_code");
            reveal_strlit("codex");
            assert("claude_code"@.len() != "codex"@.len());
        }
        if str_eq(s, CLAUDE_CODE_ID) {
            Ok(Client::ClaudeCode)
        } else if str_eq(s, "codex") {
            Ok(Client::Codex)
        } else {
            Err(McpError::UnknownClient(owned(s)))
        }
    }
}

/// `$HOME`, or `NoHome`.
pub fn home_dir(home: Option<&str>) -> (r: Result<String, McpError>)
    ensures
        match home {
            Some(h) => (r matches Ok(d) && d@ == h@),
            None => r matches Err(McpError::NoHome),
        },
{
    match home {
        Some(h) => Ok(owned(h)),
        None => Err(McpError::NoHome),
    }
}

/// The id the settings UI sends for the first client.
pub const CLAUDE_CODE_ID: &'static str = "claude_code";

/// That client's config file in the home directory: a dot file named after
/// the first word of its id, with a `.json` extension.
pub open spec fn claude_code_config_spec() -> Seq<char> {
    seq!['.'] + CLAUDE_CODE_ID@.subrange(0, 6) + ".json"@
}

fn claude_code_config_name() -> (r: String)
    ensures
        r@ == claude_code_config_spec(),
{
    proof {
        reveal_strlit("claude_code");
        reveal_strlit(".");
        assert(".".view() =~= seq!['.']);
    }
    let mut s = owned(".");
    s.append(CLAUDE_CODE_ID.substring_char(0, 6));
    s.append(".json");
    s
}

/// The `claude_code` client's config path, in the home directory.
pub fn claude_code_path(home: Option<&str>) -> (r: Result<String, McpError>)
    ensures
        match home {
            Some(h) => (r matches Ok(p) && p@ == join_spec(h@, claude_code_config_spec())),
            None => r matches Err(McpError::NoHome),
        },
{
    let h = home_dir(home)?;
    let name = claude_code_config_name();
    Ok(join(h.as_str(), name.as_str()))
}

/// Codex's config: `~/.codex/config.toml`.
pub fn codex_path(home: Option<&str>) -> (r: Result<String, McpError>)
    ensures
        match home {
            Some(h) => (r matches Ok(p) && p@ == join_spec(join_spec(h@, ".codex"@), "config.toml"@)),
            None => r matches Err(McpError::NoHome),
        },
{
    let h = home_dir(home)?;
    let dir = join(h.as_str(), ".codex");
    Ok(join(dir.as_str(), "config.toml"))
}

/// The config file of a client.
pub fn client_config_path(client: Client, home: Option<&str>) -> (r: Result<String, McpError>)
    ensures
        match home {
            Some(h) => (r matches Ok(p) && p@ == (match client {
                Client::ClaudeCode => join_spec(h@, claude_code_config_spec()),
                Client::Codex => join_spec(join_spec(h@, ".codex"@), "config.toml"@),
            })),
            None => r matches Err(McpError::NoHome),
        },
{
    match client {
        Client::ClaudeCode => claude_code_path(home),
        Client::Codex => codex_path(home),
    }
}

/// What the settings UI shows of the integration.
#[derive(Debug, Clone)]
pub struct McpIntegrationStatus {
    pub claude_code: bool,
    pub codex: bool,
    pub write_enabled: bool,
    pub binary_path: String,
}

/// The settings key of the write-access switch.
pub const MCP_WRITE_ENABLED_KEY: &'static str = "mcp_write_enabled";

/// The value stored for the write-access switch.
pub fn write_access_value(enabled: bool) -> (r: &'static str)
    ensures
        r@ == (if enabled { "true"@ } else { "false"@ }),
{
    if enabled {
        "true"
    } else {
        "false"
    }
}

/// Write access is on only when the stored value is `true`.
pub fn write_access_enabled(value: Option<&str>) -> (b: bool)
    ensures
        b == (match value {
            Some(v) => v@ == "true"@,
            None => false,
        }),
{
    match value {
        Some(v) => str_eq(v, "true"),
        None => false,
    }
}

/// Storing the switch and reading it back gives the switch.
pub proof fn law_write_access_round_trip(enabled: bool)
    ensures
        ((if enabled { "true"@ } else { "false"@ }) == "true"@) == enabled,
{
    reveal_strlit("true");
    reveal_strlit("false");
    if !enabled {
        assert("false"@.len() != "true"@.len());
    }
}

/// Why a write tool was refused.
#[derive(Debug, PartialEq, Eq, Structural)]
pub enum WriteDenied {
    /// The session started without write access.
    NotEnabledForSession,
    /// Write access was switched off since the session started.
    Revoked,
}

/// The message an MCP client is sent for each refusal.
pub open spec fn write_denied_message(d: WriteDenied) -> Seq<char> {
    match d {
        WriteDenied::NotEnabledForSession => "Write access was not enabled when this MCP session started. Enable it in Quill → Settings → MCP → Allow write access, then restart the MCP client so a new session picks up the change."@,
        WriteDenied::Revoked => "Write access was revoked. Re-enable it in Quill → Settings → MCP → Allow write access."@,
    }
}

impl WriteDenied {
    /// The refusal's message.
    pub fn message(&self) -> (r: &'static str)
        ensures
            r@ == write_denied_message(*self),
    {
        match self {
            WriteDenied::NotEnabledForSession => "Write access was not enabled when this MCP session started. Enable it in Quill → Settings → MCP → Allow write access, then restart the MCP client so a new session picks up the change.",
            WriteDenied::Revoked => "Write access was revoked. Re-enable it in Quill → Settings → MCP → Allow write access.",
        }
    }
}

/// A write tool runs only when the session was started with a writer and
/// the switch, read again now, is still on; so switching write access off
/// takes effect without restarting the session.
pub fn require_write_access(session_has_writer: bool, setting: Option<&str>) -> (r: Result<(), WriteDenied>)
    ensures
        !session_has_writer ==> r == Err::<(), WriteDenied>(WriteDenied::NotEnabledForSession),
        session_has_writer && !(setting matches Some(v) && v@ == "true"@) ==> r == Err::<(), WriteDenied>(
            WriteDenied::Revoked,
        ),
        session_has_writer && (setting matches Some(v) && v@ == "true"@) ==> r is Ok,
{
    if !session_has_writer {
        return Err(WriteDenied::NotEnabledForSession);
    }
    if !write_access_enabled(setting) {
        return Err(WriteDenied::Revoked);
    }
    Ok(())
}

/// The sentinel the stdio server rewrites after each write, in the data
/// directory.
pub const NOTIFY_FILE: &'static str = ".mcp-notify";

/// Where the sentinel lives; none when the session cannot write.
pub fn notify_path(can_write: bool, data_dir: &str) -> (r: Option<String>)
    ensures
        can_write ==> (r matches Some(p) && p@ == join_spec(data_dir@, NOTIFY_FILE@)),
        !can_write ==> r is None,
{
    if can_write {
        Some(join(data_dir, NOTIFY_FILE))
    } else {
        None
    }
}

/// `{"domain":"…","action":"…","id":"…","ts":…}`.
pub open spec fn notify_payload_spec(domain: Seq<char>, action: Seq<char>, id: Seq<char>, ts: i64) -> Seq<char> {
    "{\"domain\":\""@ + domain + "\",\"action\":\""@ + action + "\",\"id\":\""@ + id + "\",\"ts\":"@
        + i64_text(ts) + "}"@
}

/// The sentinel's payload for one write.
pub fn notify_payload(domain: &str, action: &str, id: &str, ts: i64) -> (r: String)
    ensures
        r@ == notify_payload_spec(domain@, action@, id@, ts),
{
    let mut s = owned("{\"domain\":\"");
    s.append(domain);
    s.append("\",\"action\":\"");
    s.append(action);
    s.append("\",\"id\":\"");
    s.append(id);
    s.append("\",\"ts\":");
    s.append(format_i64(ts).as_str());
    s.append("}");
    s
}

/// The app event a sentinel payload is forwarded as: by its `domain`,
/// books and collections only.
pub open spec fn notify_event_spec(payload: Seq<char>) -> Option<Seq<char>> {
    match json_pointer_str(payload, "/domain"@) {
        Some(d) => if d == "books"@ {
            Some("mcp:books-changed"@)
        } else if d == "collections"@ {
            Some("mcp:collections-changed"@)
        } else {
            None
        },
        None => None,
    }
}

/// Routes a sentinel payload to its app event; `None` for any other
/// domain or a payload that is not JSON.
pub fn notify_event_name(payload: &str) -> (r: Option<&'static str>)
    ensures
        match r {
            Some(e) => notify_event_spec(payload@) == Some(e@),
            None => notify_event_spec(payload@) is None,
        },
{
    match crate::stream::json_str_at(payload, "/domain") {
        Some(d) => {
            if str_eq(d.as_str(), "books") {
                Some("mcp:books-changed")
            } else if str_eq(d.as_str(), "collections") {
                Some("mcp:collections-changed")
            } else {
                None
            }
        },
        None => None,
    }
}

/// The data directory the stdio server resolves book paths against: with
/// sync on, the recorded shared folder, else the iCloud container, else
/// local; with sync off, local.
pub fn mcp_data_dir(sync_enabled: bool, recorded: Option<String>, icloud: Option<String>, local_dir: String) -> (r: String)
    ensures
        r == (if sync_enabled {
            match recorded {
                Some(d) => d,
                None => match icloud {
                    Some(d) => d,
                    None => local_dir,
                },
            }
        } else {
            local_dir
        }),
{
    if sync_enabled {
        match recorded {
            Some(d) => d,
            None => match icloud {
                Some(d) => d,
                None => local_dir,
            },
        }
    } else {
        local_dir
    }
}

/// The stdio server's message when no library exists yet.
pub fn no_library_message(db_path: &str) -> (r: String)
    ensures
        r@ == "quill mcp: no library found at "@ + db_path@
            + " — launch the Quill app at least once to initialize it."@,
{
    let mut s = owned("quill mcp: no library found at ");
    s.append(db_path);
    s.append(" — launch the Quill app at least once to initialize it.");
    s
}

/// Arguments of the `list_books` tool.
#[derive(Debug, Clone)]
pub struct ListBooksArgs {
    /// `reading`, `finished`, `unread`, `all`, or a genre.
    pub filter: Option<String>,
    /// A case-insensitive substring of title or author.
    pub search: Option<String>,
}

/// Arguments of the `get_book` tool.
#[derive(Debug, Clone)]
pub struct GetBookArgs {
    pub book_id: String,
}

/// Arguments of the `add_book` tool.
#[derive(Debug, Clone)]
pub struct AddBookArgs {
    /// Absolute path of an `.epub` or `.pdf` file.
    pub file_path: String,
}

/// Arguments of the `update_book` tool; omitted fields stay as they are.
#[derive(Debug, Clone)]
pub struct UpdateBookArgs {
    pub book_id: String,
    pub title: Option<String>,
    pub author: Option<String>,
    pub genre: Option<String>,
    pub status: Option<String>,
}

/// Arguments of the `delete_book` tool.
#[derive(Debug, Clone)]
pub struct DeleteBookArgs {
    pub book_id: String,
}

/// Arguments of the `get_bookmarks` tool.
#[derive(Debug, Clone)]
pub struct GetBookmarksArgs {
    pub book_id: String,
}

/// Arguments of the `get_chat_history` tool.
#[derive(Debug, Clone)]
pub struct GetChatHistoryArgs {
    pub book_id: String,
    /// Only this chat, when given.
    pub chat_id: Option<String>,
}

/// Arguments of the `get_highlights` tool.
#[derive(Debug, Clone)]
pub struct GetHighlightsArgs {
    pub book_id: String,
}

/// Arguments of the `get_translations` tool.
#[derive(Debug, Clone)]
pub struct GetTranslationsArgs {
    /// One book's translations, or the whole library's.
    pub book_id: Option<String>,
}

/// Arguments of the `get_vocab_words` tool.
#[derive(Debug, Clone)]
pub struct GetVocabWordsArgs {
    pub book_id: String,
}

} // verus!
