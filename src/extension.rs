//! The extension's state, its settings and the language-server command.
use vstd::prelude::*;
use zed_extension_api::serde_json;
use crate::json::{is_json_text, json_str_member, parse_json, str_member_of};
use crate::text::{lemma_replace_absent, lemma_replace_not_longer, replace_all, replace_text};

verus! {

/// The `baseUrl` and `token` entries of the extension's language-server
/// settings, where they are strings.
pub struct GitLabSettings {
    pub base_url: Option<String>,
    pub token: Option<String>,
}

impl GitLabSettings {
    /// Takes `baseUrl` and `token` from the settings object, each where it is
    /// a string.
    pub fn from_json(settings: &serde_json::Value) -> (r: GitLabSettings)
        ensures
            opt_view(r.base_url) == str_member_of(*settings, "baseUrl"@),
            opt_view(r.token) == str_member_of(*settings, "token"@),
    {
        GitLabSettings {
            base_url: json_str_member(settings, "baseUrl"),
            token: json_str_member(settings, "token"),
        }
    }
}

pub open spec fn opt_view(o: Option<String>) -> Option<Seq<char>> {
    match o {
        Some(t) => Some(t@),
        None => None,
    }
}

/// The command line that starts the language server.
pub struct LspCommand {
    pub command: String,
    pub args: Vec<String>,
    pub env: Vec<(String, String)>,
}

/// The extension: it remembers where it last found the `npx` launcher.
pub struct GitLabDuoExtension {
    pub cached_binary_path: Option<String>,
}

pub open spec fn default_gitlab_url() -> Seq<char> {
    "https://gitlab.com"@
}

/// The GitLab instance that requests go to.
pub open spec fn gitlab_url_of(settings: GitLabSettings) -> Seq<char> {
    match settings.base_url {
        Some(u) => u@,
        None => default_gitlab_url(),
    }
}

pub open spec fn missing_token_message() -> Seq<char> {
    "GitLab token not configured. Please set lsp.gitlab-duo.settings.token in settings."@
}

pub open spec fn missing_launcher_message() -> Seq<char> {
    "Could not find npx in the worktree; it is needed to start the GitLab Duo language server."@
}

/// The arguments that `npx` is given to run the GitLab language server.
pub open spec fn lsp_args() -> Seq<Seq<char>> {
    seq![
        "--registry=https://gitlab.com/api/v4/packages/npm/"@,
        "@gitlab-org/gitlab-lsp"@,
        "--stdio"@,
    ]
}

pub open spec fn string_views(v: Seq<String>) -> Seq<Seq<char>> {
    v.map_values(|a: String| a@)
}

/// `s` with the escapes `\n`, `\t`, `\"` and `\\` written out, one kind after
/// the other in that order.
pub open spec fn unescaped(s: Seq<char>) -> Seq<char> {
    replace_all(
        replace_all(
            replace_all(replace_all(s, "\\n"@, "\n"@), "\\t"@, "\t"@),
            "\\\""@,
            "\""@,
        ),
        "\\\\"@,
        "\\"@,
    )
}

/// Text without a backslash holds no escape, and is shown as it is.
pub proof fn lemma_unescaped_plain(s: Seq<char>)
    requires
        !s.contains('\\'),
    ensures
        unescaped(s) == s,
{
    reveal_strlit("\\n");
    reveal_strlit("\\t");
    reveal_strlit("\\\"");
    reveal_strlit("\\\\");
    lemma_replace_absent(s, "\\n"@, "\n"@);
    lemma_replace_absent(s, "\\t"@, "\t"@);
    lemma_replace_absent(s, "\\\""@, "\""@);
    lemma_replace_absent(s, "\\\\"@, "\\"@);
}

/// Writing out escapes never makes a text longer.
pub proof fn lemma_unescaped_not_longer(s: Seq<char>)
    ensures
        unescaped(s).len() <= s.len(),
{
    reveal_strlit("\\n");
    reveal_strlit("\\t");
    reveal_strlit("\\\"");
    reveal_strlit("\\\\");
    reveal_strlit("\n");
    reveal_strlit("\t");
    reveal_strlit("\"");
    reveal_strlit("\\");
    let a = replace_all(s, "\\n"@, "\n"@);
    let b = replace_all(a, "\\t"@, "\t"@);
    let c = replace_all(b, "\\\""@, "\""@);
    lemma_replace_not_longer(s, "\\n"@, "\n"@);
    lemma_replace_not_longer(a, "\\t"@, "\t"@);
    lemma_replace_not_longer(b, "\\\""@, "\""@);
    lemma_replace_not_longer(c, "\\\\"@, "\\"@);
}

pub const INITIALIZATION_OPTIONS: &'static str = r#"{
                "extension": {
                  "name": "Zed Duo extension",
                  "version": "0.0.1"
                },
                "ide": {
                  "name": "Zed",
                  "version": "0.156.1",
                  "vendor": "Zed"
                }
            }"#;

pub open spec fn init_options_error_prefix() -> Seq<char> {
    "Failed to parse initialization options: "@
}

impl GitLabDuoExtension {
    pub fn new() -> (r: Self)
        ensures
            r.cached_binary_path is None,
    {
        GitLabDuoExtension { cached_binary_path: None }
    }

    /// The launcher that runs the language server, given where `npx` was
    /// found, if it was; a found path is remembered.
    pub fn language_server_binary_path(&mut self, found: Option<String>) -> (r: Result<
        String,
        String,
    >)
        ensures
            found matches Some(p) ==> r == Ok::<String, String>(p)
                && final(self).cached_binary_path == Some(p),
            found is None ==> (r matches Err(e) && e@ == missing_launcher_message()
                && *final(self) == *old(self)),
    {
        match found {
            Some(p) => {
                self.cached_binary_path = Some(p.clone());
                Ok(p)
            },
            None => Err("Could not find npx in the worktree; it is needed to start the GitLab Duo language server.".to_string()),
        }
    }

    /// The command that starts the language server through `npx`.
    pub fn language_server_command(&mut self, found: Option<String>) -> (r: Result<
        LspCommand,
        String,
    >)
        ensures
            found matches Some(p) ==> (r matches Ok(c) && c.command == p && string_views(c.args@)
                == lsp_args() && c.env@.len() == 0 && final(self).cached_binary_path == Some(p)),
            found is None ==> (r matches Err(e) && e@ == missing_launcher_message()
                && *final(self) == *old(self)),
    {
        let command = self.language_server_binary_path(found)?;
        let args = vec![
            "--registry=https://gitlab.com/api/v4/packages/npm/".to_string(),
            "@gitlab-org/gitlab-lsp".to_string(),
            "--stdio".to_string(),
        ];
        assert(string_views(args@) =~= lsp_args());
        Ok(LspCommand { command, args, env: Vec::new() })
    }

    /// The address of the GitLab instance: `baseUrl`, or gitlab.com.
    pub fn get_gitlab_url(&self, settings: &GitLabSettings) -> (r: String)
        ensures
            r@ == gitlab_url_of(*settings),
    {
        match &settings.base_url {
            Some(u) => u.clone(),
            None => "https://gitlab.com".to_string(),
        }
    }

    /// The API token, which must be configured.
    pub fn get_gitlab_token(&self, settings: &GitLabSettings) -> (r: Result<String, String>)
        ensures
            settings.token matches Some(t) ==> (r matches Ok(x) && x@ == t@),
            settings.token is None ==> (r matches Err(e) && e@ == missing_token_message()),
    {
        match &settings.token {
            Some(t) => Ok(t.clone()),
            None => Err(
                "GitLab token not configured. Please set lsp.gitlab-duo.settings.token in settings.".to_string(),
            ),
        }
    }

    /// Writes out the escapes `\n`, `\t`, `\"` and `\\` that a response
    /// carries literally.
    pub fn format_response_text(&self, text: &str) -> (r: String)
        ensures
            r@ == unescaped(text@),
    {
        proof {
            reveal_strlit("\\n");
            reveal_strlit("\\t");
            reveal_strlit("\\\"");
            reveal_strlit("\\\\");
        }
        let a = replace_text(text, "\\n", "\n");
        let b = replace_text(a.as_str(), "\\t", "\t");
        let c = replace_text(b.as_str(), "\\\"", "\"");
        replace_text(c.as_str(), "\\\\", "\\")
    }

    /// The initialization options handed to the language server: the
    /// extension's and the editor's names and versions.
    pub fn language_server_initialization_options(&self) -> (r: Result<serde_json::Value, String>)
        ensures
            r is Ok <==> is_json_text(INITIALIZATION_OPTIONS@),
            r matches Err(e) ==> e@.take(init_options_error_prefix().len() as int)
                == init_options_error_prefix(),
    {
        match parse_json(INITIALIZATION_OPTIONS) {
            Ok(v) => Ok(v),
            Err(e) => {
                let mut m = "Failed to parse initialization options: ".to_string();
                m.append(e.as_str());
                proof {
                    reveal_strlit("Failed to parse initialization options: ");
                }
                assert(m@.take(init_options_error_prefix().len() as int) =~= init_options_error_prefix());
                Err(m)
            },
        }
    }
}

} // verus!
