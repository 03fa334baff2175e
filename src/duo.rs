//! The request sent to the GitLab Duo chat endpoint, and the output made of
//! its answer.
use vstd::prelude::*;
use vstd::string::*;
use vstd::utf8::*;
use crate::extension::{
    GitLabDuoExtension, GitLabSettings, gitlab_url_of, lemma_unescaped_plain, missing_token_message,
    unescaped,
};
use crate::json::{json_str_member, json_string, json_string_of, parse_json, parsed_json_of, str_member_of};
use crate::slash::{DuoCommand, FileContext, SlashCommandOutput, SlashCommandOutputSection, plain_output};
use crate::text::{decimal, lossy_text, lower_of, lowercase, parsed_u16, parse_u16, push_decimal, same_text, utf8_lossy, utf8_text};

verus! {

/// A POST request to the chat endpoint.
pub struct DuoRequest {
    pub url: String,
    pub headers: Vec<(String, String)>,
    pub body: Vec<u8>,
}

/// What the endpoint answered.
pub struct DuoResponse {
    pub headers: Vec<(String, String)>,
    pub body: Vec<u8>,
}

/// How an answer's text reads as JSON.
pub enum ResponseJson {
    /// It is not JSON.
    NotJson,
    /// It is JSON with no string member `content`.
    NoContent,
    /// It is JSON whose member `content` is this string.
    Content(String),
}

pub open spec fn refactor_prompt() -> Seq<char> {
    "Please refactor this code to make it more maintainable, efficient, and follow best practices."@
}

pub open spec fn tests_prompt() -> Seq<char> {
    "Please generate comprehensive tests for this code, ensuring good test coverage."@
}

/// What is asked: a fixed request for the file commands, the user's text
/// for a question.
pub open spec fn prompt_text(command: DuoCommand, content: Seq<char>) -> Seq<char> {
    match command {
        DuoCommand::Ask => content,
        DuoCommand::Refactor => refactor_prompt(),
        DuoCommand::GenerateTests => tests_prompt(),
    }
}

/// The label of the section that holds an answer.
pub open spec fn section_label(command: DuoCommand) -> Seq<char> {
    match command {
        DuoCommand::Ask => "GitLab Duo Response"@,
        DuoCommand::Refactor => "GitLab Duo Refactoring"@,
        DuoCommand::GenerateTests => "GitLab Duo Tests"@,
    }
}

pub open spec fn api_url_of(settings: GitLabSettings) -> Seq<char> {
    gitlab_url_of(settings) + "/api/v4/chat/completions"@
}

pub open spec fn request_headers(token: Seq<char>) -> Seq<(Seq<char>, Seq<char>)> {
    seq![("Authorization"@, "Bearer "@ + token), ("Content-Type"@, "application/json"@)]
}

pub open spec fn pair_views(v: Seq<(String, String)>) -> Seq<(Seq<char>, Seq<char>)> {
    v.map_values(|p: (String, String)| (p.0@, p.1@))
}

/// The JSON object sent: its members in the order of their names, the file
/// (if any) as the one entry of `additional_context`.
pub open spec fn body_text(prompt: Seq<char>, file: Option<(Seq<char>, Seq<char>)>) -> Seq<char> {
    let context = match file {
        Some((path, content)) => "\"additional_context\":[{\"category\":\"file\",\"content\":"@
            + json_string_of(content) + ",\"id\":"@ + json_string_of(path) + "}],"@,
        None => Seq::empty(),
    };
    "{"@ + context + "\"content\":"@ + json_string_of(prompt) + ",\"with_clean_history\":true}"@
}

pub open spec fn file_views(file: Option<&FileContext>) -> Option<(Seq<char>, Seq<char>)> {
    match file {
        Some(f) => Some((f.path@, f.content@)),
        None => None,
    }
}

/// The status that the headers give: the value of the first header named
/// `status` in any case, read as a number, else 200.
pub open spec fn status_of(headers: Seq<(Seq<char>, Seq<char>)>) -> u16
    decreases headers.len(),
{
    if headers.len() == 0 {
        200
    } else if lower_of(headers[0].0) == "status"@ {
        match parsed_u16(headers[0].1) {
            Some(n) => n,
            None => 200,
        }
    } else {
        status_of(headers.drop_first())
    }
}

pub open spec fn byte_len(s: Seq<char>) -> usize {
    encode_utf8(s).len() as usize
}

/// An output of `text` as one section that spans it, labelled `label`.
pub open spec fn labelled_output(o: SlashCommandOutput, text: Seq<char>, label: Seq<char>) -> bool {
    &&& o.text@ == text
    &&& o.sections@.len() == 1
    &&& o.sections@[0].start == 0
    &&& o.sections@[0].end == byte_len(text)
    &&& o.sections@[0].label@ == label
}

/// The output for an answer whose text is `text`: the `content` member
/// where there is one, else the whole text, with its escapes written out.
pub open spec fn rendered(command: DuoCommand, text: Seq<char>, json: ResponseJson, o: SlashCommandOutput) -> bool {
    match json {
        ResponseJson::Content(c) => labelled_output(o, unescaped(c@), section_label(command)),
        ResponseJson::NoContent => labelled_output(o, unescaped(text), "GitLab Duo Response"@),
        ResponseJson::NotJson => labelled_output(o, unescaped(text), section_label(command)),
    }
}

/// How the text `text` reads as JSON, as `json` records it.
pub open spec fn reads_as(text: Seq<char>, json: ResponseJson) -> bool {
    match parsed_json_of(text) {
        None => json is NotJson,
        Some(v) => match str_member_of(v, "content"@) {
            Some(c) => json matches ResponseJson::Content(x) && x@ == c,
            None => json is NoContent,
        },
    }
}

/// The text that an answer shows before its escapes are written out: its
/// string member `content` where it is JSON with one, else the whole answer.
pub open spec fn answer_text(text: Seq<char>) -> Seq<char> {
    match parsed_json_of(text) {
        Some(v) => match str_member_of(v, "content"@) {
            Some(c) => c,
            None => text,
        },
        None => text,
    }
}

/// The label of an answer: the command's, but for JSON without a string
/// `content` member.
pub open spec fn answer_label(command: DuoCommand, text: Seq<char>) -> Seq<char> {
    match parsed_json_of(text) {
        Some(v) => match str_member_of(v, "content"@) {
            Some(c) => section_label(command),
            None => "GitLab Duo Response"@,
        },
        None => section_label(command),
    }
}

/// The output for a successful answer whose text is `text`.
pub open spec fn answer_shown(command: DuoCommand, text: Seq<char>, o: SlashCommandOutput) -> bool {
    labelled_output(o, unescaped(answer_text(text)), answer_label(command, text))
}

/// An answer whose shown text holds no backslash is shown verbatim: the
/// `content` member, or else the whole answer.
pub proof fn lemma_answer_verbatim(command: DuoCommand, text: Seq<char>, o: SlashCommandOutput)
    requires
        answer_shown(command, text, o),
        !answer_text(text).contains('\\'),
    ensures
        o.text@ == answer_text(text),
{
    lemma_unescaped_plain(answer_text(text));
}

pub open spec fn request_failed_message(e: Seq<char>) -> Seq<char> {
    "Request failed: "@ + e
}

pub open spec fn api_error_message(status: u16, body: Seq<u8>) -> Seq<char> {
    "Error from GitLab Duo API ("@ + decimal(status as nat) + "): "@ + lossy_text(body)
}

pub open spec fn invalid_utf8_message(body: Seq<u8>) -> Seq<char> {
    "Invalid UTF-8 in response: "@ + lossy_text(body)
}

pub open spec fn is_success(status: u16) -> bool {
    200 <= status < 300
}

/// The status of a response, from its headers.
pub fn status_code(headers: &Vec<(String, String)>) -> (r: u16)
    ensures
        r == status_of(pair_views(headers@)),
{
    let ghost hs = pair_views(headers@);
    let mut i: usize = 0;
    assert(hs.subrange(0, hs.len() as int) =~= hs);
    while i < headers.len()
        invariant
            hs == pair_views(headers@),
            i <= headers@.len(),
            status_of(hs) == status_of(hs.subrange(i as int, hs.len() as int)),
        decreases headers@.len() - i,
    {
        let ghost rest = hs.subrange(i as int, hs.len() as int);
        assert(rest[0] == hs[i as int]);
        assert(rest.drop_first() =~= hs.subrange(i + 1, hs.len() as int));
        let name = lowercase(headers[i].0.as_str());
        proof {
            reveal_strlit("status");
        }
        if same_text(name.as_str(), "status") {
            return match parse_u16(headers[i].1.as_str()) {
                Some(n) => n,
                None => 200,
            };
        }
        i = i + 1;
    }
    assert(hs.subrange(i as int, hs.len() as int).len() == 0);
    200
}

impl GitLabDuoExtension {
    /// The request that asks GitLab Duo for `command` on `content`, with the
    /// file attached where there is one. It needs the token.
    pub fn duo_request(
        &self,
        settings: &GitLabSettings,
        command: DuoCommand,
        content: &str,
        file: Option<&FileContext>,
    ) -> (r: Result<DuoRequest, String>)
        ensures
            settings.token is None ==> (r matches Err(e) && e@ == missing_token_message()),
            settings.token matches Some(t) ==> (r matches Ok(q) && q.url@ == api_url_of(*settings)
                && pair_views(q.headers@) == request_headers(t@) && q.body@ == encode_utf8(
                body_text(prompt_text(command, content@), file_views(file)),
            )),
    {
        let token = self.get_gitlab_token(settings)?;
        let gitlab_url = self.get_gitlab_url(settings);
        let mut url = gitlab_url;
        url.append("/api/v4/chat/completions");
        let prompt = match command {
            DuoCommand::Ask => content.to_string(),
            DuoCommand::Refactor => "Please refactor this code to make it more maintainable, efficient, and follow best practices.".to_string(),
            DuoCommand::GenerateTests => "Please generate comprehensive tests for this code, ensuring good test coverage.".to_string(),
        };
        let mut body = "{".to_string();
        match file {
            Some(f) => {
                let quoted_content = match json_string(f.content.as_str()) {
                    Ok(q) => q,
                    Err(e) => return Err(e),
                };
                let quoted_path = match json_string(f.path.as_str()) {
                    Ok(q) => q,
                    Err(e) => return Err(e),
                };
                body.append("\"additional_context\":[{\"category\":\"file\",\"content\":");
                body.append(quoted_content.as_str());
                body.append(",\"id\":");
                body.append(quoted_path.as_str());
                body.append("}],");
            },
            None => {},
        }
        let quoted_prompt = match json_string(prompt.as_str()) {
            Ok(q) => q,
            Err(e) => return Err(e),
        };
        body.append("\"content\":");
        body.append(quoted_prompt.as_str());
        body.append(",\"with_clean_history\":true}");
        assert(body@ =~= body_text(prompt_text(command, content@), file_views(file)));
        let mut bearer = "Bearer ".to_string();
        bearer.append(token.as_str());
        let headers = vec![
            ("Authorization".to_string(), bearer),
            ("Content-Type".to_string(), "application/json".to_string()),
        ];
        assert(pair_views(headers@) =~= request_headers(token@));
        Ok(DuoRequest { url, headers, body: body.as_str().as_bytes_vec() })
    }

    /// The output for an answer that came with a success status and whose
    /// body is the text `text`, given how that text reads as JSON.
    pub fn render_response_text(&self, command: DuoCommand, text: &str, json: &ResponseJson) -> (r:
        SlashCommandOutput)
        ensures
            rendered(command, text@, *json, r),
    {
        match json {
            ResponseJson::Content(c) => labelled(self.format_response_text(c.as_str()), label_for(command)),
            ResponseJson::NoContent => labelled(
                self.format_response_text(text),
                "GitLab Duo Response".to_string(),
            ),
            ResponseJson::NotJson => labelled(self.format_response_text(text), label_for(command)),
        }
    }

    /// The output for the outcome of sending a request for `command`.
    pub fn duo_response_output(&self, command: DuoCommand, fetched: Result<DuoResponse, String>) -> (r:
        SlashCommandOutput)
        ensures
            fetched matches Err(e) ==> plain_output(r, request_failed_message(e@)),
            fetched matches Ok(resp) ==> {
                let status = status_of(pair_views(resp.headers@));
                if !is_success(status) || resp.body@.len() == 0 {
                    plain_output(r, api_error_message(status, resp.body@))
                } else if !valid_utf8(resp.body@) {
                    plain_output(r, invalid_utf8_message(resp.body@))
                } else {
                    answer_shown(command, decode_utf8(resp.body@), r)
                }
            },
    {
        match fetched {
            Err(e) => {
                let mut m = "Request failed: ".to_string();
                m.append(e.as_str());
                SlashCommandOutput::plain(m)
            },
            Ok(resp) => {
                let status = status_code(&resp.headers);
                if status < 200 || status >= 300 || resp.body.len() == 0 {
                    let mut m = "Error from GitLab Duo API (".to_string();
                    push_decimal(&mut m, status);
                    m.append("): ");
                    let lossy = utf8_lossy(resp.body.as_slice());
                    m.append(lossy.as_str());
                    return SlashCommandOutput::plain(m);
                }
                match utf8_text(resp.body.clone()) {
                    Some(text) => {
                        let json = response_json(text.as_str());
                        self.render_response_text(command, text.as_str(), &json)
                    },
                    None => {
                        let lossy = utf8_lossy(resp.body.as_slice());
                        let mut m = "Invalid UTF-8 in response: ".to_string();
                        m.append(lossy.as_str());
                        SlashCommandOutput::plain(m)
                    },
                }
            },
        }
    }
}

/// How `text` reads as JSON.
pub fn response_json(text: &str) -> (r: ResponseJson)
    ensures
        reads_as(text@, r),
{
    match parse_json(text) {
        Ok(v) => match json_str_member(&v, "content") {
            Some(c) => ResponseJson::Content(c),
            None => ResponseJson::NoContent,
        },
        Err(_) => ResponseJson::NotJson,
    }
}

fn label_for(command: DuoCommand) -> (r: String)
    ensures
        r@ == section_label(command),
{
    match command {
        DuoCommand::Ask => "GitLab Duo Response".to_string(),
        DuoCommand::Refactor => "GitLab Duo Refactoring".to_string(),
        DuoCommand::GenerateTests => "GitLab Duo Tests".to_string(),
    }
}

/// `text` as one section labelled `label`.
fn labelled(text: String, label: String) -> (r: SlashCommandOutput)
    ensures
        labelled_output(r, text@, label@),
{
    let end = text.as_str().len();
    let section = SlashCommandOutputSection { start: 0, end, label };
    SlashCommandOutput { text, sections: vec![section] }
}

} // verus!
