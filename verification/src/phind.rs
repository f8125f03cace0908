use crate::json::{append_json_string, json_string};
use crate::llm::{append_messages_array, messages_items, LLMError, LLMRequest, Message, MessageView};
use crate::text::{find_char_at, lemma_find_char_from_spec, str_eq};
use vstd::prelude::*;
use vstd::string::*;

verus! {

/// Connection settings for the free, unauthenticated, streaming backend.
#[derive(Debug, Clone)]
pub struct PhindConfig {
    pub model: String,
    pub api_base_url: String,
}

impl PhindConfig {
    /// Builds the settings: the model or its default, and the fixed
    /// endpoint. This backend takes no API key.
    pub fn new(model: Option<String>) -> (c: PhindConfig)
        ensures
            c.model@ == (match model {
                Some(ref m) => m@,
                None => "Phind-70B"@,
            }),
            c.api_base_url@ == "https://https.extension.phind.com/agent/"@,
    {
        PhindConfig {
            model: match model {
                Some(m) => m,
                None => "Phind-70B".to_owned(),
            },
            api_base_url: "https://https.extension.phind.com/agent/".to_owned(),
        }
    }

    /// The request: the full message history plus a `user_input` field that
    /// duplicates the user turn, with no authentication header. Fewer than
    /// two messages are refused before any request exists.
    pub fn build_request(&self, messages: &Vec<Message>) -> (r: Result<LLMRequest, LLMError>)
        ensures
            match r {
                Ok(req) => messages@.len() >= 2 && req.url@ == self.api_base_url@ && req.body@
                    == phind_body_text(
                    self.model@,
                    messages@.map_values(|m: Message| m@),
                    messages@[1]@.content,
                ) && req.headers@.len() == 4 && req.headers@[0].0@ == "Content-Type"@
                    && req.headers@[0].1@ == "application/json"@ && req.headers@[1].0@
                    == "User-Agent"@ && req.headers@[1].1@ == ""@ && req.headers@[2].0@
                    == "Accept"@ && req.headers@[2].1@ == "*/*"@ && req.headers@[3].0@
                    == "Accept-Encoding"@ && req.headers@[3].1@ == "Identity"@,
                Err(e) => messages@.len() < 2 && e == LLMError::SomeError,
            },
    {
        if messages.len() < 2 {
            return Err(LLMError::SomeError);
        }
        let user_message = &messages[1];
        let mut body =
            "{\"additional_extension_context\":\"\",\"allow_magic_buttons\":true,\"is_vscode_extension\":true,\"message_history\":".to_owned();
        append_messages_array(&mut body, messages);
        body.append(",\"requested_model\":");
        append_json_string(&mut body, self.model.as_str());
        body.append(",\"user_input\":");
        append_json_string(&mut body, user_message.content.as_str());
        body.append("}");
        proof {
            assert(body@ =~= phind_body_text(
                self.model@,
                messages@.map_values(|m: Message| m@),
                messages@[1]@.content,
            ));
        }
        let mut headers: Vec<(String, String)> = Vec::new();
        headers.push(("Content-Type".to_owned(), "application/json".to_owned()));
        headers.push(("User-Agent".to_owned(), "".to_owned()));
        headers.push(("Accept".to_owned(), "*/*".to_owned()));
        headers.push(("Accept-Encoding".to_owned(), "Identity".to_owned()));
        Ok(LLMRequest { url: self.api_base_url.clone(), headers, body })
    }
}

/// The request body: fixed extension fields, the full message history, the
/// requested model and the duplicated user input.
pub open spec fn phind_body_text(model: Seq<char>, ms: Seq<MessageView>, user: Seq<char>) -> Seq<
    char,
> {
    "{\"additional_extension_context\":\"\",\"allow_magic_buttons\":true,\"is_vscode_extension\":true,\"message_history\":"@
        + "["@ + messages_items(ms) + "]"@ + ",\"requested_model\":"@ + json_string(model)
        + ",\"user_input\":"@ + json_string(user) + "}"@
}

/// What the JSON payload of one stream line yields: the string under the
/// first choice's delta content, if the payload parses and holds one. The
/// extraction is a function of the text alone.
pub uninterp spec fn delta_content_of(data: Seq<char>) -> Option<Seq<char>>;

/// Relies on serde_json::from_str::<Value> and Value::get and Value::as_str:
/// parses one stream payload and extracts `choices[0].delta.content`. A
/// payload that does not parse, or lacks that string, yields nothing.
#[verifier::external_body]
fn extract_delta_content(data: &str) -> (r: Option<String>)
    ensures
        match r {
            Some(s) => delta_content_of(data@) == Some(s@),
            None => delta_content_of(data@) is None,
        },
{
    let parsed: serde_json::Value = match serde_json::from_str(data) {
        Ok(v) => v,
        Err(_) => return None,
    };
    parsed.get("choices").and_then(|c| c.get(0)).and_then(|c| c.get("delta")).and_then(
        |d| d.get("content"),
    ).and_then(|c| c.as_str()).map(|s| s.to_owned())
}

/// What one line of the stream yields: a line with the `data: ` marker hands
/// its payload to the JSON extraction; any other line yields nothing.
pub open spec fn line_fragment(line: Seq<char>) -> Option<Seq<char>> {
    if line.len() >= 6 && line.subrange(0, 6) == "data: "@ {
        delta_content_of(line.subrange(6, line.len() as int))
    } else {
        None
    }
}

/// The text one line contributes: its extracted fragment, or nothing.
pub open spec fn line_fragment_text(line: Seq<char>) -> Seq<char> {
    match line_fragment(line) {
        Some(s) => s,
        None => Seq::empty(),
    }
}

/// The concatenation, in line order, of the fragments that the lines of the
/// newline-delimited text yield, scanning from position `i` with the current
/// line starting at `line_start`.
pub open spec fn stream_fragments_from(text: Seq<char>, i: int, line_start: int) -> Seq<char>
    decreases text.len() - i,
{
    if i >= text.len() {
        line_fragment_text(text.subrange(line_start, text.len() as int))
    } else if text[i] == '\n' {
        line_fragment_text(text.subrange(line_start, i)) + stream_fragments_from(text, i + 1, i + 1)
    } else {
        stream_fragments_from(text, i + 1, line_start)
    }
}

/// The concatenation, in line order, of every fragment the text's lines
/// yield; lines that yield nothing contribute nothing.
pub open spec fn stream_fragments(text: Seq<char>) -> Seq<char> {
    stream_fragments_from(text, 0, 0)
}

/// Scanning over a stretch without newlines lands on the line's end: the
/// fragments from `i` are the current line's fragment followed by the
/// fragments of what comes after its terminator, if any.
proof fn lemma_stream_fragments_line(text: Seq<char>, i: int, line_start: int, end: int)
    requires
        0 <= line_start <= i <= end <= text.len(),
        forall|k: int| i <= k < end ==> text[k] != '\n',
        end == text.len() || text[end] == '\n',
    ensures
        stream_fragments_from(text, i, line_start) == if end == text.len() {
            line_fragment_text(text.subrange(line_start, text.len() as int))
        } else {
            line_fragment_text(text.subrange(line_start, end)) + stream_fragments_from(
                text,
                end + 1,
                end + 1,
            )
        },
    decreases end - i,
{
    if i < end {
        lemma_stream_fragments_line(text, i + 1, line_start, end);
    }
}

/// Extracts the completion fragment of one stream line: the line must carry
/// the `data: ` marker, its payload must parse as JSON, and the parsed shape
/// must hold a string under the first choice's delta content; any other line
/// yields nothing and is skipped.
fn parse_line(line: &str) -> (r: Option<String>)
    ensures
        match r {
            Some(s) => line_fragment(line@) == Some(s@),
            None => line_fragment(line@) is None,
        },
{
    let len = line.unicode_len();
    if len < 6 {
        return None;
    }
    let marker = line.substring_char(0, 6);
    if !str_eq(marker, "data: ") {
        return None;
    }
    let data = line.substring_char(6, len);
    extract_delta_content(data)
}

/// Concatenates, in line order, every fragment that a line of the
/// newline-delimited body yields; malformed lines are skipped silently.
fn parse_stream_response(text: &str) -> (r: String)
    ensures
        r@ == stream_fragments(text@),
{
    let mut out = String::new();
    let len = text.unicode_len();
    let mut start: usize = 0;
    let mut finished = false;
    proof {
        assert(Seq::<char>::empty() + stream_fragments_from(text@, 0, 0) =~= stream_fragments_from(
            text@,
            0,
            0,
        ));
    }
    while !finished
        invariant
            len == text@.len(),
            0 <= start <= len,
            if finished {
                out@ == stream_fragments(text@)
            } else {
                stream_fragments(text@) == out@ + stream_fragments_from(
                    text@,
                    start as int,
                    start as int,
                )
            },
        decreases len - start + (if finished { 0int } else { 1int }),
    {
        let found = find_char_at(text, '\n', start);
        proof {
            lemma_find_char_from_spec(text@, '\n', start as int);
        }
        let end = match found {
            Some(i) => i,
            None => len,
        };
        let line = text.substring_char(start, end);
        let ghost pre_out = out@;
        match parse_line(line) {
            Some(frag) => out.append(frag.as_str()),
            None => {},
        }
        proof {
            assert(out@ =~= pre_out + line_fragment_text(line@));
            lemma_stream_fragments_line(text@, start as int, start as int, end as int);
            if end < len {
                assert(pre_out + (line_fragment_text(line@) + stream_fragments_from(
                    text@,
                    end + 1 as int,
                    end + 1 as int,
                )) =~= out@ + stream_fragments_from(text@, end + 1 as int, end + 1 as int));
            }
        }
        if end == len {
            finished = true;
        } else {
            start = end + 1;
        }
    }
    out
}

/// The decoded outcome of a success body of the streaming wire shape: the
/// in-order concatenation of the lines' fragments when it is non-empty, and
/// a missing completion exactly when it is empty.
pub open spec fn phind_success_decoded(r: Result<String, LLMError>, body: Seq<char>) -> bool {
    match r {
        Ok(s) => s@ == stream_fragments(body) && s@.len() > 0,
        Err(e) => e == LLMError::NoCompletionChoice && stream_fragments(body).len() == 0,
    }
}

/// Decodes a success body of the streaming wire shape: the concatenation of
/// every extracted fragment. An empty concatenation is a missing completion,
/// not an empty success.
pub fn decode_phind_success(body: &str) -> (r: Result<String, LLMError>)
    ensures
        phind_success_decoded(r, body@),
{
    let full = parse_stream_response(body);
    if full.as_str().is_empty() {
        Err(LLMError::NoCompletionChoice)
    } else {
        Ok(full)
    }
}

} // verus!
