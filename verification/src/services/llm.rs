use vstd::prelude::*;
use crate::text::{
    chars_of, concat_str, find, lemma_find_from_first, occurs_at, spec_find, spec_is_whitespace, spec_trim,
    trim_chars, trim_is_clean, trim_keeps_the_text,
};

verus! {

/// One message of a chat with the LLM: who speaks (`system`, `user`, `assistant`) and what.
#[derive(Debug)]
pub struct Message {
    pub role: String,
    pub content: String,
}

impl Clone for Message {
    fn clone(&self) -> (r: Self)
        ensures
            r == *self,
    {
        Message { role: self.role.clone(), content: self.content.clone() }
    }
}

impl Message {
    /// A message with the given role and content.
    pub fn new(role: &str, content: String) -> (m: Message)
        ensures
            m.role@ == role@,
            m.content == content,
    {
        Message { role: String::from_str(role), content }
    }
}

/// A copy of a list of messages.
pub fn clone_messages(v: &Vec<Message>) -> (r: Vec<Message>)
    ensures
        r@ == v@,
{
    let mut r: Vec<Message> = Vec::new();
    let n = v.len();
    let mut i: usize = 0;
    while i < n
        invariant
            n == v@.len(),
            i <= n,
            r@ == v@.subrange(0, i as int),
        decreases n - i,
    {
        r.push(v[i].clone());
        assert(v@.subrange(0, i + 1) =~= v@.subrange(0, i as int).push(v@[i as int]));
        i = i + 1;
    }
    assert(v@.subrange(0, n as int) =~= v@);
    r
}

/// One choice of a chat completion.
pub struct Choice {
    pub message: Message,
}

/// The body of a chat completion response.
pub struct ChatResponse {
    pub choices: Vec<Choice>,
}

/// The tag that closes the model's reasoning block.
pub open spec fn spec_think_end() -> Seq<char> {
    "</think>"@
}

/// The text given when the response holds no choice.
pub open spec fn spec_no_content_reply() -> Seq<char> {
    "Error: The API replied successfully, but gave no content."@
}

/// The answer in a reply: what follows the first `</think>` when there is one, else the
/// whole reply, without surrounding whitespace.
pub open spec fn spec_clean_reply(content: Seq<char>) -> Seq<char> {
    match spec_find(content, spec_think_end()) {
        Some(i) => spec_trim(content.subrange(i + spec_think_end().len(), content.len() as int)),
        None => spec_trim(content),
    }
}

/// The answer in a reply, with the reasoning block cut off and the text trimmed.
pub fn clean_reply(content: &str) -> (r: String)
    ensures
        r@ == spec_clean_reply(content@),
{
    let v = chars_of(content);
    let tag = chars_of("</think>");
    match find(&v, &tag) {
        Some(i) => {
            proof {
                crate::text::lemma_find_from_first(v@, tag@, 0);
            }
            let mut rest: Vec<char> = Vec::new();
            let n = v.len();
            let mut j = i + tag.len();
            let start = j;
            while j < n
                invariant
                    n == v@.len(),
                    start <= j <= n,
                    rest@ == v@.subrange(start as int, j as int),
                decreases n - j,
            {
                rest.push(v[j]);
                assert(v@.subrange(start as int, j + 1) =~= v@.subrange(start as int, j as int).push(v@[j as int]));
                j = j + 1;
            }
            trim_chars(&rest)
        },
        None => trim_chars(&v),
    }
}

/// The answer the bot passes on never begins or ends with whitespace.
pub proof fn clean_reply_is_trimmed(content: Seq<char>)
    ensures
        spec_clean_reply(content).len() == 0 || !spec_is_whitespace(spec_clean_reply(content)[0]),
        spec_clean_reply(content).len() == 0 || !spec_is_whitespace(spec_clean_reply(content).last()),
{
    match spec_find(content, spec_think_end()) {
        Some(i) => trim_is_clean(content.subrange(i + spec_think_end().len(), content.len() as int)),
        None => trim_is_clean(content),
    }
}

/// An answer without a reasoning block and without surrounding whitespace is passed on as
/// it is.
pub proof fn clean_reply_keeps_plain_answer(content: Seq<char>)
    requires
        spec_find(content, spec_think_end()) is None,
        content.len() == 0 || (!spec_is_whitespace(content[0]) && !spec_is_whitespace(content.last())),
    ensures
        spec_clean_reply(content) == content,
{
    crate::text::lemma_trim_keeps(content);
}

/// When `</think>` first occurs at index `i`, the answer is the text after that tag with its
/// surrounding whitespace cut and nothing else: a stretch `after[a..b]` of the text `after`
/// that follows the tag, outside of which `after` holds only whitespace, and which begins
/// and ends with a non-whitespace character. So every non-whitespace character after the
/// tag (line breaks between them included) is kept, and a non-blank text after the tag
/// gives a non-empty answer. The stretch is returned.
pub proof fn clean_reply_keeps_text_after_tag(content: Seq<char>, i: int) -> (r: (int, int))
    requires
        occurs_at(content, "</think>"@, i),
        forall|j: int| 0 <= j < i ==> !occurs_at(content, "</think>"@, j),
    ensures
        ({
            let after = content.subrange(i + "</think>"@.len(), content.len() as int);
            &&& 0 <= r.0 <= r.1 <= after.len()
            &&& spec_clean_reply(content) == after.subrange(r.0, r.1)
            &&& forall|k: int| 0 <= k < after.len() && (k < r.0 || r.1 <= k)
                ==> spec_is_whitespace(#[trigger] after[k])
            &&& r.0 < r.1 ==> !spec_is_whitespace(after[r.0]) && !spec_is_whitespace(after[r.1 - 1])
            &&& (forall|k: int| 0 <= k < after.len() ==> spec_is_whitespace(#[trigger] after[k]))
                || spec_clean_reply(content).len() > 0
        }),
{
    lemma_find_from_first(content, "</think>"@, 0);
    let f = spec_find(content, spec_think_end());
    if f is None {
        assert(!occurs_at(content, "</think>"@, i));
    }
    let k = f->Some_0;
    if k < i {
        assert(!occurs_at(content, "</think>"@, k));
    }
    if k > i {
        assert(!occurs_at(content, "</think>"@, i));
    }
    assert(k == i);
    let after = content.subrange(i + "</think>"@.len(), content.len() as int);
    let r = trim_keeps_the_text(after);
    if r.0 == r.1 {
        assert forall|q: int| 0 <= q < after.len() implies spec_is_whitespace(#[trigger] after[q]) by {}
    }
    r
}

/// Without a `</think>` tag, the answer is the whole reply with its surrounding whitespace
/// cut and nothing else: a stretch `content[a..b]` outside of which the reply holds only
/// whitespace, beginning and ending with a non-whitespace character. The stretch is returned.
pub proof fn clean_reply_keeps_text_without_tag(content: Seq<char>) -> (r: (int, int))
    requires
        forall|j: int| 0 <= j ==> !occurs_at(content, "</think>"@, j),
    ensures
        0 <= r.0 <= r.1 <= content.len(),
        spec_clean_reply(content) == content.subrange(r.0, r.1),
        forall|k: int| 0 <= k < content.len() && (k < r.0 || r.1 <= k)
            ==> spec_is_whitespace(#[trigger] content[k]),
        r.0 < r.1 ==> !spec_is_whitespace(content[r.0]) && !spec_is_whitespace(content[r.1 - 1]),
{
    lemma_find_from_first(content, "</think>"@, 0);
    if spec_find(content, spec_think_end()) is Some {
        let k = spec_find(content, spec_think_end())->Some_0;
        assert(!occurs_at(content, "</think>"@, k));
    }
    trim_keeps_the_text(content)
}

/// What the bot answers for a chat completion response: the cleaned content of the first
/// choice, or a fixed notice when there is no choice.
pub open spec fn spec_reply_text(response: ChatResponse) -> Seq<char> {
    if response.choices@.len() == 0 {
        spec_no_content_reply()
    } else {
        spec_clean_reply(response.choices@[0].message.content@)
    }
}

/// What the bot answers for a chat completion response.
pub fn reply_text(response: &ChatResponse) -> (r: String)
    ensures
        r@ == spec_reply_text(*response),
{
    if response.choices.len() == 0 {
        String::from_str("Error: The API replied successfully, but gave no content.")
    } else {
        clean_reply(response.choices[0].message.content.as_str())
    }
}

/// The value of the `Authorization` header of a request: `"Bearer {api_key}"`.
pub fn authorization_value(api_key: &str) -> (r: String)
    ensures
        r@ == "Bearer "@ + api_key@,
{
    concat_str("Bearer ", api_key)
}

// ---------------------------------------------------------------------------
// System prompt files
// ---------------------------------------------------------------------------

/// What `Path::join` gives for a base path and a path to adjoin, as text.
pub uninterp spec fn spec_path_join(base: Seq<char>, name: Seq<char>) -> Seq<char>;

/// What `Path::with_extension` gives for a path and an extension, as text.
pub uninterp spec fn spec_path_with_extension(path: Seq<char>, ext: Seq<char>) -> Seq<char>;

/// `Path::join`: `name` adjoined to `base` (an absolute `name` replaces `base`). Both
/// arguments are valid UTF-8, so the joined path converts to text without loss. The
/// contract names the result and claims nothing further of it.
#[verifier::external_body]
fn path_join(base: &str, name: &str) -> (p: String)
    ensures
        p@ == spec_path_join(base@, name@),
{
    std::path::Path::new(base).join(name).to_string_lossy().into_owned()
}

/// `Path::with_extension`: the path with its extension set to `ext` (an existing extension
/// is replaced). It panics when `ext` holds a path separator (`/`, and the backslash on Windows), so
/// those are excluded. The contract names the result and claims nothing further of it.
#[verifier::external_body]
fn path_with_extension(path: &str, ext: &str) -> (p: String)
    requires
        !ext@.contains('/'),
        !ext@.contains('\\'),
    ensures
        p@ == spec_path_with_extension(path@, ext@),
{
    std::path::Path::new(path).with_extension(ext).to_string_lossy().into_owned()
}

/// `Path::exists`: whether the file system holds something at `path`. This depends on the
/// disk, so the contract states nothing of the result.
#[verifier::external_body]
fn path_exists(path: &str) -> (b: bool) {
    std::path::Path::new(path).exists()
}

/// The file that holds the system prompt of a soul: `prompts/soul/{filename}.md`.
pub open spec fn spec_system_prompt_path(filename: Seq<char>) -> Seq<char> {
    spec_path_with_extension(spec_path_join("prompts/soul"@, filename), "md"@)
}

/// The file that holds the system prompt of a soul.
pub fn system_prompt_path(filename: &str) -> (p: String)
    ensures
        p@ == spec_system_prompt_path(filename@),
{
    let joined = path_join("prompts/soul", filename);
    proof {
        reveal_strlit("md");
        assert("md"@[0] == 'm' && "md"@[1] == 'd');
    }
    path_with_extension(joined.as_str(), "md")
}

/// Whether a system prompt file exists for the soul `filename` (at
/// `system_prompt_path(filename)`). What the file system holds is not known here, so
/// nothing is stated of the answer.
pub fn is_system_prompt_exists(filename: &str) -> bool {
    let path = system_prompt_path(filename);
    path_exists(path.as_str())
}

} // verus!
