//! The conversation protocol: roles, content blocks, messages, stop
//! reasons and model responses, together with context-size estimation
//! and the pairing of tool calls with their results.

use vstd::prelude::*;
use vstd::string::*;
use vstd::utf8::encode_utf8;

verus! {

/// Who a message is from.
#[derive(Clone, Copy, Debug, PartialEq, Eq, Structural)]
pub enum Role {
    User,
    Assistant,
}

/// One block of message content.
#[derive(Clone, Debug)]
pub enum ContentBlock {
    /// Plain text.
    Text { text: String },
    /// A request by the model to run a tool; `input` carries the
    /// structured arguments as JSON source text.
    ToolUse { id: String, name: String, input: String },
    /// The outcome of one tool call, correlated by `tool_use_id`.
    ToolResult { tool_use_id: String, content: String, is_error: bool },
}

/// Mathematical image of a content block.
#[verifier::ext_equal]
pub ghost enum ContentBlockView {
    Text { text: Seq<char> },
    ToolUse { id: Seq<char>, name: Seq<char>, input: Seq<char> },
    ToolResult { tool_use_id: Seq<char>, content: Seq<char>, is_error: bool },
}

impl View for ContentBlock {
    type V = ContentBlockView;

    open spec fn view(&self) -> ContentBlockView {
        match self {
            ContentBlock::Text { text } => ContentBlockView::Text { text: text@ },
            ContentBlock::ToolUse { id, name, input } => ContentBlockView::ToolUse {
                id: id@,
                name: name@,
                input: input@,
            },
            ContentBlock::ToolResult { tool_use_id, content, is_error } =>
                ContentBlockView::ToolResult {
                tool_use_id: tool_use_id@,
                content: content@,
                is_error: *is_error,
            },
        }
    }
}

impl DeepView for ContentBlock {
    type V = ContentBlockView;

    open spec fn deep_view(&self) -> ContentBlockView {
        self.view()
    }
}

impl ContentBlock {
    /// A plain text block.
    pub fn text(s: &str) -> (r: ContentBlock)
        ensures
            r@ == (ContentBlockView::Text { text: s@ }),
    {
        ContentBlock::Text { text: String::from_str(s) }
    }
}

/// One message of a conversation.
#[derive(Clone, Debug)]
pub struct Message {
    pub role: Role,
    pub content: Vec<ContentBlock>,
}

/// Mathematical image of a message.
#[verifier::ext_equal]
pub ghost struct MessageView {
    pub role: Role,
    pub content: Seq<ContentBlockView>,
}

impl View for Message {
    type V = MessageView;

    open spec fn view(&self) -> MessageView {
        MessageView { role: self.role, content: self.content.deep_view() }
    }
}

impl DeepView for Message {
    type V = MessageView;

    open spec fn deep_view(&self) -> MessageView {
        self.view()
    }
}

/// Why the model stopped generating.
#[derive(Clone, Copy, Debug, PartialEq, Eq, Structural)]
pub enum StopReason {
    /// A natural stopping point.
    EndTurn,
    /// The model wants tools run.
    ToolUse,
    /// The output-token ceiling was hit: the response is truncated.
    MaxTokens,
    /// A configured stop sequence was generated.
    StopSequence,
}

/// Token accounting reported with a response.
#[derive(Clone, Copy, Debug, PartialEq, Eq, Structural)]
pub struct Usage {
    pub input_tokens: usize,
    pub output_tokens: usize,
}

/// What the model service hands back for one call.
#[derive(Clone, Debug)]
pub struct ModelResponse {
    pub stop_reason: Option<StopReason>,
    pub content: Vec<ContentBlock>,
    pub usage: Usage,
}

/// One tool invocation extracted from a response, in response order.
#[derive(Clone, Debug)]
pub struct ToolCall {
    pub id: String,
    pub name: String,
    pub input: String,
}

/// Mathematical image of a tool call.
#[verifier::ext_equal]
pub ghost struct ToolCallView {
    pub id: Seq<char>,
    pub name: Seq<char>,
    pub input: Seq<char>,
}

impl View for ToolCall {
    type V = ToolCallView;

    open spec fn view(&self) -> ToolCallView {
        ToolCallView { id: self.id@, name: self.name@, input: self.input@ }
    }
}

impl DeepView for ToolCall {
    type V = ToolCallView;

    open spec fn deep_view(&self) -> ToolCallView {
        self.view()
    }
}

/// The length in bytes of a string's UTF-8 encoding.
pub open spec fn byte_len(s: Seq<char>) -> int {
    encode_utf8(s).len() as int
}

/// Estimated token count of one block: a quarter of its text bytes.
pub open spec fn est_block(b: ContentBlockView) -> int {
    match b {
        ContentBlockView::Text { text } => byte_len(text) / 4,
        ContentBlockView::ToolUse { input, .. } => byte_len(input) / 4,
        ContentBlockView::ToolResult { content, .. } => byte_len(content) / 4,
    }
}

/// Estimated token count of a sequence of blocks.
pub open spec fn est_blocks(s: Seq<ContentBlockView>) -> int
    decreases s.len(),
{
    if s.len() == 0 {
        0
    } else {
        est_blocks(s.drop_last()) + est_block(s.last())
    }
}

/// Estimated token count of a whole conversation.
pub open spec fn est_messages(s: Seq<MessageView>) -> int
    decreases s.len(),
{
    if s.len() == 0 {
        0
    } else {
        est_messages(s.drop_last()) + est_blocks(s.last().content)
    }
}

/// Addition that stops at the largest machine integer.
pub fn sat_add(a: usize, b: usize) -> (r: usize)
    ensures
        r == if a + b <= usize::MAX {
            a + b
        } else {
            usize::MAX as int
        },
{
    if a > usize::MAX - b {
        usize::MAX
    } else {
        a + b
    }
}

/// Estimated token count of one block.
fn est_block_exec(b: &ContentBlock) -> (r: usize)
    ensures
        r == est_block(b@),
{
    let s: &str = match b {
        ContentBlock::Text { text } => text.as_str(),
        ContentBlock::ToolUse { input, .. } => input.as_str(),
        ContentBlock::ToolResult { content, .. } => content.as_str(),
    };
    s.as_bytes().len() / 4
}

/// Estimated token count of one message's blocks, stopping at the
/// largest machine integer.
fn est_message_exec(m: &Message) -> (r: usize)
    ensures
        r == vstd::math::min(est_blocks(m@.content), usize::MAX as int),
{
    let ghost dv = m.content.deep_view();
    let n = m.content.len();
    let mut acc: usize = 0;
    let mut i: usize = 0;
    while i < n
        invariant
            i <= n,
            n == m.content@.len(),
            dv == m.content.deep_view(),
            acc == vstd::math::min(est_blocks(dv.take(i as int)), usize::MAX as int),
            0 <= est_blocks(dv.take(i as int)),
        decreases n - i,
    {
        let e = est_block_exec(&m.content[i]);
        acc = sat_add(acc, e);
        proof {
            assert(dv.take(i + 1).drop_last() =~= dv.take(i as int));
            assert(dv.take(i + 1).last() == dv[i as int]);
        }
        i = i + 1;
    }
    proof {
        assert(dv.take(n as int) =~= dv);
    }
    acc
}

/// Estimate how many tokens the conversation consumes: one token for
/// every four bytes of text-bearing content, tool inputs and tool
/// outputs included. Stops at the largest machine integer.
pub fn estimate_context_tokens(messages: &Vec<Message>) -> (r: usize)
    ensures
        r == vstd::math::min(est_messages(messages.deep_view()), usize::MAX as int),
{
    let ghost dv = messages.deep_view();
    let n = messages.len();
    let mut acc: usize = 0;
    let mut i: usize = 0;
    while i < n
        invariant
            i <= n,
            n == messages@.len(),
            dv == messages.deep_view(),
            acc == vstd::math::min(est_messages(dv.take(i as int)), usize::MAX as int),
            0 <= est_messages(dv.take(i as int)),
        decreases n - i,
    {
        let e = est_message_exec(&messages[i]);
        acc = sat_add(acc, e);
        proof {
            assert(dv.take(i + 1).drop_last() =~= dv.take(i as int));
            assert(dv.take(i + 1).last() == dv[i as int]);
            assert(0 <= est_blocks(dv[i as int].content));
        }
        i = i + 1;
    }
    proof {
        assert(dv.take(n as int) =~= dv);
    }
    acc
}

/// The tool calls a response's content asks for, in order.
pub open spec fn calls_of(s: Seq<ContentBlockView>) -> Seq<ToolCallView>
    decreases s.len(),
{
    if s.len() == 0 {
        Seq::empty()
    } else {
        calls_of(s.drop_last()) + match s.last() {
            ContentBlockView::ToolUse { id, name, input } => seq![
                ToolCallView { id, name, input },
            ],
            _ => Seq::empty(),
        }
    }
}

/// Extract every tool-use block of a response's content, preserving
/// response order.
pub fn extract_tool_uses(content: &Vec<ContentBlock>) -> (r: Vec<ToolCall>)
    ensures
        r.deep_view() == calls_of(content.deep_view()),
{
    let ghost dv = content.deep_view();
    let n = content.len();
    let mut out: Vec<ToolCall> = Vec::new();
    let mut i: usize = 0;
    while i < n
        invariant
            i <= n,
            n == content@.len(),
            dv == content.deep_view(),
            out.deep_view() =~= calls_of(dv.take(i as int)),
        decreases n - i,
    {
        match &content[i] {
            ContentBlock::ToolUse { id, name, input } => {
                out.push(
                    ToolCall { id: id.clone(), name: name.clone(), input: input.clone() },
                );
            },
            _ => {},
        }
        proof {
            assert(dv.take(i + 1).drop_last() =~= dv.take(i as int));
            assert(dv.take(i + 1).last() == dv[i as int]);
            assert(out.deep_view() =~= calls_of(dv.take(i + 1)));
        }
        i = i + 1;
    }
    proof {
        assert(dv.take(n as int) =~= dv);
    }
    out
}

/// Build one tool-result block per tool call, in call order, each
/// correlated to its call by id.
pub fn make_tool_results(calls: &Vec<ToolCall>, outputs: Vec<String>) -> (r: Vec<ContentBlock>)
    requires
        calls@.len() == outputs@.len(),
    ensures
        r.deep_view().len() == calls.deep_view().len(),
        forall|i: int|
            0 <= i < r.deep_view().len() ==> r.deep_view()[i] == (ContentBlockView::ToolResult {
                tool_use_id: calls.deep_view()[i].id,
                content: outputs.deep_view()[i],
                is_error: false,
            }),
{
    let n = calls.len();
    let mut out: Vec<ContentBlock> = Vec::new();
    let mut i: usize = 0;
    while i < n
        invariant
            i <= n,
            n == calls@.len(),
            n == outputs@.len(),
            out@.len() == i,
            forall|j: int|
                0 <= j < i ==> out.deep_view()[j] == (ContentBlockView::ToolResult {
                    tool_use_id: calls.deep_view()[j].id,
                    content: outputs.deep_view()[j],
                    is_error: false,
                }),
        decreases n - i,
    {
        let ghost before = out.deep_view();
        out.push(
            ContentBlock::ToolResult {
                tool_use_id: calls[i].id.clone(),
                content: outputs[i].clone(),
                is_error: false,
            },
        );
        proof {
            assert(out.deep_view() =~= before.push(ContentBlockView::ToolResult {
                tool_use_id: calls.deep_view()[i as int].id,
                content: outputs.deep_view()[i as int],
                is_error: false,
            }));
        }
        i = i + 1;
    }
    out
}

/// The first text block of a response's content, if any.
pub open spec fn first_text_of(s: Seq<ContentBlockView>) -> Option<Seq<char>>
    decreases s.len(),
{
    if s.len() == 0 {
        Option::None
    } else {
        match s[0] {
            ContentBlockView::Text { text } => Option::Some(text),
            _ => first_text_of(s.drop_first()),
        }
    }
}

/// Extract the first text block of a response's content, if any.
pub fn extract_first_text(content: &Vec<ContentBlock>) -> (r: Option<String>)
    ensures
        match r {
            Some(t) => first_text_of(content.deep_view()) == Some(t@),
            None => first_text_of(content.deep_view()) is None,
        },
{
    let ghost dv = content.deep_view();
    let n = content.len();
    proof {
        assert(dv.skip(0) =~= dv);
    }
    let mut i: usize = 0;
    while i < n
        invariant
            i <= n,
            n == content@.len(),
            dv == content.deep_view(),
            first_text_of(dv) == first_text_of(dv.skip(i as int)),
        decreases n - i,
    {
        match &content[i] {
            ContentBlock::Text { text } => {
                proof {
                    assert(dv.skip(i as int)[0] == dv[i as int]);
                }
                return Some(text.clone());
            },
            _ => {},
        }
        proof {
            assert(dv.skip(i as int)[0] == dv[i as int]);
            assert(dv.skip(i as int).drop_first() =~= dv.skip(i + 1));
        }
        i = i + 1;
    }
    proof {
        assert(dv.skip(n as int).len() == 0);
    }
    None
}

} // verus!

verus! {

/// How many tool-use blocks a response's content holds.
pub open spec fn tool_use_total(s: Seq<ContentBlockView>) -> nat
    decreases s.len(),
{
    if s.len() == 0 {
        0
    } else {
        tool_use_total(s.drop_last()) + match s.last() {
            ContentBlockView::ToolUse { .. } => 1nat,
            _ => 0nat,
        }
    }
}

/// Tool-use pairing: a response with N tool-use blocks yields exactly
/// N extracted calls, so a tool round built from them carries exactly
/// one result per tool-use block, in response order, correlated by id.
pub proof fn lemma_tool_round_trip(s: Seq<ContentBlockView>)
    ensures
        calls_of(s).len() == tool_use_total(s),
    decreases s.len(),
{
    if s.len() > 0 {
        lemma_tool_round_trip(s.drop_last());
    }
}

} // verus!
