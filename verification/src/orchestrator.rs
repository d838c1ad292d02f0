//! The orchestrator: a turn-taking state machine over the conversation.
//! Each model response either ends the turn, asks for tools, or was
//! truncated; truncation retries are bounded, and exhausting them is
//! fatal. The loop never calls the model again once terminated.

use vstd::prelude::*;
use vstd::string::*;

use crate::budget::{calculate_max_tokens, output_ceiling};
use crate::protocol::{
    byte_len, calls_of, est_messages, extract_first_text, extract_tool_uses, first_text_of,
    make_tool_results, sat_add, ContentBlock, ContentBlockView, Message, MessageView,
    ModelResponse, Role, StopReason, ToolCall, estimate_context_tokens,
};
use crate::text::{dec_rep, u64_to_string};

verus! {

/// An assistant message holding the given blocks.
pub open spec fn assistant_msg(content: Seq<ContentBlockView>) -> MessageView {
    MessageView { role: Role::Assistant, content }
}

/// A user message holding a single text block.
pub open spec fn user_text_msg(t: Seq<char>) -> MessageView {
    MessageView { role: Role::User, content: seq![ContentBlockView::Text { text: t }] }
}

/// The synthetic note appended after a truncated response, asking the
/// model to answer shorter or to write long content to a file.
pub open spec fn truncation_note() -> Seq<char> {
    "[SYSTEM: Your response was truncated due to length. Please provide a shorter summary of the key points (max 3-4 sentences), or write detailed content to a file instead.]"@
}

/// The error reported when the truncation-retry budget is exhausted.
pub open spec fn exhaustion_message(n: nat, max_out: nat) -> Seq<char> {
    "Error: Response truncated "@ + dec_rep(n)
        + " times in a row. Task may be too complex.\n\nHint: Break the task into smaller steps, or write large outputs\nto files using write_file.\n\nYou can also increase MINI_CODE_MAX_OUTPUT_TOKENS (current: "@
        + dec_rep(max_out) + ")"@
}

/// What the caller must do after one handled response.
pub enum LoopStep {
    /// The turn is over; the first text block of the final assistant
    /// message, if any, is carried along.
    Done(Option<String>),
    /// Run these tools in order, then hand their outputs back.
    RunTools(Vec<ToolCall>),
    /// The response was truncated; call the model again.
    Retry,
    /// The truncation-retry budget is exhausted; the turn failed.
    Fatal(String),
}

/// The state of one turn-taking loop: the conversation so far, the
/// consecutive-truncation counter and its bound, and whether a terminal
/// step was reached.
pub struct AgentLoop {
    pub messages: Vec<Message>,
    pub consecutive_truncations: usize,
    pub max_truncation_retries: usize,
    pub max_output_tokens: u32,
    pub terminated: bool,
}

impl AgentLoop {
    /// The loop invariant: the retry bound is positive, and while the
    /// loop is live the counter is strictly below it — so at most
    /// `max_truncation_retries - 1` consecutive retries ever happen
    /// before the loop goes fatal.
    pub open spec fn wf(&self) -> bool {
        &&& self.max_truncation_retries >= 1
        &&& !self.terminated ==> self.consecutive_truncations < self.max_truncation_retries
    }

    /// A fresh loop over the given conversation.
    pub fn new(messages: Vec<Message>, max_output_tokens: u32, max_truncation_retries: usize) -> (
        r: AgentLoop)
        requires
            max_truncation_retries >= 1,
        ensures
            r.messages == messages,
            r.consecutive_truncations == 0,
            r.max_truncation_retries == max_truncation_retries,
            r.max_output_tokens == max_output_tokens,
            !r.terminated,
            r.wf(),
    {
        AgentLoop {
            messages,
            consecutive_truncations: 0,
            max_truncation_retries,
            max_output_tokens,
            terminated: false,
        }
    }

    /// The output-token ceiling for the next model call, recomputed
    /// from the current conversation and the system prompt.
    pub fn next_max_tokens(&self, system: &str) -> (r: u32)
        ensures
            r == output_ceiling(
                vstd::math::min(
                    est_messages(self.messages.deep_view()) + byte_len(system@) / 4,
                    usize::MAX as int,
                ),
                self.max_output_tokens as int,
            ),
    {
        let est = estimate_context_tokens(&self.messages);
        let sys = system.as_bytes().len() / 4;
        let total = sat_add(est, sys);
        calculate_max_tokens(total, self.max_output_tokens)
    }

    /// Handle one model response.
    ///
    /// - Truncated (`MaxTokens`): the counter goes up; if it reaches the
    ///   bound the loop terminates fatally with nothing appended, else
    ///   the partial message and a synthetic user note are appended and
    ///   the caller retries.
    /// - `ToolUse`: the counter resets, the assistant message is
    ///   appended, and the tool calls come back in response order.
    /// - Anything else ends the turn: the assistant message is appended
    ///   and the loop terminates.
    pub fn on_response(&mut self, response: ModelResponse) -> (step: LoopStep)
        requires
            !old(self).terminated,
            old(self).wf(),
        ensures
            final(self).wf(),
            final(self).max_truncation_retries == old(self).max_truncation_retries,
            final(self).max_output_tokens == old(self).max_output_tokens,
            match response.stop_reason {
                Some(StopReason::MaxTokens) => {
                    &&& final(self).consecutive_truncations == old(self).consecutive_truncations
                        + 1
                    &&& if old(self).consecutive_truncations + 1 >= old(
                        self,
                    ).max_truncation_retries {
                        &&& step matches LoopStep::Fatal(m) && m@ == exhaustion_message(
                            (old(self).consecutive_truncations + 1) as nat,
                            old(self).max_output_tokens as nat,
                        )
                        &&& final(self).terminated
                        &&& final(self).messages.deep_view() == old(self).messages.deep_view()
                    } else {
                        &&& step is Retry
                        &&& !final(self).terminated
                        &&& final(self).messages.deep_view() == old(self).messages.deep_view()
                            .push(assistant_msg(response.content.deep_view())).push(
                            user_text_msg(truncation_note()),
                        )
                    }
                },
                Some(StopReason::ToolUse) => {
                    &&& final(self).consecutive_truncations == 0
                    &&& !final(self).terminated
                    &&& step matches LoopStep::RunTools(calls) && calls.deep_view() == calls_of(
                        response.content.deep_view(),
                    )
                    &&& final(self).messages.deep_view() == old(self).messages.deep_view().push(
                        assistant_msg(response.content.deep_view()),
                    )
                },
                _ => {
                    &&& final(self).consecutive_truncations == 0
                    &&& final(self).terminated
                    &&& step matches LoopStep::Done(t) && t.deep_view() == first_text_of(
                        response.content.deep_view(),
                    )
                    &&& final(self).messages.deep_view() == old(self).messages.deep_view().push(
                        assistant_msg(response.content.deep_view()),
                    )
                },
            },
    {
        let ghost old_dv = self.messages.deep_view();
        let ghost content_dv = response.content.deep_view();
        match response.stop_reason {
            Some(StopReason::MaxTokens) => {
                self.consecutive_truncations = self.consecutive_truncations + 1;
                if self.consecutive_truncations >= self.max_truncation_retries {
                    self.terminated = true;
                    let mut m = String::from_str("Error: Response truncated ");
                    let n1 = u64_to_string(self.consecutive_truncations as u64);
                    m.append(n1.as_str());
                    m.append(
                        " times in a row. Task may be too complex.\n\nHint: Break the task into smaller steps, or write large outputs\nto files using write_file.\n\nYou can also increase MINI_CODE_MAX_OUTPUT_TOKENS (current: ",
                    );
                    let n2 = u64_to_string(self.max_output_tokens as u64);
                    m.append(n2.as_str());
                    m.append(")");
                    proof {
                        assert(m@ =~= exhaustion_message(
                            (old(self).consecutive_truncations + 1) as nat,
                            old(self).max_output_tokens as nat,
                        ));
                    }
                    LoopStep::Fatal(m)
                } else {
                    self.messages.push(Message { role: Role::Assistant, content: response.content });
                    self.messages.push(
                        Message {
                            role: Role::User,
                            content: vec![
                                ContentBlock::text(
                                    "[SYSTEM: Your response was truncated due to length. Please provide a shorter summary of the key points (max 3-4 sentences), or write detailed content to a file instead.]",
                                ),
                            ],
                        },
                    );
                    proof {
                        assert(self.messages.deep_view() =~~= old_dv.push(
                            assistant_msg(content_dv),
                        ).push(user_text_msg(truncation_note())));
                    }
                    LoopStep::Retry
                }
            },
            Some(StopReason::ToolUse) => {
                self.consecutive_truncations = 0;
                let calls = extract_tool_uses(&response.content);
                self.messages.push(Message { role: Role::Assistant, content: response.content });
                proof {
                    assert(self.messages.deep_view() =~~= old_dv.push(assistant_msg(content_dv)));
                }
                LoopStep::RunTools(calls)
            },
            _ => {
                self.consecutive_truncations = 0;
                self.terminated = true;
                let t = extract_first_text(&response.content);
                self.messages.push(Message { role: Role::Assistant, content: response.content });
                proof {
                    assert(self.messages.deep_view() =~~= old_dv.push(assistant_msg(content_dv)));
                }
                LoopStep::Done(t)
            },
        }
    }

    /// Append the tool outcomes of one tool round: exactly one user
    /// message holding one result per call, in call order, each
    /// correlated to its call by id.
    pub fn on_tool_outputs(&mut self, calls: &Vec<ToolCall>, outputs: Vec<String>)
        requires
            !old(self).terminated,
            old(self).wf(),
            calls@.len() == outputs@.len(),
        ensures
            final(self).wf(),
            !final(self).terminated,
            final(self).consecutive_truncations == old(self).consecutive_truncations,
            final(self).max_truncation_retries == old(self).max_truncation_retries,
            final(self).max_output_tokens == old(self).max_output_tokens,
            final(self).messages.deep_view().len() == old(self).messages.deep_view().len() + 1,
            final(self).messages.deep_view().take(old(self).messages.deep_view().len() as int)
                == old(self).messages.deep_view(),
            final(self).messages.deep_view().last().role == Role::User,
            final(self).messages.deep_view().last().content.len() == calls.deep_view().len(),
            forall|i: int|
                0 <= i < calls.deep_view().len() ==> final(self).messages.deep_view().last()
                    .content[i] == (ContentBlockView::ToolResult {
                    tool_use_id: calls.deep_view()[i].id,
                    content: outputs.deep_view()[i],
                    is_error: false,
                }),
    {
        let ghost old_dv = self.messages.deep_view();
        let results = make_tool_results(calls, outputs);
        self.messages.push(Message { role: Role::User, content: results });
        proof {
            assert(self.messages.deep_view().take(old_dv.len() as int) =~= old_dv);
        }
    }
}

/// Bounded truncation retries: while a loop is live its counter stays
/// below the retry bound, so once `max_truncation_retries` consecutive
/// truncated responses have arrived the loop has gone fatal and no
/// further model call is made.
pub proof fn lemma_truncation_bounded(l: AgentLoop)
    requires
        l.wf(),
        !l.terminated,
    ensures
        l.consecutive_truncations + 1 <= l.max_truncation_retries,
{
}

} // verus!
