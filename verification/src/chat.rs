//! The chat screen: the prompt, attached images, the conversation and its generation stream.
use vstd::prelude::*;

use crate::app::{App, ChatStatus, Command, ReasoningView};
use crate::chat_settings::{chat_model, chat_settings_opened, parameters_applied, parameters_for};
use crate::input::{KeyCode, KeyEvent, MouseEventKind};
use crate::records::{AttachedImage, ChatMessageInput, GenerateRequest, Message, ModelInfo};
use crate::text::{equals, has_content, has_text, join, pop_char, push_char, trim_chars, trimmed};

verus! {

/// The marker that stands for an attached image in a prompt.
pub open spec fn image_marker() -> Seq<char> {
    "<|mirmir_image|>"@
}

/// libmir's `IMAGE_PLACEHOLDER`, the marker that its vision models replace with the image.
#[verifier::external_body]
fn image_placeholder() -> (marker: String)
    ensures
        marker@ == image_marker(),
{
    libmir::IMAGE_PLACEHOLDER.to_owned()
}

/// What the chat stream reports.
#[derive(Debug)]
pub enum ChatEvent {
    /// The generation runs as this operation.
    Started { operation_id: String },
    /// A piece of the answer, or of the model's reasoning.
    Token { text: String, reasoning: bool },
    /// The whole answer and reasoning; the generation is over.
    Completion { text: String, reasoning: String },
    /// An event that carries nothing.
    Empty,
}

/// The message shown when the chat model cannot take the attached image.
pub open spec fn image_unavailable_chars(model: ModelInfo) -> Seq<char> {
    if model.image_unavailable_reason@.len() == 0 {
        "selected model cannot accept images"@
    } else {
        "selected model cannot accept images: "@ + model.image_unavailable_reason@
    }
}

/// Whether message `i` is the last one written by the user.
pub open spec fn is_last_user(messages: Seq<Message>, i: int) -> bool {
    &&& 0 <= i < messages.len()
    &&& messages[i].role@ == "user"@
    &&& forall|j: int| i < j < messages.len() ==> messages[j].role@ != "user"@
}

/// The request messages of a conversation: each message with its reasoning where it has
/// any; with an image attached, the last user message starts with the image marker on a line
/// of its own.
pub open spec fn request_messages(messages: Seq<Message>, image: bool, out: Seq<ChatMessageInput>) -> bool {
    &&& out.len() == messages.len()
    &&& forall|i: int|
        0 <= i < messages.len() ==> {
            &&& (#[trigger] out[i]).role == messages[i].role
            &&& out[i].content@ == (if image && is_last_user(messages, i) {
                image_marker() + "\n"@ + messages[i].content@
            } else {
                messages[i].content@
            })
            &&& out[i].reasoning_content == (if messages[i].thought@.len() == 0 {
                None
            } else {
                Some(messages[i].thought)
            })
        }
}

/// Whether `m` is a message of `role` with `content` and no reasoning.
pub open spec fn plain_message(m: Message, role: Seq<char>, content: Seq<char>) -> bool {
    m.role@ == role && m.content@ == content && m.thought@.len() == 0
}

/// `app` after the chat stream ended: nothing streams and no operation runs.
pub open spec fn stream_finished(pre: App, post: App) -> bool {
    post == App {
        chat_stream_open: false,
        chat_status: ChatStatus::Idle,
        chat_operation_id: None,
        ..pre
    }
}

/// `messages` with its last message changed to `last`, when there is one.
pub open spec fn last_replaced(pre: Seq<Message>, last: Message, post: Seq<Message>) -> bool {
    if pre.len() > 0 {
        post == pre.update(pre.len() - 1, last)
    } else {
        post == pre
    }
}

/// `messages` with `text` appended to the reasoning or to the answer of the last message.
pub open spec fn token_appended(pre: Seq<Message>, text: Seq<char>, reasoning: bool, post: Seq<Message>) -> bool {
    if pre.len() > 0 {
        let last = pre.last();
        &&& post.len() == pre.len()
        &&& forall|i: int| 0 <= i < pre.len() - 1 ==> post[i] == pre[i]
        &&& if reasoning {
            post.last() == Message { thought: post.last().thought, ..last } && post.last().thought@
                == last.thought@ + text
        } else {
            post.last() == Message { content: post.last().content, ..last } && post.last().content@
                == last.content@ + text
        }
    } else {
        post == pre
    }
}

/// `app` after the chat stream reported `event`.
pub open spec fn chat_event_applied(pre: App, event: ChatEvent, post: App) -> bool {
    let messages = pre.chat_messages@;
    match event {
        ChatEvent::Started { operation_id } => post == App {
            chat_operation_id: Some(operation_id),
            ..pre
        },
        ChatEvent::Token { text, reasoning } => {
            &&& post == App { chat_messages: post.chat_messages, ..pre }
            &&& token_appended(messages, text@, reasoning, post.chat_messages@)
        },
        ChatEvent::Completion { text, reasoning } => {
            &&& post == App {
                chat_messages: post.chat_messages,
                chat_status: ChatStatus::Idle,
                chat_operation_id: None,
                ..pre
            }
            &&& last_replaced(messages, Message { content: text, thought: reasoning, ..messages.last() }, post.chat_messages@)
        },
        ChatEvent::Empty => post == pre,
    }
}

/// Appends `text` to the reasoning or to the answer of the last message.
pub fn add_token(messages: &mut Vec<Message>, text: &str, reasoning: bool)
    ensures
        token_appended(old(messages)@, text@, reasoning, final(messages)@),
{
    let ghost pre = messages@;
    match messages.pop() {
        Some(mut last) => {
            if reasoning {
                last.thought.append(text);
            } else {
                last.content.append(text);
            }
            messages.push(last);
            proof {
                assert(messages@ =~= pre.update(pre.len() - 1, last));
            }
        },
        None => {},
    }
}

/// Replaces the answer and the reasoning of the last message.
pub fn complete_last(messages: &mut Vec<Message>, text: String, reasoning: String)
    ensures
        last_replaced(
            old(messages)@,
            Message { content: text, thought: reasoning, ..old(messages)@.last() },
            final(messages)@,
        ),
{
    let ghost pre = messages@;
    match messages.pop() {
        Some(last) => {
            let done = Message { content: text, thought: reasoning, ..last };
            messages.push(done);
            proof {
                assert(messages@ =~= pre.update(pre.len() - 1, done));
            }
        },
        None => {},
    }
}

/// `scroll` moved `lines` further back, stopping at the largest offset.
pub open spec fn scrolled_back(scroll: usize, lines: usize) -> usize {
    (if scroll + lines <= usize::MAX {
        scroll + lines
    } else {
        usize::MAX as int
    }) as usize
}

/// `scroll` moved `lines` towards the end, stopping at the end.
pub open spec fn scrolled_forward(scroll: usize, lines: usize) -> usize {
    (if scroll >= lines {
        scroll - lines
    } else {
        0
    }) as usize
}

/// `app` after asking to cancel the generation: once its operation is known the request goes
/// out; the chat error says what happened.
pub open spec fn chat_cancelled(pre: App, post: App, command: Option<Command>) -> bool {
    &&& post == (App { chat_error: post.chat_error, ..pre })
    &&& match pre.chat_operation_id {
        Some(id) => command == Some(Command::CancelOperation { operation_id: id }) && (
        post.chat_error matches Some(m) && m@ == "cancellation requested"@),
        None => command is None && (post.chat_error matches Some(m) && m@
            == "generation is starting; try cancellation again"@),
    }
}

/// Whether `code` scrolls the conversation: the arrows up and down, the page keys, Home, End.
pub open spec fn scroll_key(code: KeyCode) -> bool {
    code == KeyCode::Up || code == KeyCode::Down || code == KeyCode::PageUp || code
        == KeyCode::PageDown || code == KeyCode::Home || code == KeyCode::End
}

/// `app` after a scroll key: the arrows move one line, the page keys eight, Home goes to the
/// start of the conversation and End to its end.
#[verifier::opaque]
pub open spec fn chat_scrolled(pre: App, code: KeyCode, post: App) -> bool {
    post == App {
        chat_scroll: match code {
            KeyCode::Up => scrolled_back(pre.chat_scroll, 1),
            KeyCode::Down => scrolled_forward(pre.chat_scroll, 1),
            KeyCode::PageUp => scrolled_back(pre.chat_scroll, 8),
            KeyCode::PageDown => scrolled_forward(pre.chat_scroll, 8),
            KeyCode::Home => usize::MAX,
            _ => 0,
        },
        ..pre
    }
}

/// `app` after a key with Control while no generation streams: the arrows pick the model,
/// `k` clears the conversation (and asks to clear its metrics), `d` detaches the image, `p`
/// opens the parameters and `t` expands or collapses the reasoning.
#[verifier::opaque]
pub open spec fn chat_control_key(pre: App, code: KeyCode, post: App, command: Option<Command>) -> bool {
    match code {
        KeyCode::Left => command is None && post == App {
            chat_model_index: (if pre.chat_model_index > 0 {
                pre.chat_model_index - 1
            } else {
                0
            }) as usize,
            ..pre
        },
        KeyCode::Right => command is None && post == App {
            chat_model_index: (if pre.chat_model_index + 1 <= pre.models@.len() - 1 {
                pre.chat_model_index + 1
            } else if pre.models@.len() > 0 {
                pre.models@.len() - 1
            } else {
                0
            }) as usize,
            ..pre
        },
        KeyCode::Char('k') | KeyCode::Char('K') => {
            &&& command == Some(Command::ClearChatMetrics)
            &&& post == App {
                chat_messages: post.chat_messages,
                chat_image: None,
                chat_scroll: 0,
                chat_error: None,
                chat_reasoning: ReasoningView::Collapsed,
                ..pre
            }
            &&& post.chat_messages@.len() == 0
        },
        KeyCode::Char('d') | KeyCode::Char('D') => command is None && post == App {
            chat_image: None,
            ..pre
        },
        KeyCode::Char('p') | KeyCode::Char('P') => chat_settings_opened(pre, post, command),
        KeyCode::Char('t') | KeyCode::Char('T') => command is None && post == (App {
            chat_reasoning: post.chat_reasoning,
            ..pre
        }) && post.chat_reasoning != pre.chat_reasoning,
        _ => command is None && post == pre,
    }
}

/// `app` after a key without Control while no generation streams: Enter sends, Backspace
/// deletes the last character and other characters are typed.
#[verifier::opaque]
pub open spec fn chat_typed(pre: App, code: KeyCode, dropped: Option<String>, post: App, command: Option<Command>) -> bool {
    match code {
        KeyCode::Enter => chat_submitted(pre, dropped, post, command),
        KeyCode::Backspace => command is None && post == (App {
            chat_input: post.chat_input,
            ..pre
        }) && post.chat_input@ == (if pre.chat_input@.len() > 0 {
            pre.chat_input@.drop_last()
        } else {
            pre.chat_input@
        }),
        KeyCode::Char(c) => command is None && post == (App { chat_input: post.chat_input, ..pre })
            && post.chat_input@ == pre.chat_input@.push(c),
        _ => command is None && post == pre,
    }
}

/// `app` after a key on the chat screen, where `dropped` is the file that the prompt names
/// when it names a dropped file. Scroll keys scroll; during a generation only `x` acts, and
/// cancels it; otherwise keys with Control act on the conversation and the others edit and
/// send the prompt.
pub open spec fn chat_key_handled(pre: App, key: KeyEvent, dropped: Option<String>, post: App, command: Option<Command>) -> bool {
    if scroll_key(key.code) {
        command is None && chat_scrolled(pre, key.code, post)
    } else if pre.chat_status == ChatStatus::Generating {
        if key.code == KeyCode::Char('x') || key.code == KeyCode::Char('X') {
            chat_cancelled(pre, post, command)
        } else {
            command is None && post == pre
        }
    } else if key.control {
        chat_control_key(pre, key.code, post, command)
    } else {
        chat_typed(pre, key.code, dropped, post, command)
    }
}

/// `app` after `value` was pasted into the chat, where `dropped` is the file that the text
/// names when it names a dropped file: plain text joins the prompt, a file is asked to be
/// read as the image, unless the chat model cannot take images, which the error then says.
pub open spec fn pasted(pre: App, value: Seq<char>, dropped: Option<String>, post: App, command: Option<Command>) -> bool {
    if pre.chat_status == ChatStatus::Generating {
        command is None && post == pre
    } else {
        match dropped {
            None => command is None && post == (App { chat_input: post.chat_input, ..pre })
                && post.chat_input@ == pre.chat_input@ + value,
            Some(path) => if chat_model(pre) is Some && !chat_model(pre)->0.image_input {
                command is None && post == (App { chat_error: post.chat_error, ..pre }) && (
                post.chat_error matches Some(m) && m@ == image_unavailable_chars(chat_model(pre)->0))
            } else {
                command == Some(Command::AttachImage { path }) && post == pre
            },
        }
    }
}

/// The generation request of the chat model `model` for `messages`: the request messages,
/// the attached image, and the saved parameters where they belong to the model.
pub open spec fn chat_request(pre: App, model: String, messages: Seq<Message>, request: GenerateRequest) -> bool {
    &&& request.model == model
    &&& request.prompt@.len() == 0
    &&& request_messages(messages, pre.chat_image is Some, request.messages@)
    &&& request.image == match pre.chat_image {
        Some(image) => Some(image.bytes),
        None => None,
    }
    &&& if parameters_for(pre, model@) {
        let p = pre.chat_parameters->0;
        &&& request.max_tokens == Some(p.max_tokens)
        &&& request.temperature == Some(p.temperature)
        &&& request.top_p == Some(p.top_p)
        &&& request.top_k == Some(p.top_k)
        &&& request.repetition_penalty == Some(p.repetition_penalty)
        &&& request.seed == p.seed
    } else {
        &&& request.max_tokens is None
        &&& request.temperature is None
        &&& request.top_p is None
        &&& request.top_k is None
        &&& request.repetition_penalty is None
        &&& request.seed is None
    }
}

/// `app` after the prompt was sent to `model`: the trimmed prompt joins the conversation as
/// the user's message, an empty answer follows it, the prompt and the image are consumed,
/// the conversation shows its end, and the generation streams.
pub open spec fn generation_started(pre: App, model: String, post: App, command: Command) -> bool {
    let n = pre.chat_messages@.len();
    let messages = post.chat_messages@;
    &&& post == (App {
        chat_input: post.chat_input,
        chat_scroll: 0,
        chat_messages: post.chat_messages,
        chat_image: None,
        chat_status: ChatStatus::Generating,
        chat_operation_id: None,
        chat_error: None,
        chat_stream_open: true,
        ..pre
    })
    &&& post.chat_input@.len() == 0
    &&& messages.len() == n + 2
    &&& messages.take(n as int) == pre.chat_messages@
    &&& plain_message(messages[n as int], "user"@, trim_chars(pre.chat_input@))
    &&& plain_message(messages[n + 1int], "assistant"@, Seq::<char>::empty())
    &&& command matches Command::Generate(request) && chat_request(pre, model, messages.take(n + 1int), request)
}

/// `app` after Enter in the chat, where `dropped` is the file that the prompt names when it
/// names a dropped file. An empty prompt, or one during a generation, does nothing; a file
/// name without an attached image is taken as a paste of it; without a chat model, or with
/// an image that the model cannot take, the error says so; otherwise the prompt is sent.
#[verifier::opaque]
pub open spec fn chat_submitted(pre: App, dropped: Option<String>, post: App, command: Option<Command>) -> bool {
    if pre.chat_status == ChatStatus::Generating || !has_content(pre.chat_input@) {
        command is None && post == pre
    } else if pre.chat_image is None && dropped is Some {
        post.chat_input@.len() == 0 && pasted(
            App { chat_input: post.chat_input, ..pre },
            pre.chat_input@,
            dropped,
            post,
            command,
        )
    } else {
        match chat_model(pre) {
            None => command is None && post == (App { chat_error: post.chat_error, ..pre }) && (
            post.chat_error matches Some(m) && m@ == "load a model before starting chat"@),
            Some(model) => if pre.chat_image is Some && !model.image_input {
                command is None && post == (App { chat_error: post.chat_error, ..pre }) && (
                post.chat_error matches Some(m) && m@ == image_unavailable_chars(model))
            } else {
                command is Some && generation_started(pre, model.id, post, command->0)
            },
        }
    }
}

/// The message shown when the chat model cannot take the attached image.
pub fn image_unavailable(model: &ModelInfo) -> (message: String)
    ensures
        message@ == image_unavailable_chars(*model),
{
    if model.image_unavailable_reason.as_str().is_empty() {
        "selected model cannot accept images".to_owned()
    } else {
        join("selected model cannot accept images: ", model.image_unavailable_reason.as_str())
    }
}

/// Position of the last message written by the user.
fn last_user_position(messages: &Vec<Message>) -> (found: Option<usize>)
    ensures
        match found {
            Some(i) => is_last_user(messages@, i as int),
            None => forall|j: int| 0 <= j < messages@.len() ==> messages@[j].role@ != "user"@,
        },
{
    let mut i = messages.len();
    while i > 0
        invariant
            i <= messages@.len(),
            forall|j: int| i <= j < messages@.len() ==> messages@[j].role@ != "user"@,
        decreases i,
    {
        i -= 1;
        if equals(messages[i].role.as_str(), "user") {
            return Some(i);
        }
    }
    None
}

/// The request message of one conversation message, with `prefix` before its content.
fn request_message(message: &Message, prefix: &str) -> (input: ChatMessageInput)
    ensures
        input.role == message.role,
        input.content@ == prefix@ + message.content@,
        input.reasoning_content == (if message.thought@.len() == 0 {
            None
        } else {
            Some(message.thought)
        }),
{
    ChatMessageInput {
        role: message.role.clone(),
        content: join(prefix, message.content.as_str()),
        reasoning_content: if message.thought.as_str().is_empty() {
            None
        } else {
            Some(message.thought.clone())
        },
    }
}

/// The request messages of `messages`; `image` says whether an image is attached.
pub fn conversation_request_messages(messages: &Vec<Message>, image: bool) -> (out: Vec<ChatMessageInput>)
    ensures
        request_messages(messages@, image, out@),
{
    let last_user = last_user_position(messages);
    let marker = image_placeholder();
    let with_marker = join(marker.as_str(), "\n");
    let mut out: Vec<ChatMessageInput> = Vec::new();
    let mut i: usize = 0;
    while i < messages.len()
        invariant
            i <= messages@.len(),
            out@.len() == i,
            with_marker@ == image_marker() + "\n"@,
            match last_user {
                Some(k) => is_last_user(messages@, k as int),
                None => forall|j: int| 0 <= j < messages@.len() ==> messages@[j].role@ != "user"@,
            },
            forall|k: int|
                0 <= k < i ==> {
                    &&& (#[trigger] out@[k]).role == messages@[k].role
                    &&& out@[k].content@ == (if image && is_last_user(messages@, k) {
                        image_marker() + "\n"@ + messages@[k].content@
                    } else {
                        messages@[k].content@
                    })
                    &&& out@[k].reasoning_content == (if messages@[k].thought@.len() == 0 {
                        None
                    } else {
                        Some(messages@[k].thought)
                    })
                },
        decreases messages@.len() - i,
    {
        let marked = image && match last_user {
            Some(k) => k == i,
            None => false,
        };
        proof {
            if is_last_user(messages@, i as int) {
                match last_user {
                    Some(k) => {
                        if k < i {
                            assert(messages@[i as int].role@ != "user"@);
                        } else if k > i {
                            assert(messages@[k as int].role@ != "user"@);
                        }
                    },
                    None => {},
                }
            }
        }
        let input = if marked {
            request_message(&messages[i], with_marker.as_str())
        } else {
            request_message(&messages[i], "")
        };
        proof {
            reveal_strlit("");
            assert(""@ + messages@[i as int].content@ =~= messages@[i as int].content@);
            assert(with_marker@ + messages@[i as int].content@ =~= image_marker() + "\n"@
                + messages@[i as int].content@);
        }
        out.push(input);
        i += 1;
    }
    out
}

/// `app` after the mouse on the conversation: the wheel scrolls three lines, a click expands
/// or collapses the reasoning.
pub open spec fn chat_mouse_handled(pre: App, kind: MouseEventKind, post: App) -> bool {
    &&& (kind == MouseEventKind::ScrollUp ==> post == (App {
        chat_scroll: (if pre.chat_scroll + 3 <= usize::MAX {
            pre.chat_scroll + 3
        } else {
            usize::MAX as int
        }) as usize,
        ..pre
    }))
    &&& (kind == MouseEventKind::ScrollDown ==> post == (App {
        chat_scroll: (if pre.chat_scroll >= 3 {
            pre.chat_scroll - 3
        } else {
            0
        }) as usize,
        ..pre
    }))
    &&& (kind is Down ==> post == (App {
        chat_reasoning: post.chat_reasoning,
        ..pre
    }) && post.chat_reasoning != pre.chat_reasoning)
    &&& (!(kind is Down || kind == MouseEventKind::ScrollUp || kind == MouseEventKind::ScrollDown)
        ==> post == pre)
}

impl App {
    /// The request messages of the conversation.
    pub fn messages_for_request(&self) -> (out: Vec<ChatMessageInput>)
        ensures
            request_messages(self.chat_messages@, self.chat_image is Some, out@),
    {
        conversation_request_messages(&self.chat_messages, self.chat_image.is_some())
    }

    /// Scrolls the conversation `lines` further back, stopping at the largest offset.
    pub fn scroll_chat_up(&mut self, lines: usize)
        ensures
            *final(self) == (App {
                chat_scroll: (if old(self).chat_scroll + lines <= usize::MAX {
                    old(self).chat_scroll + lines
                } else {
                    usize::MAX as int
                }) as usize,
                ..*old(self)
            }),
    {
        self.chat_scroll = self.chat_scroll.saturating_add(lines);
    }

    /// Scrolls the conversation `lines` towards its end, stopping at the end.
    pub fn scroll_chat_down(&mut self, lines: usize)
        ensures
            *final(self) == (App {
                chat_scroll: (if old(self).chat_scroll >= lines {
                    old(self).chat_scroll - lines
                } else {
                    0
                }) as usize,
                ..*old(self)
            }),
    {
        self.chat_scroll = self.chat_scroll.saturating_sub(lines);
    }

    /// Selects the previous loaded model for chat.
    pub fn previous_chat_model(&mut self)
        ensures
            *final(self) == (App {
                chat_model_index: (if old(self).chat_model_index > 0 {
                    old(self).chat_model_index - 1
                } else {
                    0
                }) as usize,
                ..*old(self)
            }),
    {
        self.chat_model_index = self.chat_model_index.saturating_sub(1);
    }

    /// Selects the next loaded model for chat, stopping at the last one.
    pub fn next_chat_model(&mut self)
        ensures
            *final(self) == (App {
                chat_model_index: (if old(self).chat_model_index + 1 <= old(self).models@.len() - 1 {
                    old(self).chat_model_index + 1
                } else if old(self).models@.len() > 0 {
                    old(self).models@.len() - 1
                } else {
                    0
                }) as usize,
                ..*old(self)
            }),
    {
        let next = self.chat_model_index.saturating_add(1);
        let last = self.models.len().saturating_sub(1);
        self.chat_model_index = if next < last { next } else { last };
    }

    /// Clears the conversation, the attached image, the error and the scroll, and collapses
    /// the reasoning, unless a generation streams; says whether it did.
    pub fn clear_chat(&mut self) -> (cleared: bool)
        ensures
            cleared == (old(self).chat_status == ChatStatus::Idle),
            cleared ==> *final(self) == (App {
                chat_messages: final(self).chat_messages,
                chat_image: None,
                chat_scroll: 0,
                chat_error: None,
                chat_reasoning: ReasoningView::Collapsed,
                ..*old(self)
            }) && final(self).chat_messages@.len() == 0,
            !cleared ==> *final(self) == *old(self),
    {
        if self.chat_status != ChatStatus::Idle {
            return false;
        }
        self.chat_messages.clear();
        self.chat_image = None;
        self.chat_scroll = 0;
        self.chat_error = None;
        self.chat_reasoning = ReasoningView::Collapsed;
        true
    }

    /// The mouse on the conversation: the wheel scrolls three lines, a click expands or
    /// collapses the reasoning.
    pub fn handle_chat_mouse(&mut self, kind: MouseEventKind)
        ensures
            chat_mouse_handled(*old(self), kind, *final(self)),
    {
        match kind {
            MouseEventKind::ScrollUp => self.scroll_chat_up(3),
            MouseEventKind::ScrollDown => self.scroll_chat_down(3),
            MouseEventKind::Down(_) => {
                self.chat_reasoning = self.chat_reasoning.toggled();
            },
            _ => {},
        }
    }

    /// Asks to cancel the streaming generation once its operation is known; the chat error
    /// says what happened.
    pub fn cancel_chat(&mut self) -> (command: Option<Command>)
        ensures
            chat_cancelled(*old(self), *final(self), command),
    {
        match &self.chat_operation_id {
            Some(id) => {
                let operation_id = id.clone();
                self.chat_error = Some("cancellation requested".to_owned());
                Some(Command::CancelOperation { operation_id })
            },
            None => {
                self.chat_error = Some("generation is starting; try cancellation again".to_owned());
                None
            },
        }
    }

    /// The chat stream ended: nothing streams any more.
    pub fn finish_chat_stream(&mut self)
        ensures
            stream_finished(*old(self), *final(self)),
    {
        self.chat_stream_open = false;
        self.chat_status = ChatStatus::Idle;
        self.chat_operation_id = None;
    }

    /// The chat stream failed with `error`, which the chat shows; the stream is over.
    pub fn fail_chat_stream(&mut self, error: String)
        ensures
            stream_finished(App { chat_error: Some(error), ..*old(self) }, *final(self)),
    {
        self.chat_error = Some(error);
        self.finish_chat_stream();
    }

    /// Takes one event of the chat stream: its operation, a token appended to the answer or
    /// to the reasoning of the last message, or the completion that replaces both and ends
    /// the generation.
    pub fn apply_chat_event(&mut self, event: ChatEvent)
        ensures
            chat_event_applied(*old(self), event, *final(self)),
    {
        match event {
            ChatEvent::Started { operation_id } => {
                self.chat_operation_id = Some(operation_id);
            },
            ChatEvent::Token { text, reasoning } => {
                add_token(&mut self.chat_messages, text.as_str(), reasoning);
            },
            ChatEvent::Completion { text, reasoning } => {
                complete_last(&mut self.chat_messages, text, reasoning);
                self.chat_status = ChatStatus::Idle;
                self.chat_operation_id = None;
            },
            ChatEvent::Empty => {},
        }
    }

    /// Takes the image that was read for the chat, or the error of reading it.
    pub fn apply_image_result(&mut self, result: Result<AttachedImage, String>)
        ensures
            match result {
                Ok(image) => *final(self) == (App {
                    chat_image: Some(image),
                    chat_error: None,
                    ..*old(self)
                }),
                Err(e) => *final(self) == (App { chat_error: Some(e), ..*old(self) }),
            },
    {
        match result {
            Ok(image) => {
                self.chat_image = Some(image);
                self.chat_error = None;
            },
            Err(error) => self.chat_error = Some(error),
        }
    }

    /// Pastes `value` into the chat; `dropped` is the file that it names, when it names a
    /// dropped file.
    pub fn handle_chat_paste(&mut self, value: &str, dropped: Option<String>) -> (command: Option<Command>)
        ensures
            pasted(*old(self), value@, dropped, *final(self), command),
    {
        if self.chat_status == ChatStatus::Generating {
            return None;
        }
        let path = match dropped {
            Some(path) => path,
            None => {
                self.chat_input.append(value);
                return None;
            },
        };
        let refused = match self.selected_chat_model() {
            Some(model) => if model.image_input {
                None
            } else {
                Some(image_unavailable(model))
            },
            None => None,
        };
        match refused {
            Some(message) => {
                self.chat_error = Some(message);
                None
            },
            None => Some(Command::AttachImage { path }),
        }
    }

    /// Sends the prompt to `model`.
    fn begin_generation(&mut self, model: String) -> (command: Command)
        ensures
            generation_started(*old(self), model, *final(self), command),
    {
        let ghost pre = *self;
        let content = trimmed(self.chat_input.as_str());
        self.chat_input = String::new();
        self.chat_scroll = 0;
        self.chat_messages.push(Message { role: "user".to_owned(), content, thought: String::new() });
        let ghost with_user = self.chat_messages@;
        let messages = self.messages_for_request();
        let image = match self.chat_image.take() {
            Some(image) => Some(image.bytes),
            None => None,
        };
        self.chat_messages.push(
            Message { role: "assistant".to_owned(), content: String::new(), thought: String::new() },
        );
        let mut request = GenerateRequest {
            model,
            prompt: String::new(),
            max_tokens: None,
            temperature: None,
            top_p: None,
            top_k: None,
            repetition_penalty: None,
            seed: None,
            messages,
            image,
        };
        self.apply_chat_parameters(&mut request);
        self.chat_stream_open = true;
        self.chat_status = ChatStatus::Generating;
        self.chat_operation_id = None;
        self.chat_error = None;
        proof {
            let n = pre.chat_messages@.len();
            assert(self.chat_messages@.take(n as int) =~= pre.chat_messages@);
            assert(self.chat_messages@.take(n + 1int) =~= with_user);
        }
        Command::Generate(request)
    }

    /// Enter in the chat; `dropped` is the file that the prompt names, when it names a
    /// dropped file.
    pub fn start_chat(&mut self, dropped: Option<String>) -> (command: Option<Command>)
        ensures
            chat_submitted(*old(self), dropped, *final(self), command),
    {
        reveal(chat_submitted);
        if self.chat_status == ChatStatus::Generating || !has_text(self.chat_input.as_str()) {
            return None;
        }
        if self.chat_image.is_none() && dropped.is_some() {
            let mut value = String::new();
            std::mem::swap(&mut value, &mut self.chat_input);
            return self.handle_chat_paste(value.as_str(), dropped);
        }
        let model = match self.selected_chat_model() {
            Some(model) => {
                if self.chat_image.is_some() && !model.image_input {
                    Err(image_unavailable(model))
                } else {
                    Ok(model.id.clone())
                }
            },
            None => Err("load a model before starting chat".to_owned()),
        };
        match model {
            Err(message) => {
                self.chat_error = Some(message);
                None
            },
            Ok(model) => Some(self.begin_generation(model)),
        }
    }

    /// A scroll key on the chat screen.
    fn scroll_chat(&mut self, code: KeyCode)
        requires
            scroll_key(code),
        ensures
            chat_scrolled(*old(self), code, *final(self)),
    {
        reveal(chat_scrolled);
        match code {
            KeyCode::Up => self.scroll_chat_up(1),
            KeyCode::Down => self.scroll_chat_down(1),
            KeyCode::PageUp => self.scroll_chat_up(8),
            KeyCode::PageDown => self.scroll_chat_down(8),
            KeyCode::Home => self.chat_scroll = usize::MAX,
            _ => self.chat_scroll = 0,
        }
    }

    /// A key with Control on the chat screen while no generation streams.
    fn control_chat_key(&mut self, code: KeyCode) -> (command: Option<Command>)
        requires
            old(self).chat_status == ChatStatus::Idle,
        ensures
            chat_control_key(*old(self), code, *final(self), command),
    {
        reveal(chat_control_key);
        match code {
            KeyCode::Left => {
                self.previous_chat_model();
                None
            },
            KeyCode::Right => {
                self.next_chat_model();
                None
            },
            KeyCode::Char(c) => if c == 'k' || c == 'K' {
                self.clear_chat();
                Some(Command::ClearChatMetrics)
            } else if c == 'd' || c == 'D' {
                self.chat_image = None;
                None
            } else if c == 'p' || c == 'P' {
                self.open_chat_settings()
            } else if c == 't' || c == 'T' {
                self.chat_reasoning = self.chat_reasoning.toggled();
                None
            } else {
                None
            },
            _ => None,
        }
    }

    /// A key without Control on the chat screen while no generation streams.
    fn type_chat_key(&mut self, code: KeyCode, dropped: Option<String>) -> (command: Option<Command>)
        ensures
            chat_typed(*old(self), code, dropped, *final(self), command),
    {
        reveal(chat_typed);
        match code {
            KeyCode::Enter => self.start_chat(dropped),
            KeyCode::Backspace => {
                pop_char(&mut self.chat_input);
                None
            },
            KeyCode::Char(c) => {
                push_char(&mut self.chat_input, c);
                None
            },
            _ => None,
        }
    }

    /// A key on the chat screen; `dropped` is the file that the prompt names, when it names
    /// a dropped file.
    pub fn handle_chat_key(&mut self, key: KeyEvent, dropped: Option<String>) -> (command: Option<Command>)
        ensures
            chat_key_handled(*old(self), key, dropped, *final(self), command),
    {
        let code = key.code;
        let scrolls = match code {
            KeyCode::Up | KeyCode::Down | KeyCode::PageUp | KeyCode::PageDown | KeyCode::Home
            | KeyCode::End => true,
            _ => false,
        };
        if scrolls {
            self.scroll_chat(code);
            return None;
        }
        if self.chat_status == ChatStatus::Generating {
            let cancel = match code {
                KeyCode::Char(c) => c == 'x' || c == 'X',
                _ => false,
            };
            return if cancel {
                self.cancel_chat()
            } else {
                None
            };
        }
        if key.control {
            self.control_chat_key(code)
        } else {
            self.type_chat_key(code, dropped)
        }
    }
}

} // verus!
