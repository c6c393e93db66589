use vstd::prelude::*;
use vstd::string::StringExecFns;
use crate::envelope::{ChatMessage, MessageType, MessageView};

verus! {

/// What the client does with one submitted line of input.
pub enum InputCommand {
    /// Nothing: the line was empty.
    Ignore,
    /// Show the list of local commands.
    ShowHelp,
    /// Clear the message history on screen.
    ClearHistory,
    /// Leave the chat.
    Quit,
    /// Send these characters to the server.
    Send(String),
}

pub enum CommandView {
    Ignore,
    ShowHelp,
    ClearHistory,
    Quit,
    Send(Seq<char>),
}

impl View for InputCommand {
    type V = CommandView;

    open spec fn view(&self) -> CommandView {
        match self {
            InputCommand::Ignore => CommandView::Ignore,
            InputCommand::ShowHelp => CommandView::ShowHelp,
            InputCommand::ClearHistory => CommandView::ClearHistory,
            InputCommand::Quit => CommandView::Quit,
            InputCommand::Send(s) => CommandView::Send(s@),
        }
    }
}

/// `/help`, `/clear` and `/quit` stay on the client; any other non-empty
/// input goes to the server as one line.
pub open spec fn command_of(input: Seq<char>) -> CommandView {
    if input.len() == 0 {
        CommandView::Ignore
    } else if input == "/help"@ {
        CommandView::ShowHelp
    } else if input == "/clear"@ {
        CommandView::ClearHistory
    } else if input == "/quit"@ {
        CommandView::Quit
    } else {
        CommandView::Send(input + "\n"@)
    }
}

/// The text shown for `/help`.
pub open spec fn help_spec() -> Seq<char> {
    "\n=== Commands ===\n/help - Show this help\n/clear - Clear messages\n/quit - Exit chat\n\n"@
}

/// How a received envelope is shown: a message under its time, a notice on
/// a line of its own.
pub open spec fn rendered(m: MessageView) -> Seq<char> {
    match m.message_type {
        MessageType::UserMessage => "┌─["@ + m.timestamp + "]\n└─ "@ + m.username + " ▶ "@ + m.content
            + "\n"@,
        MessageType::SystemNotification => "\n["@ + m.username + " "@ + m.content + "]\n"@,
    }
}

/// The characters of `s` followed by a line terminator.
pub fn outbound_line(s: &str) -> (r: String)
    ensures
        r@ == s@ + "\n"@,
{
    let mut r = String::from_str(s);
    r.append("\n");
    r
}

fn same_text(a: &str, b: &str) -> (r: bool)
    ensures
        r == (a@ == b@),
{
    let x = String::from_str(a);
    let y = String::from_str(b);
    x == y
}

/// Decides what a submitted line of input does.
pub fn classify_input(input: &str) -> (r: InputCommand)
    ensures
        r@ == command_of(input@),
{
    if input.is_empty() {
        InputCommand::Ignore
    } else if same_text(input, "/help") {
        InputCommand::ShowHelp
    } else if same_text(input, "/clear") {
        InputCommand::ClearHistory
    } else if same_text(input, "/quit") {
        InputCommand::Quit
    } else {
        InputCommand::Send(outbound_line(input))
    }
}

/// The list of local commands.
pub fn help_text() -> (r: String)
    ensures
        r@ == help_spec(),
{
    String::from_str(
        "\n=== Commands ===\n/help - Show this help\n/clear - Clear messages\n/quit - Exit chat\n\n",
    )
}

/// The text shown for a received envelope.
pub fn render_message(m: &ChatMessage) -> (r: String)
    ensures
        r@ == rendered(m@),
{
    match m.message_type {
        MessageType::UserMessage => {
            let mut r = String::from_str("┌─[");
            r.append(m.timestamp.as_str());
            r.append("]\n└─ ");
            r.append(m.username.as_str());
            r.append(" ▶ ");
            r.append(m.content.as_str());
            r.append("\n");
            r
        },
        MessageType::SystemNotification => {
            let mut r = String::from_str("\n[");
            r.append(m.username.as_str());
            r.append(" ");
            r.append(m.content.as_str());
            r.append("]\n");
            r
        },
    }
}

/// What the client shows for one line received from the server, given what
/// decoding it produced: nothing for a malformed line, which is dropped,
/// and the rendered envelope otherwise.
pub fn on_received(decoded: Option<ChatMessage>) -> (r: Option<String>)
    ensures
        decoded is None ==> r is None,
        decoded is Some ==> r is Some && r->0@ == rendered(decoded->0@),
{
    match decoded {
        None => None,
        Some(m) => Some(render_message(&m)),
    }
}

} // verus!
