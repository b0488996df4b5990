//! A scripted SMTP server, against which SMTP verifications are exercised. It answers recipient
//! probes as its script says, never takes a message, and remembers the commands it was given.

use vstd::prelude::*;
use vstd::string::*;

use crate::text;

verus! {

/// What the server greets with.
pub const GREETING: &'static str = "220 mock.example ESMTP\r\n";

/// How the server answers a recipient probe.
#[derive(Debug)]
pub enum Reply {
    /// It sends these lines.
    Text(String),
    /// It closes the connection.
    Disconnect,
    /// It sends nothing, until the client times out and closes the connection.
    Stall,
}

/// What the server does about a line.
#[derive(Debug)]
pub enum ServerAction {
    /// Send this and go on reading.
    Send(String),
    /// Send this and close the connection.
    SendAndClose(String),
    /// Close the connection.
    Close,
    /// Send nothing; the next thing to happen is that the client closes the connection.
    AwaitClose,
    /// The client does what the script does not provide for.
    Fail(Fault),
}

/// What the script does not provide for.
#[derive(Debug, Clone, Copy, PartialEq, Eq, Structural)]
pub enum Fault {
    /// A recipient probe too many.
    UnexpectedProbe,
    /// A command that a verification has no use for.
    UnexpectedCommand,
}

/// A command that the server agrees to whatever its script.
pub open spec fn is_preamble(line: Seq<char>) -> bool {
    "EHLO "@.is_prefix_of(line) || "MAIL FROM:"@.is_prefix_of(line)
}

/// A recipient probe, which the script answers.
pub open spec fn is_probe(line: Seq<char>) -> bool {
    !is_preamble(line) && "RCPT TO:"@.is_prefix_of(line)
}

/// Whether the server does `action` about `line`, where `scripted` is the next reply of the script.
/// The empty line stands for the end of the connection.
pub open spec fn is_response(
    action: ServerAction,
    line: Seq<char>,
    scripted: Option<Reply>,
) -> bool {
    if line.len() == 0 {
        action is Close
    } else if is_preamble(line) {
        action matches ServerAction::Send(text) && text@ == "250 mock.example OK\r\n"@
    } else if is_probe(line) {
        match scripted {
            None => action == ServerAction::Fail(Fault::UnexpectedProbe),
            Some(Reply::Text(reply)) => action matches ServerAction::Send(text) && text@ == reply@,
            Some(Reply::Disconnect) => action is Close,
            Some(Reply::Stall) => action is AwaitClose,
        }
    } else if line == "QUIT\r\n"@ {
        action matches ServerAction::SendAndClose(text) && text@ == "221 bye\r\n"@
    } else {
        action == ServerAction::Fail(Fault::UnexpectedCommand)
    }
}

/// Whether a line is a fault, where `replies` are the replies of the script that are still to come.
pub open spec fn is_fault(line: Seq<char>, replies: Seq<Reply>) -> bool {
    &&& line.len() > 0
    &&& !is_preamble(line)
    &&& if is_probe(line) {
        replies.len() == 0
    } else {
        line != "QUIT\r\n"@
    }
}

/// The replies that are still to come after a line: a recipient probe uses up the first of them.
pub open spec fn replies_after(replies: Seq<Reply>, line: Seq<char>) -> Seq<Reply> {
    if line.len() > 0 && is_probe(line) && replies.len() > 0 {
        replies.drop_first()
    } else {
        replies
    }
}

/// The replies of `script` that are still to come after the lines of a session.
pub open spec fn replies_after_lines(script: Seq<Reply>, lines: Seq<Seq<char>>) -> Seq<Reply>
    decreases lines.len(),
{
    if lines.len() == 0 {
        script
    } else {
        replies_after(replies_after_lines(script, lines.drop_last()), lines.last())
    }
}

/// How many of the lines are recipient probes.
pub open spec fn probes_in(lines: Seq<Seq<char>>) -> nat
    decreases lines.len(),
{
    if lines.len() == 0 {
        0
    } else {
        probes_in(lines.drop_last()) + if lines.last().len() > 0 && is_probe(lines.last()) {
            1nat
        } else {
            0
        }
    }
}

/// A server and the commands it was given.
#[derive(Debug)]
pub struct ScriptedServer {
    script: Vec<Reply>,
    commands: Vec<String>,
}

impl ScriptedServer {
    /// The replies of this session that are still to come.
    pub closed spec fn replies_left(self) -> Seq<Reply> {
        self.script@
    }

    /// The commands of all sessions so far, without the white space around them.
    pub closed spec fn commands_given(self) -> Seq<Seq<char>> {
        self.commands.deep_view()
    }

    /// A server without a session.
    pub fn new() -> (server: ScriptedServer)
        ensures
            server.replies_left() == Seq::<Reply>::empty(),
            server.commands_given() == Seq::<Seq<char>>::empty(),
    {
        let server: ScriptedServer = ScriptedServer { script: Vec::new(), commands: Vec::new() };
        assert(server.commands_given() =~= Seq::<Seq<char>>::empty());
        server
    }

    /// Begins a session in which the recipient probes are answered by `script`.
    pub fn begin_session(self, script: Vec<Reply>) -> (server: ScriptedServer)
        ensures
            server.replies_left() == script@,
            server.commands_given() == self.commands_given(),
    {
        ScriptedServer { script, commands: self.commands }
    }

    /// Takes a line from the client and says what to do about it. The empty line stands for the
    /// end of the connection.
    pub fn on_line(&mut self, line: &str) -> (action: ServerAction)
        ensures
            is_response(
                action,
                line@,
                if old(self).replies_left().len() > 0 {
                    Some(old(self).replies_left()[0])
                } else {
                    None
                },
            ),
            action is Fail <==> is_fault(line@, old(self).replies_left()),
            final(self).replies_left() == replies_after(old(self).replies_left(), line@),
            final(self).commands_given() == if line@.len() > 0 {
                old(self).commands_given().push(text::trimmed(line@))
            } else {
                old(self).commands_given()
            },
    {
        if line.is_empty() {
            return ServerAction::Close;
        }
        let ghost given = self.commands_given();
        self.commands.push(text::trim(line).to_owned());
        assert(self.commands_given() =~= given.push(text::trimmed(line@)));
        if text::starts_with(line, "EHLO ") || text::starts_with(line, "MAIL FROM:") {
            return ServerAction::Send("250 mock.example OK\r\n".to_owned());
        }
        if text::starts_with(line, "RCPT TO:") {
            if self.script.len() == 0 {
                return ServerAction::Fail(Fault::UnexpectedProbe);
            }
            let reply: Reply = self.script.remove(0);
            assert(self.replies_left() =~= old(self).replies_left().drop_first());
            return match reply {
                Reply::Text(text) => ServerAction::Send(text),
                Reply::Disconnect => ServerAction::Close,
                Reply::Stall => ServerAction::AwaitClose,
            };
        }
        if text::same(line, "QUIT\r\n") {
            return ServerAction::SendAndClose("221 bye\r\n".to_owned());
        }
        ServerAction::Fail(Fault::UnexpectedCommand)
    }

    /// Whether every reply of the script was asked for.
    pub fn is_script_done(&self) -> (done: bool)
        ensures
            done == (self.replies_left().len() == 0),
    {
        self.script.len() == 0
    }

    /// The commands of all sessions.
    pub fn into_commands(self) -> (commands: Vec<String>)
        ensures
            commands.deep_view() == self.commands_given(),
    {
        self.commands
    }
}

/// The address that is verified against the server.
pub fn target_address(domain: &str) -> (address: String)
    ensures
        address@ == "target@"@ + domain@,
{
    "target@".to_owned().concat(domain)
}

/// Over a session without a fault, each recipient probe is answered by the reply that stands at its
/// place in the script, and each reply answers one probe: the replies that are left are those behind
/// the ones that the probes used up, and none is left exactly where there were as many probes as
/// replies.
pub proof fn each_reply_answers_one_probe(script: Seq<Reply>, lines: Seq<Seq<char>>)
    requires
        forall|i: int|
            0 <= i < lines.len() ==> !is_fault(
                #[trigger] lines[i],
                replies_after_lines(script, lines.take(i)),
            ),
    ensures
        probes_in(lines) + replies_after_lines(script, lines).len() == script.len(),
        replies_after_lines(script, lines) == script.skip(probes_in(lines) as int),
        replies_after_lines(script, lines).len() == 0 <==> probes_in(lines) == script.len(),
    decreases lines.len(),
{
    if lines.len() == 0 {
        assert(script.skip(0) == script);
    } else {
        let before = lines.drop_last();
        let last = lines.len() - 1;
        assert forall|i: int| 0 <= i < before.len() implies !is_fault(
            #[trigger] before[i],
            replies_after_lines(script, before.take(i)),
        ) by {
            assert(before.take(i) == lines.take(i));
            assert(before[i] == lines[i]);
        }
        each_reply_answers_one_probe(script, before);
        assert(lines.take(last) == before);
        assert(!is_fault(lines[last], replies_after_lines(script, before)));
        assert(script.skip(probes_in(lines) as int) == replies_after_lines(script, lines));
    }
}

/// The server takes no message: a command that begins a message is a fault.
pub proof fn no_message_is_taken(line: Seq<char>, action: ServerAction, scripted: Option<Reply>)
    requires
        "DATA"@.is_prefix_of(line),
        is_response(action, line, scripted),
    ensures
        action == ServerAction::Fail(Fault::UnexpectedCommand),
{
    reveal_strlit("DATA");
    reveal_strlit("EHLO ");
    reveal_strlit("MAIL FROM:");
    reveal_strlit("RCPT TO:");
    reveal_strlit("QUIT\r\n");
    assert("DATA"@[0] == line[0] && line[0] == 'D');
    if "EHLO "@.is_prefix_of(line) {
        assert(line.subrange(0, 5)[0] == 'E');
    }
    if "MAIL FROM:"@.is_prefix_of(line) {
        assert(line.subrange(0, 10)[0] == 'M');
    }
    if "RCPT TO:"@.is_prefix_of(line) {
        assert(line.subrange(0, 8)[0] == 'R');
    }
    if line == "QUIT\r\n"@ {
        assert(line[0] == 'Q');
    }
}

/// What the server does about a line, by how the line begins. A greeting and a sender are agreed to.
/// A recipient gets the next reply of the script, and is a fault where there is none. A QUIT is
/// answered before the connection is closed. Anything else is a fault.
pub proof fn lines_are_answered_by_their_beginning(
    line: Seq<char>,
    action: ServerAction,
    scripted: Option<Reply>,
)
    requires
        is_response(action, line, scripted),
    ensures
        ({
            let greets = "EHLO "@.is_prefix_of(line) || "MAIL FROM:"@.is_prefix_of(line);
            let asks = "RCPT TO:"@.is_prefix_of(line);
            &&& line.len() == 0 ==> action is Close
            &&& greets ==> (action matches ServerAction::Send(text) && text@
                == "250 mock.example OK\r\n"@)
            &&& !greets && asks ==> match scripted {
                None => action == ServerAction::Fail(Fault::UnexpectedProbe),
                Some(Reply::Text(reply)) => action matches ServerAction::Send(text) && text@
                    == reply@,
                Some(Reply::Disconnect) => action is Close,
                Some(Reply::Stall) => action is AwaitClose,
            }
            &&& line == "QUIT\r\n"@ ==> (action matches ServerAction::SendAndClose(text) && text@
                == "221 bye\r\n"@)
            &&& line.len() > 0 && !greets && !asks && line != "QUIT\r\n"@ ==> action
                == ServerAction::Fail(Fault::UnexpectedCommand)
        }),
{
    reveal_strlit("EHLO ");
    reveal_strlit("MAIL FROM:");
    reveal_strlit("RCPT TO:");
    reveal_strlit("QUIT\r\n");
    if line == "QUIT\r\n"@ {
        assert(line[0] == 'Q');
        assert("EHLO "@.is_prefix_of(line) ==> line.subrange(0, 5)[0] == 'E');
        assert(line.len() == 6);
    }
}

/// A line uses up a reply of the script exactly where it asks for a recipient, and never more than
/// the first one.
pub proof fn only_recipients_use_up_replies(replies: Seq<Reply>, line: Seq<char>)
    ensures
        "RCPT TO:"@.is_prefix_of(line) && replies.len() > 0 ==> replies_after(replies, line)
            == replies.drop_first(),
        !"RCPT TO:"@.is_prefix_of(line) || replies.len() == 0 ==> replies_after(replies, line)
            == replies,
{
    reveal_strlit("EHLO ");
    reveal_strlit("MAIL FROM:");
    reveal_strlit("RCPT TO:");
    if "RCPT TO:"@.is_prefix_of(line) {
        assert(line.subrange(0, 8)[0] == 'R' && line[0] == 'R');
        assert("EHLO "@.is_prefix_of(line) ==> line.subrange(0, 5)[0] == 'E');
        assert("MAIL FROM:"@.is_prefix_of(line) ==> line.subrange(0, 10)[0] == 'M');
    }
}

} // verus!
