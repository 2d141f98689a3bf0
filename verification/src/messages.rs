//! The lines that are written to the daemon.
use crate::json::{
    contents, empty_object, flat, insert, member, parsed, reads_back, reads_back_without_floats,
    render, rendered, text_member, text_value, Json,
};
use vstd::prelude::*;

verus! {

/// The line that carries `j` to the daemon.
pub open spec fn framed(j: Json) -> Seq<char> {
    rendered(j).push('\n')
}

/// Writes `message` as one line.
pub(crate) fn message_line(message: &serde_json::Value) -> (line: String)
    requires
        flat(contents(*message)),
    ensures
        line@ == framed(contents(*message)),
        !line@.drop_last().contains('\n'),
        reads_back(contents(*message), parsed(line@.drop_last())),
{
    let mut line = render(message);
    let ghost body = line@;
    line.push('\n');
    assert(line@.drop_last() =~= body);
    line
}

/// What the user says to the daemon.
pub open spec fn user_chat(message: Seq<char>) -> Json {
    Json::Object(
        Map::empty().insert("type"@, Json::Text("user_chat"@)).insert(
            "message"@,
            Json::Text(message),
        ),
    )
}

/// The line that carries what the user says. It is one line whatever the user says, and the daemon
/// reads from it what was said.
pub fn chat_line(message: &str) -> (line: String)
    ensures
        line@ == framed(user_chat(message@)),
        !line@.drop_last().contains('\n'),
        parsed(line@.drop_last()) == Some(user_chat(message@)),
{
    let mut chat = empty_object();
    insert(&mut chat, "type".to_owned(), text_value("user_chat".to_owned()));
    insert(&mut chat, "message".to_owned(), text_value(message.to_owned()));
    let line = message_line(&chat);
    proof {
        reads_back_without_floats(user_chat(message@), parsed(line@.drop_last()));
    }
    line
}

/// The members of what the user says: its type, the message itself, and no other.
pub proof fn user_chat_members(message: Seq<char>, key: Seq<char>)
    ensures
        text_member(user_chat(message), "type"@) == Some("user_chat"@),
        text_member(user_chat(message), "message"@) == Some(message),
        key != "type"@ && key != "message"@ ==> member(user_chat(message), key) is None,
{
    reveal_strlit("type");
    reveal_strlit("message");
    assert("type"@.len() != "message"@.len());
}

/// A message is written in its compact form, with a line break behind it.
pub proof fn message_is_written_with_a_line_break_behind_it(j: Json)
    ensures
        framed(j).last() == '\n',
        framed(j).drop_last() == rendered(j),
{
    assert(framed(j).drop_last() =~= rendered(j));
}

} // verus!
