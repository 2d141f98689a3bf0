//! The state of the language-model daemon as the user sees it.
use crate::text::followed_by;
use vstd::prelude::*;

verus! {

/// The state of the daemon, as data.
pub enum StatusView {
    NotLoaded,
    Loading,
    Ready(Seq<char>),
    Error(Seq<char>),
}

impl StatusView {
    /// The text in which the state is reported.
    pub open spec fn text(self) -> Seq<char> {
        match self {
            StatusView::NotLoaded => "not_loaded"@,
            StatusView::Loading => "loading"@,
            StatusView::Ready(name) => "ready:"@ + name,
            StatusView::Error(message) => "error:"@ + message,
        }
    }
}

/// The state of the daemon.
pub enum LlmStatus {
    /// No model is loaded.
    NotLoaded,
    /// A model is being loaded.
    Loading,
    /// The model of that name is loaded.
    Ready(String),
    /// The daemon failed, with that message.
    Error(String),
}

impl View for LlmStatus {
    type V = StatusView;

    open spec fn view(&self) -> StatusView {
        match self {
            LlmStatus::NotLoaded => StatusView::NotLoaded,
            LlmStatus::Loading => StatusView::Loading,
            LlmStatus::Ready(name) => StatusView::Ready(name@),
            LlmStatus::Error(message) => StatusView::Error(message@),
        }
    }
}

impl LlmStatus {
    /// Writes the state as `not_loaded`, `loading`, `ready:<model>` or `error:<message>`.
    pub fn text(&self) -> (text: String)
        ensures
            text@ == self@.text(),
    {
        match self {
            LlmStatus::NotLoaded => "not_loaded".to_owned(),
            LlmStatus::Loading => "loading".to_owned(),
            LlmStatus::Ready(name) => followed_by("ready:", name.as_str()),
            LlmStatus::Error(message) => followed_by("error:", message.as_str()),
        }
    }

    /// Whether a model is loaded.
    pub fn is_ready(&self) -> (yes: bool)
        ensures
            yes == (self@ is Ready),
            yes == "ready:"@.is_prefix_of(self@.text()),
    {
        proof {
            ready_is_told_by_prefix(self@);
        }
        match self {
            LlmStatus::Ready(_) => true,
            _ => false,
        }
    }
}

/// The text of a state tells its form by its first characters.
proof fn forms_differ_in_their_first_character(status: StatusView)
    ensures
        status.text().len() >= 6,
        status is NotLoaded ==> status.text()[0] == 'n',
        status is Loading ==> status.text()[0] == 'l',
        status is Ready ==> status.text()[0] == 'r',
        status is Error ==> status.text()[0] == 'e',
{
    reveal_strlit("not_loaded");
    reveal_strlit("loading");
    reveal_strlit("ready:");
    reveal_strlit("error:");
}

/// A state is reported by a text that begins with `ready:` exactly where a model is loaded.
pub proof fn ready_is_told_by_prefix(status: StatusView)
    ensures
        "ready:"@.is_prefix_of(status.text()) <==> status is Ready,
{
    forms_differ_in_their_first_character(status);
    reveal_strlit("ready:");
    if "ready:"@.is_prefix_of(status.text()) {
        assert(status.text().subrange(0, 6)[0] == status.text()[0]);
    }
    if let StatusView::Ready(name) = status {
        assert(status.text().subrange(0, 6) =~= "ready:"@);
    }
}

/// The text of a state tells everything about it: no two states are reported alike.
pub proof fn status_text_is_injective(a: StatusView, b: StatusView)
    requires
        a.text() == b.text(),
    ensures
        a == b,
{
    forms_differ_in_their_first_character(a);
    forms_differ_in_their_first_character(b);
    reveal_strlit("ready:");
    reveal_strlit("error:");
    match (a, b) {
        (StatusView::Ready(x), StatusView::Ready(y)) => {
            assert(x =~= a.text().skip(6) && y =~= b.text().skip(6));
        },
        (StatusView::Error(x), StatusView::Error(y)) => {
            assert(x =~= a.text().skip(6) && y =~= b.text().skip(6));
        },
        _ => {},
    }
}

/// A state is what it was made as, with its name or message character for character.
pub proof fn status_is_taken_as_it_is(text: String)
    ensures
        LlmStatus::NotLoaded@ == StatusView::NotLoaded,
        LlmStatus::Loading@ == StatusView::Loading,
        LlmStatus::Ready(text)@ == StatusView::Ready(text@),
        LlmStatus::Error(text)@ == StatusView::Error(text@),
{
}

/// A state is reported as `not_loaded` or `loading`, as `ready:` and the name of the model, or as
/// `error:` and the message.
pub proof fn status_is_reported_in_words(text: Seq<char>)
    ensures
        StatusView::NotLoaded.text() == "not_loaded"@,
        StatusView::Loading.text() == "loading"@,
        StatusView::Ready(text).text() == "ready:"@ + text,
        StatusView::Error(text).text() == "error:"@ + text,
{
}

} // verus!
