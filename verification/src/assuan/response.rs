//! The replies of the helper, one on each line.

use vstd::prelude::*;
use vstd::string::StringExecFns;

verus! {

/// A reply of the helper. `Response` has no `Debug`: what is shown of a reply comes
/// from `to_string`, which leaves the secret out.
#[derive(PartialEq)]
pub enum Response {
    /// The directive was taken.
    Okay,
    /// The greeting that opens the dialogue.
    OkHello,
    /// The secret that the user gave.
    Data(String),
}

/// A `Response` with its secret as a sequence of characters.
pub enum ResponseView {
    Okay,
    OkHello,
    Data(Seq<char>),
}

impl View for Response {
    type V = ResponseView;

    open spec fn view(&self) -> ResponseView {
        match self {
            Response::Okay => ResponseView::Okay,
            Response::OkHello => ResponseView::OkHello,
            Response::Data(secret) => ResponseView::Data(secret@),
        }
    }
}

impl ResponseView {
    /// The line that carries the reply to the requester, without a line end. The
    /// secret stands in it as it is: nothing in it is escaped.
    pub open spec fn wire(self) -> Seq<char> {
        match self {
            ResponseView::Okay => "OK"@,
            ResponseView::OkHello => "OK Please go ahead"@,
            ResponseView::Data(secret) => "D "@ + secret,
        }
    }

    /// What may be shown of the reply in a log or a message: the line that carries
    /// it, with a fixed mark in place of the secret.
    pub open spec fn redacted(self) -> Seq<char> {
        match self {
            ResponseView::Okay => "OK"@,
            ResponseView::OkHello => "OK Please go ahead"@,
            ResponseView::Data(_) => "D <SECURE>"@,
        }
    }
}

impl Response {
    /// The line that carries the reply to the requester, without a line end.
    pub fn to_pinentry(&self) -> (line: String)
        ensures
            line@ == self@.wire(),
    {
        match self {
            Response::Okay => "OK".to_owned(),
            Response::OkHello => "OK Please go ahead".to_owned(),
            Response::Data(d) => {
                let mut line = "D ".to_owned();
                line.append(d.as_str());
                line
            },
        }
    }

    /// The reply as it may be shown in a log or a message. The secret is not in it.
    pub fn to_string(&self) -> (shown: String)
        ensures
            shown@ == self@.redacted(),
    {
        match self {
            Response::Okay => "OK".to_owned(),
            Response::OkHello => "OK Please go ahead".to_owned(),
            Response::Data(_) => "D <SECURE>".to_owned(),
        }
    }
}

/// The replies of `replies`, each by its view.
pub open spec fn response_views(replies: Seq<Response>) -> Seq<ResponseView> {
    replies.map_values(|r: Response| r@)
}

/// The text that carries `replies` to the requester: the line of each, in their
/// order, each closed by a line feed.
pub open spec fn spec_wire_lines(replies: Seq<ResponseView>) -> Seq<char>
    decreases replies.len(),
{
    if replies.len() == 0 {
        Seq::empty()
    } else {
        spec_wire_lines(replies.drop_last()) + replies.last().wire() + seq!['\n']
    }
}

/// The text that carries `replies` to the requester.
pub fn wire_lines(replies: &[Response]) -> (text: String)
    ensures
        text@ == spec_wire_lines(response_views(replies@)),
{
    let mut text = String::new();
    let ghost views = response_views(replies@);
    let mut i: usize = 0;
    while i < replies.len()
        invariant
            i <= replies.len(),
            views == response_views(replies@),
            text@ == spec_wire_lines(views.take(i as int)),
        decreases replies.len() - i,
    {
        assert(views.take(i + 1).drop_last() == views.take(i as int));
        text.append(replies[i].to_pinentry().as_str());
        text.push('\n');
        i = i + 1;
    }
    assert(views.take(i as int) == views);
    text
}

/// What is shown of a secret does not depend on the secret.
pub proof fn lemma_redacted_hides_secret(a: Seq<char>, b: Seq<char>)
    ensures
        ResponseView::Data(a).redacted() == ResponseView::Data(b).redacted(),
{
}

} // verus!
