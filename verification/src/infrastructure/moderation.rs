//! The moderation of a question before it is stored: what came of asking
//! the moderation service, and what that means for the draft.
use crate::domain::question::QuestionDraft;
use crate::errors::{APILayerErrorView, Error, ErrorView};
use crate::infrastructure::response::{
    create_api_layer_error, APIResponse, BadWordsResponse, BadWordsResponseView,
};
use crate::status;
use vstd::prelude::*;

verus! {

/// What came of asking the moderation service about a text.
#[derive(Debug)]
pub enum ModerationReply {
    /// No answer came; the text says why.
    Unreachable(String),
    /// The service answered with a status that is no success.
    Refused { status: u16, body: APIResponse },
    /// The service answered with success, but its body could not be read;
    /// the text says why.
    Unreadable(String),
    /// The service has checked the text.
    Checked(BadWordsResponse),
}

pub enum ModerationReplyView {
    Unreachable(Seq<char>),
    Refused { status: int, message: Seq<char> },
    Unreadable(Seq<char>),
    Checked(BadWordsResponseView),
}

impl View for ModerationReply {
    type V = ModerationReplyView;

    open spec fn view(&self) -> ModerationReplyView {
        match self {
            ModerationReply::Unreachable(m) => ModerationReplyView::Unreachable(m@),
            ModerationReply::Refused { status, body } => ModerationReplyView::Refused {
                status: *status as int,
                message: body.message@,
            },
            ModerationReply::Unreadable(m) => ModerationReplyView::Unreadable(m@),
            ModerationReply::Checked(verdict) => ModerationReplyView::Checked(verdict@),
        }
    }
}

impl ModerationReplyView {
    /// The content that is stored, or the failure that ends the request. A
    /// checked text gives its censored form, whatever else the verdict
    /// holds. A refusal is the client's error
    /// where its status says so, and the service's error with any other
    /// status. No answer and an answer that cannot be read are the same
    /// failure.
    pub open spec fn content(self) -> Result<Seq<char>, ErrorView> {
        match self {
            ModerationReplyView::Checked(verdict) => Ok(verdict.censored_content),
            ModerationReplyView::Unreachable(m) => Err(ErrorView::ExternalAPIError(m)),
            ModerationReplyView::Unreadable(m) => Err(ErrorView::ExternalAPIError(m)),
            ModerationReplyView::Refused { status, message } => if status::client_error(status) {
                Err(ErrorView::ClientError(APILayerErrorView { status, message }))
            } else {
                Err(ErrorView::ServerError(APILayerErrorView { status, message }))
            },
        }
    }
}

/// Whether an answer with this status holds a checked text, and not a
/// refusal.
pub fn expects_verdict(status: u16) -> (r: bool)
    ensures
        r == status::success(status as int),
{
    status::is_success(status)
}

/// The draft as it may be stored: with the censored content in the place of
/// the content that the client sent. Where moderation failed there is no
/// such draft.
pub fn moderate(draft: QuestionDraft, reply: ModerationReply) -> (r: Result<QuestionDraft, Error>)
    ensures
        match reply@.content() {
            Ok(content) => r matches Ok(d) && d@ == draft@.with_content(content),
            Err(e) => r matches Err(x) && x@ == e,
        },
{
    match reply {
        ModerationReply::Checked(verdict) => Ok(
            QuestionDraft {
                title: draft.title,
                content: verdict.censored_content,
                tags: draft.tags,
            },
        ),
        ModerationReply::Unreachable(m) => Err(Error::ExternalAPIError(m)),
        ModerationReply::Unreadable(m) => Err(Error::ExternalAPIError(m)),
        ModerationReply::Refused { status, body } => {
            if status::is_client_error(status) {
                Err(Error::ClientError(create_api_layer_error(status, body)))
            } else {
                Err(Error::ServerError(create_api_layer_error(status, body)))
            }
        },
    }
}

} // verus!
