//! Chat templates kept by the balancer and the bodies of the routes that
//! answer them.
use vstd::prelude::*;

verus! {

/// A chat template as stored.
pub struct ChatTemplateModel {
    pub id: String,
    pub content: String,
}

/// What lists a stored chat template without its content.
pub struct ChatTemplateHead {
    pub id: String,
}

/// The body of `GET /api/v1/chat_template/{id}`.
pub struct ChatTemplate {
    pub chat_template: ChatTemplateModel,
}

/// The body of `GET /api/v1/chat_template_heads`.
pub struct ChatTemplateHeads {
    pub chat_template_heads: Vec<ChatTemplateHead>,
}

/// The chat template an agent uses in place of the model's own, if any.
pub struct ChatTemplateOverride {
    pub chat_template_override: Option<ChatTemplateModel>,
}

/// How `GET /api/v1/chat_template/{id}` answers.
pub enum ChatTemplateLookup {
    /// 200 with this body.
    Found(ChatTemplate),
    /// 404.
    NotFound,
}

/// The answer for a stored chat template, or for its absence.
pub fn chat_template_lookup(stored: Option<ChatTemplateModel>) -> (res: ChatTemplateLookup)
    ensures
        match stored {
            Some(t) => res matches ChatTemplateLookup::Found(body) && body.chat_template == t,
            None => res is NotFound,
        },
{
    match stored {
        Some(t) => ChatTemplateLookup::Found(ChatTemplate { chat_template: t }),
        None => ChatTemplateLookup::NotFound,
    }
}

} // verus!
