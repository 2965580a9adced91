//! Protocol messages exchanged over a task.
//!
//! A message belongs to a role (the requesting user agent or the serving
//! agent), holds an ordered list of content parts, and may carry free-form
//! metadata. The task aggregate keeps an append-only history of them.

use crate::part::{MetaEntryView, Metadata, Part, PartView};
use vstd::prelude::*;

verus! {

/// Originator of a message.
#[derive(Clone, Copy, Debug, PartialEq, Eq, Structural)]
pub enum Role {
    User,
    Agent,
}

/// One protocol message: role, content parts, optional metadata.
#[derive(Debug, PartialEq, Eq)]
pub struct Message {
    pub role: Role,
    pub parts: Vec<Part>,
    pub metadata: Option<Metadata>,
}

/// Ghost mirror of [`Message`].
#[verifier::ext_equal]
pub ghost struct MessageView {
    pub role: Role,
    pub parts: Seq<PartView>,
    pub metadata: Option<Seq<MetaEntryView>>,
}

impl DeepView for Message {
    type V = MessageView;

    open spec fn deep_view(&self) -> MessageView {
        MessageView {
            role: self.role,
            parts: self.parts.deep_view(),
            metadata: self.metadata.deep_view(),
        }
    }
}

impl Clone for Message {
    fn clone(&self) -> (r: Self)
        ensures
            r.deep_view() == self.deep_view(),
    {
        let parts = self.parts.clone();
        let metadata = match &self.metadata {
            Some(m) => {
                let c = m.clone();
                proof {
                    assert(c.deep_view() =~= m.deep_view());
                }
                Some(c)
            },
            None => None,
        };
        proof {
            assert(parts.deep_view() =~= self.parts.deep_view());
        }
        Message { role: self.role, parts, metadata }
    }
}

} // verus!
