//! The messages exchanged with the text-generation service.

use crate::text::{concat_str, join, join_strings};
use vstd::prelude::*;

verus! {

#[derive(Debug, Clone)]
pub struct MessageRequest {
    pub model: String,
    pub messages: Vec<InputMessage>,
    pub max_tokens: u32,
    pub system: Option<String>,
}

/// A reply of the service. The three fields that the service fills with free-form
/// JSON are kept as the text of that JSON.
#[derive(Debug, Clone)]
pub struct MessageResponse {
    pub id: String,
    pub obj_type: String,
    pub role: String,
    pub content: Vec<OutputMessage>,
    pub model: String,
    pub stop_reason: Option<String>,
    pub stop_sequence: Option<String>,
    pub usage: String,
    pub context_management: Option<String>,
    pub container: Option<String>,
}

#[derive(Debug, Clone)]
pub struct InputMessage {
    pub role: String,
    pub content: String,
}

/// One block of a reply.
#[derive(Debug, Clone)]
pub enum OutputMessage {
    Text { citations: Option<Vec<Citation>>, text: String },
    Thinking { signature: String, thinking: String },
    RedactedThinking { data: String },
    Other,
}

#[derive(Debug, Clone)]
pub enum Citation {
    CharacterLocation {
        cited_text: String,
        document_index: u32,
        document_title: Option<String>,
        end_char_index: u32,
        file_id: Option<String>,
        start_char_index: u32,
    },
    PageLocation {
        cited_text: String,
        document_index: u32,
        document_title: Option<String>,
        end_page_number: u32,
        file_id: Option<String>,
        start_page_number: u32,
    },
    ContentBlockLocation {
        cited_text: String,
        document_index: u32,
        document_title: Option<String>,
        end_block_index: u32,
        file_id: Option<String>,
        start_block_index: u32,
    },
    ResponseWebSearchResultLocationCitation {
        cited_text: String,
        encrypted_index: String,
        title: Option<String>,
    },
    ResponseSearchResultLocationCitation {
        cited_text: String,
        end_block_index: u32,
        search_result_index: u32,
        source: String,
        start_block_index: u32,
        title: Option<String>,
    },
}

impl OutputMessage {
    /// The text that this block shows: its text, thinking or data on a line of
    /// its own, and nothing for a block of another kind.
    pub open spec fn shown(self) -> Seq<char> {
        match self {
            OutputMessage::Text { text, .. } => text@.push('\n'),
            OutputMessage::Thinking { thinking, .. } => thinking@.push('\n'),
            OutputMessage::RedactedThinking { data } => data@.push('\n'),
            OutputMessage::Other => Seq::empty(),
        }
    }

    /// The text that this block shows.
    pub fn to_string(&self) -> (r: String)
        ensures
            r@ == self.shown(),
    {
        proof {
            reveal_strlit("\n");
            assert("\n"@ == seq!['\n']);
        }
        match self {
            OutputMessage::Text { text, .. } => concat_str(text.as_str(), "\n"),
            OutputMessage::Thinking { thinking, .. } => concat_str(thinking.as_str(), "\n"),
            OutputMessage::RedactedThinking { data } => concat_str(data.as_str(), "\n"),
            OutputMessage::Other => String::new(),
        }
    }
}

impl MessageResponse {
    /// What each block of the reply shows, in order.
    pub open spec fn shown_blocks(self) -> Seq<Seq<char>> {
        Seq::new(self.content@.len(), |i: int| self.content@[i].shown())
    }

    /// The text of the reply: what its blocks show, with one space between
    /// neighbouring blocks.
    pub fn to_string(&self) -> (r: String)
        ensures
            r@ == join(self.shown_blocks(), seq![' ']),
    {
        let mut all: Vec<String> = Vec::new();
        let mut i: usize = 0;
        while i < self.content.len()
            invariant
                i <= self.content.len(),
                all@.len() == i,
                forall|k: int| 0 <= k < i ==> (#[trigger] all@[k])@ == self.content@[k].shown(),
            decreases self.content.len() - i,
        {
            all.push(self.content[i].to_string());
            i += 1;
        }
        proof {
            reveal_strlit(" ");
            assert(" "@ == seq![' ']);
            assert(crate::text::views(all@) == self.shown_blocks());
        }
        join_strings(&all, " ")
    }
}

} // verus!
