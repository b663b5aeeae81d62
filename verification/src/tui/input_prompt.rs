use vstd::prelude::*;
use crate::decimal::{DecimalInt, parse_decimal, parse_result};

verus! {

/// The type that a prompt asks for.
#[derive(Debug, Clone, Copy, PartialEq, Eq, Structural)]
pub enum PromptType {
    U8,
    I32,
    I64,
    U32,
    U64,
    F32,
    ActArray,
}

/// The keys that a prompt reacts to; the others edit the text.
#[derive(Debug, Clone, Copy, PartialEq, Eq, Structural)]
pub enum PromptKey {
    Enter,
    Esc,
    Other,
}

/// A one-line prompt for a value, with the request it answers.
pub struct InputPrompt<C> {
    text: String,
    prompt: &'static str,
    prompt_type: Option<PromptType>,
    pub last_request: Option<C>,
    pub show: bool,
}

impl<C> InputPrompt<C> {
    /// The text typed so far.
    pub closed spec fn spec_text(&self) -> Seq<char> {
        self.text@
    }

    /// The question shown above the text.
    pub closed spec fn spec_prompt(&self) -> Seq<char> {
        self.prompt@
    }

    /// The type the prompt asks for, while it is open.
    pub closed spec fn spec_prompt_type(&self) -> Option<PromptType> {
        self.prompt_type
    }

    /// The request the prompt answers.
    pub closed spec fn spec_last_request(&self) -> Option<C> {
        self.last_request
    }

    /// Whether the prompt is open.
    pub closed spec fn spec_shown(&self) -> bool {
        self.show
    }

    /// A hidden prompt with no text and no request.
    pub fn new() -> (r: Self)
        ensures
            r.spec_text() == Seq::<char>::empty(),
            r.spec_prompt() == Seq::<char>::empty(),
            r.spec_prompt_type() is None,
            r.spec_last_request() is None,
            !r.spec_shown(),
    {
        let p = "";
        proof {
            reveal_strlit("");
        }
        InputPrompt { text: String::new(), prompt: p, prompt_type: None, last_request: None, show: false }
    }

    /// Opens the prompt with `prompt` for a value of `prompt_type`, for
    /// `request`, with the text cleared.
    pub fn show(&mut self, prompt: &'static str, prompt_type: PromptType, request: C)
        ensures
            final(self).spec_text() == Seq::<char>::empty(),
            final(self).spec_prompt() == prompt@,
            final(self).spec_prompt_type() == Some(prompt_type),
            final(self).spec_last_request() == Some(request),
            final(self).spec_shown(),
    {
        self.last_request = Some(request);
        self.prompt = prompt;
        self.prompt_type = Some(prompt_type);
        self.text = String::new();
        self.show = true;
    }

    /// Closes the prompt; the text and the request stay.
    fn dismiss(&mut self)
        ensures
            final(self).spec_text() == old(self).spec_text(),
            final(self).spec_prompt() == old(self).spec_prompt(),
            final(self).spec_prompt_type() is None,
            final(self).spec_last_request() == old(self).spec_last_request(),
            !final(self).spec_shown(),
    {
        self.prompt_type = None;
        self.show = false;
    }

    /// Replaces the text, after it was edited.
    pub fn set_text(&mut self, text: String)
        ensures
            final(self).spec_text() == text@,
            final(self).spec_prompt() == old(self).spec_prompt(),
            final(self).spec_prompt_type() == old(self).spec_prompt_type(),
            final(self).spec_last_request() == old(self).spec_last_request(),
            final(self).spec_shown() == old(self).spec_shown(),
    {
        self.text = text;
    }

    /// The text typed so far.
    pub fn text(&self) -> (r: String)
        ensures
            r@ == self.spec_text(),
    {
        self.text.clone()
    }

    /// The text as a value of `T`, when it spells one.
    pub fn parse_text<T: DecimalInt>(&self) -> (r: Option<T>)
        ensures
            match parse_result::<T>(self.spec_text()) {
                Some(n) => r matches Some(v) && v.value() == n,
                None => r is None,
            },
    {
        parse_decimal::<T>(self.text.as_str())
    }

    /// Reacts to a key, once the text has been edited by it: Enter and Esc
    /// close the prompt. Tells whether the prompt was closed.
    pub fn handle_keys(&mut self, key: PromptKey) -> (closed: bool)
        ensures
            closed == (key == PromptKey::Enter || key == PromptKey::Esc),
            closed ==> {
                &&& !final(self).spec_shown()
                &&& final(self).spec_prompt_type() is None
            },
            !closed ==> {
                &&& final(self).spec_shown() == old(self).spec_shown()
                &&& final(self).spec_prompt_type() == old(self).spec_prompt_type()
            },
            final(self).spec_text() == old(self).spec_text(),
            final(self).spec_last_request() == old(self).spec_last_request(),
    {
        match key {
            PromptKey::Esc | PromptKey::Enter => {
                self.dismiss();
                true
            },
            PromptKey::Other => false,
        }
    }

    /// Whether the text reads as a value of the open prompt's type, for the
    /// integer types; `None` for the other types, whose syntax is not
    /// decided here.
    pub fn can_input_be_parsed_from_type(&self) -> (r: Option<bool>)
        requires
            self.spec_prompt_type() is Some,
        ensures
            match self.spec_prompt_type()->Some_0 {
                PromptType::U8 => r == Some(parse_result::<u8>(self.spec_text()) is Some),
                PromptType::I32 => r == Some(parse_result::<i32>(self.spec_text()) is Some),
                PromptType::I64 => r == Some(parse_result::<i64>(self.spec_text()) is Some),
                PromptType::U32 => r == Some(parse_result::<u32>(self.spec_text()) is Some),
                PromptType::U64 => r == Some(parse_result::<u64>(self.spec_text()) is Some),
                PromptType::F32 | PromptType::ActArray => r is None,
            },
    {
        let text = self.text.as_str();
        match self.prompt_type {
            Some(PromptType::U8) => Some(parse_decimal::<u8>(text).is_some()),
            Some(PromptType::I32) => Some(parse_decimal::<i32>(text).is_some()),
            Some(PromptType::I64) => Some(parse_decimal::<i64>(text).is_some()),
            Some(PromptType::U32) => Some(parse_decimal::<u32>(text).is_some()),
            Some(PromptType::U64) => Some(parse_decimal::<u64>(text).is_some()),
            _ => None,
        }
    }
}

} // verus!
