use vstd::prelude::*;

use crate::parse::Header;

verus! {

/// The header mapping of one request or response: at most one value per
/// recognized header name, insertion order irrelevant, later inserts
/// replacing earlier ones. Viewed as a `Map<Header, Seq<char>>`.
#[derive(Debug)]
pub struct Headers {
    user_agent: Option<String>,
    content_type: Option<String>,
    content_length: Option<String>,
}

impl View for Headers {
    type V = Map<Header, Seq<char>>;

    closed spec fn view(&self) -> Map<Header, Seq<char>> {
        let m = Map::<Header, Seq<char>>::empty();
        let m = if self.user_agent is Some {
            m.insert(Header::UserAgent, self.user_agent->0@)
        } else {
            m
        };
        let m = if self.content_type is Some {
            m.insert(Header::ContentType, self.content_type->0@)
        } else {
            m
        };
        let m = if self.content_length is Some {
            m.insert(Header::ContentLength, self.content_length->0@)
        } else {
            m
        };
        m
    }
}

impl Headers {
    /// An empty header mapping.
    pub fn new() -> (h: Headers)
        ensures
            h@ == Map::<Header, Seq<char>>::empty(),
    {
        let h = Headers { user_agent: None, content_type: None, content_length: None };
        proof {
            assert(h@ =~= Map::<Header, Seq<char>>::empty());
        }
        h
    }

    /// Sets the value of `name`, replacing any earlier one.
    pub fn insert(&mut self, name: Header, value: String)
        ensures
            final(self)@ == old(self)@.insert(name, value@),
    {
        match name {
            Header::UserAgent => {
                self.user_agent = Some(value);
            },
            Header::ContentType => {
                self.content_type = Some(value);
            },
            Header::ContentLength => {
                self.content_length = Some(value);
            },
        }
        proof {
            assert(self@ =~= old(self)@.insert(name, value@));
        }
    }

    /// Looks the value of `name` up.
    pub fn get(&self, name: Header) -> (r: Option<&String>)
        ensures
            match r {
                Some(v) => self@.contains_key(name) && v@ == self@[name],
                None => !self@.contains_key(name),
            },
    {
        match name {
            Header::UserAgent => self.user_agent.as_ref(),
            Header::ContentType => self.content_type.as_ref(),
            Header::ContentLength => self.content_length.as_ref(),
        }
    }
}

} // verus!
