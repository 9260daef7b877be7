//! The HTTP methods a request can use, in the order in which they are listed.

use crate::text::same_text;
use vstd::prelude::*;

verus! {

/// One of the five supported HTTP methods.
#[derive(Clone, Copy, Debug, PartialEq, Eq, Structural)]
pub enum Method {
    Get,
    Post,
    Put,
    Delete,
    Patch,
}

/// How many methods there are.
pub const METHOD_COUNT: usize = 5;

impl Method {
    /// The position of the method in the list, counted from 0.
    pub open spec fn index(self) -> int {
        match self {
            Method::Get => 0,
            Method::Post => 1,
            Method::Put => 2,
            Method::Delete => 3,
            Method::Patch => 4,
        }
    }

    /// The method at a position of the list, where there is one.
    pub open spec fn at(index: int) -> Option<Method> {
        if index == 0 {
            Some(Method::Get)
        } else if index == 1 {
            Some(Method::Post)
        } else if index == 2 {
            Some(Method::Put)
        } else if index == 3 {
            Some(Method::Delete)
        } else if index == 4 {
            Some(Method::Patch)
        } else {
            None
        }
    }

    /// The token that names the method on the wire and on the screen.
    pub open spec fn token_text(self) -> Seq<char> {
        match self {
            Method::Get => "GET"@,
            Method::Post => "POST"@,
            Method::Put => "PUT"@,
            Method::Delete => "DELETE"@,
            Method::Patch => "PATCH"@,
        }
    }

    /// The method that a token names. The match is exact and case-sensitive.
    pub open spec fn of_token(token: Seq<char>) -> Option<Method> {
        if token == "GET"@ {
            Some(Method::Get)
        } else if token == "POST"@ {
            Some(Method::Post)
        } else if token == "PUT"@ {
            Some(Method::Put)
        } else if token == "DELETE"@ {
            Some(Method::Delete)
        } else if token == "PATCH"@ {
            Some(Method::Patch)
        } else {
            None
        }
    }

    /// The method one place up the list; the first one stays where it is.
    pub open spec fn before(self) -> Method {
        match self {
            Method::Get => Method::Get,
            Method::Post => Method::Get,
            Method::Put => Method::Post,
            Method::Delete => Method::Put,
            Method::Patch => Method::Delete,
        }
    }

    /// The method one place down the list; the last one stays where it is.
    pub open spec fn after(self) -> Method {
        match self {
            Method::Get => Method::Post,
            Method::Post => Method::Put,
            Method::Put => Method::Delete,
            Method::Delete => Method::Patch,
            Method::Patch => Method::Patch,
        }
    }

    /// Whether a request with this method carries a body: all but `GET` do.
    pub open spec fn has_body(self) -> bool {
        self != Method::Get
    }

    /// The position of the method in the list.
    pub fn position(self) -> (index: usize)
        ensures
            index == self.index(),
            index < METHOD_COUNT,
    {
        match self {
            Method::Get => 0,
            Method::Post => 1,
            Method::Put => 2,
            Method::Delete => 3,
            Method::Patch => 4,
        }
    }

    /// The method at a position of the list; `None` past the end.
    pub fn from_position(index: usize) -> (method: Option<Method>)
        ensures
            method == Method::at(index as int),
            method is Some <==> index < METHOD_COUNT,
    {
        if index == 0 {
            Some(Method::Get)
        } else if index == 1 {
            Some(Method::Post)
        } else if index == 2 {
            Some(Method::Put)
        } else if index == 3 {
            Some(Method::Delete)
        } else if index == 4 {
            Some(Method::Patch)
        } else {
            None
        }
    }

    /// The token that names the method.
    pub fn token(self) -> (token: &'static str)
        ensures
            token@ == self.token_text(),
    {
        match self {
            Method::Get => "GET",
            Method::Post => "POST",
            Method::Put => "PUT",
            Method::Delete => "DELETE",
            Method::Patch => "PATCH",
        }
    }

    /// The method that a token names; `None` where it names none.
    pub fn from_token(token: &str) -> (method: Option<Method>)
        ensures
            method == Method::of_token(token@),
    {
        if same_text(token, "GET") {
            Some(Method::Get)
        } else if same_text(token, "POST") {
            Some(Method::Post)
        } else if same_text(token, "PUT") {
            Some(Method::Put)
        } else if same_text(token, "DELETE") {
            Some(Method::Delete)
        } else if same_text(token, "PATCH") {
            Some(Method::Patch)
        } else {
            None
        }
    }

    /// The method one place up the list, or the same one at the top.
    pub fn previous(self) -> (method: Method)
        ensures
            method == self.before(),
    {
        match self {
            Method::Get => Method::Get,
            Method::Post => Method::Get,
            Method::Put => Method::Post,
            Method::Delete => Method::Put,
            Method::Patch => Method::Delete,
        }
    }

    /// The method one place down the list, or the same one at the bottom.
    pub fn next(self) -> (method: Method)
        ensures
            method == self.after(),
    {
        match self {
            Method::Get => Method::Post,
            Method::Post => Method::Put,
            Method::Put => Method::Delete,
            Method::Delete => Method::Patch,
            Method::Patch => Method::Patch,
        }
    }

    /// Whether a request with this method carries a body.
    pub fn carries_body(self) -> (carries: bool)
        ensures
            carries == self.has_body(),
    {
        match self {
            Method::Get => false,
            _ => true,
        }
    }
}

/// Moving up the list lowers the position by one, except at the top, where
/// nothing moves; moving down raises it by one, except at the bottom.
pub proof fn lemma_moves_by_one(method: Method)
    ensures
        method.before().index() == if method.index() > 0 {
            method.index() - 1
        } else {
            method.index()
        },
        method.after().index() == if method.index() < METHOD_COUNT - 1 {
            method.index() + 1
        } else {
            method.index()
        },
        0 <= method.index() < METHOD_COUNT,
{
}

/// A position and the method at it determine each other.
pub proof fn lemma_position_round_trip(method: Method, index: int)
    ensures
        Method::at(method.index()) == Some(method),
        Method::at(index) matches Some(m) ==> m.index() == index,
        Method::at(index) is Some <==> 0 <= index < METHOD_COUNT,
{
}

/// Every method is named by its own token and by no other method's.
pub proof fn lemma_token_round_trip(method: Method)
    ensures
        Method::of_token(method.token_text()) == Some(method),
{
    reveal_strlit("GET");
    reveal_strlit("POST");
    reveal_strlit("PUT");
    reveal_strlit("DELETE");
    reveal_strlit("PATCH");
    match method {
        Method::Get => {},
        Method::Post => {
            assert("POST"@.len() != "GET"@.len());
        },
        Method::Put => {
            assert("PUT"@[0] != "GET"@[0]);
            assert("PUT"@.len() != "POST"@.len());
        },
        Method::Delete => {
            assert("DELETE"@.len() != "GET"@.len());
            assert("DELETE"@.len() != "POST"@.len());
            assert("DELETE"@.len() != "PUT"@.len());
        },
        Method::Patch => {
            assert("PATCH"@.len() != "GET"@.len());
            assert("PATCH"@.len() != "POST"@.len());
            assert("PATCH"@.len() != "PUT"@.len());
            assert("PATCH"@.len() != "DELETE"@.len());
        },
    }
}

} // verus!
