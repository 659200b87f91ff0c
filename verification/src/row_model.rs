//! The row model that the grid runs with.

use crate::text::str_eq;
use vstd::prelude::*;

verus! {

/// Options for the row model type.
#[derive(Clone, Copy, Debug, PartialEq, Eq, Structural)]
pub enum RowModelType {
    Infinite,
    Viewport,
    ClientSide,
    ServerSide,
}

impl RowModelType {
    /// The host's name for the row model, in lower camel case.
    pub open spec fn token_text(self) -> Seq<char> {
        match self {
            RowModelType::Infinite => "infinite"@,
            RowModelType::Viewport => "viewport"@,
            RowModelType::ClientSide => "clientSide"@,
            RowModelType::ServerSide => "serverSide"@,
        }
    }

    /// The row model that a host token names, if it names one.
    pub open spec fn of_token(token: Seq<char>) -> Option<RowModelType> {
        if token == "infinite"@ {
            Some(RowModelType::Infinite)
        } else if token == "viewport"@ {
            Some(RowModelType::Viewport)
        } else if token == "clientSide"@ {
            Some(RowModelType::ClientSide)
        } else if token == "serverSide"@ {
            Some(RowModelType::ServerSide)
        } else {
            None
        }
    }

    /// The token under which the host knows this row model.
    pub fn token(&self) -> (token: &'static str)
        ensures
            token@ == self.token_text(),
    {
        match self {
            RowModelType::Infinite => "infinite",
            RowModelType::Viewport => "viewport",
            RowModelType::ClientSide => "clientSide",
            RowModelType::ServerSide => "serverSide",
        }
    }

    /// Reads a row model from the host's token.
    pub fn from_token(token: &str) -> (model: Option<RowModelType>)
        ensures
            model == Self::of_token(token@),
    {
        if str_eq(token, "infinite") {
            Some(RowModelType::Infinite)
        } else if str_eq(token, "viewport") {
            Some(RowModelType::Viewport)
        } else if str_eq(token, "clientSide") {
            Some(RowModelType::ClientSide)
        } else if str_eq(token, "serverSide") {
            Some(RowModelType::ServerSide)
        } else {
            None
        }
    }

    /// The four tokens are pairwise distinct.
    pub proof fn lemma_tokens_differ()
        ensures
            "infinite"@ != "viewport"@,
            "infinite"@ != "clientSide"@,
            "infinite"@ != "serverSide"@,
            "viewport"@ != "clientSide"@,
            "viewport"@ != "serverSide"@,
            "clientSide"@ != "serverSide"@,
    {
        reveal_strlit("infinite");
        reveal_strlit("viewport");
        reveal_strlit("clientSide");
        reveal_strlit("serverSide");
        assert("infinite"@[0] == 'i');
        assert("viewport"@[0] == 'v');
        assert("clientSide"@[0] == 'c');
        assert("serverSide"@[0] == 's');
    }

    /// Every row model is read back from its own token.
    pub proof fn lemma_token_round_trip(model: RowModelType)
        ensures
            Self::of_token(model.token_text()) == Some(model),
    {
        Self::lemma_tokens_differ();
    }

    /// A token that names a row model is that row model's token.
    pub proof fn lemma_named_token_is_stable(token: Seq<char>)
        requires
            Self::of_token(token) is Some,
        ensures
            Self::of_token(token)->0.token_text() == token,
    {
    }
}

} // verus!
