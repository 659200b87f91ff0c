//! The filters that a column can be given.

use crate::text::str_eq;
use vstd::prelude::*;

verus! {

/// Pre-specified filters which can be applied to columns.
#[derive(Clone, Copy, Debug, PartialEq, Eq, Structural)]
pub enum Filter {
    /// A filter for number comparisons.
    AgNumberColumnFilter,
    /// A filter for string comparisons.
    AgTextColumnFilter,
    /// A filter for date comparisons.
    AgDateColumnFilter,
    /// A filter influenced by how filters work in Microsoft Excel. This is an
    /// AG Grid Enterprise feature.
    AgSetColumnFilter,
    /// Enable the default filter. The default is Text Filter for AG Grid
    /// Community and Set Filter for AG Grid Enterprise.
    True,
    /// Explicitly disable filtering.
    False,
}

/// What the host's filter field holds: the name of a built-in filter, or a
/// boolean that switches filtering on or off.
#[derive(Clone, Copy, Debug, PartialEq, Eq)]
pub enum FilterToken<'a> {
    Name(&'a str),
    Toggle(bool),
}

/// What a [`FilterToken`] holds.
pub enum FilterTokenView {
    Name(Seq<char>),
    Toggle(bool),
}

impl<'a> View for FilterToken<'a> {
    type V = FilterTokenView;

    open spec fn view(&self) -> FilterTokenView {
        match self {
            FilterToken::Name(name) => FilterTokenView::Name(name@),
            FilterToken::Toggle(on) => FilterTokenView::Toggle(*on),
        }
    }
}

impl Filter {
    /// The host's encoding of the filter. The four named filters are strings;
    /// `True` and `False` are the booleans themselves.
    pub open spec fn token_view(self) -> FilterTokenView {
        match self {
            Filter::AgNumberColumnFilter => FilterTokenView::Name("agNumberColumnFilter"@),
            Filter::AgTextColumnFilter => FilterTokenView::Name("agTextColumnFilter"@),
            Filter::AgDateColumnFilter => FilterTokenView::Name("agDateColumnFilter"@),
            Filter::AgSetColumnFilter => FilterTokenView::Name("agSetColumnFilter"@),
            Filter::True => FilterTokenView::Toggle(true),
            Filter::False => FilterTokenView::Toggle(false),
        }
    }

    /// The filter that a host value names, if it names one.
    pub open spec fn of_token(token: FilterTokenView) -> Option<Filter> {
        match token {
            FilterTokenView::Toggle(on) => if on {
                Some(Filter::True)
            } else {
                Some(Filter::False)
            },
            FilterTokenView::Name(name) => if name == "agNumberColumnFilter"@ {
                Some(Filter::AgNumberColumnFilter)
            } else if name == "agTextColumnFilter"@ {
                Some(Filter::AgTextColumnFilter)
            } else if name == "agDateColumnFilter"@ {
                Some(Filter::AgDateColumnFilter)
            } else if name == "agSetColumnFilter"@ {
                Some(Filter::AgSetColumnFilter)
            } else {
                None
            },
        }
    }

    /// Encodes the filter for the host.
    pub fn token(&self) -> (token: FilterToken<'static>)
        ensures
            token@ == self.token_view(),
    {
        match self {
            Filter::AgNumberColumnFilter => FilterToken::Name("agNumberColumnFilter"),
            Filter::AgTextColumnFilter => FilterToken::Name("agTextColumnFilter"),
            Filter::AgDateColumnFilter => FilterToken::Name("agDateColumnFilter"),
            Filter::AgSetColumnFilter => FilterToken::Name("agSetColumnFilter"),
            Filter::True => FilterToken::Toggle(true),
            Filter::False => FilterToken::Toggle(false),
        }
    }

    /// Reads a filter from the host's value.
    pub fn from_token(token: FilterToken<'_>) -> (filter: Option<Filter>)
        ensures
            filter == Self::of_token(token@),
    {
        match token {
            FilterToken::Toggle(true) => Some(Filter::True),
            FilterToken::Toggle(false) => Some(Filter::False),
            FilterToken::Name(name) => {
                if str_eq(name, "agNumberColumnFilter") {
                    Some(Filter::AgNumberColumnFilter)
                } else if str_eq(name, "agTextColumnFilter") {
                    Some(Filter::AgTextColumnFilter)
                } else if str_eq(name, "agDateColumnFilter") {
                    Some(Filter::AgDateColumnFilter)
                } else if str_eq(name, "agSetColumnFilter") {
                    Some(Filter::AgSetColumnFilter)
                } else {
                    None
                }
            },
        }
    }

    /// The four filter names are pairwise distinct.
    pub proof fn lemma_names_differ()
        ensures
            "agNumberColumnFilter"@ != "agTextColumnFilter"@,
            "agNumberColumnFilter"@ != "agDateColumnFilter"@,
            "agNumberColumnFilter"@ != "agSetColumnFilter"@,
            "agTextColumnFilter"@ != "agDateColumnFilter"@,
            "agTextColumnFilter"@ != "agSetColumnFilter"@,
            "agDateColumnFilter"@ != "agSetColumnFilter"@,
    {
        reveal_strlit("agNumberColumnFilter");
        reveal_strlit("agTextColumnFilter");
        reveal_strlit("agDateColumnFilter");
        reveal_strlit("agSetColumnFilter");
        assert("agNumberColumnFilter"@[2] == 'N');
        assert("agTextColumnFilter"@[2] == 'T');
        assert("agDateColumnFilter"@[2] == 'D');
        assert("agSetColumnFilter"@[2] == 'S');
    }

    /// Every filter is read back from its own encoding.
    pub proof fn lemma_token_round_trip(filter: Filter)
        ensures
            Self::of_token(filter.token_view()) == Some(filter),
    {
        Self::lemma_names_differ();
    }

    /// A host value that names a filter is that filter's encoding.
    pub proof fn lemma_named_token_is_stable(token: FilterTokenView)
        requires
            Self::of_token(token) is Some,
        ensures
            Self::of_token(token)->0.token_view() == token,
    {
    }
}

} // verus!
