//! Where the arguments come from: a vector handed over as it is, or a URL
//! whose query string stands for a command line.

use crate::outside::{url_arguments, url_tokens};
use vstd::prelude::*;

verus! {

/// A source of command-line arguments.
pub enum ArgSource {
    /// The arguments themselves, the program's name first, as a native
    /// process receives them.
    Vector(Vec<String>),
    /// The URL of a page, to be cut into arguments: the path first, then
    /// each part of the query string.
    Url(String),
}

impl ArgSource {
    /// The arguments that this source stands for.
    pub open spec fn tokens(self) -> Seq<Seq<char>> {
        match self {
            ArgSource::Vector(args) => args.deep_view(),
            ArgSource::Url(url) => url_tokens(url@),
        }
    }

    /// Produces the arguments: a vector is passed on untouched, a URL is cut
    /// up by `cliw`.
    pub fn into_arguments(self) -> (args: Vec<String>)
        ensures
            args.deep_view() == self.tokens(),
            self matches ArgSource::Vector(given) ==> args == given,
    {
        match self {
            ArgSource::Vector(args) => args,
            ArgSource::Url(url) => url_arguments(url),
        }
    }
}

} // verus!
