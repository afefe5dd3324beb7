//! Choice of the city that a run asks about.

use crate::text::{join_words, joined, texts};
use vstd::prelude::*;
use vstd::string::*;

verus! {

/// The city that a run asks about: the command-line words joined by single
/// spaces where there are any, else the stored default city.
pub open spec fn effective_city(args: Seq<Seq<char>>, default_city: Seq<char>) -> Seq<char> {
    if args.len() > 0 {
        joined(args)
    } else {
        default_city
    }
}

/// Returns the effective city for the command-line words `args` (the
/// program's name not among them) and the stored default city.
pub fn resolve_city(args: &Vec<String>, default_city: &str) -> (r: String)
    ensures
        r@ == effective_city(texts(args@), default_city@),
        args@.len() > 0 ==> r@ == joined(texts(args@)),
        args@.len() == 0 ==> r@ == default_city@,
{
    if args.len() > 0 {
        join_words(args)
    } else {
        String::from_str(default_city)
    }
}

} // verus!
