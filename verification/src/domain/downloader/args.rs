//! Building command lines as vectors of strings.

use vstd::prelude::*;

use crate::text::string_views;

verus! {

/// No arguments.
pub open spec fn no_args() -> Seq<Seq<char>> {
    Seq::empty()
}

/// `flag` when `on`, else nothing.
pub open spec fn flag_if(on: bool, flag: Seq<char>) -> Seq<Seq<char>> {
    if on {
        seq![flag]
    } else {
        no_args()
    }
}

/// `flag value` when `value` is not empty, else nothing.
pub open spec fn pair_if_nonempty(flag: Seq<char>, value: Seq<char>) -> Seq<Seq<char>> {
    if value.len() > 0 {
        seq![flag, value]
    } else {
        no_args()
    }
}

/// `flag value` when `value` is present and not empty, else nothing.
pub open spec fn pair_if_set(flag: Seq<char>, value: Option<String>) -> Seq<Seq<char>> {
    match value {
        Some(v) => pair_if_nonempty(flag, v@),
        None => no_args(),
    }
}

/// Appends a literal argument.
pub fn push_arg(args: &mut Vec<String>, s: &str)
    ensures
        string_views(final(args)@) == string_views(old(args)@).push(s@),
{
    let ghost before = args@;
    args.push(String::from_str(s));
    assert(string_views(args@) =~= string_views(before).push(s@));
}

/// Appends an argument.
pub fn push_string(args: &mut Vec<String>, s: String)
    ensures
        string_views(final(args)@) == string_views(old(args)@).push(s@),
{
    let ghost before = args@;
    let ghost v = s@;
    args.push(s);
    assert(string_views(args@) =~= string_views(before).push(v));
}

/// Appends `flag` when `on`.
pub fn push_flag_if(args: &mut Vec<String>, on: bool, flag: &str)
    ensures
        string_views(final(args)@) == string_views(old(args)@) + flag_if(on, flag@),
{
    if on {
        push_arg(args, flag);
    }
    assert(string_views(args@) =~= string_views(old(args)@) + flag_if(on, flag@));
}

/// Appends `flag value` when `value` is not empty.
pub fn push_pair_if_nonempty(args: &mut Vec<String>, flag: &str, value: &String)
    ensures
        string_views(final(args)@) == string_views(old(args)@) + pair_if_nonempty(flag@, value@),
{
    if !value.as_str().is_empty() {
        push_arg(args, flag);
        push_string(args, value.clone());
    }
    assert(string_views(args@) =~= string_views(old(args)@) + pair_if_nonempty(flag@, value@));
}

/// Appends `flag value` when `value` is present and not empty.
pub fn push_pair_if_set(args: &mut Vec<String>, flag: &str, value: &Option<String>)
    ensures
        string_views(final(args)@) == string_views(old(args)@) + pair_if_set(flag@, *value),
{
    match value {
        Some(v) => push_pair_if_nonempty(args, flag, v),
        None => {
            assert(string_views(args@) =~= string_views(old(args)@) + pair_if_set(flag@, *value));
        },
    }
}

} // verus!
