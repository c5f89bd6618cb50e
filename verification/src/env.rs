//! Environment variables, as a list of names and values.
use vstd::prelude::*;

use crate::http::{given, pairs};
use crate::text::same;

verus! {

/// The value of a variable: that of the first entry with the name.
pub open spec fn var(vars: Seq<(Seq<char>, Seq<char>)>, name: Seq<char>) -> Option<Seq<char>>
    decreases vars.len(),
{
    if vars.len() == 0 {
        None
    } else if vars[0].0 == name {
        Some(vars[0].1)
    } else {
        var(vars.drop_first(), name)
    }
}

/// The value of a variable, or the given one.
pub open spec fn var_or(
    vars: Seq<(Seq<char>, Seq<char>)>,
    name: Seq<char>,
    otherwise: Seq<char>,
) -> Seq<char> {
    match var(vars, name) {
        Some(value) => value,
        None => otherwise,
    }
}

/// Looks up a variable.
pub fn get_var(vars: &Vec<(String, String)>, name: &str) -> (r: Option<String>)
    ensures
        given(r) == var(pairs(vars@), name@),
{
    let ghost all = pairs(vars@);
    let mut i: usize = 0;
    assert(all.skip(0) =~= all);
    while i < vars.len()
        invariant
            i <= vars@.len(),
            all == pairs(vars@),
            var(all, name@) == var(all.skip(i as int), name@),
        decreases vars@.len() - i,
    {
        assert(all.skip(i as int)[0] == all[i as int]);
        if same(vars[i].0.as_str(), name) {
            return Some(vars[i].1.clone());
        }
        assert(all.skip(i as int).drop_first() =~= all.skip(i + 1));
        i = i + 1;
    }
    None
}

/// Looks up a variable, with a value for where it is not set.
pub fn get_var_or(vars: &Vec<(String, String)>, name: &str, otherwise: &str) -> (r: String)
    ensures
        r@ == var_or(pairs(vars@), name@, otherwise@),
{
    match get_var(vars, name) {
        Some(value) => value,
        None => otherwise.to_owned(),
    }
}

// ---- Laws ----------------------------------------------------------------------------------

/// A variable has the value of the first entry with its name; one that no entry names has the
/// value for that case.
pub proof fn first_variable_counts(
    vars: Seq<(Seq<char>, Seq<char>)>,
    name: Seq<char>,
    otherwise: Seq<char>,
    i: int,
)
    requires
        0 <= i <= vars.len(),
        i < vars.len() ==> vars[i].0 == name,
        forall|j: int| 0 <= j < i ==> (#[trigger] vars[j]).0 != name,
    ensures
        var_or(vars, name, otherwise) == if i < vars.len() {
            vars[i].1
        } else {
            otherwise
        },
    decreases vars.len(),
{
    if vars.len() > 0 && vars[0].0 != name {
        let rest = vars.drop_first();
        assert forall|j: int| 0 <= j < i - 1 implies (#[trigger] rest[j]).0 != name by {
            assert(rest[j] == vars[j + 1]);
        }
        first_variable_counts(rest, name, otherwise, i - 1);
    }
}

/// A variable that is set anew has the new value, and every other variable stays as it was.
pub proof fn variables_are_apart(
    vars: Seq<(Seq<char>, Seq<char>)>,
    name: Seq<char>,
    value: Seq<char>,
    other: Seq<char>,
    otherwise: Seq<char>,
)
    ensures
        var_or(seq![(name, value)] + vars, name, otherwise) == value,
        other != name ==> var_or(seq![(name, value)] + vars, other, otherwise) == var_or(
            vars,
            other,
            otherwise,
        ),
{
    let more = seq![(name, value)] + vars;
    assert(more[0] == (name, value));
    assert(more.drop_first() =~= vars);
}

} // verus!
