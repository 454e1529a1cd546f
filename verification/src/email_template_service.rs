//! E-mail templates: filling `{{key}}` placeholders with variables.
use vstd::prelude::*;
use std::collections::HashMap;

use crate::templates::{replace, replace_spec};
use crate::text::{chars_of, push_all, string_of};

verus! {

/// The placeholder of a template variable: `{{key}}`.
pub open spec fn placeholder(key: Seq<char>) -> Seq<char> {
    seq!['{', '{'] + key + seq!['}', '}']
}

/// The template with each variable's placeholder replaced by its value, the
/// variables taken in the given order.
pub open spec fn fill_variables(template: Seq<char>, vars: Seq<(Seq<char>, Seq<char>)>) -> Seq<
    char,
>
    decreases vars.len(),
{
    if vars.len() == 0 {
        template
    } else {
        replace_spec(
            fill_variables(template, vars.drop_last()),
            placeholder(vars.last().0),
            vars.last().1,
        )
    }
}

pub open spec fn pairs_view(vars: Seq<(String, String)>) -> Seq<(Seq<char>, Seq<char>)> {
    vars.map_values(|p: (String, String)| (p.0@, p.1@))
}

/// Fills the `{{key}}` placeholders of an e-mail template with the values
/// of the variables, one variable after the other in the given order (the
/// order in which the variable map is walked).
pub fn render_with_variables(template: &str, variables: &Vec<(String, String)>) -> (r: String)
    ensures
        r@ == fill_variables(template@, pairs_view(variables@)),
{
    let mut result = string_of(&chars_of(template));
    let mut i: usize = 0;
    while i < variables.len()
        invariant
            i <= variables.len(),
            result@ == fill_variables(template@, pairs_view(variables@).take(i as int)),
        decreases variables.len() - i,
    {
        let mut ph: Vec<char> = Vec::new();
        ph.push('{');
        ph.push('{');
        push_all(&mut ph, &chars_of(variables[i].0.as_str()));
        ph.push('}');
        ph.push('}');
        let placeholder_text = string_of(&ph);
        assert(placeholder_text@ =~= placeholder(variables@[i as int].0@));
        result = replace(result.as_str(), placeholder_text.as_str(), variables[i].1.as_str());
        assert(pairs_view(variables@).take(i + 1).drop_last() =~= pairs_view(variables@).take(
            i as int,
        ));
        i = i + 1;
    }
    assert(pairs_view(variables@).take(variables.len() as int) =~= pairs_view(variables@));
    result
}

/// Whether `order` lists every entry of `m` exactly once.
pub open spec fn lists_entries(order: Seq<(String, String)>, m: Map<String, String>) -> bool {
    &&& order.len() == m.len()
    &&& forall|i: int| 0 <= i < order.len() ==> m.contains_key(#[trigger] order[i].0) && m[order[i].0] == order[i].1
    &&& forall|i: int, j: int| 0 <= i < j < order.len() ==> order[i].0 != order[j].0
}

/// The entries of a `HashMap` in the order in which `iter` walks them: each
/// entry once. The order itself is not stated (it depends on the map's
/// hasher, which each process seeds).
#[verifier::external_body]
fn map_entries(m: &HashMap<String, String>) -> (r: Vec<(String, String)>)
    ensures
        lists_entries(r@, m@),
{
    m.iter().map(|(k, v)| (k.clone(), v.clone())).collect()
}

/// Fills the `{{key}}` placeholders of a template with the variables, one
/// variable after the other in the order in which the map is walked.
pub fn render_template(template: &str, variables: &HashMap<String, String>) -> (r: String)
    ensures
        exists|order: Seq<(String, String)>|
            lists_entries(order, variables@) && r@ == fill_variables(template@, pairs_view(order)),
{
    let order = map_entries(variables);
    render_with_variables(template, &order)
}

} // verus!
