//! Templates: texts in which `{name}` stands for the input of that name.

use crate::dict::Dict;
use crate::numerics::Halt;
use crate::numerics::HaltModel;
use crate::numerics::NumericFact;
use crate::numerics::NumericFacts;
use crate::render::display_text;
use crate::render::display_value;
use crate::render::text_result;
use crate::text::append;
use crate::text::contains;
use crate::text::find;
use crate::text::from_chars;
use crate::text::replace_all;
use crate::text::replaced;
use crate::text::to_chars;
use crate::value::Fields;
use crate::value::Value;
use vstd::prelude::*;

verus! {

/// The placeholder for the input `name`: the name in braces.
pub open spec fn placeholder(name: Seq<char>) -> Seq<char> {
    seq!['{'] + name + seq!['}']
}

/// `text` with the placeholders of the inputs from position `from` on filled
/// in, one input after the other in the order of the inputs: every
/// placeholder of the input is replaced by the form in which a template shows
/// the input's value. An input whose placeholder does not stand in the text
/// is passed over, and its value is not looked at.
pub open spec fn filled(
    text: Seq<char>,
    inputs: Fields,
    from: int,
    known: Seq<NumericFact>,
) -> Result<Seq<char>, HaltModel>
    decreases inputs.len() - from,
{
    if from < 0 || from >= inputs.len() {
        Ok(text)
    } else if contains(text, placeholder(inputs[from].0)) {
        match display_text(inputs[from].1, known) {
            Ok(shown) => filled(
                replaced(text, placeholder(inputs[from].0), shown),
                inputs,
                from + 1,
                known,
            ),
            Err(h) => Err(h),
        }
    } else {
        filled(text, inputs, from + 1, known)
    }
}

/// A text in which the placeholder of no input stands is left as it is,
/// whatever else stands in it in braces: the name of a variable of the flow
/// is no input, so its placeholder stays.
pub proof fn text_without_placeholders_stays(
    text: Seq<char>,
    inputs: Fields,
    from: int,
    known: Seq<NumericFact>,
)
    requires
        forall|i: int| from <= i < inputs.len() && 0 <= i ==> !contains(text, placeholder(inputs[i].0)),
    ensures
        filled(text, inputs, from, known) == Ok::<Seq<char>, HaltModel>(text),
    decreases inputs.len() - from,
{
    if 0 <= from < inputs.len() {
        text_without_placeholders_stays(text, inputs, from + 1, known);
    }
}

fn placeholder_chars(name: &str) -> (r: Vec<char>)
    ensures
        r@ == placeholder(name@),
{
    let mut r: Vec<char> = vec!['{'];
    assert(r@ =~= seq!['{']);
    append(&mut r, &to_chars(name));
    r.push('}');
    assert(r@ =~= placeholder(name@));
    r
}

/// The template with the placeholders of the inputs filled in.
pub fn fill_template(template: &str, inputs: &Dict<Value>, facts: &NumericFacts) -> (r: Result<
    String,
    Halt,
>)
    ensures
        text_result(r) == filled(template@, inputs@, 0, facts@),
{
    let mut text = to_chars(template);
    let n = inputs.len();
    let mut i: usize = 0;
    while i < n
        invariant
            i <= n,
            n == inputs@.len(),
            filled(template@, inputs@, 0, facts@) == filled(text@, inputs@, i as int, facts@),
        decreases n - i,
    {
        let e = inputs.entry(i);
        let mark = placeholder_chars(e.key.as_str());
        if find(&text, &mark).is_some() {
            match display_value(&e.value, facts) {
                Ok(shown) => {
                    text = replace_all(&text, &mark, &to_chars(shown.as_str()));
                },
                Err(h) => {
                    return Err(h);
                },
            }
        }
        i += 1;
    }
    Ok(from_chars(&text))
}

} // verus!
