//! What a validation run reports, stated over the contents of a record and of
//! its declarations.

use vstd::prelude::*;
use crate::rules::{rule_message, rule_verdict, BindingView, DeclarationView};
use crate::value::ValueView;

verus! {

/// The message that a failing binding reports: the caller's message where one
/// was supplied, and the rule's own message where none was.
pub open spec fn binding_message(binding: BindingView, field: Seq<char>, value: ValueView) -> Seq<
    char,
> {
    match binding.error {
        Some(custom) => custom,
        None => rule_message(binding.rule, field, value),
    }
}

/// The messages of the bindings that `value` fails, in the order of the
/// bindings: one message for each failing binding, none for a passing one.
pub open spec fn binding_errors(bindings: Seq<BindingView>, field: Seq<char>, value: ValueView) -> Seq<
    Seq<char>,
>
    decreases bindings.len(),
{
    if bindings.len() == 0 {
        Seq::empty()
    } else {
        let earlier = binding_errors(bindings.drop_last(), field, value);
        let last = bindings.last();
        if rule_verdict(last.rule, value) {
            earlier
        } else {
            earlier.push(binding_message(last, field, value))
        }
    }
}

/// The messages for one field of the record: those of every declaration that
/// names the field, declaration after declaration.
pub open spec fn field_errors(
    declarations: Seq<DeclarationView>,
    field: Seq<char>,
    value: ValueView,
) -> Seq<Seq<char>>
    decreases declarations.len(),
{
    if declarations.len() == 0 {
        Seq::empty()
    } else {
        let earlier = field_errors(declarations.drop_last(), field, value);
        let last = declarations.last();
        if last.field == field {
            earlier + binding_errors(last.rules, field, value)
        } else {
            earlier
        }
    }
}

/// The messages of a whole run, field by field. A field has an entry exactly
/// if the record holds it and its value fails a binding declared for it.
pub open spec fn expected_errors(
    fields: Map<Seq<char>, ValueView>,
    declarations: Seq<DeclarationView>,
) -> Map<Seq<char>, Seq<Seq<char>>> {
    Map::new(
        |field: Seq<char>|
            fields.contains_key(field) && field_errors(declarations, field, fields[field]).len()
                > 0,
        |field: Seq<char>| field_errors(declarations, field, fields[field]),
    )
}

/// What a run reports: success if no field has a message, and the messages
/// field by field otherwise.
pub open spec fn outcome(fields: Map<Seq<char>, ValueView>, declarations: Seq<DeclarationView>) -> Result<
    (),
    Map<Seq<char>, Seq<Seq<char>>>,
> {
    let errors = expected_errors(fields, declarations);
    if errors.dom().is_empty() {
        Ok(())
    } else {
        Err(errors)
    }
}

} // verus!
