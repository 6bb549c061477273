//! What holds of every validation run.

use vstd::prelude::*;
use crate::outcome::{binding_errors, binding_message, expected_errors, field_errors, outcome};
use crate::rules::{
    rule_accepts, rule_message, rule_verdict, BindingView, DeclarationView, RuleView,
};
use crate::validator::{result_view, ValidationErrors};
use crate::validators::{incompatible_message, range_verdict, RangeType};
use crate::value::{Document, ValueView};

verus! {

/// Whether `value` fails `binding`.
pub open spec fn fails(binding: BindingView, value: ValueView) -> bool {
    !rule_verdict(binding.rule, value)
}

/// Whether the run checks the binding at position `r` of the declaration at
/// position `d`, and the binding fails: the input holds the declared field,
/// and the field's value does not pass the rule.
pub open spec fn fails_at(
    fields: Map<Seq<char>, ValueView>,
    declarations: Seq<DeclarationView>,
    d: int,
    r: int,
) -> bool {
    &&& 0 <= d < declarations.len()
    &&& 0 <= r < declarations[d].rules.len()
    &&& fields.contains_key(declarations[d].field)
    &&& fails(declarations[d].rules[r], fields[declarations[d].field])
}

/// Null passes no rule.
pub proof fn lemma_null_passes_no_rule(rule: RuleView)
    ensures
        !rule_verdict(rule, ValueView::Null),
{
}

/// A value of a type that the rule does not accept fails the rule, and the
/// rule's message for it says that the type is incompatible.
pub proof fn lemma_wrong_type_fails(rule: RuleView, field: Seq<char>, value: ValueView)
    requires
        !rule_accepts(rule, value),
    ensures
        !rule_verdict(rule, value),
        rule_message(rule, field, value) == incompatible_message(field),
{
}

/// A range whose bounds leave no room between them admits nothing: both
/// bounds are excluded.
pub proof fn lemma_range_without_room_admits_nothing(
    value: ValueView,
    min: int,
    max: int,
    range_type: RangeType,
)
    requires
        min + 1 >= max,
    ensures
        !range_verdict(value, min, max, range_type),
{
}

/// Two runs on the same input with the same declarations report the same:
/// the contract of a run leaves room for one outcome only.
pub proof fn lemma_runs_agree(
    fields: Map<Seq<char>, ValueView>,
    declarations: Seq<DeclarationView>,
    first: Result<(), ValidationErrors>,
    second: Result<(), ValidationErrors>,
)
    requires
        result_view(first) == outcome(fields, declarations),
        result_view(second) == outcome(fields, declarations),
    ensures
        result_view(first) == result_view(second),
        first is Ok <==> second is Ok,
{
}

/// A field that the input does not hold has no errors, whatever is declared
/// for it.
pub proof fn lemma_absent_field_has_no_errors(
    fields: Map<Seq<char>, ValueView>,
    declarations: Seq<DeclarationView>,
    field: Seq<char>,
)
    requires
        !fields.contains_key(field),
    ensures
        !expected_errors(fields, declarations).contains_key(field),
        outcome(fields, declarations) matches Err(errors) ==> !errors.contains_key(field),
{
}

/// An input that is no object passes, whatever is declared.
pub proof fn lemma_input_without_fields_passes(declarations: Seq<DeclarationView>)
    ensures
        outcome(Document::Other.fields(), declarations) is Ok,
        forall|field: Seq<char>|
            !(#[trigger] expected_errors(Document::Other.fields(), declarations).contains_key(
                field,
            )),
{
}

/// A single binding reports nothing if the value passes it, and exactly one
/// message if the value fails it: the caller's message if there is one, and
/// only then the rule's own.
pub proof fn lemma_one_binding_one_message(
    binding: BindingView,
    field: Seq<char>,
    value: ValueView,
)
    ensures
        !fails(binding, value) ==> binding_errors(seq![binding], field, value) == Seq::<
            Seq<char>,
        >::empty(),
        fails(binding, value) && binding.error is Some ==> binding_errors(
            seq![binding],
            field,
            value,
        ) == seq![binding.error->0],
        fails(binding, value) && binding.error is None ==> binding_errors(
            seq![binding],
            field,
            value,
        ) == seq![rule_message(binding.rule, field, value)],
{
    let one = seq![binding];
    assert(one.drop_last() =~= Seq::<BindingView>::empty());
    assert(binding_errors(one.drop_last(), field, value) =~= Seq::<Seq<char>>::empty());
}

/// The messages of a list of bindings are those of its first part followed by
/// those of its second part.
pub proof fn lemma_binding_errors_concat(
    first: Seq<BindingView>,
    second: Seq<BindingView>,
    field: Seq<char>,
    value: ValueView,
)
    ensures
        binding_errors(first + second, field, value) == binding_errors(first, field, value)
            + binding_errors(second, field, value),
    decreases second.len(),
{
    if second.len() > 0 {
        lemma_binding_errors_concat(first, second.drop_last(), field, value);
        assert((first + second).drop_last() =~= first + second.drop_last());
    }
}

/// The messages of a list of bindings are the messages of the bindings that
/// fail, one for each, in the order of the bindings.
pub proof fn lemma_binding_errors_are_the_failures(
    bindings: Seq<BindingView>,
    field: Seq<char>,
    value: ValueView,
)
    ensures
        binding_errors(bindings, field, value) == bindings.filter(
            |b: BindingView| fails(b, value),
        ).map_values(|b: BindingView| binding_message(b, field, value)),
    decreases bindings.len(),
{
    reveal(Seq::filter);
    if bindings.len() > 0 {
        lemma_binding_errors_are_the_failures(bindings.drop_last(), field, value);
    }
}

/// If a field has one declaration with two bindings and its value fails
/// both, the field has exactly two messages, in the order of the bindings.
pub proof fn lemma_two_failures_two_messages(
    fields: Map<Seq<char>, ValueView>,
    field: Seq<char>,
    first: BindingView,
    second: BindingView,
)
    requires
        fields.contains_key(field),
        fails(first, fields[field]),
        fails(second, fields[field]),
    ensures
        outcome(
            fields,
            seq![DeclarationView { field, rules: seq![first, second] }],
        ) matches Err(errors) && errors.contains_key(field) && errors[field] == seq![
            binding_message(first, field, fields[field]),
            binding_message(second, field, fields[field]),
        ],
{
    let value = fields[field];
    let declarations = seq![DeclarationView { field, rules: seq![first, second] }];
    lemma_one_binding_one_message(first, field, value);
    lemma_one_binding_one_message(second, field, value);
    lemma_binding_errors_concat(seq![first], seq![second], field, value);
    assert(seq![first] + seq![second] =~= seq![first, second]);
    assert(declarations.drop_last() =~= Seq::<DeclarationView>::empty());
    assert(field_errors(declarations.drop_last(), field, value) =~= Seq::<Seq<char>>::empty());
    assert(expected_errors(fields, declarations).dom().contains(field));
}

/// The message of a binding that the value fails is among the messages of the
/// list that holds the binding.
pub proof fn lemma_failing_binding_is_among_the_messages(
    bindings: Seq<BindingView>,
    field: Seq<char>,
    value: ValueView,
    r: int,
)
    requires
        0 <= r < bindings.len(),
        fails(bindings[r], value),
    ensures
        binding_errors(bindings, field, value).contains(
            binding_message(bindings[r], field, value),
        ),
    decreases bindings.len(),
{
    let message = binding_message(bindings[r], field, value);
    let earlier = binding_errors(bindings.drop_last(), field, value);
    let all = binding_errors(bindings, field, value);
    if r == bindings.len() - 1 {
        assert(all[earlier.len() as int] == message);
    } else {
        lemma_failing_binding_is_among_the_messages(bindings.drop_last(), field, value, r);
        let i = choose|i: int| 0 <= i < earlier.len() && earlier[i] == message;
        assert(all[i] == message);
    }
}

/// Every binding that a run checks and that fails is reported: the run
/// fails, and the binding's message is among the messages of its field.
pub proof fn lemma_failed_binding_is_reported(
    fields: Map<Seq<char>, ValueView>,
    declarations: Seq<DeclarationView>,
    d: int,
    r: int,
)
    requires
        fails_at(fields, declarations, d, r),
    ensures
        outcome(fields, declarations) matches Err(errors) && errors.contains_key(
            declarations[d].field,
        ) && errors[declarations[d].field].contains(
            binding_message(
                declarations[d].rules[r],
                declarations[d].field,
                fields[declarations[d].field],
            ),
        ),
{
    let field = declarations[d].field;
    lemma_failing_binding_is_among_the_field_messages(declarations, field, fields[field], d, r);
    assert(expected_errors(fields, declarations).dom().contains(field));
}

proof fn lemma_failing_binding_is_among_the_field_messages(
    declarations: Seq<DeclarationView>,
    field: Seq<char>,
    value: ValueView,
    d: int,
    r: int,
)
    requires
        0 <= d < declarations.len(),
        declarations[d].field == field,
        0 <= r < declarations[d].rules.len(),
        fails(declarations[d].rules[r], value),
    ensures
        field_errors(declarations, field, value).contains(
            binding_message(declarations[d].rules[r], field, value),
        ),
    decreases declarations.len(),
{
    let message = binding_message(declarations[d].rules[r], field, value);
    let earlier = field_errors(declarations.drop_last(), field, value);
    let all = field_errors(declarations, field, value);
    if d == declarations.len() - 1 {
        let last = binding_errors(declarations[d].rules, field, value);
        lemma_failing_binding_is_among_the_messages(declarations[d].rules, field, value, r);
        let i = choose|i: int| 0 <= i < last.len() && last[i] == message;
        assert(all[earlier.len() + i] == message);
    } else {
        lemma_failing_binding_is_among_the_field_messages(
            declarations.drop_last(),
            field,
            value,
            d,
            r,
        );
        let i = choose|i: int| 0 <= i < earlier.len() && earlier[i] == message;
        assert(all[i] == message);
    }
}

/// A list of bindings reports a message exactly if the value fails one of
/// them.
pub proof fn lemma_bindings_report_iff_one_fails(
    bindings: Seq<BindingView>,
    field: Seq<char>,
    value: ValueView,
)
    ensures
        binding_errors(bindings, field, value).len() > 0 <==> exists|r: int|
            0 <= r < bindings.len() && fails(#[trigger] bindings[r], value),
    decreases bindings.len(),
{
    if bindings.len() > 0 {
        let earlier = bindings.drop_last();
        lemma_bindings_report_iff_one_fails(earlier, field, value);
        if binding_errors(earlier, field, value).len() > 0 {
            let r = choose|r: int| 0 <= r < earlier.len() && fails(#[trigger] earlier[r], value);
            assert(fails(bindings[r], value));
        }
        if exists|r: int| 0 <= r < bindings.len() && fails(#[trigger] bindings[r], value) {
            let r = choose|r: int| 0 <= r < bindings.len() && fails(#[trigger] bindings[r], value);
            if r < earlier.len() {
                assert(fails(earlier[r], value));
            }
        }
    }
}

/// A field of the input has a message exactly if its value fails a binding
/// of a declaration that names the field.
pub proof fn lemma_field_reports_iff_one_fails(
    declarations: Seq<DeclarationView>,
    field: Seq<char>,
    value: ValueView,
)
    ensures
        field_errors(declarations, field, value).len() > 0 <==> exists|d: int, r: int|
            0 <= d < declarations.len() && declarations[d].field == field && 0 <= r
                < declarations[d].rules.len() && fails(
                #[trigger] declarations[d].rules[r],
                value,
            ),
    decreases declarations.len(),
{
    if declarations.len() > 0 {
        let earlier = declarations.drop_last();
        let last = declarations.last();
        lemma_field_reports_iff_one_fails(earlier, field, value);
        lemma_bindings_report_iff_one_fails(last.rules, field, value);
        if field_errors(declarations, field, value).len() > 0 {
            if field_errors(earlier, field, value).len() > 0 {
                let (d, r) = choose|d: int, r: int|
                    0 <= d < earlier.len() && earlier[d].field == field && 0 <= r
                        < earlier[d].rules.len() && fails(#[trigger] earlier[d].rules[r], value);
                assert(fails(declarations[d].rules[r], value));
            } else {
                let r = choose|r: int|
                    0 <= r < last.rules.len() && fails(#[trigger] last.rules[r], value);
                assert(fails(declarations[declarations.len() - 1].rules[r], value));
            }
        }
        if exists|d: int, r: int|
            0 <= d < declarations.len() && declarations[d].field == field && 0 <= r
                < declarations[d].rules.len() && fails(
                #[trigger] declarations[d].rules[r],
                value,
            ) {
            let (d, r) = choose|d: int, r: int|
                0 <= d < declarations.len() && declarations[d].field == field && 0 <= r
                    < declarations[d].rules.len() && fails(
                    #[trigger] declarations[d].rules[r],
                    value,
                );
            if d < earlier.len() {
                assert(fails(earlier[d].rules[r], value));
            } else {
                assert(fails(last.rules[r], value));
            }
        }
    }
}

/// A run fails exactly if some binding that it checks fails: a binding of a
/// declaration whose field the input holds. A binding declared for a field
/// that the input does not hold is not checked.
pub proof fn lemma_run_fails_iff_a_binding_fails(
    fields: Map<Seq<char>, ValueView>,
    declarations: Seq<DeclarationView>,
)
    ensures
        outcome(fields, declarations) is Err <==> exists|d: int, r: int|
            fails_at(fields, declarations, d, r),
{
    let errors = expected_errors(fields, declarations);
    if outcome(fields, declarations) is Err {
        let field = choose|field: Seq<char>| errors.dom().contains(field);
        lemma_field_reports_iff_one_fails(declarations, field, fields[field]);
        let (d, r) = choose|d: int, r: int|
            0 <= d < declarations.len() && declarations[d].field == field && 0 <= r
                < declarations[d].rules.len() && fails(
                #[trigger] declarations[d].rules[r],
                fields[field],
            );
        assert(fails_at(fields, declarations, d, r));
    }
    if exists|d: int, r: int| fails_at(fields, declarations, d, r) {
        let (d, r) = choose|d: int, r: int| fails_at(fields, declarations, d, r);
        let field = declarations[d].field;
        lemma_field_reports_iff_one_fails(declarations, field, fields[field]);
        assert(errors.dom().contains(field));
    }
}

} // verus!
