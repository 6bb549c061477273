//! The validator: a record, its declarations, and the run that checks one
//! against the other.

use vstd::prelude::*;
use crate::field_map::FieldMap;
use crate::outcome::{binding_errors, expected_errors, field_errors, outcome};
use crate::rules::{
    bindings_view, declarations_view, optional_text, DeclarationView, RuleDeclaration,
    ValidatorErrorType,
};
use crate::validators::InnerValidationResult;
use crate::value::{Document, Value, ValueView};

verus! {

/// The messages of the rules that failed, listed under the name of the field
/// that failed them.
pub type ValidationErrors = FieldMap<Vec<String>>;

/// The characters of each text of a list.
pub open spec fn messages(list: Seq<String>) -> Seq<Seq<char>> {
    list.map_values(|s: String| s@)
}

/// The contents of the errors of a run: for each field that has any, its
/// messages in the order in which the rules were checked.
pub open spec fn errors_view(errors: ValidationErrors) -> Map<Seq<char>, Seq<Seq<char>>> {
    errors.map().map_values(|list: Vec<String>| messages(list@))
}

/// The contents of the result of a run.
pub open spec fn result_view(res: Result<(), ValidationErrors>) -> Result<
    (),
    Map<Seq<char>, Seq<Seq<char>>>,
> {
    match res {
        Ok(()) => Ok(()),
        Err(errors) => Err(errors_view(errors)),
    }
}

/// A validator: the input to check and the declarations to check it against.
pub struct FreeVal<'a> {
    pub data: &'a Document,
    pub declarations: Vec<RuleDeclaration>,
}

/// The errors of the fields at the first `k` positions of `names`.
spec fn errors_so_far(
    names: Seq<Seq<char>>,
    fields: Map<Seq<char>, ValueView>,
    declarations: Seq<DeclarationView>,
    k: int,
) -> Map<Seq<char>, Seq<Seq<char>>> {
    Map::new(
        |field: Seq<char>|
            names.take(k).contains(field) && field_errors(declarations, field, fields[field]).len()
                > 0,
        |field: Seq<char>| field_errors(declarations, field, fields[field]),
    )
}

impl<'a> FreeVal<'a> {
    /// A validator for `data` with the given declarations.
    pub fn new(data: &'a Document, declarations: Vec<RuleDeclaration>) -> (validator: FreeVal<'a>)
        ensures
            validator.data == data,
            validator.declarations == declarations,
    {
        FreeVal { data, declarations }
    }

    /// Checks every field of the input against every rule declared for it.
    ///
    /// Returns `Ok` exactly if no rule failed. Otherwise the error holds, for
    /// each field that failed a rule, one message per failed rule, in the
    /// order of the declarations and of their rules. A field that the input
    /// does not hold is not checked. An input that is no object has no fields.
    pub fn validate(&self) -> (res: Result<(), ValidationErrors>)
        ensures
            result_view(res) == outcome(self.data.fields(), declarations_view(self.declarations@)),
    {
        let mut result_errs: ValidationErrors = FieldMap::new();
        let ghost fields = self.data.fields();
        let ghost declared = declarations_view(self.declarations@);
        if let Document::Object(map) = self.data {
            let count: usize = map.len();
            let ghost names = map.names();
            let mut k: usize = 0;
            // iterate over the fields of the input...
            while k < count
                invariant
                    k <= count,
                    count == names.len(),
                    names == map.names(),
                    map.wf(),
                    fields == map.map().map_values(|v: Value| v@),
                    declared == declarations_view(self.declarations@),
                    errors_view(result_errs) =~= errors_so_far(names, fields, declared, k as int),
                decreases count - k,
            {
                let key = map.name_at(k);
                let value = map.value_at(k);
                let mut errs: Vec<String> = Vec::new();
                let mut d: usize = 0;
                // ...then over the declarations, to find those of the field...
                while d < self.declarations.len()
                    invariant
                        d <= self.declarations.len(),
                        declared == declarations_view(self.declarations@),
                        messages(errs@) =~= field_errors(declared.take(d as int), key@, value@),
                    decreases self.declarations.len() - d,
                {
                    let decl = &self.declarations[d];
                    assert(declared.take(d + 1).drop_last() =~= declared.take(d as int));
                    if *decl.field() == *key {
                        let rules = decl.rules();
                        let ghost bindings = bindings_view(rules@);
                        let ghost earlier = messages(errs@);
                        let mut r: usize = 0;
                        // ...then over the rules of the declaration.
                        while r < rules.len()
                            invariant
                                r <= rules.len(),
                                bindings == bindings_view(rules@),
                                messages(errs@) =~= earlier + binding_errors(
                                    bindings.take(r as int),
                                    key@,
                                    value@,
                                ),
                            decreases rules.len() - r,
                        {
                            let rule_type = &rules[r];
                            let rule = rule_type.rule();
                            let error = rule_type.error();
                            let val = value.clone();
                            assert(bindings.take(r + 1).drop_last() =~= bindings.take(r as int));
                            let InnerValidationResult(status, default_err) = rule.check(
                                key.as_str(),
                                val,
                            );
                            if !status {
                                errs = self.add_error(error, default_err, &errs);
                            }
                            r = r + 1;
                        }
                        assert(bindings.take(r as int) =~= bindings);
                    }
                    d = d + 1;
                }
                assert(declared.take(d as int) =~= declared);
                let ghost found = messages(errs@);
                let ghost before = errors_view(result_errs);
                proof {
                    // The names checked so far, with `key` added, are those up to `k`.
                    let done = names.take(k as int);
                    let next = names.take(k + 1);
                    assert forall|f: Seq<char>|
                        next.contains(f) <==> (done.contains(f) || f == key@) by {
                        if next.contains(f) {
                            let j = choose|j: int| 0 <= j < next.len() && next[j] == f;
                        }
                        if done.contains(f) {
                            let j = choose|j: int| 0 <= j < done.len() && done[j] == f;
                        }
                        if f == key@ {
                            assert(next[k as int] == f);
                        }
                    }
                }
                if errs.len() > 0 {
                    result_errs.insert(key.clone(), errs);
                    assert(errors_view(result_errs) =~= before.insert(key@, found));
                }
                k = k + 1;
            }
            assert(names.take(k as int) =~= names);
            assert(errors_so_far(names, fields, declared, k as int) =~= expected_errors(
                fields,
                declared,
            ));
        }
        if !result_errs.is_empty() {
            proof {
                let name = result_errs.names()[0];
                assert(errors_view(result_errs).contains_key(name));
            }
            return Err(result_errs);
        }
        Ok(())
    }

    /// Adds the message of one failed rule to `error_list`: the caller's
    /// message `defined_err` where there is one, `default_err` where there is
    /// none. Returns the new list.
    pub fn add_error(
        &self,
        defined_err: &ValidatorErrorType,
        default_err: String,
        error_list: &Vec<String>,
    ) -> (errors: Vec<String>)
        ensures
            messages(errors@) == messages(error_list@).push(
                match optional_text(*defined_err) {
                    Some(custom) => custom,
                    None => default_err@,
                },
            ),
    {
        let mut error = default_err;
        if let Some(err) = defined_err {
            error = err.clone();
        }
        let mut errors: Vec<String> = Vec::new();
        let mut i: usize = 0;
        while i < error_list.len()
            invariant
                i <= error_list.len(),
                messages(errors@) =~= messages(error_list@).take(i as int),
            decreases error_list.len() - i,
        {
            let ghost copied = errors@;
            let item = error_list[i].clone();
            errors.push(item);
            assert(messages(errors@) =~= messages(copied).push(error_list@[i as int]@));
            i = i + 1;
        }
        errors.push(error);
        assert(messages(error_list@).take(i as int) =~= messages(error_list@));
        errors
    }
}

} // verus!
