//! Rules, and the declarations that bind rules to a field.

use vstd::prelude::*;
use crate::email::email_shape;
use crate::text::is_substring;
use crate::validators::{
    bool_message, check_bool, contains, contains_message, email, email_message,
    incompatible_message, int_or_null, length, length_message, length_verdict, password,
    password_message, password_verdict, range, range_message, range_verdict, required,
    required_message, size, size_message, size_verdict, text_or_null, InnerValidationResult,
    LengthType, RangeType,
};
use crate::value::{Value, ValueView};

verus! {

/// Validation rules that a declaration can bind to a field.
#[derive(Clone, Copy, Debug)]
pub enum ValidatorRule {
    /// validates length of string
    Length(usize),
    /// validates maximum length of string
    MaxLength(usize),
    /// validates minimum length of string
    MinLength(usize),
    /// validates size of number
    Size(isize),
    /// validates maximum size of number
    MaxSize(isize),
    /// validates minimum size of number
    MinSize(isize),
    /// validates boolean value
    Bool,
    /// validates password with minimum length
    Password(usize),
    /// validates value is not null
    Required,
    /// validates email address
    Email,
    /// validates range of string length, both bounds excluded
    LengthRange((isize, isize)),
    /// validates range of int size, both bounds excluded
    SizeRange((isize, isize)),
    /// validates that string value contains another string
    Contains(&'static str),
}

/// The mathematical content of a [`ValidatorRule`].
pub enum RuleView {
    Length(nat),
    MaxLength(nat),
    MinLength(nat),
    Size(int),
    MaxSize(int),
    MinSize(int),
    Bool,
    Password(nat),
    Required,
    Email,
    LengthRange(int, int),
    SizeRange(int, int),
    Contains(Seq<char>),
}

impl View for ValidatorRule {
    type V = RuleView;

    open spec fn view(&self) -> RuleView {
        match *self {
            ValidatorRule::Length(n) => RuleView::Length(n as nat),
            ValidatorRule::MaxLength(n) => RuleView::MaxLength(n as nat),
            ValidatorRule::MinLength(n) => RuleView::MinLength(n as nat),
            ValidatorRule::Size(n) => RuleView::Size(n as int),
            ValidatorRule::MaxSize(n) => RuleView::MaxSize(n as int),
            ValidatorRule::MinSize(n) => RuleView::MinSize(n as int),
            ValidatorRule::Bool => RuleView::Bool,
            ValidatorRule::Password(n) => RuleView::Password(n as nat),
            ValidatorRule::Required => RuleView::Required,
            ValidatorRule::Email => RuleView::Email,
            ValidatorRule::LengthRange(bounds) => RuleView::LengthRange(
                bounds.0 as int,
                bounds.1 as int,
            ),
            ValidatorRule::SizeRange(bounds) => RuleView::SizeRange(
                bounds.0 as int,
                bounds.1 as int,
            ),
            ValidatorRule::Contains(sub) => RuleView::Contains(sub@),
        }
    }
}

/// Whether `value` passes `rule`.
///
/// Null passes no rule. A value of a type that the rule does not accept
/// passes no rule either.
pub open spec fn rule_verdict(rule: RuleView, value: ValueView) -> bool {
    match rule {
        RuleView::Length(n) => length_verdict(n, value, LengthType::Exact),
        RuleView::MaxLength(n) => length_verdict(n, value, LengthType::Max),
        RuleView::MinLength(n) => length_verdict(n, value, LengthType::Min),
        RuleView::Size(n) => size_verdict(n, value, LengthType::Exact),
        RuleView::MaxSize(n) => size_verdict(n, value, LengthType::Max),
        RuleView::MinSize(n) => size_verdict(n, value, LengthType::Min),
        RuleView::Bool => value == ValueView::Bool(true),
        RuleView::Password(n) => password_verdict(value, n),
        RuleView::Required => !(value is Null),
        RuleView::Email => value matches ValueView::Text(s) && email_shape(s),
        RuleView::LengthRange(min, max) => range_verdict(value, min, max, RangeType::Length),
        RuleView::SizeRange(min, max) => range_verdict(value, min, max, RangeType::Size),
        RuleView::Contains(sub) => value matches ValueView::Text(s) && is_substring(s, sub),
    }
}

/// Whether `rule` accepts the type of `value`. Every rule accepts null.
pub open spec fn rule_accepts(rule: RuleView, value: ValueView) -> bool {
    match rule {
        RuleView::Length(_) | RuleView::MaxLength(_) | RuleView::MinLength(_) => text_or_null(
            value,
        ),
        RuleView::Size(_) | RuleView::MaxSize(_) | RuleView::MinSize(_) => int_or_null(value),
        RuleView::Bool => value is Bool || value is Null,
        RuleView::Password(_) | RuleView::Email | RuleView::Contains(_) => text_or_null(value),
        RuleView::Required => true,
        RuleView::LengthRange(_, _) => text_or_null(value),
        RuleView::SizeRange(_, _) => int_or_null(value),
    }
}

/// The message of `rule` on `field`, written with the rule's parameters.
pub open spec fn rule_template(rule: RuleView, field: Seq<char>) -> Seq<char> {
    match rule {
        RuleView::Length(n) => length_message(field, n, LengthType::Exact),
        RuleView::MaxLength(n) => length_message(field, n, LengthType::Max),
        RuleView::MinLength(n) => length_message(field, n, LengthType::Min),
        RuleView::Size(n) => size_message(field, n, LengthType::Exact),
        RuleView::MaxSize(n) => size_message(field, n, LengthType::Max),
        RuleView::MinSize(n) => size_message(field, n, LengthType::Min),
        RuleView::Bool => bool_message(field),
        RuleView::Password(n) => password_message(field, n),
        RuleView::Required => required_message(field),
        RuleView::Email => email_message(field),
        RuleView::LengthRange(min, max) => range_message(field, min, max, RangeType::Length),
        RuleView::SizeRange(min, max) => range_message(field, min, max, RangeType::Size),
        RuleView::Contains(sub) => contains_message(field, sub),
    }
}

/// The message that `rule` itself gives for `value`: the rule's template
/// where the rule accepts the value's type, and the message for an
/// incompatible type where it does not.
pub open spec fn rule_message(rule: RuleView, field: Seq<char>, value: ValueView) -> Seq<char> {
    if rule_accepts(rule, value) {
        rule_template(rule, field)
    } else {
        incompatible_message(field)
    }
}

impl ValidatorRule {
    /// Checks `value`, the value of the field `field`, against this rule.
    pub fn check(&self, field: &str, value: Value) -> (r: InnerValidationResult)
        ensures
            r.0 == rule_verdict(self@, value@),
            r.1@ == rule_message(self@, field@, value@),
    {
        match self {
            ValidatorRule::Length(rule) => length(field, rule, value, LengthType::Exact),
            ValidatorRule::MaxLength(rule) => length(field, rule, value, LengthType::Max),
            ValidatorRule::MinLength(rule) => length(field, rule, value, LengthType::Min),
            ValidatorRule::Size(rule) => size(field, rule, value, LengthType::Exact),
            ValidatorRule::MaxSize(rule) => size(field, rule, value, LengthType::Max),
            ValidatorRule::MinSize(rule) => size(field, rule, value, LengthType::Min),
            ValidatorRule::Bool => check_bool(field, value),
            ValidatorRule::Password(min_len) => password(field, value, *min_len),
            ValidatorRule::Required => required(field, value),
            ValidatorRule::Email => email(field, value),
            ValidatorRule::LengthRange((min, max)) => range(
                field,
                value,
                min,
                max,
                RangeType::Length,
            ),
            ValidatorRule::SizeRange((min, max)) => range(field, value, min, max, RangeType::Size),
            ValidatorRule::Contains(rule) => contains(field, *rule, value),
        }
    }
}

/// The message that a caller may supply for a rule.
pub type ValidatorErrorType = Option<String>;

/// The characters of an optional text.
pub open spec fn optional_text(text: Option<String>) -> Option<Seq<char>> {
    match text {
        Some(s) => Some(s@),
        None => None,
    }
}

/// A rule together with the message to report in place of the rule's own.
#[derive(Debug)]
pub struct RuleType(ValidatorRule, ValidatorErrorType);

/// The mathematical content of a [`RuleType`].
pub struct BindingView {
    pub rule: RuleView,
    pub error: Option<Seq<char>>,
}

impl View for RuleType {
    type V = BindingView;

    closed spec fn view(&self) -> BindingView {
        BindingView { rule: self.0@, error: optional_text(self.1) }
    }
}

impl Clone for RuleType {
    fn clone(&self) -> (copy: RuleType)
        ensures
            copy@ == self@,
    {
        let error = match &self.1 {
            Some(message) => Some(message.clone()),
            None => None,
        };
        RuleType(self.0, error)
    }
}

impl RuleType {
    /// The rule.
    pub fn rule(&self) -> (rule: &ValidatorRule)
        ensures
            rule@ == self@.rule,
    {
        &self.0
    }

    /// The caller's message for the rule, if there is one.
    pub fn error(&self) -> (error: &ValidatorErrorType)
        ensures
            optional_text(*error) == self@.error,
    {
        &self.1
    }
}

/// The contents of a list of bindings.
pub open spec fn bindings_view(bindings: Seq<RuleType>) -> Seq<BindingView> {
    bindings.map_values(|b: RuleType| b@)
}

/// A field's name and the rules that its value has to pass, in the order in
/// which they were declared.
#[derive(Debug)]
pub struct RuleDeclaration {
    field: String,
    rules: Vec<RuleType>,
}

/// The mathematical content of a [`RuleDeclaration`].
pub struct DeclarationView {
    pub field: Seq<char>,
    pub rules: Seq<BindingView>,
}

impl View for RuleDeclaration {
    type V = DeclarationView;

    closed spec fn view(&self) -> DeclarationView {
        DeclarationView { field: self.field@, rules: bindings_view(self.rules@) }
    }
}

/// The contents of a list of declarations.
pub open spec fn declarations_view(declarations: Seq<RuleDeclaration>) -> Seq<DeclarationView> {
    declarations.map_values(|d: RuleDeclaration| d@)
}

impl Clone for RuleDeclaration {
    fn clone(&self) -> (copy: RuleDeclaration)
        ensures
            copy@ == self@,
    {
        let mut rules: Vec<RuleType> = Vec::new();
        let mut i: usize = 0;
        while i < self.rules.len()
            invariant
                i <= self.rules.len(),
                bindings_view(rules@) =~= bindings_view(self.rules@).take(i as int),
            decreases self.rules.len() - i,
        {
            let ghost copied = rules@;
            let binding = self.rules[i].clone();
            rules.push(binding);
            assert(bindings_view(rules@) =~= bindings_view(copied).push(self.rules@[i as int]@));
            i = i + 1;
        }
        assert(bindings_view(self.rules@).take(i as int) =~= bindings_view(self.rules@));
        RuleDeclaration { field: self.field.clone(), rules }
    }
}

impl RuleDeclaration {
    /// Creates a declaration for `field` with one rule.
    pub fn new(field: &str, rule: ValidatorRule, error: Option<&str>) -> (declaration:
        RuleDeclaration)
        ensures
            declaration@ == (DeclarationView {
                field: field@,
                rules: seq![
                    BindingView {
                        rule: rule@,
                        error: match error {
                            Some(e) => Some(e@),
                            None => None,
                        },
                    },
                ],
            }),
    {
        let err = RuleDeclaration::create_err(error);
        let mut rules: Vec<RuleType> = Vec::new();
        rules.push(RuleType(rule, err));
        let declaration = RuleDeclaration { field: String::from_str(field), rules };
        assert(declaration@.rules =~= seq![
            BindingView {
                rule: rule@,
                error: match error {
                    Some(e) => Some(e@),
                    None => None,
                },
            },
        ]);
        declaration
    }

    /// Adds a rule after the rules that the declaration holds.
    pub fn insert(&mut self, rule: ValidatorRule, error: Option<&str>)
        ensures
            final(self)@ == (DeclarationView {
                field: old(self)@.field,
                rules: old(self)@.rules.push(
                    BindingView {
                        rule: rule@,
                        error: match error {
                            Some(e) => Some(e@),
                            None => None,
                        },
                    },
                ),
            }),
    {
        let err = RuleDeclaration::create_err(error);
        self.rules.push(RuleType(rule, err));
        assert(final(self)@.rules =~= old(self)@.rules.push(
            BindingView {
                rule: rule@,
                error: match error {
                    Some(e) => Some(e@),
                    None => None,
                },
            },
        ));
    }

    /// An owned copy of an optional message.
    pub fn create_err(error: Option<&str>) -> (err: ValidatorErrorType)
        ensures
            optional_text(err) == match error {
                Some(e) => Some(e@),
                None => None,
            },
    {
        let mut err = None;
        if let Some(error) = error {
            err = Some(String::from_str(error));
        }
        return err
    }

    /// The declared field's name.
    pub fn field(&self) -> (field: &String)
        ensures
            field@ == self@.field,
    {
        &self.field
    }

    /// The rules, in the order in which they were declared.
    pub fn rules(&self) -> (rules: &Vec<RuleType>)
        ensures
            bindings_view(rules@) == self@.rules,
    {
        &self.rules
    }
}

} // verus!
