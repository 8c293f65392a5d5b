use vstd::prelude::*;

use super::strings::{join, join_strings, views_of};

verus! {

/// Something that can report its own problems into a [`Validation`].
pub trait Validatable {
    /// Whether checking `self` under the breadcrumb trail `crumbs` may turn the collected
    /// errors `before` into `after`; a type that states nothing more only appends errors.
    open spec fn validation_outcome(
        &self,
        crumbs: Seq<Seq<char>>,
        before: Seq<Seq<char>>,
        after: Seq<Seq<char>>,
    ) -> bool {
        before.is_prefix_of(after)
    }

    /// Adds the problems of `self` to `result`. It only appends errors and leaves
    /// the breadcrumb trail as it found it.
    fn validate(&self, result: &mut Validation)
        ensures
            final(result).crumbs() == old(result).crumbs(),
            old(result).messages().is_prefix_of(final(result).messages()),
            self.validation_outcome(
                old(result).crumbs(),
                old(result).messages(),
                final(result).messages(),
            ),
    ;
}

/// A check of one field value, chosen by type.
pub trait Rule {
    type Value;

    /// Whether checking `value` for `field` under the breadcrumb trail `crumbs` may turn the
    /// collected errors `before` into `after`; a rule that states nothing more only appends
    /// errors.
    open spec fn rule_outcome(
        field: Seq<char>,
        value: Self::Value,
        crumbs: Seq<Seq<char>>,
        before: Seq<Seq<char>>,
        after: Seq<Seq<char>>,
    ) -> bool {
        before.is_prefix_of(after)
    }

    /// Adds the problems of `value`, reported under `field`, to `result`.
    fn validate(field: &str, value: &Self::Value, result: &mut Validation)
        ensures
            final(result).crumbs() == old(result).crumbs(),
            old(result).messages().is_prefix_of(final(result).messages()),
            Self::rule_outcome(
                field@,
                *value,
                old(result).crumbs(),
                old(result).messages(),
                final(result).messages(),
            ),
    ;
}

/// A check of one field value, for each value type it is implemented for.
pub trait RuleFor<Value> {
    /// Whether checking `value` for `field` under the breadcrumb trail `crumbs` may turn the
    /// collected errors `before` into `after`; a rule that states nothing more only appends
    /// errors.
    open spec fn rule_outcome(
        field: Seq<char>,
        value: Value,
        crumbs: Seq<Seq<char>>,
        before: Seq<Seq<char>>,
        after: Seq<Seq<char>>,
    ) -> bool {
        before.is_prefix_of(after)
    }

    /// Adds the problems of `value`, reported under `field`, to `result`.
    fn validate(field: &str, value: &Value, result: &mut Validation)
        ensures
            final(result).crumbs() == old(result).crumbs(),
            old(result).messages().is_prefix_of(final(result).messages()),
            Self::rule_outcome(
                field@,
                *value,
                old(result).crumbs(),
                old(result).messages(),
                final(result).messages(),
            ),
    ;
}

/// Popping a breadcrumb undoes pushing one: the trail is as it was before the push.
pub proof fn law_pop_undoes_push(crumbs: Seq<Seq<char>>, breadcrumb: Seq<char>)
    ensures
        crumbs.push(breadcrumb).len() != 0,
        crumbs.push(breadcrumb).drop_last() == crumbs,
{
    assert(crumbs.push(breadcrumb).drop_last() =~= crumbs);
}

/// Collects validation errors, each prefixed by the current breadcrumb trail.
pub struct Validation {
    breadcrumbs: Vec<String>,
    errors: Vec<String>,
}

/// The text of an error added with [`Validation::add_error`] under `crumbs`.
pub open spec fn error_text(crumbs: Seq<Seq<char>>, error: Seq<char>) -> Seq<char> {
    if crumbs.len() == 0 {
        error
    } else {
        join(crumbs, seq!['.']) + seq![':', ' '] + error
    }
}

/// The text of an error added with [`Validation::add_field_error`] under `crumbs`.
pub open spec fn field_error_text(crumbs: Seq<Seq<char>>, field: Seq<char>, error: Seq<char>) -> Seq<
    char,
> {
    join(crumbs, seq!['.']) + (if crumbs.len() == 0 {
        Seq::<char>::empty()
    } else {
        seq!['.']
    }) + field + seq![':', ' '] + error
}

impl Validation {
    /// The breadcrumb trail, innermost last.
    pub closed spec fn crumbs(&self) -> Seq<Seq<char>> {
        views_of(self.breadcrumbs@)
    }

    /// The errors collected so far, oldest first.
    pub closed spec fn messages(&self) -> Seq<Seq<char>> {
        views_of(self.errors@)
    }

    /// Runs the checks of `item` on a fresh validation: no breadcrumbs, and the errors that
    /// checking `item` adds to none.
    pub fn validate<T: Validatable>(item: &T) -> (out: Validation)
        ensures
            out.crumbs() == Seq::<Seq<char>>::empty(),
            item.validation_outcome(
                Seq::<Seq<char>>::empty(),
                Seq::<Seq<char>>::empty(),
                out.messages(),
            ),
    {
        let mut instance = Validation::new();
        item.validate(&mut instance);
        instance
    }

    /// An empty validation: no breadcrumbs and no errors.
    pub fn new() -> (out: Self)
        ensures
            out.crumbs() == Seq::<Seq<char>>::empty(),
            out.messages() == Seq::<Seq<char>>::empty(),
    {
        let out = Self { errors: Vec::new(), breadcrumbs: Vec::new() };
        proof {
            assert(out.crumbs() =~= Seq::<Seq<char>>::empty());
            assert(out.messages() =~= Seq::<Seq<char>>::empty());
        }
        out
    }

    /// Checks `value` with the rule `R` for its type.
    pub fn validate_rule_for<Value, R: RuleFor<Value>>(&mut self, field: &str, value: &Value)
        ensures
            final(self).crumbs() == old(self).crumbs(),
            old(self).messages().is_prefix_of(final(self).messages()),
            R::rule_outcome(
                field@,
                *value,
                old(self).crumbs(),
                old(self).messages(),
                final(self).messages(),
            ),
    {
        R::validate(field, value, self);
    }

    /// Checks `value` with the rule `R`.
    pub fn validate_rule<R: Rule>(&mut self, field: &str, value: &R::Value)
        ensures
            final(self).crumbs() == old(self).crumbs(),
            old(self).messages().is_prefix_of(final(self).messages()),
            R::rule_outcome(
                field@,
                *value,
                old(self).crumbs(),
                old(self).messages(),
                final(self).messages(),
            ),
    {
        R::validate(field, value, self);
    }

    /// Checks `item` with `breadcrumb` appended to the trail for the duration of the check.
    pub fn validate_child<T: Validatable>(&mut self, breadcrumb: &str, item: &T)
        ensures
            final(self).crumbs() == old(self).crumbs(),
            old(self).messages().is_prefix_of(final(self).messages()),
            item.validation_outcome(
                old(self).crumbs().push(breadcrumb@),
                old(self).messages(),
                final(self).messages(),
            ),
    {
        self.push_breadcrumb(breadcrumb);
        let ghost mid = self.messages();
        item.validate(self);
        self.pop_breadcrumb();
        proof {
            assert(old(self).crumbs().push(breadcrumb@).drop_last() =~= old(self).crumbs());
        }
    }

    /// Appends `prefix` to the breadcrumb trail.
    pub fn push_breadcrumb(&mut self, prefix: &str)
        ensures
            final(self).crumbs() == old(self).crumbs().push(prefix@),
            final(self).messages() == old(self).messages(),
    {
        self.breadcrumbs.push(prefix.to_owned());
        proof {
            assert(self.crumbs() =~= old(self).crumbs().push(prefix@));
        }
    }

    /// Removes the innermost breadcrumb, if there is one.
    pub fn pop_breadcrumb(&mut self)
        ensures
            final(self).crumbs() == (if old(self).crumbs().len() == 0 {
                old(self).crumbs()
            } else {
                old(self).crumbs().drop_last()
            }),
            final(self).messages() == old(self).messages(),
    {
        self.breadcrumbs.pop();
        proof {
            if old(self).crumbs().len() != 0 {
                assert(self.crumbs() =~= old(self).crumbs().drop_last());
            }
        }
    }

    /// Adds `error`, prefixed by the breadcrumb trail and ": " when the trail is not empty.
    pub fn add_error(&mut self, error: &str)
        ensures
            final(self).crumbs() == old(self).crumbs(),
            final(self).messages() == old(self).messages().push(error_text(old(self).crumbs(), error@)),
    {
        let text = if self.breadcrumbs.len() == 0 {
            error.to_owned()
        } else {
            let mut prefix = join_strings(&self.breadcrumbs, ".");
            prefix.append(": ");
            prefix.append(error);
            prefix
        };
        proof {
            reveal_strlit(".");
            reveal_strlit(": ");
            assert(".".view() =~= seq!['.']);
            assert(": ".view() =~= seq![':', ' ']);
            assert(text@ =~= error_text(old(self).crumbs(), error@));
        }
        self.errors.push(text);
        proof {
            assert(self.messages() =~= old(self).messages().push(error_text(old(self).crumbs(), error@)));
        }
    }

    /// Adds `error` for `field`, as "<trail>.<field>: <error>" (no trail and dot when the trail is empty).
    pub fn add_field_error(&mut self, field: &str, error: &str)
        ensures
            final(self).crumbs() == old(self).crumbs(),
            final(self).messages() == old(self).messages().push(
                field_error_text(old(self).crumbs(), field@, error@),
            ),
    {
        let mut text = join_strings(&self.breadcrumbs, ".");
        if self.breadcrumbs.len() != 0 {
            text.append(".");
        }
        text.append(field);
        text.append(": ");
        text.append(error);
        proof {
            reveal_strlit(".");
            reveal_strlit(": ");
            assert(".".view() =~= seq!['.']);
            assert(": ".view() =~= seq![':', ' ']);
            assert(text@ =~= field_error_text(old(self).crumbs(), field@, error@));
        }
        self.errors.push(text);
        proof {
            assert(self.messages() =~= old(self).messages().push(
                field_error_text(old(self).crumbs(), field@, error@),
            ));
        }
    }

    /// Whether no error has been collected.
    pub fn is_valid(&self) -> (out: bool)
        ensures
            out == (self.messages().len() == 0),
    {
        self.errors.len() == 0
    }

    /// The errors collected so far.
    pub fn errors(&self) -> (out: &Vec<String>)
        ensures
            views_of(out@) == self.messages(),
    {
        &self.errors
    }
}

} // verus!
