//! A builder for `WHERE` clauses whose filters are optional.
//!
//! Query code offers every filter it knows, each with the value to bind and
//! with a condition that says whether the caller supplied it. The builder keeps
//! the accepted filters in order and numbers their parameters only when the
//! clause is built, so that a skipped filter leaves no gap: the first accepted
//! fragment names `$1`, the second `$2`, whatever was skipped between them.

use crate::sql::placeholder::{
    join, lemma_join_push, positional, positional_token, renumber, substitute,
};
use vstd::prelude::*;

verus! {

/// The mathematical model of a [`WhereBuilder`]: the accepted fragment
/// templates and the values bound to them, both in the order of acceptance.
pub struct WhereBuilderView<T> {
    pub fragments: Seq<Seq<char>>,
    pub params: Seq<T>,
}

impl<T> WhereBuilderView<T> {
    /// A builder that has accepted nothing.
    pub open spec fn empty() -> WhereBuilderView<T> {
        WhereBuilderView { fragments: Seq::empty(), params: Seq::empty() }
    }

    /// Each fragment has its value.
    pub open spec fn aligned(self) -> bool {
        self.fragments.len() == self.params.len()
    }

    /// Accepts the fragment and its value where the condition holds, and
    /// changes nothing where it does not.
    pub open spec fn add_param_opt(
        self,
        template: Seq<char>,
        value: T,
        condition: bool,
    ) -> WhereBuilderView<T> {
        if condition {
            WhereBuilderView {
                fragments: self.fragments.push(template),
                params: self.params.push(value),
            }
        } else {
            self
        }
    }

    /// The accepted fragment at position `i`, counted from zero, with its
    /// marker renumbered: it names the parameter `i + 1`.
    pub open spec fn rewritten(self, i: int) -> Seq<char> {
        substitute(self.fragments[i], positional_token((i + 1) as nat))
    }

    /// The first `n` fragments, renumbered.
    pub open spec fn rewritten_prefix(self, n: int) -> Seq<Seq<char>> {
        Seq::new(n as nat, |i: int| self.rewritten(i))
    }

    /// The clause: the renumbered fragments joined by ` AND `, and the empty
    /// string where nothing was accepted.
    pub open spec fn clause(self) -> Seq<char> {
        join(self.rewritten_prefix(self.fragments.len() as int), " AND "@)
    }
}

/// Collects the filters of a query that apply and builds the clause and the
/// parameter list from them.
pub struct WhereBuilder<T> {
    templates: Vec<String>,
    params: Vec<T>,
}

impl<T> View for WhereBuilder<T> {
    type V = WhereBuilderView<T>;

    closed spec fn view(&self) -> WhereBuilderView<T> {
        WhereBuilderView {
            fragments: self.templates@.map_values(|template: String| template@),
            params: self.params@,
        }
    }
}

impl<T> WhereBuilder<T> {
    #[verifier::type_invariant]
    spec fn one_value_per_fragment(self) -> bool {
        self.templates@.len() == self.params@.len()
    }

    /// A builder that has accepted nothing.
    pub fn new() -> (builder: WhereBuilder<T>)
        ensures
            builder@ == WhereBuilderView::<T>::empty(),
    {
        let builder = WhereBuilder { templates: Vec::new(), params: Vec::new() };
        proof {
            assert(builder@.fragments == Seq::<Seq<char>>::empty());
        }
        builder
    }

    /// Offers a filter. Where `condition` holds the fragment is accepted and
    /// `value` is bound to it; where it does not, both are dropped and the
    /// builder stays as it was.
    pub fn add_param_opt(self, template: &str, value: T, condition: bool) -> (next: Self)
        ensures
            next@ == self@.add_param_opt(template@, value, condition),
            next@.aligned(),
    {
        proof {
            use_type_invariant(&self);
        }
        if condition {
            let ghost before = self@;
            let mut templates = self.templates;
            let mut params = self.params;
            templates.push(template.to_owned());
            params.push(value);
            let next = WhereBuilder { templates, params };
            proof {
                assert(next@.fragments == before.fragments.push(template@));
            }
            next
        } else {
            self
        }
    }

    /// Builds the clause and hands out the bound values. The fragments are
    /// joined by ` AND ` in the order of acceptance, and the marker of the
    /// fragment at position `i` becomes `$` and the number `i + 1`. The values
    /// come in the same order, so that the token `$n` names the `n`th of them.
    /// With nothing accepted the clause is the empty string.
    pub fn build(self) -> (built: (String, Vec<T>))
        ensures
            built.0@ == self@.clause(),
            built.1@ == self@.params,
            built.1@.len() == self@.fragments.len(),
    {
        proof {
            use_type_invariant(&self);
        }
        let ghost model = self@;
        let templates = self.templates;
        let params = self.params;
        let mut clause = String::new();
        let mut i: usize = 0;
        proof {
            assert(model.rewritten_prefix(0) == Seq::<Seq<char>>::empty());
        }
        while i < templates.len()
            invariant
                i <= templates@.len(),
                model.fragments == templates@.map_values(|template: String| template@),
                clause@ == join(model.rewritten_prefix(i as int), " AND "@),
            decreases templates@.len() - i,
        {
            if i > 0 {
                clause.append(" AND ");
            }
            let token = positional(i + 1);
            let fragment = renumber(templates[i].as_str(), token.as_str());
            clause.append(fragment.as_str());
            proof {
                let done = model.rewritten_prefix(i as int);
                assert(fragment@ == model.rewritten(i as int));
                assert(done.push(fragment@) == model.rewritten_prefix(i + 1));
                lemma_join_push(done, fragment@, " AND "@);
            }
            i = i + 1;
        }
        (clause, params)
    }
}

/// With nothing accepted the clause is the empty string and no value is
/// bound.
pub proof fn lemma_nothing_accepted<T>()
    ensures
        WhereBuilderView::<T>::empty().clause() == Seq::<char>::empty(),
        WhereBuilderView::<T>::empty().params == Seq::<T>::empty(),
{
    assert(WhereBuilderView::<T>::empty().rewritten_prefix(0) == Seq::<Seq<char>>::empty());
}

/// A filter whose condition fails leaves the builder as it was, whatever
/// its fragment and value are.
pub proof fn lemma_skipped_filter<T>(builder: WhereBuilderView<T>, template: Seq<char>, value: T)
    ensures
        builder.add_param_opt(template, value, false) == builder,
{
}

/// An accepted filter goes to the end: its value is the last one, its
/// fragment is numbered by its position among the accepted ones, and the
/// fragments before it keep their place and number. The clause grows by ` AND `
/// and the new fragment, or is the new fragment where it is the first.
pub proof fn lemma_accepted_filter<T>(builder: WhereBuilderView<T>, template: Seq<char>, value: T)
    ensures
        ({
            let next = builder.add_param_opt(template, value, true);
            let fragment = substitute(
                template,
                positional_token((builder.fragments.len() + 1) as nat),
            );
            &&& next.fragments == builder.fragments.push(template)
            &&& next.params == builder.params.push(value)
            &&& builder.aligned() ==> next.aligned()
            &&& forall|i: int| 0 <= i < builder.fragments.len() ==> next.rewritten(i)
                == builder.rewritten(i)
            &&& next.clause() == if builder.fragments.len() == 0 {
                fragment
            } else {
                builder.clause() + " AND "@ + fragment
            }
        }),
{
    let next = builder.add_param_opt(template, value, true);
    let n = builder.fragments.len() as int;
    assert(next.rewritten_prefix(n + 1) == builder.rewritten_prefix(n).push(next.rewritten(n)));
    lemma_join_push(builder.rewritten_prefix(n), next.rewritten(n), " AND "@);
}

/// Of three filters offered with the conditions true, false and true, the
/// first and the third make the clause. They name the parameters 1 and 2, not
/// 1 and 3, and the two values come in the order in which they were offered.
pub proof fn lemma_skipped_filter_leaves_no_gap<T>(
    first: Seq<char>,
    first_value: T,
    second: Seq<char>,
    second_value: T,
    third: Seq<char>,
    third_value: T,
)
    ensures
        ({
            let built = WhereBuilderView::<T>::empty().add_param_opt(
                first,
                first_value,
                true,
            ).add_param_opt(second, second_value, false).add_param_opt(third, third_value, true);
            &&& built.clause() == substitute(first, positional_token(1)) + " AND "@ + substitute(
                third,
                positional_token(2),
            )
            &&& built.params == seq![first_value, third_value]
        }),
{
    let start = WhereBuilderView::<T>::empty();
    let one = start.add_param_opt(first, first_value, true);
    lemma_accepted_filter(start, first, first_value);
    lemma_accepted_filter(one, third, third_value);
    assert(one.params.push(third_value) == seq![first_value, third_value]);
}

} // verus!
