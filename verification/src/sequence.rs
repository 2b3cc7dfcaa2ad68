//! Sequence vocabulary shared by the contracts: first match, checked mapping and checked folding.

use vstd::prelude::*;

verus! {

/// The value of an outcome: what it holds, taken by its view.
pub open spec fn outcome<T: DeepView, E: DeepView>(r: Result<T, E>) -> Result<T::V, E::V> {
    match r {
        Ok(value) => Ok(value.deep_view()),
        Err(error) => Err(error.deep_view()),
    }
}

/// The values of outcomes.
pub open spec fn outcomes<T: DeepView, E: DeepView>(s: Seq<Result<T, E>>) -> Seq<
    Result<T::V, E::V>,
> {
    Seq::new(s.len(), |i: int| outcome(s[i]))
}

/// The first element that satisfies `p`.
pub open spec fn find_first<A>(s: Seq<A>, p: spec_fn(A) -> bool) -> Option<A>
    decreases s.len(),
{
    if s.len() == 0 {
        None
    } else {
        match find_first(s.drop_last(), p) {
            Some(a) => Some(a),
            None => if p(s.last()) {
                Some(s.last())
            } else {
                None
            },
        }
    }
}

/// The position of the first element that satisfies `p`.
pub open spec fn first_position<A>(s: Seq<A>, p: spec_fn(A) -> bool) -> Option<int>
    decreases s.len(),
{
    if s.len() == 0 {
        None
    } else {
        match first_position(s.drop_last(), p) {
            Some(i) => Some(i),
            None => if p(s.last()) {
                Some(s.len() - 1)
            } else {
                None
            },
        }
    }
}

/// Whether some element satisfies `p`.
pub open spec fn any<A>(s: Seq<A>, p: spec_fn(A) -> bool) -> bool {
    exists|i: int| 0 <= i < s.len() && p(#[trigger] s[i])
}

/// How many elements satisfy `p`.
pub open spec fn count<A>(s: Seq<A>, p: spec_fn(A) -> bool) -> nat
    decreases s.len(),
{
    if s.len() == 0 {
        0
    } else {
        count(s.drop_last(), p) + (if p(s.last()) {
            1nat
        } else {
            0nat
        })
    }
}

/// How many parts of the elements satisfy `p`.
pub open spec fn nested_count<D, A>(
    s: Seq<D>,
    parts: spec_fn(D) -> Seq<A>,
    p: spec_fn(A) -> bool,
) -> nat
    decreases s.len(),
{
    if s.len() == 0 {
        0
    } else {
        nested_count(s.drop_last(), parts, p) + count(parts(s.last()), p)
    }
}

/// How many parts the elements have.
pub open spec fn nested_len<D, A>(s: Seq<D>, parts: spec_fn(D) -> Seq<A>) -> nat
    decreases s.len(),
{
    if s.len() == 0 {
        0
    } else {
        nested_len(s.drop_last(), parts) + parts(s.last()).len()
    }
}

pub proof fn lemma_count_step<A>(s: Seq<A>, p: spec_fn(A) -> bool, i: int)
    requires
        0 <= i < s.len(),
    ensures
        count(s.take(i + 1), p) == count(s.take(i), p) + (if p(s[i]) {
            1nat
        } else {
            0nat
        }),
{
    assert(s.take(i + 1).drop_last() =~= s.take(i));
}

pub proof fn lemma_nested_count_step<D, A>(
    s: Seq<D>,
    parts: spec_fn(D) -> Seq<A>,
    p: spec_fn(A) -> bool,
    i: int,
)
    requires
        0 <= i < s.len(),
    ensures
        nested_count(s.take(i + 1), parts, p) == nested_count(s.take(i), parts, p) + count(
            parts(s[i]),
            p,
        ),
{
    assert(s.take(i + 1).drop_last() =~= s.take(i));
}

pub proof fn lemma_nested_len_step<D, A>(s: Seq<D>, parts: spec_fn(D) -> Seq<A>, i: int)
    requires
        0 <= i < s.len(),
    ensures
        nested_len(s.take(i + 1), parts) == nested_len(s.take(i), parts) + parts(s[i]).len(),
{
    assert(s.take(i + 1).drop_last() =~= s.take(i));
}

/// A prefix has no more parts than the whole.
pub proof fn lemma_nested_len_prefix<D, A>(s: Seq<D>, parts: spec_fn(D) -> Seq<A>, i: int)
    requires
        0 <= i <= s.len(),
    ensures
        nested_len(s.take(i), parts) <= nested_len(s, parts),
    decreases s.len() - i,
{
    if i < s.len() {
        lemma_nested_len_step(s, parts, i);
        lemma_nested_len_prefix(s, parts, i + 1);
    } else {
        assert(s.take(i) =~= s);
    }
}

/// Maps every element, or stops at the first one that fails.
pub open spec fn try_map<A, B, E>(s: Seq<A>, f: spec_fn(A) -> Result<B, E>) -> Result<Seq<B>, E>
    decreases s.len(),
{
    if s.len() == 0 {
        Ok(Seq::empty())
    } else {
        match try_map(s.drop_last(), f) {
            Err(e) => Err(e),
            Ok(done) => match f(s.last()) {
                Err(e) => Err(e),
                Ok(b) => Ok(done.push(b)),
            },
        }
    }
}

/// Folds the elements from the left, or stops at the first step that fails.
pub open spec fn try_fold<A, S, E>(
    s: Seq<A>,
    init: S,
    step: spec_fn(S, A) -> Result<S, E>,
) -> Result<S, E>
    decreases s.len(),
{
    if s.len() == 0 {
        Ok(init)
    } else {
        match try_fold(s.drop_last(), init, step) {
            Err(e) => Err(e),
            Ok(state) => step(state, s.last()),
        }
    }
}

/// The sum of the elements.
pub open spec fn sum(s: Seq<usize>) -> nat
    decreases s.len(),
{
    if s.len() == 0 {
        0
    } else {
        sum(s.drop_last()) + s.last() as nat
    }
}

/// The sum of what `f` gives for the elements.
pub open spec fn total<A>(s: Seq<A>, f: spec_fn(A) -> nat) -> nat
    decreases s.len(),
{
    if s.len() == 0 {
        0
    } else {
        total(s.drop_last(), f) + f(s.last())
    }
}

pub proof fn lemma_total_step<A>(s: Seq<A>, f: spec_fn(A) -> nat, i: int)
    requires
        0 <= i < s.len(),
    ensures
        total(s.take(i + 1), f) == total(s.take(i), f) + f(s[i]),
{
    assert(s.take(i + 1).drop_last() =~= s.take(i));
}

/// A prefix sums to no more than the whole.
pub proof fn lemma_total_prefix<A>(s: Seq<A>, f: spec_fn(A) -> nat, i: int)
    requires
        0 <= i <= s.len(),
    ensures
        total(s.take(i), f) <= total(s, f),
    decreases s.len() - i,
{
    if i < s.len() {
        lemma_total_step(s, f, i);
        lemma_total_prefix(s, f, i + 1);
    } else {
        assert(s.take(i) =~= s);
    }
}

/// `try_map` splits at any position.
pub proof fn lemma_try_map_step<A, B, E>(s: Seq<A>, f: spec_fn(A) -> Result<B, E>, i: int)
    requires
        0 <= i < s.len(),
    ensures
        try_map(s.take(i + 1), f) == (match try_map(s.take(i), f) {
            Err(e) => Err::<Seq<B>, E>(e),
            Ok(done) => match f(s[i]) {
                Err(e) => Err(e),
                Ok(b) => Ok(done.push(b)),
            },
        }),
{
    assert(s.take(i + 1).drop_last() =~= s.take(i));
}

/// A failure of a prefix is the failure of the whole.
pub proof fn lemma_try_map_error<A, B, E>(s: Seq<A>, f: spec_fn(A) -> Result<B, E>, i: int)
    requires
        0 <= i <= s.len(),
        try_map(s.take(i), f) is Err,
    ensures
        try_map(s, f) == try_map(s.take(i), f),
    decreases s.len() - i,
{
    if i < s.len() {
        lemma_try_map_step(s, f, i);
        lemma_try_map_error(s, f, i + 1);
    } else {
        assert(s.take(i) =~= s);
    }
}

/// A successful `try_map` gives one result per element.
pub proof fn lemma_try_map_ok<A, B, E>(s: Seq<A>, f: spec_fn(A) -> Result<B, E>)
    requires
        try_map(s, f) is Ok,
    ensures
        try_map(s, f)->Ok_0.len() == s.len(),
        forall|i: int|
            0 <= i < s.len() ==> f(#[trigger] s[i]) == Ok::<B, E>(try_map(s, f)->Ok_0[i]),
    decreases s.len(),
{
    if s.len() > 0 {
        lemma_try_map_ok(s.drop_last(), f);
        let done = try_map(s.drop_last(), f)->Ok_0;
        assert forall|i: int| 0 <= i < s.len() implies f(#[trigger] s[i]) == Ok::<B, E>(
            try_map(s, f)->Ok_0[i],
        ) by {
            if i < s.len() - 1 {
                assert(s.drop_last()[i] == s[i]);
            }
        }
    }
}

pub proof fn lemma_try_fold_step<A, S, E>(
    s: Seq<A>,
    init: S,
    step: spec_fn(S, A) -> Result<S, E>,
    i: int,
)
    requires
        0 <= i < s.len(),
    ensures
        try_fold(s.take(i + 1), init, step) == (match try_fold(s.take(i), init, step) {
            Err(e) => Err::<S, E>(e),
            Ok(state) => step(state, s[i]),
        }),
{
    assert(s.take(i + 1).drop_last() =~= s.take(i));
}

/// A failure of a prefix is the failure of the whole.
pub proof fn lemma_try_fold_error<A, S, E>(
    s: Seq<A>,
    init: S,
    step: spec_fn(S, A) -> Result<S, E>,
    i: int,
)
    requires
        0 <= i <= s.len(),
        try_fold(s.take(i), init, step) is Err,
    ensures
        try_fold(s, init, step) == try_fold(s.take(i), init, step),
    decreases s.len() - i,
{
    if i < s.len() {
        lemma_try_fold_step(s, init, step, i);
        lemma_try_fold_error(s, init, step, i + 1);
    } else {
        assert(s.take(i) =~= s);
    }
}

/// The last element for which `p` holds.
pub open spec fn find_last<A>(s: Seq<A>, p: spec_fn(A) -> bool) -> Option<A>
    decreases s.len(),
{
    if s.len() == 0 {
        None
    } else if p(s.last()) {
        Some(s.last())
    } else {
        find_last(s.drop_last(), p)
    }
}

/// An element with no match behind it is the last match.
pub proof fn lemma_find_last_at<A>(s: Seq<A>, p: spec_fn(A) -> bool, i: int)
    requires
        0 <= i < s.len(),
        p(s[i]),
        forall|j: int| i < j < s.len() ==> !p(#[trigger] s[j]),
    ensures
        find_last(s, p) == Some(s[i]),
    decreases s.len(),
{
    if i < s.len() - 1 {
        assert(!p(s[s.len() - 1]));
        lemma_find_last_at(s.drop_last(), p, i);
    }
}

/// Without a match there is no last match.
pub proof fn lemma_find_last_none<A>(s: Seq<A>, p: spec_fn(A) -> bool)
    requires
        forall|j: int| 0 <= j < s.len() ==> !p(#[trigger] s[j]),
    ensures
        find_last(s, p) is None,
    decreases s.len(),
{
    if s.len() > 0 {
        assert(!p(s[s.len() - 1]));
        lemma_find_last_none(s.drop_last(), p);
    }
}

/// What `find_last` gives is an element that satisfies the predicate.
pub proof fn lemma_find_last_some<A>(s: Seq<A>, p: spec_fn(A) -> bool) -> (i: int)
    requires
        find_last(s, p) is Some,
    ensures
        0 <= i < s.len(),
        find_last(s, p) == Some(s[i]),
        p(s[i]),
        forall|j: int| i < j < s.len() ==> !p(#[trigger] s[j]),
    decreases s.len(),
{
    if p(s.last()) {
        s.len() - 1
    } else {
        let i = lemma_find_last_some(s.drop_last(), p);
        assert forall|j: int| i < j < s.len() implies !p(#[trigger] s[j]) by {
            if j < s.len() - 1 {
                assert(s.drop_last()[j] == s[j]);
            }
        }
        i
    }
}

/// Every prefix of a fold that succeeds succeeds.
pub proof fn lemma_try_fold_prefix<A, S, E>(
    s: Seq<A>,
    init: S,
    step: spec_fn(S, A) -> Result<S, E>,
    i: int,
)
    requires
        0 <= i <= s.len(),
        try_fold(s, init, step) is Ok,
    ensures
        try_fold(s.take(i), init, step) is Ok,
{
    if try_fold(s.take(i), init, step) is Err {
        lemma_try_fold_error(s, init, step, i);
    }
}

/// What a prefix finds, the whole finds.
pub proof fn lemma_find_first_found<A>(s: Seq<A>, p: spec_fn(A) -> bool, i: int)
    requires
        0 <= i <= s.len(),
        find_first(s.take(i), p) is Some,
    ensures
        find_first(s, p) == find_first(s.take(i), p),
    decreases s.len() - i,
{
    if i < s.len() {
        assert(s.take(i + 1).drop_last() =~= s.take(i));
        lemma_find_first_found(s, p, i + 1);
    } else {
        assert(s.take(i) =~= s);
    }
}

/// `find_first` in terms of positions.
pub proof fn lemma_find_first_at<A>(s: Seq<A>, p: spec_fn(A) -> bool, i: int)
    requires
        0 <= i < s.len(),
        p(s[i]),
        forall|j: int| 0 <= j < i ==> !p(#[trigger] s[j]),
    ensures
        find_first(s, p) == Some(s[i]),
        first_position(s, p) == Some(i),
    decreases s.len(),
{
    if i == s.len() - 1 {
        lemma_find_first_none(s.drop_last(), p);
    } else {
        lemma_find_first_at(s.drop_last(), p, i);
    }
}

pub proof fn lemma_find_first_none<A>(s: Seq<A>, p: spec_fn(A) -> bool)
    requires
        forall|j: int| 0 <= j < s.len() ==> !p(#[trigger] s[j]),
    ensures
        find_first(s, p) is None,
        first_position(s, p) is None,
    decreases s.len(),
{
    if s.len() > 0 {
        assert forall|j: int| 0 <= j < s.drop_last().len() implies !p(
            #[trigger] s.drop_last()[j],
        ) by {
            assert(s.drop_last()[j] == s[j]);
        }
        lemma_find_first_none(s.drop_last(), p);
    }
}

/// What `find_first` gives is an element that satisfies the predicate.
pub proof fn lemma_find_first_some<A>(s: Seq<A>, p: spec_fn(A) -> bool) -> (i: int)
    requires
        find_first(s, p) is Some,
    ensures
        0 <= i < s.len(),
        find_first(s, p) == Some(s[i]),
        first_position(s, p) == Some(i),
        p(s[i]),
        forall|j: int| 0 <= j < i ==> !p(#[trigger] s[j]),
    decreases s.len(),
{
    if find_first(s.drop_last(), p) is Some {
        let i = lemma_find_first_some(s.drop_last(), p);
        assert forall|j: int| 0 <= j < i implies !p(#[trigger] s[j]) by {
            assert(s.drop_last()[j] == s[j]);
        }
        i
    } else {
        lemma_find_none_all(s.drop_last(), p);
        assert forall|j: int| 0 <= j < s.len() - 1 implies !p(#[trigger] s[j]) by {
            assert(s.drop_last()[j] == s[j]);
        }
        s.len() - 1
    }
}

pub proof fn lemma_find_none_all<A>(s: Seq<A>, p: spec_fn(A) -> bool)
    requires
        find_first(s, p) is None,
    ensures
        first_position(s, p) is None,
        forall|j: int| 0 <= j < s.len() ==> !p(#[trigger] s[j]),
    decreases s.len(),
{
    if s.len() > 0 {
        lemma_find_none_all(s.drop_last(), p);
        assert forall|j: int| 0 <= j < s.len() implies !p(#[trigger] s[j]) by {
            if j < s.len() - 1 {
                assert(s.drop_last()[j] == s[j]);
            }
        }
    }
}

pub proof fn lemma_filter_step<A>(s: Seq<A>, p: spec_fn(A) -> bool, i: int)
    requires
        0 <= i < s.len(),
    ensures
        s.take(i + 1).filter(p) == (if p(s[i]) {
            s.take(i).filter(p).push(s[i])
        } else {
            s.take(i).filter(p)
        }),
{
    reveal(Seq::filter);
    assert(s.take(i + 1).drop_last() =~= s.take(i));
}

pub proof fn lemma_sum_step(s: Seq<usize>, i: int)
    requires
        0 <= i < s.len(),
    ensures
        sum(s.take(i + 1)) == sum(s.take(i)) + s[i],
{
    assert(s.take(i + 1).drop_last() =~= s.take(i));
}

/// A prefix sums to no more than the whole.
pub proof fn lemma_sum_prefix(s: Seq<usize>, i: int)
    requires
        0 <= i <= s.len(),
    ensures
        sum(s.take(i)) <= sum(s),
    decreases s.len() - i,
{
    if i < s.len() {
        lemma_sum_step(s, i);
        lemma_sum_prefix(s, i + 1);
    } else {
        assert(s.take(i) =~= s);
    }
}

/// Whether `v` holds the text `x`.
pub fn contains_text(v: &Vec<String>, x: &str) -> (r: bool)
    ensures
        r == v.deep_view().contains(x@),
{
    let mut i: usize = 0;
    while i < v.len()
        invariant
            i <= v.len(),
            forall|j: int| 0 <= j < i ==> v.deep_view()[j] != x@,
        decreases v.len() - i,
    {
        if crate::text::same(v[i].as_str(), x) {
            assert(v.deep_view()[i as int] == x@);
            return true;
        }
        i += 1;
    }
    false
}

/// Equality of number lists.
pub fn same_numbers(a: &Vec<usize>, b: &Vec<usize>) -> (r: bool)
    ensures
        r == (a@ == b@),
{
    if a.len() != b.len() {
        return false;
    }
    let mut i: usize = 0;
    while i < a.len()
        invariant
            a.len() == b.len(),
            i <= a.len(),
            forall|j: int| 0 <= j < i ==> a@[j] == b@[j],
        decreases a.len() - i,
    {
        if a[i] != b[i] {
            return false;
        }
        i += 1;
    }
    assert(a@ =~= b@);
    true
}

/// Equality of text lists.
pub fn same_texts(a: &Vec<String>, b: &Vec<String>) -> (r: bool)
    ensures
        r == (a.deep_view() == b.deep_view()),
{
    if a.len() != b.len() {
        assert(a.deep_view().len() != b.deep_view().len());
        return false;
    }
    let mut i: usize = 0;
    while i < a.len()
        invariant
            a.len() == b.len(),
            i <= a.len(),
            forall|j: int| 0 <= j < i ==> a.deep_view()[j] == b.deep_view()[j],
        decreases a.len() - i,
    {
        if a[i] != b[i] {
            assert(a.deep_view()[i as int] != b.deep_view()[i as int]);
            return false;
        }
        i += 1;
    }
    assert(a.deep_view() =~= b.deep_view());
    true
}

/// A copy of a list of texts.
pub fn copy_texts(source: &[String]) -> (r: Vec<String>)
    ensures
        r.deep_view() == source.deep_view(),
{
    let mut copy: Vec<String> = Vec::new();
    let mut i: usize = 0;
    while i < source.len()
        invariant
            i <= source.len(),
            copy@.len() == i,
            forall|j: int| 0 <= j < i ==> copy.deep_view()[j] == source.deep_view()[j],
        decreases source.len() - i,
    {
        copy.push(source[i].clone());
        assert(copy.deep_view()[i as int] == source.deep_view()[i as int]);
        i += 1;
    }
    assert(copy.deep_view() =~= source.deep_view());
    copy
}

/// The first position is one that satisfies the predicate.
pub proof fn lemma_first_position<A>(s: Seq<A>, p: spec_fn(A) -> bool)
    ensures
        first_position(s, p) matches Some(i) ==> 0 <= i < s.len() && p(s[i]),
        first_position(s, p) is None ==> forall|j: int| 0 <= j < s.len() ==> !p(#[trigger] s[j]),
    decreases s.len(),
{
    if s.len() > 0 {
        let front = s.drop_last();
        lemma_first_position(front, p);
        assert forall|j: int| first_position(s, p) is None && 0 <= j < s.len() implies !p(
            #[trigger] s[j],
        ) by {
            if j < front.len() {
                assert(front[j] == s[j]);
            }
        }
    }
}

/// The positions below `n`.
pub open spec fn positions(n: nat) -> Seq<int> {
    Seq::new(n, |i: int| i)
}

/// What `f` gives for the elements, one after the other.
pub open spec fn joined<A, B>(s: Seq<A>, f: spec_fn(A) -> Seq<B>) -> Seq<B>
    decreases s.len(),
{
    if s.len() == 0 {
        Seq::empty()
    } else {
        joined(s.drop_last(), f) + f(s.last())
    }
}

pub proof fn lemma_joined_step<A, B>(s: Seq<A>, f: spec_fn(A) -> Seq<B>, i: int)
    requires
        0 <= i < s.len(),
    ensures
        joined(s.take(i + 1), f) == joined(s.take(i), f) + f(s[i]),
{
    assert(s.take(i + 1).drop_last() =~= s.take(i));
}

/// An outcome as it is.
pub open spec fn as_is<T, E>() -> spec_fn(Result<T, E>) -> Result<T, E> {
    |answer: Result<T, E>| answer
}

/// All the values, or the first failure.
#[verifier::loop_isolation(false)]
pub fn collected<T: DeepView, E: DeepView>(answers: Vec<Result<T, E>>) -> (r: Result<Vec<T>, E>)
    ensures
        outcome(r) == try_map(outcomes(answers@), as_is()),
{
    let ghost given = answers@;
    let ghost all = outcomes(given);
    let ghost step = as_is::<T::V, E::V>();
    let mut out: Vec<T> = Vec::new();
    assert(all.take(0) =~= Seq::empty());
    assert(out.deep_view() =~= Seq::empty());
    for answer in it: answers
        invariant
            it.seq() == given,
            try_map(all.take(it.index() as int), step) is Ok,
            try_map(all.take(it.index() as int), step)->Ok_0 == out.deep_view(),
    {
        let ghost i = it.index() as int;
        proof {
            assert(answer == given[i]);
            assert(all[i] == outcome(given[i]));
            lemma_try_map_step(all, step, i);
            if try_map(all.take(i + 1), step) is Err {
                lemma_try_map_error(all, step, i + 1);
            }
        }
        match answer {
            Err(error) => {
                return Err(error);
            },
            Ok(value) => {
                let ghost before = out.deep_view();
                let ghost added = value.deep_view();
                out.push(value);
                assert(out.deep_view() =~= before.push(added));
            },
        }
    }
    assert(all.take(all.len() as int) =~= all);
    Ok(out)
}

/// Puts the elements of a list behind those of another.
pub fn append<T: DeepView>(list: &mut Vec<T>, more: Vec<T>)
    ensures
        final(list).deep_view() == old(list).deep_view() + more.deep_view(),
{
    let ghost front = list.deep_view();
    let ghost back = more.deep_view();
    let mut rest: Vec<T> = more;
    list.append(&mut rest);
    assert(list.deep_view() =~= front + back);
}

/// What is kept was given.
pub proof fn lemma_kept_is_given<A>(s: Seq<A>, p: spec_fn(A) -> bool, k: int)
    requires
        0 <= k < s.filter(p).len(),
    ensures
        exists|i: int| 0 <= i < s.len() && s[i] == s.filter(p)[k],
    decreases s.len(),
{
    reveal(Seq::filter);
    if s.len() > 0 {
        let front = s.drop_last();
        if k < front.filter(p).len() {
            lemma_kept_is_given(front, p, k);
            let i = choose|i: int| 0 <= i < front.len() && front[i] == front.filter(p)[k];
            assert(s[i] == s.filter(p)[k]);
        } else {
            assert(s[s.len() - 1] == s.filter(p)[k]);
        }
    }
}

/// Where no last element matches, none does.
pub proof fn lemma_find_last_none_all<A>(s: Seq<A>, p: spec_fn(A) -> bool)
    requires
        find_last(s, p) is None,
    ensures
        forall|i: int| 0 <= i < s.len() ==> !p(#[trigger] s[i]),
    decreases s.len(),
{
    if s.len() > 0 {
        lemma_find_last_none_all(s.drop_last(), p);
        assert forall|i: int| 0 <= i < s.len() implies !p(#[trigger] s[i]) by {
            if i < s.len() - 1 {
                assert(s.drop_last()[i] == s[i]);
            }
        }
    }
}

/// Mapping succeeds where it does so for every element.
pub proof fn lemma_try_map_succeeds<A, B, E>(s: Seq<A>, f: spec_fn(A) -> Result<B, E>)
    requires
        forall|i: int| 0 <= i < s.len() ==> f(#[trigger] s[i]) is Ok,
    ensures
        try_map(s, f) is Ok,
    decreases s.len(),
{
    if s.len() > 0 {
        assert forall|i: int| 0 <= i < s.drop_last().len() implies f(
            #[trigger] s.drop_last()[i],
        ) is Ok by {
            assert(f(s[i]) is Ok);
        }
        lemma_try_map_succeeds(s.drop_last(), f);
        assert(f(s[s.len() - 1]) is Ok);
    }
}

/// What `f` gives for an element is among what it gives for all of them.
pub proof fn lemma_joined_holds<A, B>(s: Seq<A>, f: spec_fn(A) -> Seq<B>, i: int, k: int)
    requires
        0 <= i < s.len(),
        0 <= k < f(s[i]).len(),
    ensures
        joined(s, f).contains(f(s[i])[k]),
    decreases s.len(),
{
    let front = joined(s.drop_last(), f);
    if i < s.len() - 1 {
        lemma_joined_holds(s.drop_last(), f, i, k);
        let j = choose|j: int| 0 <= j < front.len() && front[j] == f(s[i])[k];
        assert(joined(s, f)[j] == f(s[i])[k]);
    } else {
        assert(joined(s, f)[front.len() + k] == f(s[i])[k]);
    }
}

/// Nothing before the first position holds.
pub proof fn lemma_first_position_is_first<A>(s: Seq<A>, p: spec_fn(A) -> bool)
    ensures
        first_position(s, p) matches Some(i) ==> forall|j: int| 0 <= j < i ==> !p(#[trigger] s[j]),
        match first_position(s, p) {
            Some(i) => find_first(s, p) == Some(s[i]),
            None => find_first(s, p) is None,
        },
    decreases s.len(),
{
    if s.len() > 0 {
        let front = s.drop_last();
        lemma_first_position_is_first(front, p);
        lemma_first_position(front, p);
        if first_position(front, p) is Some {
            let i = first_position(front, p)->Some_0;
            assert(front[i] == s[i]);
            assert forall|j: int| 0 <= j < i implies !p(#[trigger] s[j]) by {
                assert(front[j] == s[j]);
            }
        } else {
            assert forall|j: int| 0 <= j < front.len() implies !p(#[trigger] s[j]) by {
                assert(front[j] == s[j]);
            }
        }
    }
}

} // verus!
