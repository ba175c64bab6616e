use vstd::prelude::*;
use vstd::string::*;
use regex::Regex;
use crate::pattern::{compile, compiled, find, leftmost_match};
use crate::error::{BrewError, BrewErrorView};
use crate::text::{lines_of, split_lines, texts};

verus! {

/// The expression matches somewhere in the line.
pub open spec fn accepts(re: Regex, line: Seq<char>) -> bool {
    leftmost_match(re, line) is Some
}

/// Every expression matches somewhere in the line.
pub open spec fn all_accept(res: Seq<Regex>, line: Seq<char>) -> bool {
    forall|i: int| 0 <= i < res.len() ==> accepts(#[trigger] res[i], line)
}

/// The lines that every expression accepts.
pub open spec fn accepted_by(res: Seq<Regex>) -> spec_fn(Seq<char>) -> bool {
    |line: Seq<char>| all_accept(res, line)
}

/// The pattern can be compiled.
pub open spec fn compiles(pattern: Seq<char>) -> bool {
    compiled(pattern) is Some
}

/// The keyword is a pattern that compiles and matches somewhere in the line.
pub open spec fn keyword_matches(keyword: Seq<char>, line: Seq<char>) -> bool {
    compiles(keyword) && accepts(compiled(keyword)->Some_0, line)
}

/// Every keyword matches somewhere in the line.
pub open spec fn matches_every(keywords: Seq<Seq<char>>, line: Seq<char>) -> bool {
    forall|i: int| 0 <= i < keywords.len() ==> keyword_matches(#[trigger] keywords[i], line)
}

/// The lines that every keyword matches.
pub open spec fn matched_by(keywords: Seq<Seq<char>>) -> spec_fn(Seq<char>) -> bool {
    |line: Seq<char>| matches_every(keywords, line)
}

/// The index of the first keyword that does not compile, or the number of
/// keywords where all of them do.
pub open spec fn first_invalid(keywords: Seq<Seq<char>>) -> int
    decreases keywords.len(),
{
    if keywords.len() == 0 || !compiles(keywords[0]) {
        0
    } else {
        1 + first_invalid(keywords.drop_first())
    }
}

/// Every keyword compiles.
pub open spec fn all_compile(keywords: Seq<Seq<char>>) -> bool {
    first_invalid(keywords) == keywords.len()
}

/// The expressions are those that the keywords compile to, one for one.
pub open spec fn compiled_from(res: Seq<Regex>, keywords: Seq<Seq<char>>) -> bool {
    &&& res.len() == keywords.len()
    &&& forall|i: int| 0 <= i < res.len() ==> compiled(#[trigger] keywords[i]) == Some(res[i])
}

/// `first_invalid` stays within the keywords and stops at one that does not
/// compile, with none before it.
pub proof fn lemma_first_invalid(keywords: Seq<Seq<char>>)
    ensures
        0 <= first_invalid(keywords) <= keywords.len(),
        first_invalid(keywords) < keywords.len() ==> !compiles(keywords[first_invalid(keywords)]),
        forall|j: int| 0 <= j < first_invalid(keywords) ==> compiles(#[trigger] keywords[j]),
    decreases keywords.len(),
{
    if keywords.len() == 0 || !compiles(keywords[0]) {
    } else {
        let rest = keywords.drop_first();
        lemma_first_invalid(rest);
        assert forall|j: int| 0 <= j < first_invalid(keywords) implies compiles(
            #[trigger] keywords[j],
        ) by {
            if j > 0 {
                assert(keywords[j] == rest[j - 1]);
            }
        }
    }
}

/// Two tests that agree on every item of a sequence keep the same items.
pub proof fn lemma_filter_agree<A>(s: Seq<A>, p: spec_fn(A) -> bool, q: spec_fn(A) -> bool)
    requires
        forall|i: int| 0 <= i < s.len() ==> p(#[trigger] s[i]) == q(s[i]),
    ensures
        s.filter(p) == s.filter(q),
    decreases s.len(),
{
    reveal(Seq::filter);
    if s.len() > 0 {
        let init = s.drop_last();
        assert forall|i: int| 0 <= i < init.len() implies p(#[trigger] init[i]) == q(init[i]) by {
            assert(init[i] == s[i]);
        }
        lemma_filter_agree(init, p, q);
        assert(p(s[s.len() - 1]) == q(s[s.len() - 1]));
    }
}

/// Compiles every keyword, in order, and stops at the first that is
/// refused.
pub fn compile_all(keywords: &Vec<String>) -> (r: Result<Vec<Regex>, BrewError>)
    ensures
        r is Ok <==> all_compile(keywords.deep_view()),
        r is Ok ==> compiled_from(r->Ok_0@, keywords.deep_view()),
        r is Err ==> r->Err_0@ == (BrewErrorView::InvalidFilterPattern {
            pattern: keywords.deep_view()[first_invalid(keywords.deep_view())],
        }),
{
    let ghost kws = keywords.deep_view();
    let mut res: Vec<Regex> = Vec::new();
    let n: usize = keywords.len();
    let mut i: usize = 0;
    proof {
        lemma_first_invalid(kws);
    }
    while i < n
        invariant
            n == keywords@.len(),
            kws == keywords.deep_view(),
            i <= n,
            i <= first_invalid(kws),
            res@.len() == i,
            forall|j: int| 0 <= j < i ==> compiled(#[trigger] kws[j]) == Some(res@[j]),
        decreases n - i,
    {
        proof {
            lemma_first_invalid(kws);
            assert(kws[i as int] == keywords@[i as int]@);
        }
        match compile(keywords[i].as_str()) {
            Ok(re) => {
                res.push(re);
            },
            Err(_) => {
                return Err(BrewError::InvalidFilterPattern { pattern: keywords[i].clone() });
            },
        }
        i = i + 1;
    }
    proof {
        lemma_first_invalid(kws);
    }
    Ok(res)
}

/// Whether every expression matches somewhere in the line.
pub fn accepts_all(res: &Vec<Regex>, line: &str) -> (yes: bool)
    ensures
        yes == all_accept(res@, line@),
{
    let n: usize = res.len();
    let mut i: usize = 0;
    while i < n
        invariant
            n == res@.len(),
            i <= n,
            forall|j: int| 0 <= j < i ==> accepts(#[trigger] res@[j], line@),
        decreases n - i,
    {
        if find(&res[i], line).is_none() {
            return false;
        }
        i = i + 1;
    }
    true
}

/// The lines of `text` that every expression of `res` matches, in the
/// order in which they stand in `text`.
pub fn keep_accepted(text: &str, res: &Vec<Regex>) -> (out: Vec<String>)
    ensures
        out.deep_view() == lines_of(text@).filter(accepted_by(res@)),
{
    let lines = split_lines(text);
    let ghost all = lines_of(text@);
    let ghost keep = accepted_by(res@);
    let mut out: Vec<String> = Vec::new();
    let n: usize = lines.len();
    let mut i: usize = 0;
    proof {
        reveal(Seq::filter);
        assert(all.take(0).filter(keep) =~= Seq::<Seq<char>>::empty());
        assert(out.deep_view() =~= Seq::<Seq<char>>::empty());
    }
    while i < n
        invariant
            n == lines@.len(),
            i <= n,
            all == texts(lines@),
            keep == accepted_by(res@),
            out.deep_view() == all.take(i as int).filter(keep),
        decreases n - i,
    {
        let ghost held = out.deep_view();
        let line: &str = lines[i];
        let yes = accepts_all(res, line);
        if yes {
            out.push(line.to_owned());
            assert(out.deep_view() =~= held.push(line@));
        }
        proof {
            reveal(Seq::filter);
            let upto = all.take(i + 1);
            assert(upto.drop_last() =~= all.take(i as int));
            assert(upto.last() == line@);
            assert(keep(line@) == yes);
        }
        i = i + 1;
    }
    assert(all.take(n as int) =~= all);
    out
}

/// The lines of `text` that every keyword matches, in the order in which
/// they stand in `text`; with no keyword, every line. A keyword that does
/// not compile fails the call, with the first such keyword in the error.
pub fn filter_lines(text: &str, keywords: &Vec<String>) -> (r: Result<Vec<String>, BrewError>)
    ensures
        r is Ok <==> all_compile(keywords.deep_view()),
        r is Ok ==> r->Ok_0.deep_view() == lines_of(text@).filter(
            matched_by(keywords.deep_view()),
        ),
        r is Err ==> r->Err_0@ == (BrewErrorView::InvalidFilterPattern {
            pattern: keywords.deep_view()[first_invalid(keywords.deep_view())],
        }),
{
    match compile_all(keywords) {
        Ok(res) => {
            let out = keep_accepted(text, &res);
            proof {
                let kws = keywords.deep_view();
                let all = lines_of(text@);
                assert forall|i: int| 0 <= i < all.len() implies accepted_by(res@)(
                    #[trigger] all[i],
                ) == matched_by(kws)(all[i]) by {
                    lemma_same_test(res@, kws, all[i]);
                }
                lemma_filter_agree(all, accepted_by(res@), matched_by(kws));
            }
            Ok(out)
        },
        Err(e) => Err(e),
    }
}

/// Expressions compiled from keywords accept a line exactly when every
/// keyword matches it.
pub proof fn lemma_same_test(res: Seq<Regex>, keywords: Seq<Seq<char>>, line: Seq<char>)
    requires
        compiled_from(res, keywords),
    ensures
        all_accept(res, line) == matches_every(keywords, line),
{
    if all_accept(res, line) {
        assert forall|i: int| 0 <= i < keywords.len() implies keyword_matches(
            #[trigger] keywords[i],
            line,
        ) by {
            assert(accepts(res[i], line));
        }
    }
    if matches_every(keywords, line) {
        assert forall|i: int| 0 <= i < res.len() implies accepts(#[trigger] res[i], line) by {
            assert(keyword_matches(keywords[i], line));
        }
    }
}

} // verus!
