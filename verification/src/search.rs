//! The search resolver: it turns a keyword into the two forms that are sent to the
//! catalog, decides after each answer how to go on, and falls back on the closest name
//! of the offline corpus.

use crate::recipe::{entry_recipe, is_match, EntryView, MealCacheEntry, Recipe, RecipeView, Recipes};
use crate::text::{
    byte_len, byte_length, chars_of, white_space, joined, lowercased, to_lowercase,
    to_uppercase, trim, trimmed, uppercased,
};
use vstd::prelude::*;

verus! {

/// The words of `text`: its longest stretches without white space, in their order. A
/// character that is no white space continues the last word if its left neighbour is
/// none either, and starts a new word otherwise.
pub open spec fn words(text: Seq<char>) -> Seq<Seq<char>>
    decreases text.len(),
{
    if text.len() == 0 {
        Seq::empty()
    } else {
        let before = words(text.drop_last());
        if white_space(text.last()) {
            before
        } else if text.len() >= 2 && !white_space(text[text.len() - 2]) {
            before.drop_last().push(before.last().push(text.last()))
        } else {
            before.push(seq![text.last()])
        }
    }
}

/// `word` with its first character in upper case.
pub open spec fn capitalized(word: Seq<char>) -> Seq<char> {
    if word.len() == 0 {
        word
    } else {
        uppercased(word[0]) + word.skip(1)
    }
}

/// The words of `text`, each with its first character in upper case, and one space
/// between each two of them.
pub open spec fn capitalized_words(text: Seq<char>) -> Seq<char> {
    joined(words(text).map_values(|word: Seq<char>| capitalized(word)), " "@)
}

/// No word is empty, no word holds white space, and a text that ends in a character
/// that is no white space has a last word.
pub proof fn lemma_words_are_not_empty(text: Seq<char>)
    ensures
        forall|i: int| 0 <= i < words(text).len() ==> (#[trigger] words(text)[i]).len() > 0,
        forall|i: int, k: int|
            0 <= i < words(text).len() && 0 <= k < words(text)[i].len() ==> !white_space(
                #[trigger] words(text)[i][k],
            ),
        text.len() > 0 && !white_space(text.last()) ==> words(text).len() > 0,
    decreases text.len(),
{
    if text.len() > 0 {
        let rest = text.drop_last();
        let before = words(rest);
        lemma_words_are_not_empty(rest);
        if white_space(text.last()) {
        } else if text.len() >= 2 && !white_space(text[text.len() - 2]) {
            assert(rest.last() == text[text.len() - 2]);
            let after = before.drop_last().push(before.last().push(text.last()));
            assert forall|i: int| 0 <= i < after.len() implies (#[trigger] after[i]).len() > 0 by {
                if i < after.len() - 1 {
                    assert(after[i] == before[i]);
                }
            }
            assert forall|i: int, k: int| 0 <= i < after.len() && 0 <= k < after[i].len() implies !white_space(
                #[trigger] after[i][k],
            ) by {
                if i < after.len() - 1 {
                    assert(after[i] == before[i]);
                    assert(!white_space(before[i][k]));
                } else if k < before.last().len() {
                    assert(after[i][k] == before[before.len() - 1][k]);
                    assert(!white_space(before[before.len() - 1][k]));
                }
            }
        } else {
            let after = before.push(seq![text.last()]);
            assert forall|i: int, k: int| 0 <= i < after.len() && 0 <= k < after[i].len() implies !white_space(
                #[trigger] after[i][k],
            ) by {
                if i < before.len() {
                    assert(after[i] == before[i]);
                    assert(!white_space(before[i][k]));
                }
            }
        }
    }
}

proof fn lemma_capitalized_grows(text: Seq<char>)
    requires
        text.len() > 0,
    ensures
        white_space(text.last()) ==> capitalized_words(text) == capitalized_words(
            text.drop_last(),
        ),
        !white_space(text.last()) && text.len() >= 2 && !white_space(text[text.len() - 2])
            ==> capitalized_words(text) == capitalized_words(text.drop_last()).push(text.last()),
        !white_space(text.last()) && !(text.len() >= 2 && !white_space(text[text.len() - 2]))
            ==> capitalized_words(text) == if words(text.drop_last()).len() == 0 {
            uppercased(text.last())
        } else {
            capitalized_words(text.drop_last()) + " "@ + uppercased(text.last())
        },
{
    let rest = text.drop_last();
    let before = words(rest);
    let c = text.last();
    let cap = |word: Seq<char>| capitalized(word);
    lemma_words_are_not_empty(rest);
    if white_space(c) {
    } else if text.len() >= 2 && !white_space(text[text.len() - 2]) {
        assert(rest.last() == text[text.len() - 2]);
        let last = before.last();
        let after = before.drop_last().push(last.push(c));
        assert(words(text) == after);
        assert(capitalized(last.push(c)) =~= capitalized(last).push(c));
        assert(after.map_values(cap) =~= before.map_values(cap).drop_last().push(
            capitalized(last).push(c),
        ));
        let caps = before.map_values(cap);
        let grown = caps.drop_last().push(caps.last().push(c));
        assert(grown.drop_last() =~= caps.drop_last());
        assert(joined(grown, " "@) =~= joined(caps, " "@).push(c));
    } else {
        let after = before.push(seq![c]);
        assert(words(text) == after);
        assert(capitalized(seq![c]) =~= uppercased(c));
        assert(after.map_values(cap) =~= before.map_values(cap).push(uppercased(c)));
        let caps = before.map_values(cap);
        assert(caps.push(uppercased(c)).drop_last() =~= caps);
    }
}

/// Puts the first character of every word in upper case and one space between the words.
/// White space at either end is dropped.
pub fn capitalize_each_word(s: &str) -> (result: String)
    ensures
        result@ == capitalized_words(s@),
{
    let chars = chars_of(s);
    let mut result = String::new();
    let mut in_word = false;
    let mut any_word = false;
    let mut i: usize = 0;
    assert(s@.take(0) =~= Seq::<char>::empty());
    while i < chars.len()
        invariant
            i <= chars.len(),
            chars@ == s@,
            result@ == capitalized_words(s@.take(i as int)),
            in_word == (i > 0 && !white_space(s@[i - 1])),
            any_word == (words(s@.take(i as int)).len() > 0),
        decreases chars.len() - i,
    {
        let c = chars[i];
        proof {
            let next = s@.take(i as int + 1);
            assert(next.drop_last() =~= s@.take(i as int));
            assert(next.last() == c);
            if i > 0 {
                assert(next[next.len() - 2] == s@[i - 1]);
            }
            lemma_capitalized_grows(next);
            lemma_words_are_not_empty(next);
        }
        if c.is_whitespace() {
            in_word = false;
        } else if in_word {
            result.push(c);
        } else {
            if any_word {
                result.append(" ");
            }
            let upper = to_uppercase(c);
            result.append(upper.as_str());
            in_word = true;
            any_word = true;
        }
        i = i + 1;
    }
    assert(s@.take(chars.len() as int) =~= s@);
    result
}

/// The keyword in the three forms that the search uses.
#[derive(Debug)]
pub struct Query {
    /// The keyword without the white space around it.
    pub original: String,
    /// The original in lower case; it is sent first, and the corpus is measured by it.
    pub lowercase: String,
    /// The lower case with the first character of every word in upper case.
    pub capitalized: String,
}

/// The texts of a `Query`.
pub ghost struct QueryView {
    pub original: Seq<char>,
    pub lowercase: Seq<char>,
    pub capitalized: Seq<char>,
}

impl View for Query {
    type V = QueryView;

    open spec fn view(&self) -> QueryView {
        QueryView {
            original: self.original@,
            lowercase: self.lowercase@,
            capitalized: self.capitalized@,
        }
    }
}

/// The three forms of `keyword`.
pub open spec fn query_of(keyword: Seq<char>) -> QueryView {
    QueryView {
        original: trimmed(keyword),
        lowercase: lowercased(trimmed(keyword)),
        capitalized: capitalized_words(lowercased(trimmed(keyword))),
    }
}

impl Query {
    /// Derives the three forms from the keyword as it was typed.
    pub fn new(keyword: &str) -> (query: Query)
        ensures
            query@ == query_of(keyword@),
    {
        let original = trim(keyword);
        let lowercase = to_lowercase(original);
        let capitalized = capitalize_each_word(lowercase.as_str());
        Query { original: String::from_str(original), lowercase, capitalized }
    }
}

/// The least number of insertions, deletions and substitutions of single characters
/// that turn `a` into `b`.
pub open spec fn edit_distance(a: Seq<char>, b: Seq<char>) -> nat
    decreases a.len() + b.len(),
{
    if a.len() == 0 {
        b.len()
    } else if b.len() == 0 {
        a.len()
    } else {
        let deleted = edit_distance(a.drop_last(), b) + 1;
        let inserted = edit_distance(a, b.drop_last()) + 1;
        let replaced = edit_distance(a.drop_last(), b.drop_last()) + if a.last() == b.last() {
            0nat
        } else {
            1nat
        };
        if deleted <= inserted && deleted <= replaced {
            deleted
        } else if inserted <= replaced {
            inserted
        } else {
            replaced
        }
    }
}

/// The edit distance lies between the difference of the two lengths and the greater of
/// them.
pub proof fn lemma_edit_distance_bounds(a: Seq<char>, b: Seq<char>)
    ensures
        edit_distance(a, b) <= if a.len() >= b.len() {
            a.len()
        } else {
            b.len()
        },
        edit_distance(a, b) >= a.len() - b.len(),
        edit_distance(a, b) >= b.len() - a.len(),
    decreases a.len() + b.len(),
{
    if a.len() > 0 && b.len() > 0 {
        lemma_edit_distance_bounds(a.drop_last(), b);
        lemma_edit_distance_bounds(a, b.drop_last());
        lemma_edit_distance_bounds(a.drop_last(), b.drop_last());
    }
}

/// A text is at distance 0 from itself.
pub proof fn lemma_edit_distance_of_equals(a: Seq<char>)
    ensures
        edit_distance(a, a) == 0,
    decreases a.len(),
{
    if a.len() > 0 {
        lemma_edit_distance_of_equals(a.drop_last());
        lemma_edit_distance_bounds(a.drop_last(), a);
        lemma_edit_distance_bounds(a, a.drop_last());
    }
}

/// `strsim::levenshtein`: the number of insertions, deletions and substitutions of
/// single characters that it takes at least to turn `a` into `b`.
#[verifier::external_body]
pub(crate) fn levenshtein(a: &str, b: &str) -> (distance: usize)
    ensures
        distance == edit_distance(a@, b@),
{
    strsim::levenshtein(a, b)
}

/// How far a name may be from the query to be accepted: half the length in bytes of the
/// longer of the two.
pub open spec fn threshold(name: Seq<char>, query: Seq<char>) -> nat {
    if byte_len(name) >= byte_len(query) {
        byte_len(name) / 2
    } else {
        byte_len(query) / 2
    }
}

/// The distance of a name of the corpus from the query, which is given in lower case:
/// the edit distance of the name in lower case.
pub open spec fn distance(name: Seq<char>, query: Seq<char>) -> nat {
    edit_distance(lowercased(name), query)
}

/// A name as the selection sees it: its distance from the query and its threshold.
pub open spec fn measure(name: Seq<char>, query: Seq<char>) -> (nat, nat) {
    (distance(name, query), threshold(name, query))
}

/// The measures of the names of the corpus, in its order.
pub open spec fn measures(corpus: Seq<EntryView>, query: Seq<char>) -> Seq<(nat, nat)> {
    Seq::new(corpus.len(), |i: int| measure(corpus[i].name, query))
}

/// A candidate is accepted when its distance does not exceed its threshold.
pub open spec fn accepted(candidate: (nat, nat)) -> bool {
    candidate.0 <= candidate.1
}

/// The candidate at `i` is the one to select: it is accepted, no accepted candidate is
/// closer, and every accepted candidate before it is farther.
pub open spec fn is_closest(candidates: Seq<(nat, nat)>, i: int) -> bool {
    &&& 0 <= i < candidates.len()
    &&& accepted(candidates[i])
    &&& forall|j: int|
        0 <= j < candidates.len() && accepted(#[trigger] candidates[j]) ==> candidates[i].0
            <= candidates[j].0
    &&& forall|j: int| 0 <= j < i && accepted(#[trigger] candidates[j]) ==> candidates[i].0 < candidates[j].0
}

/// The place of the candidate to select, if any candidate is accepted.
pub open spec fn closest(candidates: Seq<(nat, nat)>) -> Option<int> {
    if exists|i: int| is_closest(candidates, i) {
        Some(choose|i: int| is_closest(candidates, i))
    } else {
        None
    }
}

/// The selection is determined: there are never two candidates to select.
pub proof fn lemma_closest_is_unique(candidates: Seq<(nat, nat)>, i: int, k: int)
    requires
        is_closest(candidates, i),
        is_closest(candidates, k),
    ensures
        i == k,
{
    if i < k {
        assert(accepted(candidates[i]));
    } else if k < i {
        assert(accepted(candidates[k]));
    }
}

/// A search through some candidates has ended rightly with `best`: that is the
/// candidate to select among them, or none of them is accepted.
pub open spec fn selects(candidates: Seq<(nat, nat)>, best: Option<int>) -> bool {
    match best {
        Some(i) => is_closest(candidates, i),
        None => forall|j: int| 0 <= j < candidates.len() ==> !accepted(#[trigger] candidates[j]),
    }
}

/// The best candidate once the one at `next` has been seen: that one if it is accepted
/// and closer than the best before it, and else the best before it.
pub open spec fn better(candidates: Seq<(nat, nat)>, best: Option<int>, next: int) -> Option<int> {
    if accepted(candidates[next]) && (best is None || candidates[next].0 < candidates[best->0].0) {
        Some(next)
    } else {
        best
    }
}

proof fn lemma_selection_grows(candidates: Seq<(nat, nat)>, seen: int, best: Option<int>)
    requires
        0 <= seen < candidates.len(),
        selects(candidates.take(seen), best),
    ensures
        selects(candidates.take(seen + 1), better(candidates, best, seen)),
{
    let before = candidates.take(seen);
    let after = candidates.take(seen + 1);
    assert forall|j: int| 0 <= j < seen implies before[j] == after[j] by {}
    assert(after[seen] == candidates[seen]);
    match better(candidates, best, seen) {
        Some(chosen) => {
            assert forall|j: int|
                0 <= j < after.len() && accepted(#[trigger] after[j]) implies after[chosen].0
                <= after[j].0 by {
                if j < seen {
                    assert(accepted(before[j]));
                }
            }
            assert forall|j: int| 0 <= j < chosen && accepted(#[trigger] after[j]) implies after[chosen].0
                < after[j].0 by {
                assert(accepted(before[j]));
            }
        },
        None => {
            assert forall|j: int| 0 <= j < after.len() implies !accepted(#[trigger] after[j]) by {
                if j < seen {
                    assert(!accepted(before[j]));
                }
            }
        },
    }
}

proof fn lemma_selection_exists(candidates: Seq<(nat, nat)>, seen: int) -> (best: Option<int>)
    requires
        0 <= seen <= candidates.len(),
    ensures
        selects(candidates.take(seen), best),
    decreases seen,
{
    if seen == 0 {
        None
    } else {
        let before = lemma_selection_exists(candidates, seen - 1);
        lemma_selection_grows(candidates, seen - 1, before);
        better(candidates, before, seen - 1)
    }
}

/// What `closest` selects is the candidate to select, and it selects one whenever a
/// candidate is accepted.
pub proof fn lemma_closest_is_accepted(candidates: Seq<(nat, nat)>)
    ensures
        selects(candidates, closest(candidates)),
{
    let best = lemma_selection_exists(candidates, candidates.len() as int);
    assert(candidates.take(candidates.len() as int) =~= candidates);
    if best is None && closest(candidates) is Some {
        assert(accepted(candidates[closest(candidates)->0]));
    }
}

/// The measures of candidates that are given as machine integers.
pub open spec fn measured(candidates: Seq<(usize, usize)>) -> Seq<(nat, nat)> {
    Seq::new(candidates.len(), |i: int| (candidates[i].0 as nat, candidates[i].1 as nat))
}

/// The place of a candidate as a mathematical integer.
pub open spec fn place(found: Option<usize>) -> Option<int> {
    match found {
        Some(i) => Some(i as int),
        None => None,
    }
}

/// Selects among candidates that are given by distance and threshold: the closest of
/// those whose distance does not exceed their threshold, and the first of several that
/// are equally close.
pub fn pick_closest(candidates: &Vec<(usize, usize)>) -> (found: Option<usize>)
    ensures
        place(found) == closest(measured(candidates@)),
{
    let ghost all = measured(candidates@);
    let mut found: Option<usize> = None;
    let mut i: usize = 0;
    while i < candidates.len()
        invariant
            i <= candidates.len(),
            all == measured(candidates@),
            found matches Some(best) ==> best < i,
            selects(all.take(i as int), place(found)),
        decreases candidates.len() - i,
    {
        let candidate = candidates[i];
        proof {
            lemma_selection_grows(all, i as int, place(found));
        }
        if candidate.0 <= candidate.1 {
            let closer = match found {
                Some(best) => candidate.0 < candidates[best].0,
                None => true,
            };
            if closer {
                found = Some(i);
            }
        }
        i = i + 1;
    }
    proof {
        assert(all.take(candidates.len() as int) =~= all);
        lemma_closest_is_accepted(all);
        match found {
            Some(best) => {
                lemma_closest_is_unique(all, best as int, closest(all)->0);
            },
            None => {
                if closest(all) is Some {
                    assert(accepted(all[closest(all)->0]));
                }
            },
        }
    }
    found
}

/// The threshold of `name` for `query`.
pub fn threshold_of(name: &str, query: &str) -> (limit: usize)
    ensures
        limit == threshold(name@, query@),
{
    let of_name = byte_length(name);
    let of_query = byte_length(query);
    if of_name >= of_query {
        of_name / 2
    } else {
        of_query / 2
    }
}

/// The distance of `name` from `query`, which is given in lower case.
pub fn distance_of(name: &str, query: &str) -> (far: usize)
    ensures
        far == distance(name@, query@),
{
    let lower = to_lowercase(name);
    levenshtein(lower.as_str(), query)
}

/// Finds the entry of the corpus whose name is closest to `query`, among those within
/// their threshold; `query` is given in lower case.
pub fn closest_match(corpus: &Vec<MealCacheEntry>, query: &str) -> (found: Option<usize>)
    ensures
        place(found) == closest(measures(corpus.deep_view(), query@)),
{
    let mut candidates: Vec<(usize, usize)> = Vec::new();
    let mut i: usize = 0;
    while i < corpus.len()
        invariant
            i <= corpus.len(),
            candidates@.len() == i,
            forall|k: int|
                0 <= k < i ==> (#[trigger] candidates@[k]).0 == distance(corpus@[k].name@, query@)
                    && candidates@[k].1 == threshold(corpus@[k].name@, query@),
        decreases corpus.len() - i,
    {
        let name = corpus[i].name.as_str();
        candidates.push((distance_of(name, query), threshold_of(name, query)));
        i = i + 1;
    }
    assert(measured(candidates@) =~= measures(corpus.deep_view(), query@));
    pick_closest(&candidates)
}

/// The search whose answer is awaited.
#[derive(Clone, Copy, Debug, PartialEq, Eq, Structural)]
pub enum Stage {
    /// The search for the keyword in lower case.
    Exact,
    /// The search for the keyword with capitalized words.
    Capitalized,
}

/// The catalog could not be asked, or its answer could not be read.
#[derive(Debug)]
pub struct TransportError {
    pub message: String,
}

/// A search that found something, and how it found it.
#[derive(Debug)]
pub enum Resolution {
    /// The catalog knows the keyword; these are its recipes.
    Exact { recipes: Vec<Recipe> },
    /// The catalog does not know the keyword; the corpus has a recipe of a similar name.
    Substituted { original_query: String, name: String, recipes: Vec<Recipe> },
}

/// What a `Resolution` holds.
pub ghost enum ResolutionView {
    Exact { recipes: Seq<RecipeView> },
    Substituted { original_query: Seq<char>, name: Seq<char>, recipes: Seq<RecipeView> },
}

impl View for Resolution {
    type V = ResolutionView;

    open spec fn view(&self) -> ResolutionView {
        match self {
            Resolution::Exact { recipes } => ResolutionView::Exact { recipes: recipes.deep_view() },
            Resolution::Substituted { original_query, name, recipes } => ResolutionView::Substituted {
                original_query: original_query@,
                name: name@,
                recipes: recipes.deep_view(),
            },
        }
    }
}

/// A search that found nothing.
#[derive(Debug)]
pub enum SearchFailure {
    /// Neither the catalog nor the corpus has anything for the query that is named.
    NotFound(String),
}

/// What a `SearchFailure` holds.
pub ghost enum FailureView {
    NotFound(Seq<char>),
}

impl View for SearchFailure {
    type V = FailureView;

    open spec fn view(&self) -> FailureView {
        match self {
            SearchFailure::NotFound(query) => FailureView::NotFound(query@),
        }
    }
}

/// A search in progress: the query and the search whose answer is awaited.
#[derive(Debug)]
pub struct Resolver {
    pub query: Query,
    pub stage: Stage,
}

/// What is to be done next.
#[derive(Debug)]
pub enum Step {
    /// Ask the catalog for `keyword`, and hand its answer to `resolver`.
    Ask { resolver: Resolver, keyword: String },
    /// Both searches went without a match: consult the corpus for `query`, with
    /// `fallback`.
    Consult { query: Query },
    /// The catalog had a match, and the search is over.
    Done(Resolution),
}

/// What a `Step` holds.
pub ghost enum StepView {
    Ask { query: QueryView, stage: Stage, keyword: Seq<char> },
    Consult { query: QueryView },
    Done(ResolutionView),
}

/// What the outcome of a search holds.
pub open spec fn outcome_view(outcome: Result<Resolution, SearchFailure>) -> Result<
    ResolutionView,
    FailureView,
> {
    match outcome {
        Ok(resolution) => Ok(resolution@),
        Err(failure) => Err(failure@),
    }
}

impl View for Step {
    type V = StepView;

    open spec fn view(&self) -> StepView {
        match self {
            Step::Ask { resolver, keyword } => StepView::Ask {
                query: resolver.query@,
                stage: resolver.stage,
                keyword: keyword@,
            },
            Step::Consult { query } => StepView::Consult { query: query@ },
            Step::Done(resolution) => StepView::Done(resolution@),
        }
    }
}

/// The recipes of an answer that counts as a match: the catalog answered, and with at
/// least one recipe. A failure of the transport is no match.
pub open spec fn matched(answer: Result<Recipes, TransportError>) -> Option<Seq<RecipeView>> {
    match answer {
        Ok(recipes) => if is_match(recipes@) {
            recipes@
        } else {
            None
        },
        Err(_) => None,
    }
}

/// The outcome of the approximate search: the entry of the corpus that is selected for
/// the query in lower case, as a single recipe, or the failure that names the query as
/// it was typed.
pub open spec fn fallback_outcome(query: QueryView, corpus: Seq<EntryView>) -> Result<
    ResolutionView,
    FailureView,
> {
    match closest(measures(corpus, query.lowercase)) {
        Some(i) => Ok(
            ResolutionView::Substituted {
                original_query: query.original,
                name: corpus[i].name,
                recipes: seq![entry_recipe(corpus[i])],
            },
        ),
        None => Err(FailureView::NotFound(query.original)),
    }
}

/// The first step of a search: the catalog is asked for the keyword in lower case.
pub open spec fn first_step(keyword: Seq<char>) -> StepView {
    StepView::Ask {
        query: query_of(keyword),
        stage: Stage::Exact,
        keyword: query_of(keyword).lowercase,
    }
}

/// The step after an answer. A match ends the search with the recipes of the answer.
/// Without one the capitalized keyword is tried after the first search, and the corpus
/// is to be consulted after the second.
pub open spec fn next_step(query: QueryView, stage: Stage, found: Option<Seq<RecipeView>>) -> StepView {
    match found {
        Some(recipes) => StepView::Done(ResolutionView::Exact { recipes }),
        None => match stage {
            Stage::Exact => StepView::Ask {
                query,
                stage: Stage::Capitalized,
                keyword: query.capitalized,
            },
            Stage::Capitalized => StepView::Consult { query },
        },
    }
}

/// The outcome of a whole search, given what the catalog found for the keyword in lower
/// case and what it found, or would have found, for the capitalized keyword: the first
/// match, and without a match the outcome of the approximate search in the corpus.
pub open spec fn resolved(
    query: QueryView,
    first: Option<Seq<RecipeView>>,
    second: Option<Seq<RecipeView>>,
    corpus: Seq<EntryView>,
) -> Result<ResolutionView, FailureView> {
    match first {
        Some(recipes) => Ok(ResolutionView::Exact { recipes }),
        None => match second {
            Some(recipes) => Ok(ResolutionView::Exact { recipes }),
            None => fallback_outcome(query, corpus),
        },
    }
}

/// The approximate search in the corpus. It measures every name against the query in
/// lower case and substitutes the closest entry that is within its threshold.
pub fn fallback(query: &Query, corpus: &Vec<MealCacheEntry>) -> (outcome: Result<
    Resolution,
    SearchFailure,
>)
    ensures
        outcome_view(outcome) == fallback_outcome(query@, corpus.deep_view()),
{
    match closest_match(corpus, query.lowercase.as_str()) {
        Some(i) => {
            let entry = corpus[i].duplicate();
            let name = entry.name.clone();
            let mut recipes: Vec<Recipe> = Vec::new();
            recipes.push(entry.to_recipe());
            assert(recipes.deep_view() =~= seq![entry_recipe(corpus.deep_view()[i as int])]);
            Ok(Resolution::Substituted { original_query: query.original.clone(), name, recipes })
        },
        None => Err(SearchFailure::NotFound(query.original.clone())),
    }
}

impl Resolver {
    /// Begins the search for `keyword`: the first thing to do is to ask the catalog for
    /// the keyword in lower case.
    pub fn begin(keyword: &str) -> (step: Step)
        ensures
            step@ == first_step(keyword@),
    {
        let query = Query::new(keyword);
        let first = query.lowercase.clone();
        Step::Ask { resolver: Resolver { query, stage: Stage::Exact }, keyword: first }
    }

    /// Goes on after the catalog has answered the search that was awaited. The corpus has
    /// no part in this: it is asked for only when both searches have gone without a
    /// match.
    pub fn advance(self, answer: Result<Recipes, TransportError>) -> (step: Step)
        ensures
            step@ == next_step(self.query@, self.stage, matched(answer)),
    {
        match answer {
            Ok(recipes) => match recipes.meals {
                Some(meals) => {
                    if meals.len() > 0 {
                        return Step::Done(Resolution::Exact { recipes: meals });
                    }
                },
                None => {},
            },
            Err(_) => {},
        }
        match self.stage {
            Stage::Exact => {
                let second = self.query.capitalized.clone();
                Step::Ask {
                    resolver: Resolver { query: self.query, stage: Stage::Capitalized },
                    keyword: second,
                }
            },
            Stage::Capitalized => Step::Consult { query: self.query },
        }
    }
}

/// What the caller is told beside the report: nothing after a match, and after a
/// substitution that there was no match and which name was taken instead.
pub open spec fn advisory_lines(resolution: ResolutionView) -> Seq<Seq<char>> {
    match resolution {
        ResolutionView::Exact { .. } => Seq::empty(),
        ResolutionView::Substituted { original_query, name, .. } => seq![
            "\u{26a0}\u{fe0f}  No exact match found for \""@ + original_query + "\"."@,
            "\u{1f4a1} Did you mean: \""@ + name + "\"? Using cached data..."@,
        ],
    }
}

/// The recipes that a search found.
pub open spec fn found_recipes(resolution: ResolutionView) -> Seq<RecipeView> {
    match resolution {
        ResolutionView::Exact { recipes } => recipes,
        ResolutionView::Substituted { recipes, .. } => recipes,
    }
}

/// The message of a failed search, which names the query.
pub open spec fn failure_message(failure: FailureView) -> Seq<char> {
    match failure {
        FailureView::NotFound(query) => "\u{274c} No recipes or close matches found for \""@ + query
            + "\"."@,
    }
}

impl Resolution {
    /// The lines that tell the caller of a substitution.
    pub fn advisory(&self) -> (lines: Vec<String>)
        ensures
            lines.deep_view() == advisory_lines(self@),
    {
        let mut lines: Vec<String> = Vec::new();
        match self {
            Resolution::Exact { .. } => {
                assert(lines.deep_view() =~= advisory_lines(self@));
            },
            Resolution::Substituted { original_query, name, .. } => {
                let mut first = String::from_str("\u{26a0}\u{fe0f}  No exact match found for \"");
                first.append(original_query.as_str());
                first.append("\".");
                lines.push(first);
                let mut second = String::from_str("\u{1f4a1} Did you mean: \"");
                second.append(name.as_str());
                second.append("\"? Using cached data...");
                lines.push(second);
                assert(lines.deep_view() =~= advisory_lines(self@));
            },
        }
        lines
    }

    /// The recipes that were found.
    pub fn into_recipes(self) -> (recipes: Vec<Recipe>)
        ensures
            recipes.deep_view() == found_recipes(self@),
    {
        match self {
            Resolution::Exact { recipes } => recipes,
            Resolution::Substituted { recipes, .. } => recipes,
        }
    }
}

impl SearchFailure {
    /// The message for the caller.
    pub fn message(&self) -> (text: String)
        ensures
            text@ == failure_message(self@),
    {
        match self {
            SearchFailure::NotFound(query) => {
                let mut text = String::from_str("\u{274c} No recipes or close matches found for \"");
                text.append(query.as_str());
                text.append("\".");
                text
            },
        }
    }
}

/// A catalog answer with at least one recipe ends the search with just those recipes,
/// after the first search as after the second. The corpus is not consulted: the step is
/// never `Consult`, and the outcome of the whole search is the same for every corpus.
pub proof fn lemma_match_needs_no_corpus(
    query: QueryView,
    stage: Stage,
    recipes: Seq<RecipeView>,
    second: Option<Seq<RecipeView>>,
    corpus: Seq<EntryView>,
    other: Seq<EntryView>,
)
    ensures
        next_step(query, stage, Some(recipes)) == StepView::Done(
            ResolutionView::Exact { recipes },
        ),
        resolved(query, Some(recipes), second, corpus) == Ok::<ResolutionView, FailureView>(
            ResolutionView::Exact { recipes },
        ),
        resolved(query, None, Some(recipes), corpus) == Ok::<ResolutionView, FailureView>(
            ResolutionView::Exact { recipes },
        ),
        resolved(query, Some(recipes), second, corpus) == resolved(
            query,
            Some(recipes),
            second,
            other,
        ),
        resolved(query, None, Some(recipes), corpus) == resolved(
            query,
            None,
            Some(recipes),
            other,
        ),
{
}

/// Each search is made once at most, and the steps lead to the outcome of the whole
/// search: the answer to the first search ends it or asks for the capitalized keyword,
/// and the answer to the second ends it or sends the caller to the corpus.
pub proof fn lemma_steps_lead_to_the_outcome(
    query: QueryView,
    first: Option<Seq<RecipeView>>,
    second: Option<Seq<RecipeView>>,
    corpus: Seq<EntryView>,
)
    ensures
        match next_step(query, Stage::Exact, first) {
            StepView::Done(resolution) => resolved(query, first, second, corpus) == Ok::<
                ResolutionView,
                FailureView,
            >(resolution),
            StepView::Ask { query: asked, stage, keyword } => asked == query && stage
                == Stage::Capitalized && keyword == query.capitalized && match next_step(
                query,
                Stage::Capitalized,
                second,
            ) {
                StepView::Done(resolution) => resolved(query, first, second, corpus) == Ok::<
                    ResolutionView,
                    FailureView,
                >(resolution),
                StepView::Consult { query: consulted } => consulted == query && resolved(
                    query,
                    first,
                    second,
                    corpus,
                ) == fallback_outcome(query, corpus),
                StepView::Ask { .. } => false,
            },
            StepView::Consult { .. } => false,
        },
{
}

/// The approximate search never substitutes an entry whose name is farther from the
/// query than its threshold allows, it substitutes the entry that `closest` selects, and
/// it fails, naming the query as typed, exactly when no entry is within its threshold.
pub proof fn lemma_fallback_keeps_threshold(query: QueryView, corpus: Seq<EntryView>)
    ensures
        match fallback_outcome(query, corpus) {
            Ok(ResolutionView::Substituted { original_query, name, recipes }) => exists|i: int|
                0 <= i < corpus.len() && name == (#[trigger] corpus[i]).name && distance(
                    name,
                    query.lowercase,
                ) <= threshold(name, query.lowercase) && recipes == seq![entry_recipe(corpus[i])]
                    && original_query == query.original,
            Ok(ResolutionView::Exact { .. }) => false,
            Err(FailureView::NotFound(named)) => named == query.original && forall|i: int|
                0 <= i < corpus.len() ==> distance((#[trigger] corpus[i]).name, query.lowercase)
                    > threshold(corpus[i].name, query.lowercase),
        },
{
    let candidates = measures(corpus, query.lowercase);
    lemma_closest_is_accepted(candidates);
    match closest(candidates) {
        Some(i) => {
            assert(accepted(candidates[i]));
            assert(corpus[i].name == corpus[i].name);
        },
        None => {
            assert forall|i: int| 0 <= i < corpus.len() implies distance(
                (#[trigger] corpus[i]).name,
                query.lowercase,
            ) > threshold(corpus[i].name, query.lowercase) by {
                assert(!accepted(candidates[i]));
            }
        },
    }
}

} // verus!
